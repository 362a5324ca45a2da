use vstd::prelude::*;

verus! {

/// Bit pattern of the single-precision number `0.0`.
pub const F32_ZERO: u32 = 0x0000_0000;

/// Bit pattern of the single-precision number `0.5`.
pub const F32_HALF: u32 = 0x3F00_0000;

/// Bit pattern of the single-precision number `-0.5`.
pub const F32_NEG_HALF: u32 = 0xBF00_0000;

/// Bit pattern of the single-precision number `1.0`.
pub const F32_ONE: u32 = 0x3F80_0000;

/// Identity of a scene entity: a slot and the generation of its occupant.
#[derive(Clone, Copy, Debug, PartialEq, Eq, Hash, Structural)]
pub struct EntityId {
    pub index: u32,
    pub generation: u32,
}

impl EntityId {
    /// The entity as one 64-bit number: the generation in the upper half and
    /// the slot in the lower half.
    pub open spec fn spec_bits(self) -> u64 {
        (self.generation as int * 0x1_0000_0000 + self.index as int) as u64
    }

    /// Computes `spec_bits`.
    pub fn to_bits(&self) -> (bits: u64)
        ensures
            bits == self.spec_bits(),
            bits as int == self.generation as int * 0x1_0000_0000 + self.index as int,
    {
        (self.generation as u64) * 0x1_0000_0000 + (self.index as u64)
    }

    /// Distinct entities have distinct 64-bit numbers.
    pub proof fn lemma_bits_injective(a: EntityId, b: EntityId)
        ensures
            a.spec_bits() == b.spec_bits() <==> a == b,
    {
    }
}

/// A rectangle of texels as a sprite's author writes it.
#[derive(Clone, Copy, Debug, PartialEq, Eq, Structural)]
pub struct Rect {
    pub min_x: i32,
    pub min_y: i32,
    pub max_x: i32,
    pub max_y: i32,
}

/// A region of a texture atlas, in texels.
#[derive(Clone, Copy, Debug, PartialEq, Eq, Structural)]
pub struct URect {
    pub min_x: u32,
    pub min_y: u32,
    pub max_x: u32,
    pub max_y: u32,
}

/// A resolved source rectangle, in texels of the source texture.
#[derive(Clone, Copy, Debug, PartialEq, Eq, Structural)]
pub struct TexelRect {
    pub min_x: i64,
    pub min_y: i64,
    pub max_x: i64,
    pub max_y: i64,
}

impl TexelRect {
    /// The rectangle `rect`, unchanged.
    pub open spec fn spec_from_rect(rect: Rect) -> TexelRect {
        TexelRect {
            min_x: rect.min_x as i64,
            min_y: rect.min_y as i64,
            max_x: rect.max_x as i64,
            max_y: rect.max_y as i64,
        }
    }

    /// The atlas region `region`, unchanged.
    pub open spec fn spec_from_region(region: URect) -> TexelRect {
        TexelRect {
            min_x: region.min_x as i64,
            min_y: region.min_y as i64,
            max_x: region.max_x as i64,
            max_y: region.max_y as i64,
        }
    }

    /// The rectangle `rect` moved by the origin of the atlas region `region`.
    pub open spec fn spec_within_region(region: URect, rect: Rect) -> TexelRect {
        TexelRect {
            min_x: (rect.min_x + region.min_x) as i64,
            min_y: (rect.min_y + region.min_y) as i64,
            max_x: (rect.max_x + region.min_x) as i64,
            max_y: (rect.max_y + region.min_y) as i64,
        }
    }

    /// Computes `spec_from_rect`.
    pub fn from_rect(rect: Rect) -> (r: TexelRect)
        ensures
            r == Self::spec_from_rect(rect),
    {
        TexelRect {
            min_x: rect.min_x as i64,
            min_y: rect.min_y as i64,
            max_x: rect.max_x as i64,
            max_y: rect.max_y as i64,
        }
    }

    /// Computes `spec_from_region`.
    pub fn from_region(region: URect) -> (r: TexelRect)
        ensures
            r == Self::spec_from_region(region),
    {
        TexelRect {
            min_x: region.min_x as i64,
            min_y: region.min_y as i64,
            max_x: region.max_x as i64,
            max_y: region.max_y as i64,
        }
    }

    /// Computes `spec_within_region`.
    pub fn within_region(region: URect, rect: Rect) -> (r: TexelRect)
        ensures
            r == Self::spec_within_region(region, rect),
            r.min_x == rect.min_x + region.min_x,
            r.min_y == rect.min_y + region.min_y,
            r.max_x == rect.max_x + region.min_x,
            r.max_y == rect.max_y + region.min_y,
    {
        TexelRect {
            min_x: rect.min_x as i64 + region.min_x as i64,
            min_y: rect.min_y as i64 + region.min_y as i64,
            max_x: rect.max_x as i64 + region.min_x as i64,
            max_y: rect.max_y as i64 + region.min_y as i64,
        }
    }

    /// Horizontal extent, `max_x - min_x`.
    pub fn width(&self) -> (w: i128)
        ensures
            w == self.max_x - self.min_x,
    {
        self.max_x as i128 - self.min_x as i128
    }

    /// Vertical extent, `max_y - min_y`.
    pub fn height(&self) -> (h: i128)
        ensures
            h == self.max_y - self.min_y,
    {
        self.max_y as i128 - self.min_y as i128
    }
}

/// A two-component vector of single-precision bit patterns.
#[derive(Clone, Copy, Debug, PartialEq, Eq, Structural)]
pub struct Vec2 {
    pub x: u32,
    pub y: u32,
}

/// The point of a quad that lands on its entity's transform origin, in units
/// of the quad's size and relative to the quad's centre.
#[derive(Clone, Copy, Debug, PartialEq, Eq, Structural)]
pub enum Anchor {
    Center,
    BottomLeft,
    BottomCenter,
    BottomRight,
    CenterLeft,
    CenterRight,
    TopLeft,
    TopCenter,
    TopRight,
    /// Any other point; the two components are single-precision bit patterns.
    Custom { x: u32, y: u32 },
}

impl Anchor {
    /// The anchor as a normalized vector: each named anchor has components among `-0.5`, `0.0` and
    /// `0.5`, with x growing to the right and y growing upwards.
    pub open spec fn spec_as_vec(self) -> Vec2 {
        match self {
            Anchor::Center => Vec2 { x: F32_ZERO, y: F32_ZERO },
            Anchor::BottomLeft => Vec2 { x: F32_NEG_HALF, y: F32_NEG_HALF },
            Anchor::BottomCenter => Vec2 { x: F32_ZERO, y: F32_NEG_HALF },
            Anchor::BottomRight => Vec2 { x: F32_HALF, y: F32_NEG_HALF },
            Anchor::CenterLeft => Vec2 { x: F32_NEG_HALF, y: F32_ZERO },
            Anchor::CenterRight => Vec2 { x: F32_HALF, y: F32_ZERO },
            Anchor::TopLeft => Vec2 { x: F32_NEG_HALF, y: F32_HALF },
            Anchor::TopCenter => Vec2 { x: F32_ZERO, y: F32_HALF },
            Anchor::TopRight => Vec2 { x: F32_HALF, y: F32_HALF },
            Anchor::Custom { x, y } => Vec2 { x, y },
        }
    }

    /// Computes `spec_as_vec`.
    pub fn as_vec(&self) -> (v: Vec2)
        ensures
            v == self.spec_as_vec(),
    {
        match *self {
            Anchor::Center => Vec2 { x: F32_ZERO, y: F32_ZERO },
            Anchor::BottomLeft => Vec2 { x: F32_NEG_HALF, y: F32_NEG_HALF },
            Anchor::BottomCenter => Vec2 { x: F32_ZERO, y: F32_NEG_HALF },
            Anchor::BottomRight => Vec2 { x: F32_HALF, y: F32_NEG_HALF },
            Anchor::CenterLeft => Vec2 { x: F32_NEG_HALF, y: F32_ZERO },
            Anchor::CenterRight => Vec2 { x: F32_HALF, y: F32_ZERO },
            Anchor::TopLeft => Vec2 { x: F32_NEG_HALF, y: F32_HALF },
            Anchor::TopCenter => Vec2 { x: F32_ZERO, y: F32_HALF },
            Anchor::TopRight => Vec2 { x: F32_HALF, y: F32_HALF },
            Anchor::Custom { x, y } => Vec2 { x, y },
        }
    }
}

/// A linear RGBA colour; each channel is a single-precision bit pattern.
#[derive(Clone, Copy, Debug, PartialEq, Eq, Structural)]
pub struct LinearRgba {
    pub red: u32,
    pub green: u32,
    pub blue: u32,
    pub alpha: u32,
}

impl LinearRgba {
    /// Opaque white.
    pub open spec fn spec_white() -> LinearRgba {
        LinearRgba { red: F32_ONE, green: F32_ONE, blue: F32_ONE, alpha: F32_ONE }
    }

    /// Opaque black.
    pub open spec fn spec_black() -> LinearRgba {
        LinearRgba { red: F32_ZERO, green: F32_ZERO, blue: F32_ZERO, alpha: F32_ONE }
    }

    /// Computes `spec_white`.
    pub fn white() -> (c: LinearRgba)
        ensures
            c == Self::spec_white(),
    {
        LinearRgba { red: F32_ONE, green: F32_ONE, blue: F32_ONE, alpha: F32_ONE }
    }

    /// Computes `spec_black`.
    pub fn black() -> (c: LinearRgba)
        ensures
            c == Self::spec_black(),
    {
        LinearRgba { red: F32_ZERO, green: F32_ZERO, blue: F32_ZERO, alpha: F32_ONE }
    }
}

/// A three-component vector of single-precision bit patterns.
#[derive(Clone, Copy, Debug, PartialEq, Eq, Structural)]
pub struct Vec3 {
    pub x: u32,
    pub y: u32,
    pub z: u32,
}

/// A resolved world transform: the three columns of a 3x3 matrix followed by
/// a translation, every component a single-precision bit pattern.
///
/// The renderer never looks inside a transform except to read the depth of
/// its translation.
#[derive(Clone, Copy, Debug, PartialEq, Eq, Structural)]
pub struct GlobalTransform {
    pub x_axis: Vec3,
    pub y_axis: Vec3,
    pub z_axis: Vec3,
    pub translation: Vec3,
}

/// The authored appearance of one tile sprite.
#[derive(Clone, Copy, Debug, PartialEq, Eq, Structural)]
pub struct TextModeSprite {
    /// Tint of the background layer.
    pub bg: LinearRgba,
    /// Tint of the foreground layer.
    pub fg: LinearRgba,
    /// Blend alpha, a single-precision bit pattern.
    pub alpha: u32,
    pub flip_x: bool,
    pub flip_y: bool,
    /// Number of quarter turns.
    pub rotation: u8,
    /// Draw size that overrides the size of the source rectangle.
    pub custom_size: Option<Vec2>,
    /// Source rectangle that overrides the whole texture.
    pub rect: Option<Rect>,
    pub anchor: Anchor,
}

impl TextModeSprite {
    /// A white background under a black foreground, fully opaque, neither
    /// flipped nor turned, drawn at the texture's own size about its centre.
    pub open spec fn spec_default() -> TextModeSprite {
        TextModeSprite {
            bg: LinearRgba::spec_white(),
            fg: LinearRgba::spec_black(),
            alpha: F32_ONE,
            flip_x: false,
            flip_y: false,
            rotation: 0,
            custom_size: None,
            rect: None,
            anchor: Anchor::Center,
        }
    }
}

impl Default for TextModeSprite {
    fn default() -> (sprite: TextModeSprite)
        ensures
            sprite == TextModeSprite::spec_default(),
    {
        TextModeSprite {
            bg: LinearRgba::white(),
            fg: LinearRgba::black(),
            alpha: F32_ONE,
            flip_x: false,
            flip_y: false,
            rotation: 0,
            custom_size: None,
            rect: None,
            anchor: Anchor::Center,
        }
    }
}

} // verus!

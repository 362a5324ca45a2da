use crate::extract::TextModeExtractedSprite;
use crate::image::ImageSize;
use crate::sprite::{GlobalTransform, LinearRgba, TexelRect, Vec2, Vec3, F32_ZERO};
use vstd::prelude::*;

verus! {

/// Number of 32-bit words in one packed instance record.
pub const INSTANCE_WORDS: usize = 28;

/// Number of bytes in one packed instance record.
pub const INSTANCE_STRIDE: u64 = 112;

/// Where the quad of a sprite samples its texture.
///
/// Along each axis the quad runs from a start coordinate to an end
/// coordinate, both counted in texels and both to be divided by the
/// denominator of that axis. The offset of the mapping is the start, its
/// scale is the end minus the start; a flip exchanges start and end.
#[derive(Clone, Copy, Debug, PartialEq, Eq, Structural)]
pub struct UvOffsetScale {
    pub u_start: i64,
    pub u_end: i64,
    pub v_start: i64,
    pub v_end: i64,
    /// Denominator of the horizontal coordinates.
    pub denom_x: u32,
    /// Denominator of the vertical coordinates.
    pub denom_y: u32,
}

impl UvOffsetScale {
    /// Numerator of the horizontal offset.
    pub open spec fn spec_offset_x(self) -> int {
        self.u_start as int
    }

    /// Numerator of the vertical offset.
    pub open spec fn spec_offset_y(self) -> int {
        self.v_start as int
    }

    /// Numerator of the horizontal scale.
    pub open spec fn spec_scale_x(self) -> int {
        self.u_end - self.u_start
    }

    /// Numerator of the vertical scale.
    pub open spec fn spec_scale_y(self) -> int {
        self.v_end - self.v_start
    }

    /// Computes `spec_offset_x`.
    pub fn offset_x(&self) -> (n: i64)
        ensures
            n == self.spec_offset_x(),
    {
        self.u_start
    }

    /// Computes `spec_offset_y`.
    pub fn offset_y(&self) -> (n: i64)
        ensures
            n == self.spec_offset_y(),
    {
        self.v_start
    }

    /// Computes `spec_scale_x`.
    pub fn scale_x(&self) -> (n: i128)
        ensures
            n == self.spec_scale_x(),
    {
        self.u_end as i128 - self.u_start as i128
    }

    /// Computes `spec_scale_y`.
    pub fn scale_y(&self) -> (n: i128)
        ensures
            n == self.spec_scale_y(),
    {
        self.v_end as i128 - self.v_start as i128
    }

    /// The whole texture: offset `(0, 1)` and scale `(1, -1)`, so that the
    /// image's top-left origin becomes the origin of the mapping.
    pub open spec fn spec_full() -> UvOffsetScale {
        UvOffsetScale { u_start: 0, u_end: 1, v_start: 1, v_end: 0, denom_x: 1, denom_y: 1 }
    }

    /// The rectangle `rect` of a texture of `image` texels: the offset is the
    /// rectangle's left edge and its bottom edge, the scale is its width and
    /// its negated height, all over the texture's dimensions.
    pub open spec fn spec_from_rect(rect: TexelRect, image: ImageSize) -> UvOffsetScale {
        UvOffsetScale {
            u_start: rect.min_x,
            u_end: rect.max_x,
            v_start: rect.max_y,
            v_end: rect.min_y,
            denom_x: image.width,
            denom_y: image.height,
        }
    }

    /// The mapping mirrored horizontally: the offset moves by the scale and
    /// the scale changes sign.
    pub open spec fn spec_flip_x(self) -> UvOffsetScale {
        UvOffsetScale { u_start: self.u_end, u_end: self.u_start, ..self }
    }

    /// The mapping mirrored vertically: the offset moves by the scale and the
    /// scale changes sign.
    pub open spec fn spec_flip_y(self) -> UvOffsetScale {
        UvOffsetScale { v_start: self.v_end, v_end: self.v_start, ..self }
    }

    /// The mapping of a sprite: its rectangle, or the whole texture where it
    /// has none, then mirrored as its flip flags say.
    pub open spec fn spec_resolve(
        rect: Option<TexelRect>,
        image: ImageSize,
        flip_x: bool,
        flip_y: bool,
    ) -> UvOffsetScale {
        let base = match rect {
            Some(r) => Self::spec_from_rect(r, image),
            None => Self::spec_full(),
        };
        let flipped = if flip_x {
            base.spec_flip_x()
        } else {
            base
        };
        if flip_y {
            flipped.spec_flip_y()
        } else {
            flipped
        }
    }

    /// Computes `spec_full`.
    pub fn full() -> (uv: UvOffsetScale)
        ensures
            uv == Self::spec_full(),
            uv.spec_offset_x() == 0,
            uv.spec_offset_y() == 1,
            uv.spec_scale_x() == 1,
            uv.spec_scale_y() == -1,
            uv.denom_x == 1,
            uv.denom_y == 1,
    {
        UvOffsetScale { u_start: 0, u_end: 1, v_start: 1, v_end: 0, denom_x: 1, denom_y: 1 }
    }

    /// Computes `spec_from_rect`.
    pub fn from_rect(rect: TexelRect, image: ImageSize) -> (uv: UvOffsetScale)
        ensures
            uv == Self::spec_from_rect(rect, image),
            uv.spec_offset_x() == rect.min_x,
            uv.spec_offset_y() == rect.max_y,
            uv.spec_scale_x() == rect.max_x - rect.min_x,
            uv.spec_scale_y() == -(rect.max_y - rect.min_y),
            uv.denom_x == image.width,
            uv.denom_y == image.height,
    {
        UvOffsetScale {
            u_start: rect.min_x,
            u_end: rect.max_x,
            v_start: rect.max_y,
            v_end: rect.min_y,
            denom_x: image.width,
            denom_y: image.height,
        }
    }

    /// Computes `spec_flip_x`.
    pub fn flip_x(self) -> (uv: UvOffsetScale)
        ensures
            uv == self.spec_flip_x(),
            uv.spec_offset_x() == self.spec_offset_x() + self.spec_scale_x(),
            uv.spec_scale_x() == -self.spec_scale_x(),
            uv.spec_offset_y() == self.spec_offset_y(),
            uv.spec_scale_y() == self.spec_scale_y(),
            uv.denom_x == self.denom_x,
            uv.denom_y == self.denom_y,
    {
        UvOffsetScale { u_start: self.u_end, u_end: self.u_start, ..self }
    }

    /// Computes `spec_flip_y`.
    pub fn flip_y(self) -> (uv: UvOffsetScale)
        ensures
            uv == self.spec_flip_y(),
            uv.spec_offset_y() == self.spec_offset_y() + self.spec_scale_y(),
            uv.spec_scale_y() == -self.spec_scale_y(),
            uv.spec_offset_x() == self.spec_offset_x(),
            uv.spec_scale_x() == self.spec_scale_x(),
            uv.denom_x == self.denom_x,
            uv.denom_y == self.denom_y,
    {
        UvOffsetScale { v_start: self.v_end, v_end: self.v_start, ..self }
    }

    /// Computes `spec_resolve`.
    pub fn resolve(rect: Option<TexelRect>, image: ImageSize, flip_x: bool, flip_y: bool) -> (uv:
        UvOffsetScale)
        ensures
            uv == Self::spec_resolve(rect, image, flip_x, flip_y),
    {
        let mut uv = match rect {
            Some(r) => Self::from_rect(r, image),
            None => Self::full(),
        };
        if flip_x {
            uv = uv.flip_x();
        }
        if flip_y {
            uv = uv.flip_y();
        }
        uv
    }

    /// Mirroring twice along one axis restores the mapping, and the two
    /// mirrorings commute.
    pub proof fn lemma_flip_involution(uv: UvOffsetScale)
        ensures
            uv.spec_flip_x().spec_flip_x() == uv,
            uv.spec_flip_y().spec_flip_y() == uv,
            uv.spec_flip_x().spec_flip_y() == uv.spec_flip_y().spec_flip_x(),
    {
    }
}

/// The size of a sprite's quad before its transform is applied.
#[derive(Clone, Copy, Debug, PartialEq, Eq, Structural)]
pub enum QuadSize {
    /// A size in texels: that of the source rectangle or of the whole texture.
    Texels { width: i128, height: i128 },
    /// The sprite's own draw size.
    Custom { size: Vec2 },
}

impl QuadSize {
    /// The quad is as large as the texture, unless the sprite has a source
    /// rectangle, whose size then counts, unless the sprite has a draw size
    /// of its own, which always wins.
    pub open spec fn spec_resolve(
        image: ImageSize,
        rect: Option<TexelRect>,
        custom_size: Option<Vec2>,
    ) -> QuadSize {
        match custom_size {
            Some(size) => QuadSize::Custom { size },
            None => match rect {
                Some(r) => QuadSize::Texels {
                    width: (r.max_x - r.min_x) as i128,
                    height: (r.max_y - r.min_y) as i128,
                },
                None => QuadSize::Texels {
                    width: image.width as i128,
                    height: image.height as i128,
                },
            },
        }
    }

    /// Computes `spec_resolve`.
    pub fn resolve(image: ImageSize, rect: Option<TexelRect>, custom_size: Option<Vec2>) -> (size:
        QuadSize)
        ensures
            size == Self::spec_resolve(image, rect, custom_size),
    {
        match custom_size {
            Some(size) => QuadSize::Custom { size },
            None => match rect {
                Some(r) => QuadSize::Texels { width: r.width(), height: r.height() },
                None => QuadSize::Texels {
                    width: image.width as i128,
                    height: image.height as i128,
                },
            },
        }
    }
}

/// A rotation by a whole number of quarter turns, counter-clockwise, given
/// by its cosine and its sine: it takes the point `(x, y)` to
/// `(cos * x - sin * y, sin * x + cos * y)`.
#[derive(Clone, Copy, Debug, PartialEq, Eq, Structural)]
pub struct QuarterTurn {
    pub cos: i8,
    pub sin: i8,
}

impl QuarterTurn {
    /// The rotation by `rotation` quarter turns; four of them make none.
    pub open spec fn spec_of_rotation(rotation: u8) -> QuarterTurn {
        if rotation % 4 == 0 {
            QuarterTurn { cos: 1, sin: 0 }
        } else if rotation % 4 == 1 {
            QuarterTurn { cos: 0, sin: 1 }
        } else if rotation % 4 == 2 {
            QuarterTurn { cos: -1i8, sin: 0 }
        } else {
            QuarterTurn { cos: 0, sin: -1i8 }
        }
    }

    /// The image of the point `(x, y)`.
    pub open spec fn spec_apply(self, x: int, y: int) -> (int, int) {
        (self.cos * x - self.sin * y, self.sin * x + self.cos * y)
    }

    /// Computes `spec_of_rotation`.
    pub fn of_rotation(rotation: u8) -> (turn: QuarterTurn)
        ensures
            turn == Self::spec_of_rotation(rotation),
    {
        let quarter: u8 = rotation % 4;
        if quarter == 0 {
            QuarterTurn { cos: 1, sin: 0 }
        } else if quarter == 1 {
            QuarterTurn { cos: 0, sin: 1 }
        } else if quarter == 2 {
            QuarterTurn { cos: -1, sin: 0 }
        } else {
            QuarterTurn { cos: 0, sin: -1 }
        }
    }

    /// No turn leaves every point where it is, one more quarter turn takes
    /// `(x, y)` on to `(-y, x)`, and a quarter turn keeps the distance from
    /// the origin.
    pub proof fn lemma_quarter_turns(rotation: u8, x: int, y: int)
        ensures
            Self::spec_of_rotation(0).spec_apply(x, y) == (x, y),
            rotation < 255 ==> Self::spec_of_rotation((rotation + 1) as u8).spec_apply(x, y) == ({
                let turned = Self::spec_of_rotation(rotation).spec_apply(x, y);
                (-turned.1, turned.0)
            }),
            ({
                let turned = Self::spec_of_rotation(rotation).spec_apply(x, y);
                turned.0 * turned.0 + turned.1 * turned.1 == x * x + y * y
            }),
    {
        let turn = Self::spec_of_rotation(rotation);
        assert(turn.cos == 1 || turn.cos == 0 || turn.cos == -1);
        assert(turn.sin == 1 || turn.sin == 0 || turn.sin == -1);
        let turned = turn.spec_apply(x, y);
        assert(turned.0 * turned.0 + turned.1 * turned.1 == x * x + y * y) by (nonlinear_arith)
            requires
                turned == (turn.cos * x - turn.sin * y, turn.sin * x + turn.cos * y),
                (turn.cos == 1 && turn.sin == 0) || (turn.cos == 0 && turn.sin == 1) || (turn.cos
                    == -1 && turn.sin == 0) || (turn.cos == 0 && turn.sin == -1),
        ;
    }
}

/// Twice the place of a corner of a quad in the frame of its entity, before
/// the entity's transform is applied.
///
/// The quad is `width` by `height`; the corner is the one at `(u, v)` of
/// the unit quad, with `u` and `v` either 0 or 1; the anchor is given by
/// twice its components. The quad is centred, turned about its centre, and
/// then moved so that the anchor comes to lie on the origin:
/// the corner lies at `turn((u - 1/2) * width, (v - 1/2) * height)` minus
/// `(anchor.x * width, anchor.y * height)`.
pub open spec fn spec_quad_corner_doubled(
    width: int,
    height: int,
    anchor_doubled: (int, int),
    turn: QuarterTurn,
    u: int,
    v: int,
) -> (int, int) {
    let centred = turn.spec_apply((2 * u - 1) * width, (2 * v - 1) * height);
    (centred.0 - anchor_doubled.0 * width, centred.1 - anchor_doubled.1 * height)
}

/// The four corners of a quad that is not turned and is anchored at its
/// centre lie at plus and minus half its size, so that they are symmetric
/// about the origin.
pub proof fn lemma_centred_quad_corners(width: int, height: int)
    ensures
        spec_quad_corner_doubled(width, height, (0, 0), QuarterTurn::spec_of_rotation(0), 0, 0)
            == (-width, -height),
        spec_quad_corner_doubled(width, height, (0, 0), QuarterTurn::spec_of_rotation(0), 1, 0)
            == (width, -height),
        spec_quad_corner_doubled(width, height, (0, 0), QuarterTurn::spec_of_rotation(0), 0, 1)
            == (-width, height),
        spec_quad_corner_doubled(width, height, (0, 0), QuarterTurn::spec_of_rotation(0), 1, 1)
            == (width, height),
{
}

/// Turning a quad does not move its centre, whatever its anchor: the
/// corners opposite each other stay opposite about the point that the anchor
/// alone decides.
pub proof fn lemma_quad_turns_about_its_centre(
    width: int,
    height: int,
    anchor_doubled: (int, int),
    rotation: u8,
    u: int,
    v: int,
)
    ensures
        ({
            let turn = QuarterTurn::spec_of_rotation(rotation);
            let corner = spec_quad_corner_doubled(width, height, anchor_doubled, turn, u, v);
            let opposite = spec_quad_corner_doubled(
                width,
                height,
                anchor_doubled,
                turn,
                1 - u,
                1 - v,
            );
            &&& corner.0 + opposite.0 == -2 * anchor_doubled.0 * width
            &&& corner.1 + opposite.1 == -2 * anchor_doubled.1 * height
        }),
{
    let turn = QuarterTurn::spec_of_rotation(rotation);
    let x = (2 * u - 1) * width;
    let y = (2 * v - 1) * height;
    assert((2 * (1 - u) - 1) * width == -x) by (nonlinear_arith)
        requires
            x == (2 * u - 1) * width,
    ;
    assert((2 * (1 - v) - 1) * height == -y) by (nonlinear_arith)
        requires
            y == (2 * v - 1) * height,
    ;
    assert(turn.cos * (-x) - turn.sin * (-y) == -(turn.cos * x - turn.sin * y))
        by (nonlinear_arith);
    assert(turn.sin * (-x) + turn.cos * (-y) == -(turn.sin * x + turn.cos * y))
        by (nonlinear_arith);
    assert(-2 * anchor_doubled.0 * width == -(anchor_doubled.0 * width) - anchor_doubled.0
        * width) by (nonlinear_arith);
    assert(-2 * anchor_doubled.1 * height == -(anchor_doubled.1 * height) - anchor_doubled.1
        * height) by (nonlinear_arith);
}

/// Everything that decides one instance: the sprite's carried values and the
/// quad geometry resolved against its texture.
#[derive(Clone, Copy, Debug, PartialEq, Eq, Structural)]
pub struct TextModeSpriteQuad {
    pub transform: GlobalTransform,
    pub bg: LinearRgba,
    pub fg: LinearRgba,
    /// Blend alpha, a single-precision bit pattern.
    pub alpha: u32,
    pub uv_offset_scale: UvOffsetScale,
    pub quad_size: QuadSize,
    pub anchor: Vec2,
    /// Number of quarter turns about the quad's centre, from 0 to 3.
    pub rotation: u8,
}

impl TextModeSpriteQuad {
    /// The quad of `sprite` drawn from a texture of `image` texels.
    pub open spec fn spec_new(
        sprite: TextModeExtractedSprite,
        image: ImageSize,
    ) -> TextModeSpriteQuad {
        TextModeSpriteQuad {
            transform: sprite.transform,
            bg: sprite.bg,
            fg: sprite.fg,
            alpha: sprite.alpha,
            uv_offset_scale: UvOffsetScale::spec_resolve(
                sprite.rect,
                image,
                sprite.flip_x,
                sprite.flip_y,
            ),
            quad_size: QuadSize::spec_resolve(image, sprite.rect, sprite.custom_size),
            anchor: sprite.anchor,
            rotation: sprite.rotation % 4,
        }
    }

    /// The rotation of the quad about its centre.
    pub fn quarter_turn(&self) -> (turn: QuarterTurn)
        ensures
            turn == QuarterTurn::spec_of_rotation(self.rotation),
    {
        QuarterTurn::of_rotation(self.rotation)
    }

    /// Computes `spec_new`.
    pub fn new(sprite: &TextModeExtractedSprite, image: ImageSize) -> (quad: TextModeSpriteQuad)
        ensures
            quad == Self::spec_new(*sprite, image),
            quad.rotation < 4,
            QuarterTurn::spec_of_rotation(quad.rotation) == QuarterTurn::spec_of_rotation(
                sprite.rotation,
            ),
    {
        TextModeSpriteQuad {
            transform: sprite.transform,
            bg: sprite.bg,
            fg: sprite.fg,
            alpha: sprite.alpha,
            uv_offset_scale: UvOffsetScale::resolve(
                sprite.rect,
                image,
                sprite.flip_x,
                sprite.flip_y,
            ),
            quad_size: QuadSize::resolve(image, sprite.rect, sprite.custom_size),
            anchor: sprite.anchor,
            rotation: sprite.rotation % 4,
        }
    }
}

/// A four-component vector of single-precision bit patterns.
#[derive(Clone, Copy, Debug, PartialEq, Eq, Structural)]
pub struct Vec4 {
    pub x: u32,
    pub y: u32,
    pub z: u32,
    pub w: u32,
}

/// The packed per-sprite payload that the shader reads once per drawn quad.
///
/// Every field is a single-precision bit pattern. In memory the record is
/// the three rows of the transposed model matrix, the background colour, the
/// foreground colour, the alpha, the UV offset and scale, and three words of
/// padding: 28 words in all.
#[derive(Clone, Copy, Debug, PartialEq, Eq, Structural)]
pub struct TextModeSpriteInstance {
    pub i_model_transpose_0: Vec4,
    pub i_model_transpose_1: Vec4,
    pub i_model_transpose_2: Vec4,
    pub i_bg: Vec4,
    pub i_fg: Vec4,
    pub i_alpha: u32,
    pub i_uv: Vec4,
    pub i_pad: Vec3,
}

impl TextModeSpriteInstance {
    /// The record of a quad with the model matrix `transform`: row `r` of
    /// the record holds component `r` of each of the matrix's three columns
    /// and then component `r` of the translation; the padding is zero.
    pub open spec fn spec_from(
        transform: GlobalTransform,
        bg: LinearRgba,
        fg: LinearRgba,
        alpha: u32,
        uv_offset_scale: Vec4,
    ) -> TextModeSpriteInstance {
        TextModeSpriteInstance {
            i_model_transpose_0: Vec4 {
                x: transform.x_axis.x,
                y: transform.y_axis.x,
                z: transform.z_axis.x,
                w: transform.translation.x,
            },
            i_model_transpose_1: Vec4 {
                x: transform.x_axis.y,
                y: transform.y_axis.y,
                z: transform.z_axis.y,
                w: transform.translation.y,
            },
            i_model_transpose_2: Vec4 {
                x: transform.x_axis.z,
                y: transform.y_axis.z,
                z: transform.z_axis.z,
                w: transform.translation.z,
            },
            i_bg: Vec4 { x: bg.red, y: bg.green, z: bg.blue, w: bg.alpha },
            i_fg: Vec4 { x: fg.red, y: fg.green, z: fg.blue, w: fg.alpha },
            i_alpha: alpha,
            i_uv: uv_offset_scale,
            i_pad: Vec3 { x: F32_ZERO, y: F32_ZERO, z: F32_ZERO },
        }
    }

    /// Computes `spec_from`.
    pub fn from(
        transform: &GlobalTransform,
        bg: &LinearRgba,
        fg: &LinearRgba,
        alpha: u32,
        uv_offset_scale: &Vec4,
    ) -> (instance: TextModeSpriteInstance)
        ensures
            instance == Self::spec_from(*transform, *bg, *fg, alpha, *uv_offset_scale),
    {
        TextModeSpriteInstance {
            i_model_transpose_0: Vec4 {
                x: transform.x_axis.x,
                y: transform.y_axis.x,
                z: transform.z_axis.x,
                w: transform.translation.x,
            },
            i_model_transpose_1: Vec4 {
                x: transform.x_axis.y,
                y: transform.y_axis.y,
                z: transform.z_axis.y,
                w: transform.translation.y,
            },
            i_model_transpose_2: Vec4 {
                x: transform.x_axis.z,
                y: transform.y_axis.z,
                z: transform.z_axis.z,
                w: transform.translation.z,
            },
            i_bg: Vec4 { x: bg.red, y: bg.green, z: bg.blue, w: bg.alpha },
            i_fg: Vec4 { x: fg.red, y: fg.green, z: fg.blue, w: fg.alpha },
            i_alpha: alpha,
            i_uv: *uv_offset_scale,
            i_pad: Vec3 { x: F32_ZERO, y: F32_ZERO, z: F32_ZERO },
        }
    }

    /// The record as it lies in the instance buffer, word by word.
    pub open spec fn spec_words(self) -> Seq<u32> {
        seq![
            self.i_model_transpose_0.x,
            self.i_model_transpose_0.y,
            self.i_model_transpose_0.z,
            self.i_model_transpose_0.w,
            self.i_model_transpose_1.x,
            self.i_model_transpose_1.y,
            self.i_model_transpose_1.z,
            self.i_model_transpose_1.w,
            self.i_model_transpose_2.x,
            self.i_model_transpose_2.y,
            self.i_model_transpose_2.z,
            self.i_model_transpose_2.w,
            self.i_bg.x,
            self.i_bg.y,
            self.i_bg.z,
            self.i_bg.w,
            self.i_fg.x,
            self.i_fg.y,
            self.i_fg.z,
            self.i_fg.w,
            self.i_alpha,
            self.i_uv.x,
            self.i_uv.y,
            self.i_uv.z,
            self.i_uv.w,
            self.i_pad.x,
            self.i_pad.y,
            self.i_pad.z,
        ]
    }

    /// Computes `spec_words`.
    pub fn to_words(&self) -> (words: [u32; 28])
        ensures
            words@ == self.spec_words(),
            words@.len() == INSTANCE_WORDS,
            words@.len() * 4 == INSTANCE_STRIDE,
    {
        let words: [u32; 28] = [
            self.i_model_transpose_0.x,
            self.i_model_transpose_0.y,
            self.i_model_transpose_0.z,
            self.i_model_transpose_0.w,
            self.i_model_transpose_1.x,
            self.i_model_transpose_1.y,
            self.i_model_transpose_1.z,
            self.i_model_transpose_1.w,
            self.i_model_transpose_2.x,
            self.i_model_transpose_2.y,
            self.i_model_transpose_2.z,
            self.i_model_transpose_2.w,
            self.i_bg.x,
            self.i_bg.y,
            self.i_bg.z,
            self.i_bg.w,
            self.i_fg.x,
            self.i_fg.y,
            self.i_fg.z,
            self.i_fg.w,
            self.i_alpha,
            self.i_uv.x,
            self.i_uv.y,
            self.i_uv.z,
            self.i_uv.w,
            self.i_pad.x,
            self.i_pad.y,
            self.i_pad.z,
        ];
        assert(words@ =~= self.spec_words());
        words
    }
}

} // verus!

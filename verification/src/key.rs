use vstd::prelude::*;
use vstd::std_specs::bits::{axiom_u32_trailing_zeros, u32_trailing_zeros};

verus! {

/// No flag.
pub const NONE: u32 = 0;

/// The sprites are tinted.
pub const COLORED: u32 = 0x0000_0001;

/// The view renders to a high-dynamic-range target.
pub const HDR: u32 = 0x0000_0002;

/// The fragment shader applies the tone-mapping operator itself.
pub const TONEMAP_IN_SHADER: u32 = 0x0000_0004;

/// The fragment shader dithers against banding.
pub const DEBAND_DITHER: u32 = 0x0000_0008;

/// Width of the multisampling field, as a mask.
pub const MSAA_MASK_BITS: u32 = 0b111;

/// Position of the multisampling field: the three highest bits.
pub const MSAA_SHIFT_BITS: u32 = 29;

/// The bits of the multisampling field, which holds the binary logarithm of
/// the sample count.
pub const MSAA_RESERVED_BITS: u32 = 0xE000_0000;

/// Width of the tone-mapping operator field, as a mask.
pub const TONEMAP_METHOD_MASK_BITS: u32 = 0b111;

/// Position of the tone-mapping operator field: the three bits below the
/// multisampling field.
pub const TONEMAP_METHOD_SHIFT_BITS: u32 = 26;

/// The bits of the tone-mapping operator field.
pub const TONEMAP_METHOD_RESERVED_BITS: u32 = 0x1C00_0000;

pub const TONEMAP_METHOD_NONE: u32 = 0x0000_0000;

pub const TONEMAP_METHOD_REINHARD: u32 = 0x0400_0000;

pub const TONEMAP_METHOD_REINHARD_LUMINANCE: u32 = 0x0800_0000;

pub const TONEMAP_METHOD_ACES_FITTED: u32 = 0x0C00_0000;

pub const TONEMAP_METHOD_AGX: u32 = 0x1000_0000;

pub const TONEMAP_METHOD_SOMEWHAT_BORING_DISPLAY_TRANSFORM: u32 = 0x1400_0000;

pub const TONEMAP_METHOD_TONY_MC_MAPFACE: u32 = 0x1800_0000;

pub const TONEMAP_METHOD_BLENDER_FILMIC: u32 = 0x1C00_0000;

/// A tone-mapping operator.
#[derive(Clone, Copy, Debug, PartialEq, Eq, Hash, Structural)]
pub enum Tonemapping {
    /// The operator that leaves colours as they are.
    Disabled,
    Reinhard,
    ReinhardLuminance,
    AcesFitted,
    AgX,
    SomewhatBoringDisplayTransform,
    TonyMcMapface,
    BlenderFilmic,
}

impl Tonemapping {
    /// The operator as it stands in the operator field of a key.
    pub open spec fn spec_method_bits(self) -> u32 {
        match self {
            Tonemapping::Disabled => TONEMAP_METHOD_NONE,
            Tonemapping::Reinhard => TONEMAP_METHOD_REINHARD,
            Tonemapping::ReinhardLuminance => TONEMAP_METHOD_REINHARD_LUMINANCE,
            Tonemapping::AcesFitted => TONEMAP_METHOD_ACES_FITTED,
            Tonemapping::AgX => TONEMAP_METHOD_AGX,
            Tonemapping::SomewhatBoringDisplayTransform => {
                TONEMAP_METHOD_SOMEWHAT_BORING_DISPLAY_TRANSFORM
            },
            Tonemapping::TonyMcMapface => TONEMAP_METHOD_TONY_MC_MAPFACE,
            Tonemapping::BlenderFilmic => TONEMAP_METHOD_BLENDER_FILMIC,
        }
    }

    /// The operator that the operator field `bits` stands for; `bits` is a
    /// key masked by `TONEMAP_METHOD_RESERVED_BITS`.
    pub open spec fn spec_from_method_bits(bits: u32) -> Tonemapping {
        if bits == TONEMAP_METHOD_NONE {
            Tonemapping::Disabled
        } else if bits == TONEMAP_METHOD_REINHARD {
            Tonemapping::Reinhard
        } else if bits == TONEMAP_METHOD_REINHARD_LUMINANCE {
            Tonemapping::ReinhardLuminance
        } else if bits == TONEMAP_METHOD_ACES_FITTED {
            Tonemapping::AcesFitted
        } else if bits == TONEMAP_METHOD_AGX {
            Tonemapping::AgX
        } else if bits == TONEMAP_METHOD_SOMEWHAT_BORING_DISPLAY_TRANSFORM {
            Tonemapping::SomewhatBoringDisplayTransform
        } else if bits == TONEMAP_METHOD_TONY_MC_MAPFACE {
            Tonemapping::TonyMcMapface
        } else {
            Tonemapping::BlenderFilmic
        }
    }

    /// Computes `spec_method_bits`.
    pub fn method_bits(&self) -> (bits: u32)
        ensures
            bits == self.spec_method_bits(),
            Self::spec_from_method_bits(bits) == *self,
    {
        match *self {
            Tonemapping::Disabled => TONEMAP_METHOD_NONE,
            Tonemapping::Reinhard => TONEMAP_METHOD_REINHARD,
            Tonemapping::ReinhardLuminance => TONEMAP_METHOD_REINHARD_LUMINANCE,
            Tonemapping::AcesFitted => TONEMAP_METHOD_ACES_FITTED,
            Tonemapping::AgX => TONEMAP_METHOD_AGX,
            Tonemapping::SomewhatBoringDisplayTransform => {
                TONEMAP_METHOD_SOMEWHAT_BORING_DISPLAY_TRANSFORM
            },
            Tonemapping::TonyMcMapface => TONEMAP_METHOD_TONY_MC_MAPFACE,
            Tonemapping::BlenderFilmic => TONEMAP_METHOD_BLENDER_FILMIC,
        }
    }

    /// Computes `spec_from_method_bits`.
    pub fn from_method_bits(bits: u32) -> (method: Tonemapping)
        ensures
            method == Self::spec_from_method_bits(bits),
    {
        if bits == TONEMAP_METHOD_NONE {
            Tonemapping::Disabled
        } else if bits == TONEMAP_METHOD_REINHARD {
            Tonemapping::Reinhard
        } else if bits == TONEMAP_METHOD_REINHARD_LUMINANCE {
            Tonemapping::ReinhardLuminance
        } else if bits == TONEMAP_METHOD_ACES_FITTED {
            Tonemapping::AcesFitted
        } else if bits == TONEMAP_METHOD_AGX {
            Tonemapping::AgX
        } else if bits == TONEMAP_METHOD_SOMEWHAT_BORING_DISPLAY_TRANSFORM {
            Tonemapping::SomewhatBoringDisplayTransform
        } else if bits == TONEMAP_METHOD_TONY_MC_MAPFACE {
            Tonemapping::TonyMcMapface
        } else {
            Tonemapping::BlenderFilmic
        }
    }
}

/// Whether a view asks for dithering against banding.
#[derive(Clone, Copy, Debug, PartialEq, Eq, Hash, Structural)]
pub enum DebandDither {
    Disabled,
    Enabled,
}

/// The configuration of a pipeline variant as one 32-bit field.
///
/// From the lowest bit up: the flags `COLORED`, `HDR`, `TONEMAP_IN_SHADER`
/// and `DEBAND_DITHER`; in bits 26 to 28 the tone-mapping operator; in bits
/// 29 to 31 the binary logarithm of the multisampling sample count.
#[derive(Clone, Copy, Debug, PartialEq, Eq, Hash, Structural)]
pub struct TextModeSpritePipelineKey {
    pub bits: u32,
}

impl TextModeSpritePipelineKey {
    /// Whether every bit of `flags` is set in the key.
    pub open spec fn spec_contains(self, flags: u32) -> bool {
        self.bits & flags == flags
    }

    /// The key of `samples` samples per pixel and nothing else: the number of
    /// trailing zero bits of `samples`, which is its binary logarithm where
    /// `samples` is a power of two, cut to three bits.
    pub open spec fn spec_from_msaa_samples(samples: u32) -> TextModeSpritePipelineKey {
        TextModeSpritePipelineKey {
            bits: (u32_trailing_zeros(samples) & MSAA_MASK_BITS) << MSAA_SHIFT_BITS,
        }
    }

    /// The sample count that the multisampling field stands for.
    pub open spec fn spec_msaa_samples(self) -> u32 {
        1u32 << ((self.bits >> MSAA_SHIFT_BITS) & MSAA_MASK_BITS)
    }

    /// The key of a target that is, or is not, of high dynamic range.
    pub open spec fn spec_from_hdr(hdr: bool) -> TextModeSpritePipelineKey {
        TextModeSpritePipelineKey { bits: if hdr { HDR } else { NONE } }
    }

    /// The operator that the operator field stands for.
    pub open spec fn spec_tonemap_method(self) -> Tonemapping {
        Tonemapping::spec_from_method_bits(self.bits & TONEMAP_METHOD_RESERVED_BITS)
    }

    /// The keys' bits taken together.
    pub open spec fn spec_union(
        self,
        other: TextModeSpritePipelineKey,
    ) -> TextModeSpritePipelineKey {
        TextModeSpritePipelineKey { bits: self.bits | other.bits }
    }

    /// The bits that both keys have.
    pub open spec fn spec_intersection(
        self,
        other: TextModeSpritePipelineKey,
    ) -> TextModeSpritePipelineKey {
        TextModeSpritePipelineKey { bits: self.bits & other.bits }
    }

    /// The bits that a view adds to its key when its target is not of high
    /// dynamic range. A view with a tone-mapping operator adds the in-shader
    /// flag and the operator, and the dither flag where it asks for
    /// dithering. A view without an operator adds nothing: dithering is part
    /// of tone mapping in the shader, so a request for it alone is dropped.
    pub open spec fn spec_tonemap_bits(tonemapping: Option<Tonemapping>, dither: bool) -> u32 {
        match tonemapping {
            Some(method) => (TONEMAP_IN_SHADER | method.spec_method_bits()) | (if dither {
                DEBAND_DITHER
            } else {
                NONE
            }),
            None => NONE,
        }
    }

    /// The key of a view.
    pub open spec fn spec_for_view(
        hdr: bool,
        msaa_samples: u32,
        tonemapping: Option<Tonemapping>,
        dither: bool,
    ) -> TextModeSpritePipelineKey {
        TextModeSpritePipelineKey {
            bits: Self::spec_from_hdr(hdr).bits | Self::spec_from_msaa_samples(msaa_samples).bits
                | (if hdr {
                NONE
            } else {
                Self::spec_tonemap_bits(tonemapping, dither)
            }),
        }
    }

    /// The key with exactly the bits `bits`.
    pub fn from_bits_retain(bits: u32) -> (key: Self)
        ensures
            key.bits == bits,
    {
        TextModeSpritePipelineKey { bits }
    }

    /// The key's bits.
    pub fn bits(&self) -> (bits: u32)
        ensures
            bits == self.bits,
    {
        self.bits
    }

    /// Computes `spec_contains`.
    pub fn contains(&self, flags: u32) -> (all: bool)
        ensures
            all == self.spec_contains(flags),
    {
        self.bits & flags == flags
    }

    /// Computes `spec_union`.
    pub fn union(self, other: Self) -> (key: Self)
        ensures
            key == self.spec_union(other),
    {
        TextModeSpritePipelineKey { bits: self.bits | other.bits }
    }

    /// Computes `spec_intersection`.
    pub fn intersection(self, other: Self) -> (key: Self)
        ensures
            key == self.spec_intersection(other),
    {
        TextModeSpritePipelineKey { bits: self.bits & other.bits }
    }

    /// Computes `spec_from_msaa_samples`.
    pub fn from_msaa_samples(msaa_samples: u32) -> (key: Self)
        ensures
            key == Self::spec_from_msaa_samples(msaa_samples),
    {
        let zeros: u32 = msaa_samples.trailing_zeros();
        let log2: u32 = zeros & MSAA_MASK_BITS;
        assert(log2 <= 7) by (bit_vector)
            requires
                log2 == zeros & 0b111u32,
        ;
        let msaa_bits: u32 = log2 << MSAA_SHIFT_BITS;
        Self::from_bits_retain(msaa_bits)
    }

    /// Computes `spec_msaa_samples`.
    pub fn msaa_samples(&self) -> (samples: u32)
        ensures
            samples == self.spec_msaa_samples(),
    {
        let bits: u32 = self.bits;
        let log2: u32 = (bits >> MSAA_SHIFT_BITS) & MSAA_MASK_BITS;
        assert(log2 <= 7) by (bit_vector)
            requires
                log2 == (bits >> 29u32) & 0b111u32,
        ;
        1u32 << log2
    }

    /// Computes `spec_from_hdr`.
    pub fn from_hdr(hdr: bool) -> (key: Self)
        ensures
            key == Self::spec_from_hdr(hdr),
    {
        if hdr {
            Self::from_bits_retain(HDR)
        } else {
            Self::from_bits_retain(NONE)
        }
    }

    /// Computes `spec_tonemap_method`.
    pub fn tonemap_method(&self) -> (method: Tonemapping)
        ensures
            method == self.spec_tonemap_method(),
    {
        Tonemapping::from_method_bits(self.bits & TONEMAP_METHOD_RESERVED_BITS)
    }

    /// Computes `spec_for_view`.
    pub fn for_view(
        hdr: bool,
        msaa_samples: u32,
        tonemapping: Option<Tonemapping>,
        dither: Option<DebandDither>,
    ) -> (key: Self)
        ensures
            key == Self::spec_for_view(
                hdr,
                msaa_samples,
                tonemapping,
                dither == Some(DebandDither::Enabled),
            ),
    {
        let mut view_key = Self::from_hdr(hdr).union(Self::from_msaa_samples(msaa_samples));
        if !hdr {
            let mut extra: u32 = NONE;
            if let Some(method) = tonemapping {
                extra = TONEMAP_IN_SHADER | method.method_bits();
                if let Some(DebandDither::Enabled) = dither {
                    extra = extra | DEBAND_DITHER;
                } else {
                    assert(extra | 0u32 == extra) by (bit_vector);
                }
            }
            view_key = view_key.union(Self::from_bits_retain(extra));
        } else {
            let bits = view_key.bits;
            assert(bits | 0u32 == bits) by (bit_vector);
        }
        view_key
    }

    /// The fields of a key do not overlap: the key of a view holds the HDR
    /// flag exactly for a target of high dynamic range; it holds the
    /// in-shader flag exactly where the target is of standard range and the
    /// view has an operator, and then names that operator; it holds the
    /// dither flag exactly where it holds the in-shader flag and the view
    /// asks for dithering, so never without the in-shader flag; and its
    /// sample count is two to the power that `from_msaa_samples` stored.
    pub proof fn lemma_for_view_fields(
        hdr: bool,
        msaa_samples: u32,
        tonemapping: Option<Tonemapping>,
        dither: bool,
    )
        ensures
            ({
                let key = Self::spec_for_view(hdr, msaa_samples, tonemapping, dither);
                &&& key.spec_contains(HDR) == hdr
                &&& key.spec_contains(TONEMAP_IN_SHADER) == (!hdr && tonemapping.is_some())
                &&& key.spec_contains(DEBAND_DITHER) == (!hdr && tonemapping.is_some() && dither)
                &&& key.spec_contains(DEBAND_DITHER) ==> key.spec_contains(TONEMAP_IN_SHADER)
                &&& !key.spec_contains(COLORED)
                &&& (!hdr && tonemapping.is_some()) ==> key.spec_tonemap_method()
                    == tonemapping.unwrap()
                &&& key.spec_msaa_samples() == Self::spec_from_msaa_samples(
                    msaa_samples,
                ).spec_msaa_samples()
            }),
    {
        let h: u32 = if hdr { HDR } else { NONE };
        let log2: u32 = u32_trailing_zeros(msaa_samples) & MSAA_MASK_BITS;
        let method: u32 = match tonemapping {
            Some(m) => m.spec_method_bits(),
            None => NONE,
        };
        let t: u32 = if tonemapping.is_some() { TONEMAP_IN_SHADER } else { NONE };
        let d: u32 = if dither && tonemapping.is_some() { DEBAND_DITHER } else { NONE };
        let extra: u32 = if hdr { NONE } else { Self::spec_tonemap_bits(tonemapping, dither) };
        assert(extra == (if hdr { 0u32 } else { (t | method) | d })) by {
            assert(0u32 | 0u32 == 0u32) by (bit_vector);
            assert(method | 0u32 == method) by (bit_vector);
            assert(0u32 | method == method) by (bit_vector);
        }
        let key = Self::spec_for_view(hdr, msaa_samples, tonemapping, dither);
        let bits = key.bits;
        assert(bits == h | (log2 << 29u32) | extra);
        assert(method & 0x1C00_0000u32 == method) by (bit_vector)
            requires
                method == 0u32 || method == 0x0400_0000u32 || method == 0x0800_0000u32 || method
                    == 0x0C00_0000u32 || method == 0x1000_0000u32 || method == 0x1400_0000u32
                    || method == 0x1800_0000u32 || method == 0x1C00_0000u32,
        ;
        let zeros = u32_trailing_zeros(msaa_samples);
        assert(log2 == log2 & 7u32) by (bit_vector)
            requires
                log2 == zeros & 7u32,
        ;
        Self::lemma_fields_do_not_overlap(h, log2, t, method, d, hdr);
        if !hdr && tonemapping.is_some() {
            let m = tonemapping.unwrap();
            assert(Tonemapping::spec_from_method_bits(m.spec_method_bits()) == m);
        }
    }

    proof fn lemma_fields_do_not_overlap(
        h: u32,
        log2: u32,
        t: u32,
        method: u32,
        d: u32,
        hdr: bool,
    )
        by (bit_vector)
        requires
            h == 0u32 || h == 2u32,
            t == 0u32 || t == 4u32,
            d == 0u32 || d == 8u32,
            method & 0x1C00_0000u32 == method,
            log2 == log2 & 7u32,
            hdr == (h == 2u32),
        ensures
            ({
                let bits = h | (log2 << 29u32) | (if hdr {
                    0u32
                } else {
                    (t | method) | d
                });
                &&& (bits & 2u32 == 2u32) == (h == 2u32)
                &&& (bits & 4u32 == 4u32) == (!hdr && t == 4u32)
                &&& (bits & 8u32 == 8u32) == (!hdr && d == 8u32)
                &&& !(bits & 1u32 == 1u32)
                &&& !hdr ==> bits & 0x1C00_0000u32 == method
                &&& (bits >> 29u32) & 7u32 == ((log2 << 29u32) >> 29u32) & 7u32
            }),
    {
    }

    /// A sample count of one, two, four, up to 128 survives the way into a
    /// key and back.
    pub proof fn lemma_msaa_round_trip(log2: u32)
        requires
            log2 <= 7,
        ensures
            Self::spec_from_msaa_samples(1u32 << log2).spec_msaa_samples() == 1u32 << log2,
    {
        let samples: u32 = 1u32 << log2;
        axiom_u32_trailing_zeros(samples);
        let zeros = u32_trailing_zeros(samples);
        assert(samples != 0) by (bit_vector)
            requires
                samples == 1u32 << log2,
                log2 <= 7,
        ;
        assert(zeros == log2) by {
            if zeros < log2 {
                assert((samples >> zeros) & 1u32 == 0u32) by (bit_vector)
                    requires
                        samples == 1u32 << log2,
                        log2 <= 7,
                        zeros < log2,
                ;
            } else if zeros > log2 {
                assert((samples >> log2) & 1u32 == 1u32) by (bit_vector)
                    requires
                        samples == 1u32 << log2,
                        log2 <= 7,
                ;
            }
        }
        assert(1u32 << ((((log2 & 7u32) << 29u32) >> 29u32) & 7u32) == 1u32 << log2)
            by (bit_vector)
            requires
                log2 <= 7,
        ;
    }
}

} // verus!

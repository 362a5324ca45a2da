use crate::instance::INSTANCE_STRIDE;
use crate::key::{
    TextModeSpritePipelineKey, Tonemapping, DEBAND_DITHER, HDR, TONEMAP_IN_SHADER,
};
use std::collections::HashMap;
use vstd::prelude::*;

verus! {

broadcast use vstd::std_specs::hash::group_hash_axioms;

/// Binding index of the tone-mapping lookup texture in the view's bindings.
pub const TONEMAPPING_LUT_TEXTURE_BINDING_INDEX: u32 = 1;

/// Binding index of the tone-mapping lookup sampler in the view's bindings.
pub const TONEMAPPING_LUT_SAMPLER_BINDING_INDEX: u32 = 2;

/// The name of a definition that switches on a part of the shader.
#[derive(Clone, Copy, Debug, PartialEq, Eq, Hash, Structural)]
pub enum ShaderDefName {
    TonemapInShader,
    TonemappingLutTextureBindingIndex,
    TonemappingLutSamplerBindingIndex,
    TonemapMethodNone,
    TonemapMethodReinhard,
    TonemapMethodReinhardLuminance,
    TonemapMethodAcesFitted,
    TonemapMethodAgx,
    TonemapMethodSomewhatBoringDisplayTransform,
    TonemapMethodTonyMcMapface,
    TonemapMethodBlenderFilmic,
    DebandDither,
}

impl ShaderDefName {
    /// The definition that selects the operator `method`.
    pub open spec fn spec_of_method(method: Tonemapping) -> ShaderDefName {
        match method {
            Tonemapping::Disabled => ShaderDefName::TonemapMethodNone,
            Tonemapping::Reinhard => ShaderDefName::TonemapMethodReinhard,
            Tonemapping::ReinhardLuminance => ShaderDefName::TonemapMethodReinhardLuminance,
            Tonemapping::AcesFitted => ShaderDefName::TonemapMethodAcesFitted,
            Tonemapping::AgX => ShaderDefName::TonemapMethodAgx,
            Tonemapping::SomewhatBoringDisplayTransform => {
                ShaderDefName::TonemapMethodSomewhatBoringDisplayTransform
            },
            Tonemapping::TonyMcMapface => ShaderDefName::TonemapMethodTonyMcMapface,
            Tonemapping::BlenderFilmic => ShaderDefName::TonemapMethodBlenderFilmic,
        }
    }

    /// Computes `spec_of_method`.
    pub fn of_method(method: Tonemapping) -> (name: ShaderDefName)
        ensures
            name == Self::spec_of_method(method),
    {
        match method {
            Tonemapping::Disabled => ShaderDefName::TonemapMethodNone,
            Tonemapping::Reinhard => ShaderDefName::TonemapMethodReinhard,
            Tonemapping::ReinhardLuminance => ShaderDefName::TonemapMethodReinhardLuminance,
            Tonemapping::AcesFitted => ShaderDefName::TonemapMethodAcesFitted,
            Tonemapping::AgX => ShaderDefName::TonemapMethodAgx,
            Tonemapping::SomewhatBoringDisplayTransform => {
                ShaderDefName::TonemapMethodSomewhatBoringDisplayTransform
            },
            Tonemapping::TonyMcMapface => ShaderDefName::TonemapMethodTonyMcMapface,
            Tonemapping::BlenderFilmic => ShaderDefName::TonemapMethodBlenderFilmic,
        }
    }

    /// The name as the shader source spells it.
    pub open spec fn spec_as_str(self) -> Seq<char> {
        match self {
            ShaderDefName::TonemapInShader => "TONEMAP_IN_SHADER"@,
            ShaderDefName::TonemappingLutTextureBindingIndex => {
                "TONEMAPPING_LUT_TEXTURE_BINDING_INDEX"@
            },
            ShaderDefName::TonemappingLutSamplerBindingIndex => {
                "TONEMAPPING_LUT_SAMPLER_BINDING_INDEX"@
            },
            ShaderDefName::TonemapMethodNone => "TONEMAP_METHOD_NONE"@,
            ShaderDefName::TonemapMethodReinhard => "TONEMAP_METHOD_REINHARD"@,
            ShaderDefName::TonemapMethodReinhardLuminance => "TONEMAP_METHOD_REINHARD_LUMINANCE"@,
            ShaderDefName::TonemapMethodAcesFitted => "TONEMAP_METHOD_ACES_FITTED"@,
            ShaderDefName::TonemapMethodAgx => "TONEMAP_METHOD_AGX"@,
            ShaderDefName::TonemapMethodSomewhatBoringDisplayTransform => {
                "TONEMAP_METHOD_SOMEWHAT_BORING_DISPLAY_TRANSFORM"@
            },
            ShaderDefName::TonemapMethodTonyMcMapface => "TONEMAP_METHOD_TONY_MC_MAPFACE"@,
            ShaderDefName::TonemapMethodBlenderFilmic => "TONEMAP_METHOD_BLENDER_FILMIC"@,
            ShaderDefName::DebandDither => "DEBAND_DITHER"@,
        }
    }

    /// Computes `spec_as_str`.
    pub fn as_str(&self) -> (name: &'static str)
        ensures
            name@ == self.spec_as_str(),
    {
        match *self {
            ShaderDefName::TonemapInShader => "TONEMAP_IN_SHADER",
            ShaderDefName::TonemappingLutTextureBindingIndex => {
                "TONEMAPPING_LUT_TEXTURE_BINDING_INDEX"
            },
            ShaderDefName::TonemappingLutSamplerBindingIndex => {
                "TONEMAPPING_LUT_SAMPLER_BINDING_INDEX"
            },
            ShaderDefName::TonemapMethodNone => "TONEMAP_METHOD_NONE",
            ShaderDefName::TonemapMethodReinhard => "TONEMAP_METHOD_REINHARD",
            ShaderDefName::TonemapMethodReinhardLuminance => "TONEMAP_METHOD_REINHARD_LUMINANCE",
            ShaderDefName::TonemapMethodAcesFitted => "TONEMAP_METHOD_ACES_FITTED",
            ShaderDefName::TonemapMethodAgx => "TONEMAP_METHOD_AGX",
            ShaderDefName::TonemapMethodSomewhatBoringDisplayTransform => {
                "TONEMAP_METHOD_SOMEWHAT_BORING_DISPLAY_TRANSFORM"
            },
            ShaderDefName::TonemapMethodTonyMcMapface => "TONEMAP_METHOD_TONY_MC_MAPFACE",
            ShaderDefName::TonemapMethodBlenderFilmic => "TONEMAP_METHOD_BLENDER_FILMIC",
            ShaderDefName::DebandDither => "DEBAND_DITHER",
        }
    }
}

/// A shader definition with its value.
#[derive(Clone, Copy, Debug, PartialEq, Eq, Hash, Structural)]
pub enum ShaderDefVal {
    Bool { name: ShaderDefName, enabled: bool },
    UInt { name: ShaderDefName, value: u32 },
}

/// The texel format of a view's colour target.
#[derive(Clone, Copy, Debug, PartialEq, Eq, Hash, Structural)]
pub enum TargetFormat {
    /// The format of targets of high dynamic range.
    Hdr,
    /// The default format of targets of standard range.
    Standard,
}

/// The format of one attribute of the instance record.
#[derive(Clone, Copy, Debug, PartialEq, Eq, Hash, Structural)]
pub enum VertexFormat {
    Float32,
    Float32x3,
    Float32x4,
}

impl VertexFormat {
    /// Number of bytes that the format takes.
    pub open spec fn spec_size(self) -> u64 {
        match self {
            VertexFormat::Float32 => 4,
            VertexFormat::Float32x3 => 12,
            VertexFormat::Float32x4 => 16,
        }
    }

    /// Computes `spec_size`.
    pub fn size(&self) -> (bytes: u64)
        ensures
            bytes == self.spec_size(),
    {
        match *self {
            VertexFormat::Float32 => 4,
            VertexFormat::Float32x3 => 12,
            VertexFormat::Float32x4 => 16,
        }
    }
}

/// One attribute of the instance record as the vertex shader receives it.
#[derive(Clone, Copy, Debug, PartialEq, Eq, Hash, Structural)]
pub struct VertexAttribute {
    pub format: VertexFormat,
    /// Byte offset in the instance record.
    pub offset: u64,
    pub shader_location: u32,
}

/// The layout of the instance buffer, which is stepped once per instance.
pub struct VertexBufferLayout {
    pub array_stride: u64,
    pub attributes: Vec<VertexAttribute>,
}

/// The attributes of the instance record: the three rows of the model
/// matrix, the background colour, the foreground colour, the alpha, the UV
/// offset and scale, and the padding.
pub open spec fn instance_attributes() -> Seq<VertexAttribute> {
    seq![
        VertexAttribute { format: VertexFormat::Float32x4, offset: 0, shader_location: 0 },
        VertexAttribute { format: VertexFormat::Float32x4, offset: 16, shader_location: 1 },
        VertexAttribute { format: VertexFormat::Float32x4, offset: 32, shader_location: 2 },
        VertexAttribute { format: VertexFormat::Float32x4, offset: 48, shader_location: 3 },
        VertexAttribute { format: VertexFormat::Float32x4, offset: 64, shader_location: 4 },
        VertexAttribute { format: VertexFormat::Float32, offset: 80, shader_location: 5 },
        VertexAttribute { format: VertexFormat::Float32x4, offset: 84, shader_location: 6 },
        VertexAttribute { format: VertexFormat::Float32x3, offset: 100, shader_location: 7 },
    ]
}

/// The attributes lie end to end in the order of their shader locations and
/// fill the instance record exactly.
pub proof fn lemma_instance_attributes_tile()
    ensures
        instance_attributes().len() == 8,
        instance_attributes()[0].offset == 0,
        forall|i: int|
            0 <= i < 8 ==> (#[trigger] instance_attributes()[i]).shader_location == i,
        forall|i: int|
            0 <= i < 7 ==> (#[trigger] instance_attributes()[i]).offset
                + instance_attributes()[i].format.spec_size() == instance_attributes()[i
                + 1].offset,
        instance_attributes()[7].offset + instance_attributes()[7].format.spec_size()
            == INSTANCE_STRIDE,
{
}

/// What the graphics layer needs to compile one variant of the pipeline.
pub struct TextModeSpritePipelineDescriptor {
    /// The definitions that hold for both shader stages.
    pub shader_defs: Vec<ShaderDefVal>,
    /// The format of the colour target.
    pub format: TargetFormat,
    /// The layout of the instance buffer.
    pub instance_layout: VertexBufferLayout,
    /// The number of samples per pixel.
    pub multisample_count: u32,
}

/// The shader definitions of the variant `key`.
///
/// Where the key asks for tone mapping in the shader, they switch it on,
/// name the two bindings of the lookup table and select the operator, and
/// add dithering where the key asks for it. A key without in-shader tone
/// mapping has no definitions at all, whether it asks for dithering or not.
pub open spec fn spec_shader_defs(key: TextModeSpritePipelineKey) -> Seq<ShaderDefVal> {
    if key.spec_contains(TONEMAP_IN_SHADER) {
        let tonemap = seq![
            ShaderDefVal::Bool { name: ShaderDefName::TonemapInShader, enabled: true },
            ShaderDefVal::UInt {
                name: ShaderDefName::TonemappingLutTextureBindingIndex,
                value: TONEMAPPING_LUT_TEXTURE_BINDING_INDEX,
            },
            ShaderDefVal::UInt {
                name: ShaderDefName::TonemappingLutSamplerBindingIndex,
                value: TONEMAPPING_LUT_SAMPLER_BINDING_INDEX,
            },
            ShaderDefVal::Bool {
                name: ShaderDefName::spec_of_method(key.spec_tonemap_method()),
                enabled: true,
            },
        ];
        if key.spec_contains(DEBAND_DITHER) {
            tonemap.push(ShaderDefVal::Bool { name: ShaderDefName::DebandDither, enabled: true })
        } else {
            tonemap
        }
    } else {
        Seq::empty()
    }
}

/// The colour target format of the variant `key`.
pub open spec fn spec_target_format(key: TextModeSpritePipelineKey) -> TargetFormat {
    if key.spec_contains(HDR) {
        TargetFormat::Hdr
    } else {
        TargetFormat::Standard
    }
}

impl TextModeSpritePipelineDescriptor {
    /// Whether this is the descriptor of the variant `key`.
    pub open spec fn describes(&self, key: TextModeSpritePipelineKey) -> bool {
        &&& self.shader_defs@ == spec_shader_defs(key)
        &&& self.format == spec_target_format(key)
        &&& self.instance_layout.array_stride == INSTANCE_STRIDE
        &&& self.instance_layout.attributes@ == instance_attributes()
        &&& self.multisample_count == key.spec_msaa_samples()
    }
}

/// The owner of the fixed parts of the sprite pipeline. The graphics layer
/// keeps the binding layouts; what varies with a key is decided here.
pub struct TextModeSpritePipeline {}

impl TextModeSpritePipeline {
    /// The layout of the instance buffer.
    pub fn instance_layout() -> (layout: VertexBufferLayout)
        ensures
            layout.array_stride == INSTANCE_STRIDE,
            layout.attributes@ == instance_attributes(),
    {
        let mut attributes: Vec<VertexAttribute> = Vec::new();
        attributes.push(
            VertexAttribute { format: VertexFormat::Float32x4, offset: 0, shader_location: 0 },
        );
        attributes.push(
            VertexAttribute { format: VertexFormat::Float32x4, offset: 16, shader_location: 1 },
        );
        attributes.push(
            VertexAttribute { format: VertexFormat::Float32x4, offset: 32, shader_location: 2 },
        );
        attributes.push(
            VertexAttribute { format: VertexFormat::Float32x4, offset: 48, shader_location: 3 },
        );
        attributes.push(
            VertexAttribute { format: VertexFormat::Float32x4, offset: 64, shader_location: 4 },
        );
        attributes.push(
            VertexAttribute { format: VertexFormat::Float32, offset: 80, shader_location: 5 },
        );
        attributes.push(
            VertexAttribute { format: VertexFormat::Float32x4, offset: 84, shader_location: 6 },
        );
        attributes.push(
            VertexAttribute { format: VertexFormat::Float32x3, offset: 100, shader_location: 7 },
        );
        assert(attributes@ =~= instance_attributes());
        VertexBufferLayout { array_stride: INSTANCE_STRIDE, attributes }
    }

    /// Describes the variant of the pipeline that `key` asks for.
    pub fn specialize(&self, key: TextModeSpritePipelineKey) -> (descriptor:
        TextModeSpritePipelineDescriptor)
        ensures
            descriptor.describes(key),
    {
        let mut shader_defs: Vec<ShaderDefVal> = Vec::new();
        if key.contains(TONEMAP_IN_SHADER) {
            shader_defs.push(
                ShaderDefVal::Bool { name: ShaderDefName::TonemapInShader, enabled: true },
            );
            shader_defs.push(
                ShaderDefVal::UInt {
                    name: ShaderDefName::TonemappingLutTextureBindingIndex,
                    value: TONEMAPPING_LUT_TEXTURE_BINDING_INDEX,
                },
            );
            shader_defs.push(
                ShaderDefVal::UInt {
                    name: ShaderDefName::TonemappingLutSamplerBindingIndex,
                    value: TONEMAPPING_LUT_SAMPLER_BINDING_INDEX,
                },
            );
            let method = key.tonemap_method();
            shader_defs.push(
                ShaderDefVal::Bool { name: ShaderDefName::of_method(method), enabled: true },
            );
            // Dithering against banding is part of tone mapping in the
            // shader and cannot run without it.
            if key.contains(DEBAND_DITHER) {
                shader_defs.push(
                    ShaderDefVal::Bool { name: ShaderDefName::DebandDither, enabled: true },
                );
            }
        }
        assert(shader_defs@ =~= spec_shader_defs(key));
        let format = if key.contains(HDR) {
            TargetFormat::Hdr
        } else {
            TargetFormat::Standard
        };
        TextModeSpritePipelineDescriptor {
            shader_defs,
            format,
            instance_layout: Self::instance_layout(),
            multisample_count: key.msaa_samples(),
        }
    }

    /// Two keys that differ at most in the dither flag, and do not ask for
    /// tone mapping in the shader, describe the same variant: dithering is
    /// suppressed.
    pub proof fn lemma_dither_is_suppressed(
        a: TextModeSpritePipelineKey,
        b: TextModeSpritePipelineKey,
    )
        requires
            !a.spec_contains(TONEMAP_IN_SHADER),
            a.bits | DEBAND_DITHER == b.bits | DEBAND_DITHER,
        ensures
            spec_shader_defs(a) == Seq::<ShaderDefVal>::empty(),
            spec_shader_defs(b) == spec_shader_defs(a),
            spec_target_format(b) == spec_target_format(a),
            b.spec_msaa_samples() == a.spec_msaa_samples(),
            forall|d: TextModeSpritePipelineDescriptor| d.describes(a) <==> d.describes(b),
    {
        let x = a.bits;
        let y = b.bits;
        assert((y & 4u32 == 4u32) == (x & 4u32 == 4u32) && (y & 2u32 == 2u32) == (x & 2u32
            == 2u32) && (y >> 29u32) & 7u32 == (x >> 29u32) & 7u32) by (bit_vector)
            requires
                x | 8u32 == y | 8u32,
        ;
    }
}

impl Default for TextModeSpritePipeline {
    fn default() -> (pipeline: TextModeSpritePipeline) {
        TextModeSpritePipeline {  }
    }
}

/// The cache of pipeline variants: every key that was ever specialized has a
/// handle and a descriptor, and keeps both.
pub struct SpecializedTextModePipelines {
    keys: Vec<TextModeSpritePipelineKey>,
    descriptors: Vec<TextModeSpritePipelineDescriptor>,
    slots: HashMap<u32, usize>,
}

/// The handle that `key` has or will get in a cache whose handles, in order,
/// belong to `keys`.
pub open spec fn spec_handle(
    keys: Seq<TextModeSpritePipelineKey>,
    key: TextModeSpritePipelineKey,
) -> int {
    if keys.contains(key) {
        keys.index_of(key)
    } else {
        keys.len() as int
    }
}

/// The keys of a cache after `key` was specialized.
pub open spec fn spec_specialized(
    keys: Seq<TextModeSpritePipelineKey>,
    key: TextModeSpritePipelineKey,
) -> Seq<TextModeSpritePipelineKey> {
    if keys.contains(key) {
        keys
    } else {
        keys.push(key)
    }
}

impl View for SpecializedTextModePipelines {
    type V = Seq<TextModeSpritePipelineKey>;

    /// The keys that have a handle; the handle of a key is its position.
    closed spec fn view(&self) -> Seq<TextModeSpritePipelineKey> {
        self.keys@
    }
}

impl SpecializedTextModePipelines {
    /// No key has two handles, the slot table finds each key's handle, and
    /// every variant has the descriptor of its key.
    pub closed spec fn wf(&self) -> bool {
        &&& self.descriptors@.len() == self.keys@.len()
        &&& forall|i: int|
            0 <= i < self.keys@.len() ==> (#[trigger] self.descriptors@[i]).describes(
                self.keys@[i],
            )
        &&& forall|i: int|
            0 <= i < self.keys@.len() ==> {
                &&& self.slots@.contains_key(#[trigger] self.keys@[i].bits)
                &&& self.slots@[self.keys@[i].bits] == i
            }
        &&& forall|bits: u32| #[trigger]
            self.slots@.contains_key(bits) ==> {
                &&& self.slots@[bits] < self.keys@.len()
                &&& self.keys@[self.slots@[bits] as int].bits == bits
            }
    }

    /// In a well-formed cache no key occurs twice.
    pub proof fn lemma_no_duplicates(&self)
        requires
            self.wf(),
        ensures
            self@.no_duplicates(),
    {
        assert forall|i: int, j: int|
            0 <= i < self.keys@.len() && 0 <= j < self.keys@.len() && i != j implies self.keys@[i]
            != self.keys@[j] by {
            assert(self.slots@[self.keys@[i].bits] == i);
            assert(self.slots@[self.keys@[j].bits] == j);
        }
    }

    /// An empty cache.
    pub fn new() -> (cache: Self)
        ensures
            cache.wf(),
            cache@ == Seq::<TextModeSpritePipelineKey>::empty(),
    {
        SpecializedTextModePipelines {
            keys: Vec::new(),
            descriptors: Vec::new(),
            slots: HashMap::new(),
        }
    }

    /// Number of variants.
    pub fn len(&self) -> (n: usize)
        ensures
            n == self@.len(),
    {
        self.keys.len()
    }

    /// The key of the variant with the handle `handle`.
    pub fn key(&self, handle: usize) -> (key: Option<TextModeSpritePipelineKey>)
        ensures
            key == (if handle < self@.len() {
                Some(self@[handle as int])
            } else {
                None
            }),
    {
        if handle < self.keys.len() {
            Some(self.keys[handle])
        } else {
            None
        }
    }

    /// The descriptor of the variant with the handle `handle`.
    pub fn descriptor(&self, handle: usize) -> (descriptor: Option<
        &TextModeSpritePipelineDescriptor,
    >)
        requires
            self.wf(),
        ensures
            match descriptor {
                Some(d) => handle < self@.len() && d.describes(self@[handle as int]),
                None => handle >= self@.len(),
            },
    {
        if handle < self.descriptors.len() {
            Some(&self.descriptors[handle])
        } else {
            None
        }
    }

    /// The handle of the variant of `pipeline` that `key` asks for. A key
    /// that was specialized before keeps its handle; a new key gets the next
    /// one, and `pipeline` describes its variant.
    pub fn specialize(
        &mut self,
        pipeline: &TextModeSpritePipeline,
        key: TextModeSpritePipelineKey,
    ) -> (handle: usize)
        requires
            old(self).wf(),
        ensures
            final(self).wf(),
            handle == spec_handle(old(self)@, key),
            final(self)@ == spec_specialized(old(self)@, key),
            handle < final(self)@.len(),
            final(self)@[handle as int] == key,
    {
        let found: Option<usize> = match self.slots.get(&key.bits) {
            Some(slot) => Some(*slot),
            None => None,
        };
        proof {
            self.lemma_no_duplicates();
        }
        match found {
            Some(handle) => {
                assert(self.keys@[handle as int] == key);
                assert(self.keys@.contains(key));
                handle
            },
            None => {
                assert(!self.keys@.contains(key)) by {
                    if self.keys@.contains(key) {
                        let i = choose|i: int| 0 <= i < self.keys@.len() && self.keys@[i] == key;
                        assert(self.slots@.contains_key(self.keys@[i].bits));
                    }
                }
                let handle = self.keys.len();
                let descriptor = pipeline.specialize(key);
                self.keys.push(key);
                self.descriptors.push(descriptor);
                self.slots.insert(key.bits, handle);
                handle
            },
        }
    }

    /// Specializing a key a second time returns the handle of the first
    /// time and leaves the cache as it is; the keys that had a handle keep
    /// it; and different keys have different handles.
    pub proof fn lemma_specialize_is_stable(
        keys: Seq<TextModeSpritePipelineKey>,
        key: TextModeSpritePipelineKey,
        other: TextModeSpritePipelineKey,
    )
        requires
            keys.no_duplicates(),
        ensures
            spec_specialized(keys, key).no_duplicates(),
            spec_handle(spec_specialized(keys, key), key) == spec_handle(keys, key),
            spec_specialized(spec_specialized(keys, key), key) == spec_specialized(keys, key),
            keys.contains(other) ==> spec_handle(spec_specialized(keys, key), other) == spec_handle(
                keys,
                other,
            ),
            other != key ==> spec_handle(
                spec_specialized(spec_specialized(keys, key), other),
                other,
            ) != spec_handle(spec_specialized(keys, key), key),
    {
        let after = spec_specialized(keys, key);
        if keys.contains(key) {
            let i = keys.index_of(key);
            assert(0 <= i < keys.len() && keys[i] == key);
        } else {
            assert(after[keys.len() as int] == key);
            assert(after.contains(key));
            let i = after.index_of(key);
            assert(0 <= i < after.len() && after[i] == key);
            if i < keys.len() {
                assert(keys[i] == key);
            }
        }
        if keys.contains(other) {
            let j = keys.index_of(other);
            assert(0 <= j < keys.len() && keys[j] == other);
            assert(after[j] == other);
            let j2 = after.index_of(other);
            assert(0 <= j2 < after.len() && after[j2] == other);
        }
        if other != key {
            let both = spec_specialized(after, other);
            let i = after.index_of(key);
            assert(after.contains(key));
            assert(0 <= i < after.len() && after[i] == key);
            if after.contains(other) {
                let j = after.index_of(other);
                assert(0 <= j < after.len() && after[j] == other);
            } else {
                assert(both[after.len() as int] == other);
                assert(both.contains(other));
                let j = both.index_of(other);
                assert(0 <= j < both.len() && both[j] == other);
                if j < after.len() {
                    assert(after[j] == other);
                }
            }
        }
    }
}

impl Default for SpecializedTextModePipelines {
    fn default() -> (cache: SpecializedTextModePipelines)
        ensures
            cache.wf(),
            cache@ == Seq::<TextModeSpritePipelineKey>::empty(),
    {
        SpecializedTextModePipelines::new()
    }
}

} // verus!

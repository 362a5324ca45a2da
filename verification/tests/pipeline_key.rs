use bevy_text_mode::key::{
    DebandDither, TextModeSpritePipelineKey, Tonemapping, COLORED, DEBAND_DITHER, HDR,
    MSAA_RESERVED_BITS, NONE, TONEMAP_IN_SHADER, TONEMAP_METHOD_ACES_FITTED,
    TONEMAP_METHOD_BLENDER_FILMIC, TONEMAP_METHOD_RESERVED_BITS,
};
use bevy_text_mode::pipeline::{
    ShaderDefName, ShaderDefVal, SpecializedTextModePipelines, TargetFormat, TextModeSpritePipeline,
    VertexFormat,
};

#[test]
fn msaa_samples_are_stored_as_a_logarithm() {
    assert_eq!(TextModeSpritePipelineKey::from_msaa_samples(1).bits(), 0);
    assert_eq!(TextModeSpritePipelineKey::from_msaa_samples(2).bits(), 1 << 29);
    assert_eq!(TextModeSpritePipelineKey::from_msaa_samples(4).bits(), 2 << 29);
    assert_eq!(TextModeSpritePipelineKey::from_msaa_samples(8).bits(), 3 << 29);
    assert_eq!(TextModeSpritePipelineKey::from_msaa_samples(128).bits(), MSAA_RESERVED_BITS);
}

#[test]
fn msaa_samples_round_trip_for_all_eight_levels() {
    for log2 in 0..8u32 {
        let samples = 1u32 << log2;
        let key = TextModeSpritePipelineKey::from_msaa_samples(samples);
        assert_eq!(key.msaa_samples(), samples);
    }
}

#[test]
fn msaa_samples_ignore_the_other_fields() {
    let key = TextModeSpritePipelineKey::from_bits_retain(
        (2 << 29) | HDR | TONEMAP_IN_SHADER | TONEMAP_METHOD_BLENDER_FILMIC,
    );
    assert_eq!(key.msaa_samples(), 4);
}

#[test]
fn from_hdr_sets_only_the_hdr_flag() {
    assert_eq!(TextModeSpritePipelineKey::from_hdr(true).bits(), HDR);
    assert_eq!(TextModeSpritePipelineKey::from_hdr(false).bits(), NONE);
}

#[test]
fn contains_union_and_intersection_work_on_bits() {
    let key = TextModeSpritePipelineKey::from_bits_retain(HDR | DEBAND_DITHER);
    assert!(key.contains(HDR));
    assert!(key.contains(HDR | DEBAND_DITHER));
    assert!(!key.contains(COLORED));
    assert!(!key.contains(HDR | COLORED));
    let other = TextModeSpritePipelineKey::from_bits_retain(COLORED | HDR);
    assert_eq!(key.union(other).bits(), COLORED | HDR | DEBAND_DITHER);
    assert_eq!(key.intersection(other).bits(), HDR);
}

#[test]
fn view_key_of_a_standard_range_view() {
    let key = TextModeSpritePipelineKey::for_view(
        false,
        4,
        Some(Tonemapping::AcesFitted),
        Some(DebandDither::Enabled),
    );
    assert_eq!(
        key.bits(),
        (2 << 29) | TONEMAP_IN_SHADER | TONEMAP_METHOD_ACES_FITTED | DEBAND_DITHER
    );
    assert_eq!(key.tonemap_method(), Tonemapping::AcesFitted);
    assert_eq!(key.msaa_samples(), 4);
}

#[test]
fn view_key_of_an_hdr_view_has_neither_tonemapping_nor_dither() {
    let key = TextModeSpritePipelineKey::for_view(
        true,
        1,
        Some(Tonemapping::Reinhard),
        Some(DebandDither::Enabled),
    );
    assert_eq!(key.bits(), HDR);
}

#[test]
fn view_key_without_operator_has_no_in_shader_flag() {
    let key = TextModeSpritePipelineKey::for_view(false, 1, None, Some(DebandDither::Disabled));
    assert_eq!(key.bits(), NONE);
    let key = TextModeSpritePipelineKey::for_view(false, 1, None, None);
    assert_eq!(key.bits(), NONE);
}

#[test]
fn view_key_drops_a_request_for_dither_without_an_operator() {
    let key = TextModeSpritePipelineKey::for_view(false, 2, None, Some(DebandDither::Enabled));
    assert_eq!(key.bits(), 1 << 29);
    assert!(!key.contains(DEBAND_DITHER));
    let key = TextModeSpritePipelineKey::for_view(
        false,
        2,
        Some(Tonemapping::Disabled),
        Some(DebandDither::Enabled),
    );
    assert_eq!(key.bits(), (1 << 29) | TONEMAP_IN_SHADER | DEBAND_DITHER);
    let key = TextModeSpritePipelineKey::for_view(
        false,
        2,
        Some(Tonemapping::Disabled),
        Some(DebandDither::Disabled),
    );
    assert_eq!(key.bits(), (1 << 29) | TONEMAP_IN_SHADER);
}

#[test]
fn every_operator_round_trips_through_its_field() {
    let all = [
        Tonemapping::Disabled,
        Tonemapping::Reinhard,
        Tonemapping::ReinhardLuminance,
        Tonemapping::AcesFitted,
        Tonemapping::AgX,
        Tonemapping::SomewhatBoringDisplayTransform,
        Tonemapping::TonyMcMapface,
        Tonemapping::BlenderFilmic,
    ];
    for (id, method) in all.iter().enumerate() {
        assert_eq!(method.method_bits(), (id as u32) << 26);
        assert_eq!(method.method_bits() & !TONEMAP_METHOD_RESERVED_BITS, 0);
        assert_eq!(Tonemapping::from_method_bits(method.method_bits()), *method);
        let key = TextModeSpritePipelineKey::for_view(false, 2, Some(*method), None);
        assert_eq!(key.tonemap_method(), *method);
        assert!(key.contains(TONEMAP_IN_SHADER));
    }
}

#[test]
fn specialize_lists_the_tonemapping_definitions_in_order() {
    let pipeline = TextModeSpritePipeline {};
    let key = TextModeSpritePipelineKey::for_view(
        false,
        4,
        Some(Tonemapping::AgX),
        Some(DebandDither::Enabled),
    );
    let descriptor = pipeline.specialize(key);
    assert_eq!(
        descriptor.shader_defs,
        vec![
            ShaderDefVal::Bool { name: ShaderDefName::TonemapInShader, enabled: true },
            ShaderDefVal::UInt { name: ShaderDefName::TonemappingLutTextureBindingIndex, value: 1 },
            ShaderDefVal::UInt { name: ShaderDefName::TonemappingLutSamplerBindingIndex, value: 2 },
            ShaderDefVal::Bool { name: ShaderDefName::TonemapMethodAgx, enabled: true },
            ShaderDefVal::Bool { name: ShaderDefName::DebandDither, enabled: true },
        ]
    );
    assert_eq!(descriptor.format, TargetFormat::Standard);
    assert_eq!(descriptor.multisample_count, 4);
}

#[test]
fn specialize_without_dither_omits_the_dither_definition() {
    let pipeline = TextModeSpritePipeline {};
    let key = TextModeSpritePipelineKey::for_view(false, 1, Some(Tonemapping::Disabled), None);
    let descriptor = pipeline.specialize(key);
    assert_eq!(descriptor.shader_defs.len(), 4);
    assert_eq!(
        descriptor.shader_defs[3],
        ShaderDefVal::Bool { name: ShaderDefName::TonemapMethodNone, enabled: true }
    );
}

#[test]
fn specialize_of_an_hdr_key_targets_the_hdr_format() {
    let pipeline = TextModeSpritePipeline {};
    let descriptor = pipeline.specialize(TextModeSpritePipelineKey::from_hdr(true));
    assert_eq!(descriptor.format, TargetFormat::Hdr);
    assert!(descriptor.shader_defs.is_empty());
    assert_eq!(descriptor.multisample_count, 1);
}

#[test]
fn dither_without_in_shader_tonemapping_is_suppressed() {
    let pipeline = TextModeSpritePipeline {};
    let plain = TextModeSpritePipelineKey::from_bits_retain(1 << 29);
    let dithered = TextModeSpritePipelineKey::from_bits_retain((1 << 29) | DEBAND_DITHER);
    let a = pipeline.specialize(plain);
    let b = pipeline.specialize(dithered);
    assert!(b.shader_defs.is_empty());
    assert_eq!(a.shader_defs, b.shader_defs);
    assert_eq!(a.format, b.format);
    assert_eq!(a.multisample_count, b.multisample_count);
    assert_eq!(a.instance_layout.array_stride, b.instance_layout.array_stride);
    assert_eq!(a.instance_layout.attributes, b.instance_layout.attributes);
}

#[test]
fn instance_layout_fills_the_record_without_gaps() {
    let layout = TextModeSpritePipeline::instance_layout();
    assert_eq!(layout.array_stride, 112);
    assert_eq!(layout.attributes.len(), 8);
    let mut offset = 0u64;
    for (location, attribute) in layout.attributes.iter().enumerate() {
        assert_eq!(attribute.shader_location, location as u32);
        assert_eq!(attribute.offset, offset);
        offset += attribute.format.size();
    }
    assert_eq!(offset, 112);
    assert_eq!(layout.attributes[5].format, VertexFormat::Float32);
    assert_eq!(layout.attributes[5].offset, 80);
    assert_eq!(layout.attributes[7].format, VertexFormat::Float32x3);
    assert_eq!(layout.attributes[7].offset, 100);
}

#[test]
fn shader_definition_names_are_spelled_as_in_the_shader() {
    assert_eq!(ShaderDefName::TonemapInShader.as_str(), "TONEMAP_IN_SHADER");
    assert_eq!(
        ShaderDefName::TonemappingLutTextureBindingIndex.as_str(),
        "TONEMAPPING_LUT_TEXTURE_BINDING_INDEX"
    );
    assert_eq!(
        ShaderDefName::TonemappingLutSamplerBindingIndex.as_str(),
        "TONEMAPPING_LUT_SAMPLER_BINDING_INDEX"
    );
    assert_eq!(
        ShaderDefName::of_method(Tonemapping::SomewhatBoringDisplayTransform).as_str(),
        "TONEMAP_METHOD_SOMEWHAT_BORING_DISPLAY_TRANSFORM"
    );
    assert_eq!(
        ShaderDefName::of_method(Tonemapping::TonyMcMapface).as_str(),
        "TONEMAP_METHOD_TONY_MC_MAPFACE"
    );
    assert_eq!(ShaderDefName::DebandDither.as_str(), "DEBAND_DITHER");
}

#[test]
fn specializing_a_key_twice_returns_the_same_handle() {
    let pipeline = TextModeSpritePipeline {};
    let mut pipelines = SpecializedTextModePipelines::new();
    let key = TextModeSpritePipelineKey::for_view(false, 4, Some(Tonemapping::Reinhard), None);
    let first = pipelines.specialize(&pipeline, key);
    let second = pipelines.specialize(&pipeline, key);
    assert_eq!(first, second);
    assert_eq!(pipelines.len(), 1);
    assert_eq!(pipelines.key(first), Some(key));
    let descriptor = pipelines.descriptor(first).unwrap();
    assert_eq!(descriptor.multisample_count, 4);
    assert_eq!(descriptor.format, TargetFormat::Standard);
    assert_eq!(descriptor.shader_defs.len(), 4);
    assert_eq!(descriptor.shader_defs, pipeline.specialize(key).shader_defs);
    assert!(pipelines.descriptor(1).is_none());
}

#[test]
fn different_keys_get_different_handles_that_stay() {
    let pipeline = TextModeSpritePipeline {};
    let mut pipelines = SpecializedTextModePipelines::default();
    let a = TextModeSpritePipelineKey::from_hdr(true);
    let b = TextModeSpritePipelineKey::from_hdr(false);
    let c = TextModeSpritePipelineKey::from_msaa_samples(4);
    let ha = pipelines.specialize(&pipeline, a);
    let hb = pipelines.specialize(&pipeline, b);
    let hc = pipelines.specialize(&pipeline, c);
    assert_eq!((ha, hb, hc), (0, 1, 2));
    assert_eq!(pipelines.specialize(&pipeline, b), hb);
    assert_eq!(pipelines.specialize(&pipeline, a), ha);
    assert_eq!(pipelines.specialize(&pipeline, c), hc);
    assert_eq!(pipelines.len(), 3);
    assert_eq!(pipelines.key(3), None);
}

use bevy_text_mode::extract::TextModeExtractedSprite;
use bevy_text_mode::image::{ImageId, ImageSize};
use bevy_text_mode::instance::{
    QuadSize, QuarterTurn, TextModeSpriteInstance, TextModeSpriteQuad, UvOffsetScale, Vec4,
    INSTANCE_STRIDE, INSTANCE_WORDS,
};
use bevy_text_mode::sprite::{
    Anchor, GlobalTransform, LinearRgba, TexelRect, TextModeSprite, Vec2, Vec3, F32_HALF,
    F32_NEG_HALF, F32_ONE, F32_ZERO,
};

fn bits(value: f32) -> u32 {
    value.to_bits()
}

fn transform_at(z: f32) -> GlobalTransform {
    GlobalTransform {
        x_axis: Vec3 { x: bits(1.0), y: bits(0.0), z: bits(0.0) },
        y_axis: Vec3 { x: bits(0.0), y: bits(1.0), z: bits(0.0) },
        z_axis: Vec3 { x: bits(0.0), y: bits(0.0), z: bits(1.0) },
        translation: Vec3 { x: bits(0.0), y: bits(0.0), z: bits(z) },
    }
}

fn plain_sprite(image: ImageId) -> TextModeExtractedSprite {
    TextModeExtractedSprite {
        transform: transform_at(0.0),
        bg: LinearRgba::white(),
        fg: LinearRgba::black(),
        alpha: F32_ONE,
        custom_size: None,
        rect: None,
        image_handle_id: image,
        flip_x: false,
        flip_y: false,
        rotation: 0,
        anchor: Anchor::Center.as_vec(),
        original_entity: None,
    }
}

#[test]
fn float_constants_are_the_bit_patterns_they_name() {
    assert_eq!(F32_ZERO, bits(0.0));
    assert_eq!(F32_HALF, bits(0.5));
    assert_eq!(F32_NEG_HALF, bits(-0.5));
    assert_eq!(F32_ONE, bits(1.0));
}

#[test]
fn default_sprite_is_white_on_black_and_opaque() {
    let sprite = TextModeSprite::default();
    assert_eq!(
        sprite.bg,
        LinearRgba { red: F32_ONE, green: F32_ONE, blue: F32_ONE, alpha: F32_ONE }
    );
    assert_eq!(
        sprite.fg,
        LinearRgba { red: F32_ZERO, green: F32_ZERO, blue: F32_ZERO, alpha: F32_ONE }
    );
    assert_eq!(sprite.alpha, bits(1.0));
    assert!(!sprite.flip_x);
    assert!(!sprite.flip_y);
    assert_eq!(sprite.rotation, 0);
    assert_eq!(sprite.custom_size, None);
    assert_eq!(sprite.rect, None);
    assert_eq!(sprite.anchor, Anchor::Center);
}

#[test]
fn named_anchors_are_half_units_about_the_centre() {
    assert_eq!(Anchor::Center.as_vec(), Vec2 { x: bits(0.0), y: bits(0.0) });
    assert_eq!(Anchor::BottomLeft.as_vec(), Vec2 { x: bits(-0.5), y: bits(-0.5) });
    assert_eq!(Anchor::BottomCenter.as_vec(), Vec2 { x: bits(0.0), y: bits(-0.5) });
    assert_eq!(Anchor::BottomRight.as_vec(), Vec2 { x: bits(0.5), y: bits(-0.5) });
    assert_eq!(Anchor::CenterLeft.as_vec(), Vec2 { x: bits(-0.5), y: bits(0.0) });
    assert_eq!(Anchor::CenterRight.as_vec(), Vec2 { x: bits(0.5), y: bits(0.0) });
    assert_eq!(Anchor::TopLeft.as_vec(), Vec2 { x: bits(-0.5), y: bits(0.5) });
    assert_eq!(Anchor::TopCenter.as_vec(), Vec2 { x: bits(0.0), y: bits(0.5) });
    assert_eq!(Anchor::TopRight.as_vec(), Vec2 { x: bits(0.5), y: bits(0.5) });
    assert_eq!(
        Anchor::Custom { x: bits(0.25), y: bits(-2.0) }.as_vec(),
        Vec2 { x: bits(0.25), y: bits(-2.0) }
    );
}

#[test]
fn full_uv_is_the_unit_rectangle_with_y_flipped() {
    let uv = UvOffsetScale::full();
    assert_eq!((uv.offset_x(), uv.offset_y()), (0, 1));
    assert_eq!((uv.scale_x(), uv.scale_y()), (1, -1));
    assert_eq!((uv.denom_x, uv.denom_y), (1, 1));
}

#[test]
fn uv_of_a_rectangle_maps_it_against_the_image_size() {
    let rect = TexelRect { min_x: 8, min_y: 0, max_x: 16, max_y: 8 };
    let uv = UvOffsetScale::from_rect(rect, ImageSize { width: 24, height: 8 });
    assert_eq!((uv.offset_x(), uv.offset_y()), (8, 8));
    assert_eq!((uv.scale_x(), uv.scale_y()), (8, -8));
    assert_eq!((uv.denom_x, uv.denom_y), (24, 8));
}

#[test]
fn flipped_rectangle_on_a_24_by_8_image() {
    let rect = TexelRect { min_x: 8, min_y: 0, max_x: 16, max_y: 8 };
    let image = ImageSize { width: 24, height: 8 };
    let unflipped = UvOffsetScale::resolve(Some(rect), image, false, false);
    let flipped = UvOffsetScale::resolve(Some(rect), image, true, false);
    assert_eq!(flipped.offset_x(), 16);
    assert_eq!(flipped.denom_x, 24);
    assert_eq!(flipped.scale_x(), -unflipped.scale_x());
    assert_eq!(flipped.scale_x(), -8);
    assert_eq!(flipped.offset_x() as i128, unflipped.offset_x() as i128 + unflipped.scale_x());
    assert_eq!(flipped.offset_y(), unflipped.offset_y());
    assert_eq!(flipped.scale_y(), unflipped.scale_y());
    let expected = 16.0f32 / 24.0f32;
    assert_eq!(flipped.offset_x() as f32 / flipped.denom_x as f32, expected);
}

#[test]
fn flip_y_moves_the_offset_by_the_scale() {
    let rect = TexelRect { min_x: 0, min_y: 8, max_x: 8, max_y: 24 };
    let image = ImageSize { width: 8, height: 32 };
    let uv = UvOffsetScale::from_rect(rect, image);
    let flipped = uv.flip_y();
    assert_eq!(flipped.offset_y(), 8);
    assert_eq!(flipped.scale_y(), 16);
    assert_eq!(flipped.offset_x(), uv.offset_x());
    assert_eq!(flipped.scale_x(), uv.scale_x());
}

#[test]
fn flipping_twice_restores_the_mapping() {
    let rect = TexelRect { min_x: 3, min_y: -5, max_x: 40, max_y: 9 };
    let uv = UvOffsetScale::from_rect(rect, ImageSize { width: 64, height: 16 });
    assert_eq!(uv.flip_x().flip_x(), uv);
    assert_eq!(uv.flip_y().flip_y(), uv);
    assert_eq!(uv.flip_x().flip_y(), uv.flip_y().flip_x());
    assert_ne!(uv.flip_x(), uv);
    let full = UvOffsetScale::full();
    assert_eq!(full.flip_x().flip_x(), full);
    assert_eq!(full.flip_x().offset_x(), 1);
    assert_eq!(full.flip_x().scale_x(), -1);
}

#[test]
fn uv_scale_does_not_wrap_at_the_ends_of_the_range() {
    let rect = TexelRect { min_x: i64::MIN, min_y: i64::MAX, max_x: i64::MAX, max_y: i64::MIN };
    let uv = UvOffsetScale::from_rect(rect, ImageSize { width: 1, height: 1 });
    assert_eq!(uv.scale_x(), i64::MAX as i128 - i64::MIN as i128);
    assert_eq!(uv.scale_y(), i64::MAX as i128 - i64::MIN as i128);
    assert_eq!(rect.width(), i64::MAX as i128 - i64::MIN as i128);
    assert_eq!(rect.height(), i64::MIN as i128 - i64::MAX as i128);
}

#[test]
fn quad_size_prefers_custom_size_then_rectangle_then_image() {
    let image = ImageSize { width: 56, height: 8 };
    let rect = TexelRect { min_x: 8, min_y: 0, max_x: 16, max_y: 8 };
    let custom = Vec2 { x: bits(2.0), y: bits(3.0) };
    assert_eq!(QuadSize::resolve(image, None, None), QuadSize::Texels { width: 56, height: 8 });
    assert_eq!(
        QuadSize::resolve(image, Some(rect), None),
        QuadSize::Texels { width: 8, height: 8 }
    );
    assert_eq!(
        QuadSize::resolve(image, Some(rect), Some(custom)),
        QuadSize::Custom { size: custom }
    );
    assert_eq!(QuadSize::resolve(image, None, Some(custom)), QuadSize::Custom { size: custom });
}

#[test]
fn quad_of_a_centred_unrotated_sprite() {
    let image = ImageId::Uuid { uuid: 7 };
    let sprite = plain_sprite(image);
    let quad = TextModeSpriteQuad::new(&sprite, ImageSize { width: 8, height: 8 });
    assert_eq!(quad.rotation, 0);
    assert_eq!(quad.anchor, Vec2 { x: bits(0.0), y: bits(0.0) });
    assert_eq!(quad.quad_size, QuadSize::Texels { width: 8, height: 8 });
    assert_eq!(quad.uv_offset_scale, UvOffsetScale::full());
    assert_eq!(quad.transform, sprite.transform);
    assert_eq!(quad.bg, sprite.bg);
    assert_eq!(quad.fg, sprite.fg);
    assert_eq!(quad.alpha, sprite.alpha);
}

#[test]
fn quad_rotation_counts_quarter_turns_modulo_four() {
    let image = ImageId::Uuid { uuid: 7 };
    let size = ImageSize { width: 8, height: 8 };
    for rotation in 0..=255u8 {
        let mut sprite = plain_sprite(image);
        sprite.rotation = rotation;
        assert_eq!(TextModeSpriteQuad::new(&sprite, size).rotation, rotation % 4);
    }
}

#[test]
fn quad_applies_flips_after_the_rectangle() {
    let image = ImageId::Uuid { uuid: 7 };
    let mut sprite = plain_sprite(image);
    sprite.rect = Some(TexelRect { min_x: 8, min_y: 0, max_x: 16, max_y: 8 });
    sprite.flip_x = true;
    sprite.flip_y = true;
    let quad = TextModeSpriteQuad::new(&sprite, ImageSize { width: 24, height: 8 });
    assert_eq!(quad.uv_offset_scale.offset_x(), 16);
    assert_eq!(quad.uv_offset_scale.scale_x(), -8);
    assert_eq!(quad.uv_offset_scale.offset_y(), 0);
    assert_eq!(quad.uv_offset_scale.scale_y(), 8);
    assert_eq!(quad.quad_size, QuadSize::Texels { width: 8, height: 8 });
}

#[test]
fn instance_record_holds_the_transposed_matrix() {
    let transform = GlobalTransform {
        x_axis: Vec3 { x: 11, y: 12, z: 13 },
        y_axis: Vec3 { x: 21, y: 22, z: 23 },
        z_axis: Vec3 { x: 31, y: 32, z: 33 },
        translation: Vec3 { x: 41, y: 42, z: 43 },
    };
    let bg = LinearRgba { red: 1, green: 2, blue: 3, alpha: 4 };
    let fg = LinearRgba { red: 5, green: 6, blue: 7, alpha: 8 };
    let uv = Vec4 { x: 51, y: 52, z: 53, w: 54 };
    let instance = TextModeSpriteInstance::from(&transform, &bg, &fg, 9, &uv);
    assert_eq!(instance.i_model_transpose_0, Vec4 { x: 11, y: 21, z: 31, w: 41 });
    assert_eq!(instance.i_model_transpose_1, Vec4 { x: 12, y: 22, z: 32, w: 42 });
    assert_eq!(instance.i_model_transpose_2, Vec4 { x: 13, y: 23, z: 33, w: 43 });
    assert_eq!(instance.i_bg, Vec4 { x: 1, y: 2, z: 3, w: 4 });
    assert_eq!(instance.i_fg, Vec4 { x: 5, y: 6, z: 7, w: 8 });
    assert_eq!(instance.i_alpha, 9);
    assert_eq!(instance.i_uv, uv);
    assert_eq!(instance.i_pad, Vec3 { x: 0, y: 0, z: 0 });
    assert_eq!(
        instance.to_words(),
        [
            11, 21, 31, 41, 12, 22, 32, 42, 13, 23, 33, 43, 1, 2, 3, 4, 5, 6, 7, 8, 9, 51, 52, 53,
            54, 0, 0, 0
        ]
    );
}

#[test]
fn instance_record_is_112_bytes() {
    assert_eq!(INSTANCE_WORDS, 28);
    assert_eq!(INSTANCE_STRIDE, 112);
    let instance = TextModeSpriteInstance::from(
        &transform_at(1.0),
        &LinearRgba::white(),
        &LinearRgba::black(),
        F32_ONE,
        &Vec4 { x: 0, y: 0, z: 0, w: 0 },
    );
    assert_eq!(instance.to_words().len() * 4, INSTANCE_STRIDE as usize);
}

fn corner(quad: &TextModeSpriteQuad, u: f32, v: f32) -> (f32, f32) {
    let (width, height) = match quad.quad_size {
        QuadSize::Texels { width, height } => (width as f32, height as f32),
        QuadSize::Custom { size } => (f32::from_bits(size.x), f32::from_bits(size.y)),
    };
    let turn = quad.quarter_turn();
    let (cos, sin) = (f32::from(turn.cos), f32::from(turn.sin));
    let (x, y) = ((u - 0.5) * width, (v - 0.5) * height);
    let anchor = (f32::from_bits(quad.anchor.x), f32::from_bits(quad.anchor.y));
    (cos * x - sin * y - anchor.0 * width, sin * x + cos * y - anchor.1 * height)
}

#[test]
fn quarter_turns_have_exact_cosines_and_sines() {
    assert_eq!(QuarterTurn::of_rotation(0), QuarterTurn { cos: 1, sin: 0 });
    assert_eq!(QuarterTurn::of_rotation(1), QuarterTurn { cos: 0, sin: 1 });
    assert_eq!(QuarterTurn::of_rotation(2), QuarterTurn { cos: -1, sin: 0 });
    assert_eq!(QuarterTurn::of_rotation(3), QuarterTurn { cos: 0, sin: -1 });
    for rotation in 0..=255u8 {
        assert_eq!(QuarterTurn::of_rotation(rotation), QuarterTurn::of_rotation(rotation % 4));
    }
}

#[test]
fn centred_unrotated_quad_has_its_corners_at_half_its_size() {
    let image = ImageId::Uuid { uuid: 7 };
    let mut sprite = plain_sprite(image);
    sprite.custom_size = Some(Vec2 { x: bits(3.0), y: bits(5.0) });
    let quad = TextModeSpriteQuad::new(&sprite, ImageSize { width: 8, height: 8 });
    assert_eq!(corner(&quad, 0.0, 0.0), (-1.5, -2.5));
    assert_eq!(corner(&quad, 1.0, 0.0), (1.5, -2.5));
    assert_eq!(corner(&quad, 0.0, 1.0), (-1.5, 2.5));
    assert_eq!(corner(&quad, 1.0, 1.0), (1.5, 2.5));

    let texels = TextModeSpriteQuad::new(&plain_sprite(image), ImageSize { width: 8, height: 6 });
    assert_eq!(corner(&texels, 0.0, 0.0), (-4.0, -3.0));
    assert_eq!(corner(&texels, 1.0, 1.0), (4.0, 3.0));
}

#[test]
fn turned_quad_keeps_its_centre() {
    let image = ImageId::Uuid { uuid: 7 };
    let mut sprite = plain_sprite(image);
    sprite.rotation = 1;
    sprite.anchor = Anchor::BottomLeft.as_vec();
    let quad = TextModeSpriteQuad::new(&sprite, ImageSize { width: 8, height: 4 });
    assert_eq!(corner(&quad, 0.0, 0.0), (6.0, -2.0));
    assert_eq!(corner(&quad, 1.0, 0.0), (6.0, 6.0));
    assert_eq!(corner(&quad, 1.0, 1.0), (2.0, 6.0));
    assert_eq!(corner(&quad, 0.0, 1.0), (2.0, -2.0));
}

use bevy_text_mode::extract::{
    extract_text_mode_sprite_events, extract_text_mode_sprites, resolve_rect,
    ExtractedTextModeSprites, TextModeExtractedSprite, TextModeSpriteAssetEvents,
    TextModeSpriteSource, TextureAtlas, TextureAtlasLayout,
};
use bevy_text_mode::image::{AssetEvent, ImageId};
use bevy_text_mode::slices::{ComputedTextModeTextureSlices, TextModeTextureSlice};
use bevy_text_mode::sprite::{
    Anchor, EntityId, GlobalTransform, LinearRgba, Rect, TexelRect, TextModeSprite, URect, Vec2,
    Vec3,
};

fn flat_transform(x: f32, y: f32, z: f32) -> GlobalTransform {
    GlobalTransform {
        x_axis: Vec3 { x: 1.0f32.to_bits(), y: 0, z: 0 },
        y_axis: Vec3 { x: 0, y: 1.0f32.to_bits(), z: 0 },
        z_axis: Vec3 { x: 0, y: 0, z: 1.0f32.to_bits() },
        translation: Vec3 { x: x.to_bits(), y: y.to_bits(), z: z.to_bits() },
    }
}

fn entity(index: u32) -> EntityId {
    EntityId { index, generation: 1 }
}

fn strip_of_seven() -> TextureAtlasLayout {
    let mut textures = Vec::new();
    for i in 0..7u32 {
        textures.push(URect { min_x: 8 * i, min_y: 0, max_x: 8 * i + 8, max_y: 8 });
    }
    TextureAtlasLayout { textures }
}

fn source(index: u32, image: ImageId) -> TextModeSpriteSource {
    TextModeSpriteSource {
        entity: entity(index),
        view_visibility: true,
        sprite: TextModeSprite::default(),
        transform: flat_transform(0.0, 0.0, index as f32),
        image,
        atlas: None,
        slices: None,
    }
}

#[test]
fn entity_bits_hold_generation_above_slot() {
    assert_eq!(EntityId { index: 5, generation: 0 }.to_bits(), 5);
    assert_eq!(EntityId { index: 5, generation: 2 }.to_bits(), (2u64 << 32) | 5);
    assert_eq!(EntityId { index: u32::MAX, generation: u32::MAX }.to_bits(), u64::MAX);
}

#[test]
fn rectangle_resolution_follows_the_four_cases() {
    let region = URect { min_x: 16, min_y: 8, max_x: 24, max_y: 16 };
    let rect = Rect { min_x: 1, min_y: 2, max_x: 5, max_y: 7 };
    assert_eq!(resolve_rect(None, None), None);
    assert_eq!(
        resolve_rect(None, Some(rect)),
        Some(TexelRect { min_x: 1, min_y: 2, max_x: 5, max_y: 7 })
    );
    assert_eq!(
        resolve_rect(Some(region), None),
        Some(TexelRect { min_x: 16, min_y: 8, max_x: 24, max_y: 16 })
    );
    assert_eq!(
        resolve_rect(Some(region), Some(rect)),
        Some(TexelRect { min_x: 17, min_y: 10, max_x: 21, max_y: 15 })
    );
}

#[test]
fn rectangle_resolution_does_not_wrap() {
    let region = URect { min_x: u32::MAX, min_y: u32::MAX, max_x: u32::MAX, max_y: u32::MAX };
    let rect = Rect { min_x: i32::MAX, min_y: i32::MIN, max_x: i32::MAX, max_y: i32::MIN };
    assert_eq!(
        resolve_rect(Some(region), Some(rect)),
        Some(TexelRect {
            min_x: i32::MAX as i64 + u32::MAX as i64,
            min_y: i32::MIN as i64 + u32::MAX as i64,
            max_x: i32::MAX as i64 + u32::MAX as i64,
            max_y: i32::MIN as i64 + u32::MAX as i64,
        })
    );
}

#[test]
fn atlas_region_is_looked_up_by_index() {
    let layouts = vec![strip_of_seven()];
    let atlas = TextureAtlas { layout: Some(0), index: 3 };
    assert_eq!(
        atlas.texture_rect(&layouts),
        Some(URect { min_x: 24, min_y: 0, max_x: 32, max_y: 8 })
    );
    let unloaded = TextureAtlas { layout: None, index: 3 };
    assert_eq!(unloaded.texture_rect(&layouts), None);
}

#[test]
fn events_of_the_previous_frame_are_replaced() {
    let a = ImageId::Uuid { uuid: 1 };
    let b = ImageId::Index { generation: 0, index: 4 };
    let mut events = TextModeSpriteAssetEvents::default();
    assert!(events.images.is_empty());
    extract_text_mode_sprite_events(
        &mut events,
        &vec![AssetEvent::Added { id: a }, AssetEvent::Modified { id: b }],
    );
    assert_eq!(events.images, vec![AssetEvent::Added { id: a }, AssetEvent::Modified { id: b }]);
    extract_text_mode_sprite_events(&mut events, &vec![AssetEvent::Removed { id: a }]);
    assert_eq!(events.images, vec![AssetEvent::Removed { id: a }]);
    extract_text_mode_sprite_events(&mut events, &Vec::new());
    assert!(events.images.is_empty());
}

#[test]
fn only_modified_removed_and_unused_invalidate() {
    let id = ImageId::Uuid { uuid: 9 };
    assert_eq!(AssetEvent::Added { id }.invalidated(), None);
    assert_eq!(AssetEvent::LoadedWithDependencies { id }.invalidated(), None);
    assert_eq!(AssetEvent::Modified { id }.invalidated(), Some(id));
    assert_eq!(AssetEvent::Removed { id }.invalidated(), Some(id));
    assert_eq!(AssetEvent::Unused { id }.invalidated(), Some(id));
}

#[test]
fn extracted_sprites_store_one_sprite_per_key() {
    let image = ImageId::Uuid { uuid: 1 };
    let mut sprites = ExtractedTextModeSprites::new();
    assert_eq!(sprites.len(), 0);
    assert!(sprites.get(entity(1)).is_none());
    let first = TextModeExtractedSprite {
        transform: flat_transform(0.0, 0.0, 1.0),
        bg: LinearRgba::white(),
        fg: LinearRgba::black(),
        alpha: 1.0f32.to_bits(),
        custom_size: None,
        rect: None,
        image_handle_id: image,
        flip_x: false,
        flip_y: false,
        rotation: 0,
        anchor: Anchor::Center.as_vec(),
        original_entity: None,
    };
    let mut second = first;
    second.rotation = 3;
    sprites.insert(entity(1), first);
    sprites.insert(entity(2), first);
    sprites.insert(entity(1), second);
    assert_eq!(sprites.len(), 2);
    assert_eq!(sprites.get(entity(1)), Some(&second));
    assert_eq!(sprites.get(entity(2)), Some(&first));
    assert_eq!(sprites.entry(0), (entity(1), &second));
    assert_eq!(sprites.entry(1), (entity(2), &first));
    assert!(sprites.get(EntityId { index: 1, generation: 2 }).is_none());
    sprites.clear();
    assert_eq!(sprites.len(), 0);
    assert!(sprites.get(entity(1)).is_none());
}

#[test]
fn source_entity_is_the_original_entity_where_there_is_one() {
    let image = ImageId::Uuid { uuid: 1 };
    let mut sprite = TextModeExtractedSprite {
        transform: flat_transform(0.0, 0.0, 2.5),
        bg: LinearRgba::white(),
        fg: LinearRgba::black(),
        alpha: 1.0f32.to_bits(),
        custom_size: None,
        rect: None,
        image_handle_id: image,
        flip_x: false,
        flip_y: false,
        rotation: 0,
        anchor: Anchor::Center.as_vec(),
        original_entity: None,
    };
    assert_eq!(sprite.source_entity(entity(4)), entity(4));
    sprite.original_entity = Some(entity(9));
    assert_eq!(sprite.source_entity(entity(4)), entity(9));
    assert_eq!(sprite.depth(), 2.5f32.to_bits());
}

#[test]
fn invisible_entities_are_not_extracted() {
    let image = ImageId::Uuid { uuid: 1 };
    let mut hidden = source(1, image);
    hidden.view_visibility = false;
    let shown = source(2, image);
    let mut extracted = ExtractedTextModeSprites::new();
    extract_text_mode_sprites(&mut extracted, &Vec::new(), &vec![hidden, shown]);
    assert_eq!(extracted.len(), 1);
    assert!(extracted.get(entity(1)).is_none());
    assert!(extracted.get(entity(2)).is_some());
}

#[test]
fn invisible_entity_with_a_bad_atlas_index_is_skipped() {
    let image = ImageId::Uuid { uuid: 1 };
    let mut hidden = source(1, image);
    hidden.view_visibility = false;
    hidden.atlas = Some(TextureAtlas { layout: Some(0), index: 99 });
    let mut extracted = ExtractedTextModeSprites::new();
    extract_text_mode_sprites(&mut extracted, &vec![strip_of_seven()], &vec![hidden]);
    assert_eq!(extracted.len(), 0);
}

#[test]
fn extraction_copies_the_authored_state() {
    let image = ImageId::Index { generation: 3, index: 7 };
    let mut authored = source(5, image);
    authored.sprite.bg = LinearRgba { red: 1, green: 2, blue: 3, alpha: 4 };
    authored.sprite.fg = LinearRgba { red: 5, green: 6, blue: 7, alpha: 8 };
    authored.sprite.alpha = 0.25f32.to_bits();
    authored.sprite.flip_x = true;
    authored.sprite.rotation = 6;
    authored.sprite.custom_size = Some(Vec2 { x: 2.0f32.to_bits(), y: 4.0f32.to_bits() });
    authored.sprite.anchor = Anchor::TopLeft;
    let transform = authored.transform;
    let mut extracted = ExtractedTextModeSprites::new();
    extract_text_mode_sprites(&mut extracted, &Vec::new(), &vec![authored]);
    assert_eq!(
        extracted.get(entity(5)),
        Some(&TextModeExtractedSprite {
            transform,
            bg: LinearRgba { red: 1, green: 2, blue: 3, alpha: 4 },
            fg: LinearRgba { red: 5, green: 6, blue: 7, alpha: 8 },
            alpha: 0.25f32.to_bits(),
            custom_size: Some(Vec2 { x: 2.0f32.to_bits(), y: 4.0f32.to_bits() }),
            rect: None,
            image_handle_id: image,
            flip_x: true,
            flip_y: false,
            rotation: 6,
            anchor: Vec2 { x: (-0.5f32).to_bits(), y: 0.5f32.to_bits() },
            original_entity: None,
        })
    );
}

#[test]
fn atlas_region_and_rectangle_are_summed() {
    let image = ImageId::Uuid { uuid: 1 };
    let mut with_both = source(1, image);
    with_both.atlas = Some(TextureAtlas { layout: Some(0), index: 2 });
    with_both.sprite.rect = Some(Rect { min_x: 1, min_y: 1, max_x: 7, max_y: 7 });
    let mut with_atlas = source(2, image);
    with_atlas.atlas = Some(TextureAtlas { layout: Some(0), index: 6 });
    let mut with_rect = source(3, image);
    with_rect.sprite.rect = Some(Rect { min_x: 8, min_y: 0, max_x: 16, max_y: 8 });
    let with_neither = source(4, image);
    let mut extracted = ExtractedTextModeSprites::new();
    extract_text_mode_sprites(
        &mut extracted,
        &vec![strip_of_seven()],
        &vec![with_both, with_atlas, with_rect, with_neither],
    );
    assert_eq!(
        extracted.get(entity(1)).unwrap().rect,
        Some(TexelRect { min_x: 17, min_y: 1, max_x: 23, max_y: 7 })
    );
    assert_eq!(
        extracted.get(entity(2)).unwrap().rect,
        Some(TexelRect { min_x: 48, min_y: 0, max_x: 56, max_y: 8 })
    );
    assert_eq!(
        extracted.get(entity(3)).unwrap().rect,
        Some(TexelRect { min_x: 8, min_y: 0, max_x: 16, max_y: 8 })
    );
    assert_eq!(extracted.get(entity(4)).unwrap().rect, None);
}

#[test]
fn sprite_of_an_unloaded_atlas_is_dropped_for_the_frame() {
    let image = ImageId::Uuid { uuid: 1 };
    let mut waiting = source(1, image);
    waiting.atlas = Some(TextureAtlas { layout: None, index: 2 });
    let mut extracted = ExtractedTextModeSprites::new();
    extract_text_mode_sprites(&mut extracted, &vec![strip_of_seven()], &vec![waiting]);
    assert_eq!(extracted.len(), 0);

    let mut loaded = source(1, image);
    loaded.atlas = Some(TextureAtlas { layout: Some(0), index: 2 });
    extract_text_mode_sprites(&mut extracted, &vec![strip_of_seven()], &vec![loaded]);
    assert_eq!(extracted.len(), 1);
}

#[test]
fn extraction_rebuilds_from_nothing_every_frame() {
    let image = ImageId::Uuid { uuid: 1 };
    let mut extracted = ExtractedTextModeSprites::new();
    extract_text_mode_sprites(
        &mut extracted,
        &Vec::new(),
        &vec![source(1, image), source(2, image)],
    );
    assert_eq!(extracted.len(), 2);
    extract_text_mode_sprites(&mut extracted, &Vec::new(), &vec![source(3, image)]);
    assert_eq!(extracted.len(), 1);
    assert!(extracted.get(entity(1)).is_none());
    assert!(extracted.get(entity(2)).is_none());
    assert!(extracted.get(entity(3)).is_some());
    extract_text_mode_sprites(&mut extracted, &Vec::new(), &Vec::new());
    assert_eq!(extracted.len(), 0);
}

#[test]
fn sliced_sprite_fans_out_into_one_sprite_per_part() {
    let image = ImageId::Uuid { uuid: 1 };
    let mut sliced = source(10, image);
    sliced.sprite.flip_y = true;
    sliced.sprite.rotation = 1;
    sliced.sprite.rect = Some(Rect { min_x: 0, min_y: 0, max_x: 8, max_y: 8 });
    sliced.atlas = Some(TextureAtlas { layout: Some(0), index: 99 });
    let left = TextModeTextureSlice {
        entity: entity(100),
        transform: flat_transform(-4.0, 0.0, 10.0),
        draw_size: Vec2 { x: 4.0f32.to_bits(), y: 8.0f32.to_bits() },
    };
    let right = TextModeTextureSlice {
        entity: entity(101),
        transform: flat_transform(4.0, 0.0, 10.0),
        draw_size: Vec2 { x: 6.0f32.to_bits(), y: 8.0f32.to_bits() },
    };
    sliced.slices = Some(ComputedTextModeTextureSlices { slices: vec![left, right] });
    let mut extracted = ExtractedTextModeSprites::new();
    extract_text_mode_sprites(&mut extracted, &vec![strip_of_seven()], &vec![sliced]);
    assert_eq!(extracted.len(), 2);
    assert!(extracted.get(entity(10)).is_none());
    let first = extracted.get(entity(100)).unwrap();
    assert_eq!(first.transform, left.transform);
    assert_eq!(first.custom_size, Some(left.draw_size));
    assert_eq!(first.original_entity, Some(entity(10)));
    assert_eq!(first.rect, Some(TexelRect { min_x: 0, min_y: 0, max_x: 8, max_y: 8 }));
    assert!(first.flip_y);
    assert!(!first.flip_x);
    assert_eq!(first.rotation, 1);
    assert_eq!(first.image_handle_id, image);
    let second = extracted.get(entity(101)).unwrap();
    assert_eq!(second.transform, right.transform);
    assert_eq!(second.custom_size, Some(right.draw_size));
    assert_eq!(second.original_entity, Some(entity(10)));
}

#[test]
fn slices_extract_in_the_order_of_the_parts() {
    let image = ImageId::Uuid { uuid: 1 };
    let slices = ComputedTextModeTextureSlices {
        slices: vec![
            TextModeTextureSlice {
                entity: entity(7),
                transform: flat_transform(0.0, 0.0, 1.0),
                draw_size: Vec2 { x: 1, y: 2 },
            },
            TextModeTextureSlice {
                entity: entity(8),
                transform: flat_transform(0.0, 0.0, 2.0),
                draw_size: Vec2 { x: 3, y: 4 },
            },
        ],
    };
    let records = slices.extract_text_mode_sprites(entity(1), &TextModeSprite::default(), image);
    assert_eq!(records.len(), 2);
    assert_eq!(records[0].0, entity(7));
    assert_eq!(records[1].0, entity(8));
    assert_eq!(records[0].1.custom_size, Some(Vec2 { x: 1, y: 2 }));
    assert_eq!(records[1].1.custom_size, Some(Vec2 { x: 3, y: 4 }));
    let none = ComputedTextModeTextureSlices { slices: Vec::new() };
    let records = none.extract_text_mode_sprites(entity(1), &TextModeSprite::default(), image);
    assert!(records.is_empty());
}

#[test]
fn later_source_with_the_same_key_wins() {
    let a = ImageId::Uuid { uuid: 1 };
    let b = ImageId::Uuid { uuid: 2 };
    let mut extracted = ExtractedTextModeSprites::new();
    extract_text_mode_sprites(&mut extracted, &Vec::new(), &vec![source(1, a), source(1, b)]);
    assert_eq!(extracted.len(), 1);
    assert_eq!(extracted.get(entity(1)).unwrap().image_handle_id, b);
}

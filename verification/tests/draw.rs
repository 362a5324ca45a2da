use bevy_text_mode::draw::{
    draw_text_mode_sprites, DrawTextModeSpriteBatch, RenderCommandResult,
    SetTextModeSpriteTextureBindGroup, SetTextModeSpriteViewBindGroup, TextModeDrawCommand,
};
use bevy_text_mode::extract::{
    ExtractedTextModeSprites, TextModeExtractedSprite, TextModeSpriteAssetEvents,
};
use bevy_text_mode::image::{ImageId, ImageMap, ImageSize};
use bevy_text_mode::prepare::{
    prepare_text_mode_sprite_image_bind_groups, TextModeBatchEntry, TextModeImageBindGroups,
    TextModeSpriteBatch, TextModeSpriteMeta,
};
use bevy_text_mode::sprite::{Anchor, EntityId, GlobalTransform, LinearRgba, Vec3};

const A: ImageId = ImageId::Uuid { uuid: 0xA };
const B: ImageId = ImageId::Uuid { uuid: 0xB };

fn entity(index: u32) -> EntityId {
    EntityId { index, generation: 0 }
}

fn sprite_at(z: f32, image: ImageId) -> TextModeExtractedSprite {
    TextModeExtractedSprite {
        transform: GlobalTransform {
            x_axis: Vec3 { x: 1.0f32.to_bits(), y: 0, z: 0 },
            y_axis: Vec3 { x: 0, y: 1.0f32.to_bits(), z: 0 },
            z_axis: Vec3 { x: 0, y: 0, z: 1.0f32.to_bits() },
            translation: Vec3 { x: 0, y: 0, z: z.to_bits() },
        },
        bg: LinearRgba::white(),
        fg: LinearRgba::black(),
        alpha: 1.0f32.to_bits(),
        custom_size: None,
        rect: None,
        image_handle_id: image,
        flip_x: false,
        flip_y: false,
        rotation: 0,
        anchor: Anchor::Center.as_vec(),
        original_entity: None,
    }
}

fn prepared_meta() -> TextModeSpriteMeta {
    let mut sprites = ExtractedTextModeSprites::new();
    sprites.insert(entity(1), sprite_at(1.0, A));
    let mut gpu = ImageMap::new();
    gpu.insert(A, ImageSize { width: 8, height: 8 });
    let mut meta = TextModeSpriteMeta::new();
    let mut bind_groups: TextModeImageBindGroups<u32> = TextModeImageBindGroups::new();
    let mut previous_len = 0usize;
    prepare_text_mode_sprite_image_bind_groups(
        &mut previous_len,
        &mut meta,
        &mut bind_groups,
        &gpu,
        &sprites,
        &vec![vec![entity(1)]],
        &TextModeSpriteAssetEvents::default(),
    );
    meta
}

fn entry(phase: usize, image: ImageId, start: u32, end: u32) -> TextModeBatchEntry {
    TextModeBatchEntry {
        phase,
        item: start as usize,
        entity: entity(start),
        batch: TextModeSpriteBatch { image_handle_id: image, start, end },
    }
}

#[test]
fn view_bind_group_is_bound_at_its_slot() {
    let mut pass = vec![TextModeDrawCommand::SetPipeline { pipeline: 3 }];
    let result = SetTextModeSpriteViewBindGroup::<0>::render(256, &mut pass);
    assert_eq!(result, RenderCommandResult::Success);
    assert_eq!(
        pass,
        vec![
            TextModeDrawCommand::SetPipeline { pipeline: 3 },
            TextModeDrawCommand::SetViewBindGroup { index: 0, offset: 256 },
        ]
    );
}

#[test]
fn texture_bind_group_fails_without_a_batch() {
    let bind_groups: TextModeImageBindGroups<u32> = TextModeImageBindGroups::new();
    let mut pass = Vec::new();
    let result = SetTextModeSpriteTextureBindGroup::<1>::render(None, &bind_groups, &mut pass);
    assert_eq!(result, RenderCommandResult::Failure);
    assert!(pass.is_empty());
}

#[test]
fn texture_bind_group_binds_the_texture_of_the_batch() {
    let mut bind_groups: TextModeImageBindGroups<u32> = TextModeImageBindGroups::new();
    bind_groups.insert(B, 5);
    let batch = TextModeSpriteBatch { image_handle_id: B, start: 4, end: 9 };
    let mut pass = Vec::new();
    let result =
        SetTextModeSpriteTextureBindGroup::<1>::render(Some(&batch), &bind_groups, &mut pass);
    assert_eq!(result, RenderCommandResult::Success);
    assert_eq!(pass, vec![TextModeDrawCommand::SetTextureBindGroup { index: 1, image: B }]);
}

#[test]
fn draw_batch_fails_without_a_batch() {
    let meta = prepared_meta();
    let mut pass = Vec::new();
    let result = DrawTextModeSpriteBatch::render(None, &meta, &mut pass);
    assert_eq!(result, RenderCommandResult::Failure);
    assert!(pass.is_empty());
}

#[test]
fn draw_batch_draws_six_indices_over_the_instance_range() {
    let meta = prepared_meta();
    let batch = TextModeSpriteBatch { image_handle_id: A, start: 4, end: 9 };
    let mut pass = Vec::new();
    let result = DrawTextModeSpriteBatch::render(Some(&batch), &meta, &mut pass);
    assert_eq!(result, RenderCommandResult::Success);
    assert_eq!(
        pass,
        vec![
            TextModeDrawCommand::SetIndexBuffer,
            TextModeDrawCommand::SetVertexBuffer { slot: 0 },
            TextModeDrawCommand::DrawIndexed {
                first_index: 0,
                end_index: 6,
                base_vertex: 0,
                first_instance: 4,
                end_instance: 9,
            },
        ]
    );
}

#[test]
fn view_is_drawn_batch_by_batch_in_order() {
    let meta = prepared_meta();
    let mut bind_groups: TextModeImageBindGroups<u32> = TextModeImageBindGroups::new();
    bind_groups.insert(A, 1);
    bind_groups.insert(B, 2);
    let batches =
        vec![entry(0, A, 0, 2), entry(1, B, 2, 3), entry(0, B, 3, 4), entry(0, A, 4, 7)];
    let pass = draw_text_mode_sprites(7, 64, &batches, 0, &bind_groups, &meta);
    let draw = |first_instance: u32, end_instance: u32| TextModeDrawCommand::DrawIndexed {
        first_index: 0,
        end_index: 6,
        base_vertex: 0,
        first_instance,
        end_instance,
    };
    assert_eq!(
        pass,
        vec![
            TextModeDrawCommand::SetPipeline { pipeline: 7 },
            TextModeDrawCommand::SetViewBindGroup { index: 0, offset: 64 },
            TextModeDrawCommand::SetTextureBindGroup { index: 1, image: A },
            TextModeDrawCommand::SetIndexBuffer,
            TextModeDrawCommand::SetVertexBuffer { slot: 0 },
            draw(0, 2),
            TextModeDrawCommand::SetTextureBindGroup { index: 1, image: B },
            TextModeDrawCommand::SetIndexBuffer,
            TextModeDrawCommand::SetVertexBuffer { slot: 0 },
            draw(3, 4),
            TextModeDrawCommand::SetTextureBindGroup { index: 1, image: A },
            TextModeDrawCommand::SetIndexBuffer,
            TextModeDrawCommand::SetVertexBuffer { slot: 0 },
            draw(4, 7),
        ]
    );
    let other = draw_text_mode_sprites(8, 0, &batches, 1, &bind_groups, &meta);
    assert_eq!(other.len(), 6);
    assert_eq!(other[5], draw(2, 3));
}

#[test]
fn view_without_batches_binds_and_draws_nothing_else() {
    let meta = prepared_meta();
    let bind_groups: TextModeImageBindGroups<u32> = TextModeImageBindGroups::new();
    let pass = draw_text_mode_sprites(0, 0, &Vec::new(), 0, &bind_groups, &meta);
    assert_eq!(
        pass,
        vec![
            TextModeDrawCommand::SetPipeline { pipeline: 0 },
            TextModeDrawCommand::SetViewBindGroup { index: 0, offset: 0 },
        ]
    );
}

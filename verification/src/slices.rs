use crate::extract::TextModeExtractedSprite;
use crate::image::ImageId;
use crate::sprite::{EntityId, GlobalTransform, TexelRect, TextModeSprite, Vec2};
use vstd::prelude::*;

verus! {

/// One part of a sprite that is drawn in several parts.
#[derive(Clone, Copy, Debug, PartialEq, Eq, Structural)]
pub struct TextModeTextureSlice {
    /// The key under which the part is extracted.
    pub entity: EntityId,
    /// The world transform of the part: that of the sprite moved by the
    /// part's offset.
    pub transform: GlobalTransform,
    /// The size at which the part is drawn.
    pub draw_size: Vec2,
}

/// The parts of a sprite that is drawn sliced or tiled.
pub struct ComputedTextModeTextureSlices {
    pub slices: Vec<TextModeTextureSlice>,
}

/// The extracted sprite of one part: the part's transform and draw size
/// with the appearance of the sprite it belongs to, which it names as its
/// original entity.
pub open spec fn spec_slice_sprite(
    slice: TextModeTextureSlice,
    original_entity: EntityId,
    sprite: TextModeSprite,
    image: ImageId,
) -> TextModeExtractedSprite {
    TextModeExtractedSprite {
        transform: slice.transform,
        bg: sprite.bg,
        fg: sprite.fg,
        alpha: sprite.alpha,
        custom_size: Some(slice.draw_size),
        rect: match sprite.rect {
            Some(rect) => Some(TexelRect::spec_from_rect(rect)),
            None => None,
        },
        image_handle_id: image,
        flip_x: sprite.flip_x,
        flip_y: sprite.flip_y,
        rotation: sprite.rotation,
        anchor: sprite.anchor.spec_as_vec(),
        original_entity: Some(original_entity),
    }
}

impl ComputedTextModeTextureSlices {
    /// The extracted sprites of the parts, each with its key, in the order
    /// of the parts.
    pub open spec fn spec_extract_text_mode_sprites(
        &self,
        original_entity: EntityId,
        sprite: TextModeSprite,
        image: ImageId,
    ) -> Seq<(EntityId, TextModeExtractedSprite)> {
        Seq::new(
            self.slices@.len(),
            |i: int|
                (
                    self.slices@[i].entity,
                    spec_slice_sprite(self.slices@[i], original_entity, sprite, image),
                ),
        )
    }

    /// Computes `spec_extract_text_mode_sprites`.
    pub fn extract_text_mode_sprites(
        &self,
        original_entity: EntityId,
        sprite: &TextModeSprite,
        image: ImageId,
    ) -> (extracted: Vec<(EntityId, TextModeExtractedSprite)>)
        ensures
            extracted@ == self.spec_extract_text_mode_sprites(original_entity, *sprite, image),
    {
        let rect = match sprite.rect {
            Some(rect) => Some(TexelRect::from_rect(rect)),
            None => None,
        };
        let anchor = sprite.anchor.as_vec();
        let mut extracted: Vec<(EntityId, TextModeExtractedSprite)> = Vec::with_capacity(
            self.slices.len(),
        );
        let mut i: usize = 0;
        while i < self.slices.len()
            invariant
                i <= self.slices@.len(),
                rect == (match sprite.rect {
                    Some(rect) => Some(TexelRect::spec_from_rect(rect)),
                    None => None,
                }),
                anchor == sprite.anchor.spec_as_vec(),
                extracted@.len() == i,
                forall|j: int|
                    0 <= j < i ==> extracted@[j] == (
                        self.slices@[j].entity,
                        spec_slice_sprite(self.slices@[j], original_entity, *sprite, image),
                    ),
            decreases self.slices@.len() - i,
        {
            let slice = &self.slices[i];
            extracted.push(
                (
                    slice.entity,
                    TextModeExtractedSprite {
                        transform: slice.transform,
                        bg: sprite.bg,
                        fg: sprite.fg,
                        alpha: sprite.alpha,
                        custom_size: Some(slice.draw_size),
                        rect,
                        image_handle_id: image,
                        flip_x: sprite.flip_x,
                        flip_y: sprite.flip_y,
                        rotation: sprite.rotation,
                        anchor,
                        original_entity: Some(original_entity),
                    },
                ),
            );
            i += 1;
        }
        assert(extracted@ =~= self.spec_extract_text_mode_sprites(original_entity, *sprite, image));
        extracted
    }
}

} // verus!

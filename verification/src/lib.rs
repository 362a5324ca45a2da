//! Rendering of text-mode tile sprites: quads with a tinted background and a
//! tinted foreground layer, drawn back to front in as few instanced draws as
//! the depth order allows.
//!
//! A frame passes through the modules in this order: `extract` snapshots the
//! visible sprites, `queue` filters them per view and sorts them by depth,
//! `prepare` groups neighbours of one texture into batches and resolves the
//! quad of every instance, and `draw` records the commands of the draw pass.
//! `pipeline` describes and caches the pipeline variants that the views ask
//! for through a `key`.
//!
//! Numbers that the renderer only carries (colours, transforms, draw sizes)
//! are held as the bit patterns of single-precision floats.

pub mod batch_proofs;
pub mod bitset;
pub mod draw;
pub mod extract;
pub mod image;
pub mod instance;
pub mod key;
pub mod pipeline;
pub mod prepare;
pub mod queue;
pub mod slices;
pub mod sort;
pub mod sprite;

pub use crate::draw::{
    DrawTextModeSpriteBatch, SetTextModeSpriteTextureBindGroup, SetTextModeSpriteViewBindGroup,
};
pub use crate::extract::{
    extract_text_mode_sprite_events, extract_text_mode_sprites, ExtractedTextModeSprites,
    TextModeExtractedSprite, TextModeSpriteAssetEvents,
};
pub use crate::key::TextModeSpritePipelineKey;
pub use crate::pipeline::{SpecializedTextModePipelines, TextModeSpritePipeline};
pub use crate::prepare::{
    prepare_text_mode_sprite_image_bind_groups, TextModeImageBindGroups, TextModeSpriteBatch,
    TextModeSpriteMeta,
};
pub use crate::queue::queue_text_mode_sprites;
pub use crate::slices::ComputedTextModeTextureSlices;
pub use crate::sprite::TextModeSprite;

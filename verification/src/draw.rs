use crate::image::ImageId;
use crate::prepare::{
    quad_indices, TextModeBatchEntry, TextModeImageBindGroups, TextModeSpriteBatch,
    TextModeSpriteMeta,
};
use vstd::prelude::*;

verus! {

/// Binding slot of a view's uniforms.
pub const VIEW_BIND_GROUP_INDEX: usize = 0;

/// Binding slot of a batch's texture.
pub const TEXTURE_BIND_GROUP_INDEX: usize = 1;

/// Number of indices of the unit quad.
pub const QUAD_INDEX_COUNT: u32 = 6;

/// A command of the draw pass, in the order in which it is recorded.
#[derive(Clone, Copy, Debug, PartialEq, Eq, Structural)]
pub enum TextModeDrawCommand {
    /// Bind the pipeline variant with the handle `pipeline`.
    SetPipeline { pipeline: usize },
    /// Bind the view's binding set at `index`, at `offset` in the uniforms.
    SetViewBindGroup { index: usize, offset: u32 },
    /// Bind the cached binding set of the texture `image` at `index`.
    SetTextureBindGroup { index: usize, image: ImageId },
    /// Bind the index buffer of the unit quad, as 32-bit indices.
    SetIndexBuffer,
    /// Bind the instance buffer as vertex buffer `slot`.
    SetVertexBuffer { slot: usize },
    /// Draw the indices from `first_index` up to `end_index` once for every
    /// instance from `first_instance` up to `end_instance`.
    DrawIndexed {
        first_index: u32,
        end_index: u32,
        base_vertex: i32,
        first_instance: u32,
        end_instance: u32,
    },
}

/// Whether a render command could do its work.
#[derive(Clone, Copy, Debug, PartialEq, Eq, Structural)]
pub enum RenderCommandResult {
    Success,
    Failure,
}

/// Binds a view's binding set at slot `I`.
pub struct SetTextModeSpriteViewBindGroup<const I: usize> {}

impl<const I: usize> SetTextModeSpriteViewBindGroup<I> {
    /// Records the binding of the view's binding set.
    pub fn render(view_uniform_offset: u32, pass: &mut Vec<TextModeDrawCommand>) -> (result:
        RenderCommandResult)
        ensures
            result == RenderCommandResult::Success,
            final(pass)@ == old(pass)@.push(
                TextModeDrawCommand::SetViewBindGroup { index: I, offset: view_uniform_offset },
            ),
    {
        pass.push(TextModeDrawCommand::SetViewBindGroup { index: I, offset: view_uniform_offset });
        RenderCommandResult::Success
    }
}

/// Binds a batch's texture at slot `I`.
pub struct SetTextModeSpriteTextureBindGroup<const I: usize> {}

impl<const I: usize> SetTextModeSpriteTextureBindGroup<I> {
    /// Records the binding of the batch's texture; fails without a batch.
    pub fn render<V>(
        batch: Option<&TextModeSpriteBatch>,
        image_bind_groups: &TextModeImageBindGroups<V>,
        pass: &mut Vec<TextModeDrawCommand>,
    ) -> (result: RenderCommandResult)
        requires
            image_bind_groups.wf(),
            batch matches Some(b) ==> image_bind_groups@.contains_key(b.image_handle_id),
        ensures
            match batch {
                Some(b) => result == RenderCommandResult::Success && final(pass)@ == old(
                    pass,
                )@.push(
                    TextModeDrawCommand::SetTextureBindGroup { index: I, image: b.image_handle_id },
                ),
                None => result == RenderCommandResult::Failure && final(pass)@ == old(pass)@,
            },
    {
        match batch {
            Some(b) => {
                pass.push(
                    TextModeDrawCommand::SetTextureBindGroup { index: I, image: b.image_handle_id },
                );
                RenderCommandResult::Success
            },
            None => RenderCommandResult::Failure,
        }
    }
}

/// The commands that draw one batch once its texture is bound: bind the
/// quad's indices and the instance buffer, then draw the six indices for the
/// instances of the batch.
pub open spec fn spec_draw_batch(batch: TextModeSpriteBatch) -> Seq<TextModeDrawCommand> {
    seq![
        TextModeDrawCommand::SetIndexBuffer,
        TextModeDrawCommand::SetVertexBuffer { slot: 0 },
        TextModeDrawCommand::DrawIndexed {
            first_index: 0,
            end_index: QUAD_INDEX_COUNT,
            base_vertex: 0,
            first_instance: batch.start,
            end_instance: batch.end,
        },
    ]
}

/// Draws one batch.
pub struct DrawTextModeSpriteBatch {}

impl DrawTextModeSpriteBatch {
    /// Records the draw of the batch; fails without a batch.
    pub fn render(
        batch: Option<&TextModeSpriteBatch>,
        sprite_meta: &TextModeSpriteMeta,
        pass: &mut Vec<TextModeDrawCommand>,
    ) -> (result: RenderCommandResult)
        requires
            sprite_meta.spec_index_buffer() == quad_indices(),
        ensures
            match batch {
                Some(b) => result == RenderCommandResult::Success && final(pass)@ == old(pass)@
                    + spec_draw_batch(*b),
                None => result == RenderCommandResult::Failure && final(pass)@ == old(pass)@,
            },
    {
        match batch {
            Some(b) => {
                pass.push(TextModeDrawCommand::SetIndexBuffer);
                pass.push(TextModeDrawCommand::SetVertexBuffer { slot: 0 });
                pass.push(
                    TextModeDrawCommand::DrawIndexed {
                        first_index: 0,
                        end_index: QUAD_INDEX_COUNT,
                        base_vertex: 0,
                        first_instance: b.start,
                        end_instance: b.end,
                    },
                );
                assert(pass@ =~= old(pass)@ + spec_draw_batch(*b));
                RenderCommandResult::Success
            },
            None => RenderCommandResult::Failure,
        }
    }
}

/// The commands of the batches of the phase `phase` among the first `n`
/// batches: for each, bind its texture and draw it.
pub open spec fn spec_draw_batches(
    batches: Seq<TextModeBatchEntry>,
    phase: usize,
    n: int,
) -> Seq<TextModeDrawCommand>
    decreases n,
{
    if n <= 0 {
        Seq::empty()
    } else if batches[n - 1].phase == phase {
        spec_draw_batches(batches, phase, n - 1).push(
            TextModeDrawCommand::SetTextureBindGroup {
                index: TEXTURE_BIND_GROUP_INDEX,
                image: batches[n - 1].batch.image_handle_id,
            },
        ) + spec_draw_batch(batches[n - 1].batch)
    } else {
        spec_draw_batches(batches, phase, n - 1)
    }
}

/// The commands of one view: bind its pipeline variant and its binding set
/// once, then draw its batches in order.
pub open spec fn spec_draw_view(
    pipeline: usize,
    view_uniform_offset: u32,
    batches: Seq<TextModeBatchEntry>,
    phase: usize,
) -> Seq<TextModeDrawCommand> {
    seq![
        TextModeDrawCommand::SetPipeline { pipeline },
        TextModeDrawCommand::SetViewBindGroup {
            index: VIEW_BIND_GROUP_INDEX,
            offset: view_uniform_offset,
        },
    ] + spec_draw_batches(batches, phase, batches.len() as int)
}

/// Records the draw pass of one view.
pub fn draw_text_mode_sprites<V>(
    pipeline: usize,
    view_uniform_offset: u32,
    batches: &Vec<TextModeBatchEntry>,
    phase: usize,
    image_bind_groups: &TextModeImageBindGroups<V>,
    sprite_meta: &TextModeSpriteMeta,
) -> (pass: Vec<TextModeDrawCommand>)
    requires
        image_bind_groups.wf(),
        sprite_meta.spec_index_buffer() == quad_indices(),
        forall|k: int|
            0 <= k < batches@.len() && (#[trigger] batches@[k]).phase == phase
                ==> image_bind_groups@.contains_key(batches@[k].batch.image_handle_id),
    ensures
        pass@ == spec_draw_view(pipeline, view_uniform_offset, batches@, phase),
{
    let mut pass: Vec<TextModeDrawCommand> = Vec::new();
    pass.push(TextModeDrawCommand::SetPipeline { pipeline });
    SetTextModeSpriteViewBindGroup::<VIEW_BIND_GROUP_INDEX>::render(view_uniform_offset, &mut pass);
    let ghost head = pass@;
    assert(head =~= seq![
        TextModeDrawCommand::SetPipeline { pipeline },
        TextModeDrawCommand::SetViewBindGroup {
            index: VIEW_BIND_GROUP_INDEX,
            offset: view_uniform_offset,
        },
    ]);
    let mut k: usize = 0;
    while k < batches.len()
        invariant
            k <= batches@.len(),
            image_bind_groups.wf(),
            sprite_meta.spec_index_buffer() == quad_indices(),
            forall|j: int|
                0 <= j < batches@.len() && (#[trigger] batches@[j]).phase == phase
                    ==> image_bind_groups@.contains_key(batches@[j].batch.image_handle_id),
            pass@ == head + spec_draw_batches(batches@, phase, k as int),
        decreases batches@.len() - k,
    {
        let entry = &batches[k];
        if entry.phase == phase {
            let ghost before = pass@;
            SetTextModeSpriteTextureBindGroup::<TEXTURE_BIND_GROUP_INDEX>::render(
                Some(&entry.batch),
                image_bind_groups,
                &mut pass,
            );
            DrawTextModeSpriteBatch::render(Some(&entry.batch), sprite_meta, &mut pass);
            assert(pass@ =~= head + spec_draw_batches(batches@, phase, k + 1));
        }
        k += 1;
    }
    pass
}

} // verus!

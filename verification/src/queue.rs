use crate::bitset::{bit_len, enable_bits, stored_bits};
use crate::extract::{ExtractedTextModeSprites, TextModeExtractedSprite};
use crate::key::{DebandDither, TextModeSpritePipelineKey, Tonemapping};
use crate::pipeline::{
    spec_handle, spec_specialized, SpecializedTextModePipelines, TextModeSpritePipeline,
};
use crate::sort::{
    depth_rank, depth_sort_key, is_draw_ordered, lemma_depth_sort_key_orders_ranks,
    lemma_draw_order_groups_textures, sort_phase_items, spec_depth_sort_key, TextModePhaseItem,
};
use crate::sprite::EntityId;
use fixedbitset::FixedBitSet;
use vstd::prelude::*;
use vstd::seq_lib::to_multiset_contains;

verus! {

/// What the renderer reads of a view.
pub struct TextModeView {
    /// Whether the view renders to a target of high dynamic range.
    pub hdr: bool,
    /// The view's tone-mapping operator, if it has one.
    pub tonemapping: Option<Tonemapping>,
    /// The view's dithering setting, if it has one.
    pub dither: Option<DebandDither>,
    /// The slots of the entities that are visible in the view.
    pub visible_entities: Vec<u32>,
}

impl TextModeView {
    /// The pipeline key of the view under `msaa_samples` samples per pixel.
    pub open spec fn spec_key(&self, msaa_samples: u32) -> TextModeSpritePipelineKey {
        TextModeSpritePipelineKey::spec_for_view(
            self.hdr,
            msaa_samples,
            self.tonemapping,
            self.dither == Some(DebandDither::Enabled),
        )
    }
}

/// The draw list of one view.
pub struct TextModePhase {
    /// Handle of the view's pipeline variant.
    pub pipeline: usize,
    /// The view's sprites in draw order.
    pub items: Vec<TextModePhaseItem>,
}

/// A sprite is queued for a view when it was extracted and the slot of its
/// source entity is among the view's visible slots.
pub open spec fn is_queued(
    sprites: Map<EntityId, TextModeExtractedSprite>,
    visible: Seq<u32>,
    entity: EntityId,
) -> bool {
    sprites.contains_key(entity) && visible.contains(
        sprites[entity].spec_source_entity(entity).index,
    )
}

/// The draw item of the sprite `sprite` with the key `entity`.
pub open spec fn spec_phase_item(
    entity: EntityId,
    sprite: TextModeExtractedSprite,
    pipeline: usize,
) -> TextModePhaseItem {
    TextModePhaseItem {
        entity,
        sort_key: spec_depth_sort_key(sprite.spec_depth()),
        image_handle_id: sprite.image_handle_id,
        pipeline,
        batch_start: 0,
        batch_end: 0,
    }
}

/// Whether `items` holds the draw item of every queued sprite and of nothing
/// else, each once.
pub open spec fn holds_queued_sprites(
    items: Seq<TextModePhaseItem>,
    sprites: Map<EntityId, TextModeExtractedSprite>,
    visible: Seq<u32>,
    pipeline: usize,
) -> bool {
    &&& forall|i: int|
        0 <= i < items.len() ==> is_queued(sprites, visible, (#[trigger] items[i]).entity)
            && items[i] == spec_phase_item(items[i].entity, sprites[items[i].entity], pipeline)
    &&& forall|i: int, j: int|
        0 <= i < items.len() && 0 <= j < items.len() && i != j ==> (#[trigger] items[i]).entity
            != (#[trigger] items[j]).entity
    &&& forall|entity: EntityId| #[trigger]
        is_queued(sprites, visible, entity) ==> exists|i: int|
            0 <= i < items.len() && (#[trigger] items[i]).entity == entity
}

/// Whether `items` is the draw list of a view: one item for every queued
/// sprite, in draw order.
pub open spec fn is_phase_of(
    items: Seq<TextModePhaseItem>,
    sprites: Map<EntityId, TextModeExtractedSprite>,
    visible: Seq<u32>,
    pipeline: usize,
) -> bool {
    &&& is_draw_ordered(items)
    &&& holds_queued_sprites(items, sprites, visible, pipeline)
}

/// In the draw list of a view the depths of the sprites never decrease, and
/// the sprites of one depth that share a texture stand next to each other.
pub proof fn lemma_phase_is_depth_ordered(
    items: Seq<TextModePhaseItem>,
    sprites: Map<EntityId, TextModeExtractedSprite>,
    visible: Seq<u32>,
    pipeline: usize,
    i: int,
    k: int,
    j: int,
)
    requires
        is_phase_of(items, sprites, visible, pipeline),
        0 <= i <= k <= j < items.len(),
    ensures
        depth_rank(sprites[items[i].entity].spec_depth()) <= depth_rank(
            sprites[items[k].entity].spec_depth(),
        ) <= depth_rank(sprites[items[j].entity].spec_depth()),
        depth_rank(sprites[items[i].entity].spec_depth()) == depth_rank(
            sprites[items[j].entity].spec_depth(),
        ) && sprites[items[i].entity].image_handle_id == sprites[items[j].entity].image_handle_id
            ==> depth_rank(sprites[items[k].entity].spec_depth()) == depth_rank(
            sprites[items[i].entity].spec_depth(),
        ) && sprites[items[k].entity].image_handle_id == sprites[items[i].entity].image_handle_id,
{
    lemma_draw_order_groups_textures(items, i, k, j);
    let zi = sprites[items[i].entity].spec_depth();
    let zk = sprites[items[k].entity].spec_depth();
    let zj = sprites[items[j].entity].spec_depth();
    lemma_depth_sort_key_orders_ranks(zi, zk);
    lemma_depth_sort_key_orders_ranks(zk, zj);
    lemma_depth_sort_key_orders_ranks(zi, zj);
    assert(items[i] == spec_phase_item(items[i].entity, sprites[items[i].entity], pipeline));
    assert(items[k] == spec_phase_item(items[k].entity, sprites[items[k].entity], pipeline));
    assert(items[j] == spec_phase_item(items[j].entity, sprites[items[j].entity], pipeline));
}

/// A permutation of a list that holds the queued sprites holds them too.
proof fn lemma_permutation_holds_queued_sprites(
    before: Seq<TextModePhaseItem>,
    after: Seq<TextModePhaseItem>,
    sprites: Map<EntityId, TextModeExtractedSprite>,
    visible: Seq<u32>,
    pipeline: usize,
)
    requires
        holds_queued_sprites(before, sprites, visible, pipeline),
        after.to_multiset() == before.to_multiset(),
    ensures
        holds_queued_sprites(after, sprites, visible, pipeline),
{
    assert forall|x: TextModePhaseItem| before.contains(x) <==> after.contains(x) by {
        to_multiset_contains(before, x);
        to_multiset_contains(after, x);
    }
    assert forall|i: int| 0 <= i < after.len() implies is_queued(
        sprites,
        visible,
        (#[trigger] after[i]).entity,
    ) && after[i] == spec_phase_item(after[i].entity, sprites[after[i].entity], pipeline) by {
        assert(after.contains(after[i]));
        let p = choose|p: int| 0 <= p < before.len() && before[p] == after[i];
        assert(is_queued(sprites, visible, before[p].entity));
    }
    assert forall|i: int, j: int|
        0 <= i < after.len() && 0 <= j < after.len() && i != j implies (#[trigger] after[i]).entity
        != (#[trigger] after[j]).entity by {
        // Equal entities would make the two items equal, since both are the
        // draw item of that entity's sprite.
        if after[i].entity == after[j].entity {
            assert(after[i] == after[j]);
            assert(before.no_duplicates()) by {
                assert forall|p: int, q: int|
                    0 <= p < before.len() && 0 <= q < before.len() && p != q implies before[p]
                    != before[q] by {
                    assert(before[p].entity != before[q].entity);
                }
            }
            before.lemma_multiset_has_no_duplicates();
            after.lemma_multiset_has_no_duplicates_conv();
            assert(after[i] != after[j]);
        }
    }
    assert forall|entity: EntityId| #[trigger] is_queued(sprites, visible, entity) implies exists|
        i: int,
    |
        0 <= i < after.len() && (#[trigger] after[i]).entity == entity by {
        let p = choose|p: int| 0 <= p < before.len() && (#[trigger] before[p]).entity == entity;
        assert(before.contains(before[p]));
        let i = choose|i: int| 0 <= i < after.len() && after[i] == before[p];
        assert(after[i].entity == entity);
    }
}

/// Builds the draw list of one view: the sprites whose source entity is
/// visible in the view, in draw order. `view_entities` is scratch space.
pub fn queue_view(
    view_entities: &mut FixedBitSet,
    extracted_sprites: &ExtractedTextModeSprites,
    visible_entities: &Vec<u32>,
    pipeline: usize,
) -> (items: Vec<TextModePhaseItem>)
    requires
        extracted_sprites.wf(),
        forall|i: int| 0 <= i < visible_entities@.len() ==> visible_entities@[i] < usize::MAX,
    ensures
        is_phase_of(items@, extracted_sprites@, visible_entities@, pipeline),
{
    let mut slots: Vec<usize> = Vec::with_capacity(visible_entities.len());
    let mut v: usize = 0;
    while v < visible_entities.len()
        invariant
            v <= visible_entities@.len(),
            slots@.len() == v,
            forall|i: int| 0 <= i < v ==> slots@[i] == visible_entities@[i],
            forall|i: int| 0 <= i < visible_entities@.len() ==> visible_entities@[i] < usize::MAX,
        decreases visible_entities@.len() - v,
    {
        slots.push(visible_entities[v] as usize);
        v += 1;
    }
    view_entities.clear();
    enable_bits(view_entities, &slots);
    proof {
        assert forall|slot: u32|
            visible_entities@.contains(slot) <==> (slot < bit_len(*view_entities) && stored_bits(
                *view_entities,
            ).contains(slot as int)) by {
            if visible_entities@.contains(slot) {
                let i = choose|i: int|
                    0 <= i < visible_entities@.len() && visible_entities@[i] == slot;
                assert(slots@[i] == slot);
            }
            if stored_bits(*view_entities).contains(slot as int) {
                let i = choose|i: int| 0 <= i < slots@.len() && slots@[i] == slot as int;
                assert(visible_entities@[i] == slot);
            }
        }
        extracted_sprites.lemma_keys();
    }

    let ghost sprites = extracted_sprites@;
    let ghost visible = visible_entities@;
    let ghost keys = extracted_sprites.keys();
    let mut items: Vec<TextModePhaseItem> = Vec::new();
    let mut taken: Ghost<Seq<int>> = Ghost(Seq::empty());
    let count = extracted_sprites.len();
    let mut k: usize = 0;
    while k < count
        invariant
            k <= count,
            count == keys.len(),
            extracted_sprites.wf(),
            sprites == extracted_sprites@,
            keys == extracted_sprites.keys(),
            keys.no_duplicates(),
            forall|e: EntityId| keys.contains(e) <==> sprites.contains_key(e),
            forall|slot: u32|
                visible.contains(slot) <==> (slot < bit_len(*view_entities) && stored_bits(
                    *view_entities,
                ).contains(slot as int)),
            taken@.len() == items@.len(),
            forall|i: int|
                0 <= i < items@.len() ==> 0 <= #[trigger] taken@[i] < k && items@[i].entity
                    == keys[taken@[i]],
            forall|i: int, j: int| 0 <= i < j < items@.len() ==> taken@[i] < taken@[j],
            forall|i: int|
                0 <= i < items@.len() ==> is_queued(sprites, visible, (#[trigger] items@[i]).entity)
                    && items@[i] == spec_phase_item(
                    items@[i].entity,
                    sprites[items@[i].entity],
                    pipeline,
                ),
            forall|x: int|
                0 <= x < k && is_queued(sprites, visible, #[trigger] keys[x]) ==> exists|i: int|
                    0 <= i < items@.len() && (#[trigger] items@[i]).entity == keys[x],
        decreases count - k,
    {
        let (entity, sprite) = extracted_sprites.entry(k);
        let slot = sprite.source_entity(entity).index;
        let ghost before = items@;
        if view_entities.contains(slot as usize) {
            items.push(
                TextModePhaseItem {
                    entity,
                    sort_key: depth_sort_key(sprite.depth()),
                    image_handle_id: sprite.image_handle_id,
                    pipeline,
                    batch_start: 0,
                    batch_end: 0,
                },
            );
            proof {
                taken@ = taken@.push(k as int);
                assert forall|x: int|
                    0 <= x < k + 1 && is_queued(
                        sprites,
                        visible,
                        #[trigger] keys[x],
                    ) implies exists|i: int|
                    0 <= i < items@.len() && (#[trigger] items@[i]).entity == keys[x] by {
                    if x < k {
                        let i = choose|i: int|
                            0 <= i < before.len() && (#[trigger] before[i]).entity == keys[x];
                        assert(items@[i].entity == keys[x]);
                    } else {
                        assert(items@[before.len() as int].entity == keys[x]);
                    }
                }
            }
        } else {
            proof {
                assert(!is_queued(sprites, visible, keys[k as int]));
            }
        }
        k += 1;
    }
    proof {
        assert forall|i: int, j: int|
            0 <= i < items@.len() && 0 <= j < items@.len() && i != j implies (
        #[trigger] items@[i]).entity != (#[trigger] items@[j]).entity by {
            if i < j {
                assert(taken@[i] < taken@[j]);
            } else {
                assert(taken@[j] < taken@[i]);
            }
        }
        assert forall|entity: EntityId| #[trigger]
            is_queued(sprites, visible, entity) implies exists|i: int|
            0 <= i < items@.len() && (#[trigger] items@[i]).entity == entity by {
            assert(keys.contains(entity));
            let x = choose|x: int| 0 <= x < keys.len() && keys[x] == entity;
            assert(is_queued(sprites, visible, keys[x]));
        }
        assert(holds_queued_sprites(items@, sprites, visible, pipeline));
    }
    let ghost unsorted = items@;
    let sorted = sort_phase_items(items);
    proof {
        lemma_permutation_holds_queued_sprites(unsorted, sorted@, sprites, visible, pipeline);
    }
    sorted
}

/// The keys of a cache after the first `n` views were specialized in turn.
pub open spec fn specialized_views(
    keys: Seq<TextModeSpritePipelineKey>,
    views: Seq<TextModeView>,
    msaa_samples: u32,
    n: int,
) -> Seq<TextModeSpritePipelineKey>
    decreases n,
{
    if n <= 0 {
        keys
    } else {
        spec_specialized(
            specialized_views(keys, views, msaa_samples, n - 1),
            views[n - 1].spec_key(msaa_samples),
        )
    }
}

/// Queues the extracted sprites for every view.
///
/// Each view gets the handle of the pipeline variant that its key asks for,
/// specialized in the order of the views, and a draw list of its own: the
/// sprites whose source entity is visible in it, by ascending depth and,
/// among equal depths, by texture. `view_entities` is scratch space.
pub fn queue_text_mode_sprites(
    view_entities: &mut FixedBitSet,
    sprite_pipeline: &TextModeSpritePipeline,
    pipelines: &mut SpecializedTextModePipelines,
    msaa_samples: u32,
    extracted_sprites: &ExtractedTextModeSprites,
    views: &Vec<TextModeView>,
) -> (phases: Vec<TextModePhase>)
    requires
        old(pipelines).wf(),
        extracted_sprites.wf(),
        forall|v: int, i: int|
            0 <= v < views@.len() && 0 <= i < views@[v].visible_entities@.len()
                ==> #[trigger] views@[v].visible_entities@[i] < usize::MAX,
    ensures
        final(pipelines).wf(),
        final(pipelines)@ == specialized_views(
            old(pipelines)@,
            views@,
            msaa_samples,
            views@.len() as int,
        ),
        phases@.len() == views@.len(),
        forall|v: int|
            0 <= v < views@.len() ==> {
                &&& (#[trigger] phases@[v]).pipeline == spec_handle(
                    specialized_views(old(pipelines)@, views@, msaa_samples, v),
                    views@[v].spec_key(msaa_samples),
                )
                &&& phases@[v].pipeline < final(pipelines)@.len()
                &&& final(pipelines)@[phases@[v].pipeline as int] == views@[v].spec_key(
                    msaa_samples,
                )
                &&& is_phase_of(
                    phases@[v].items@,
                    extracted_sprites@,
                    views@[v].visible_entities@,
                    phases@[v].pipeline,
                )
            },
{
    let ghost keys0 = pipelines@;
    let mut phases: Vec<TextModePhase> = Vec::with_capacity(views.len());
    let mut v: usize = 0;
    while v < views.len()
        invariant
            v <= views@.len(),
            pipelines.wf(),
            extracted_sprites.wf(),
            forall|u: int, i: int|
                0 <= u < views@.len() && 0 <= i < views@[u].visible_entities@.len()
                    ==> #[trigger] views@[u].visible_entities@[i] < usize::MAX,
            pipelines@ == specialized_views(keys0, views@, msaa_samples, v as int),
            phases@.len() == v,
            forall|u: int|
                0 <= u < v ==> {
                    &&& (#[trigger] phases@[u]).pipeline == spec_handle(
                        specialized_views(keys0, views@, msaa_samples, u),
                        views@[u].spec_key(msaa_samples),
                    )
                    &&& phases@[u].pipeline < pipelines@.len()
                    &&& pipelines@[phases@[u].pipeline as int] == views@[u].spec_key(msaa_samples)
                    &&& is_phase_of(
                        phases@[u].items@,
                        extracted_sprites@,
                        views@[u].visible_entities@,
                        phases@[u].pipeline,
                    )
                },
        decreases views@.len() - v,
    {
        let view = &views[v];
        let view_key = TextModeSpritePipelineKey::for_view(
            view.hdr,
            msaa_samples,
            view.tonemapping,
            view.dither,
        );
        let ghost keys_before = pipelines@;
        let pipeline = pipelines.specialize(sprite_pipeline, view_key);
        proof {
            assert forall|i: int| 0 <= i < keys_before.len() implies pipelines@[i]
                == keys_before[i] by {}
        }
        let items = queue_view(view_entities, extracted_sprites, &view.visible_entities, pipeline);
        phases.push(TextModePhase { pipeline, items });
        v += 1;
    }
    phases
}

} // verus!

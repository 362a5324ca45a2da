use crate::extract::TextModeExtractedSprite;
use crate::image::{ImageId, ImageSize};
use crate::instance::TextModeSpriteQuad;
use crate::prepare::{
    all_batches, all_quads, batch_image_before, grown_batch, is_drawable, lemma_all_quads_len,
    lemma_phase_quads_len, lemma_total_items_monotone, opened_batch, opens_batch, phase_batches,
    phase_quads, total_items, TextModeBatchEntry,
};
use crate::sprite::EntityId;
use vstd::prelude::*;

verus! {

/// The batches are not empty and lie end to end: together they cover the
/// `count` instances that start at instance number `first`, in order.
pub open spec fn batches_tile(batches: Seq<TextModeBatchEntry>, first: int, count: int) -> bool {
    &&& batches.len() == 0 <==> count == 0
    &&& batches.len() > 0 ==> batches[0].batch.start == first && batches.last().batch.end
        == first + count
    &&& forall|k: int|
        0 <= k < batches.len() ==> (#[trigger] batches[k]).batch.start < batches[k].batch.end
    &&& forall|k: int|
        0 <= k < batches.len() - 1 ==> (#[trigger] batches[k]).batch.end == batches[k
            + 1].batch.start
}

/// The batches of a phase tile the instances of that phase, and the batch
/// that is open at the end is the last of them.
pub proof fn lemma_phase_batches_tile(
    sprites: Map<EntityId, TextModeExtractedSprite>,
    images: Map<ImageId, ImageSize>,
    phase: usize,
    items: Seq<EntityId>,
    first: int,
    n: int,
)
    requires
        0 <= n <= items.len(),
        0 <= first,
        first + n <= u32::MAX,
    ensures
        batches_tile(
            phase_batches(sprites, images, phase, items, first, n),
            first,
            phase_quads(sprites, images, items, n).len() as int,
        ),
        batch_image_before(sprites, images, items, n) matches Some(image) ==> {
            &&& phase_batches(sprites, images, phase, items, first, n).len() > 0
            &&& phase_batches(sprites, images, phase, items, first, n).last().batch.image_handle_id
                == image
        },
    decreases n,
{
    if n > 0 {
        lemma_phase_batches_tile(sprites, images, phase, items, first, n - 1);
        lemma_phase_quads_len(sprites, images, items, n - 1);
        let before = phase_batches(sprites, images, phase, items, first, n - 1);
        let after = phase_batches(sprites, images, phase, items, first, n);
        let count = phase_quads(sprites, images, items, n - 1).len() as int;
        if is_drawable(sprites, images, items[n - 1]) {
            if opens_batch(sprites, images, items, n - 1) {
                let opened = opened_batch(
                    phase,
                    n - 1,
                    items[n - 1],
                    sprites[items[n - 1]].image_handle_id,
                    first + count,
                );
                assert(after == before.push(opened));
                assert forall|k: int| 0 <= k < after.len() - 1 implies (
                #[trigger] after[k]).batch.end == after[k + 1].batch.start by {
                    if k < before.len() - 1 {
                        assert(before[k].batch.end == before[k + 1].batch.start);
                    }
                }
            } else {
                let grown = grown_batch(before.last());
                assert(after == before.update(before.len() - 1, grown));
                assert forall|k: int| 0 <= k < after.len() - 1 implies (
                #[trigger] after[k]).batch.end == after[k + 1].batch.start by {
                    assert(before[k].batch.end == before[k + 1].batch.start);
                }
                assert forall|k: int| 0 <= k < after.len() implies (#[trigger] after[k]).batch.start
                    < after[k].batch.end by {
                    assert(before[k].batch.start < before[k].batch.end);
                }
            }
        }
    }
}

/// Every batch of a phase is opened by a drawn item of that phase: the batch
/// names that item and its entity, has the texture of its sprite, and starts
/// at its instance.
pub proof fn lemma_phase_batch_opener(
    sprites: Map<EntityId, TextModeExtractedSprite>,
    images: Map<ImageId, ImageSize>,
    phase: usize,
    items: Seq<EntityId>,
    first: int,
    n: int,
    k: int,
)
    requires
        0 <= n <= items.len(),
        0 <= first,
        first + n <= u32::MAX,
        0 <= k < phase_batches(sprites, images, phase, items, first, n).len(),
    ensures
        ({
            let entry = phase_batches(sprites, images, phase, items, first, n)[k];
            &&& entry.phase == phase
            &&& entry.item < n
            &&& opens_batch(sprites, images, items, entry.item as int)
            &&& entry.entity == items[entry.item as int]
            &&& entry.batch.image_handle_id == sprites[entry.entity].image_handle_id
            &&& entry.batch.start == first + phase_quads(
                sprites,
                images,
                items,
                entry.item as int,
            ).len()
        }),
    decreases n,
{
    if n > 0 {
        let before = phase_batches(sprites, images, phase, items, first, n - 1);
        lemma_phase_quads_len(sprites, images, items, n - 1);
        if !is_drawable(sprites, images, items[n - 1]) {
            lemma_phase_batch_opener(sprites, images, phase, items, first, n - 1, k);
        } else if opens_batch(sprites, images, items, n - 1) {
            if k < before.len() {
                lemma_phase_batch_opener(sprites, images, phase, items, first, n - 1, k);
            }
        } else {
            lemma_phase_batches_tile(sprites, images, phase, items, first, n - 1);
            lemma_phase_batch_opener(sprites, images, phase, items, first, n - 1, k);
        }
    }
}

/// A drawn item has an instance of its own, the quad of its sprite, and that
/// instance lies in a batch of the sprite's texture.
pub proof fn lemma_drawn_item_is_batched(
    sprites: Map<EntityId, TextModeExtractedSprite>,
    images: Map<ImageId, ImageSize>,
    phase: usize,
    items: Seq<EntityId>,
    first: int,
    n: int,
    i: int,
)
    requires
        0 <= i < n <= items.len(),
        0 <= first,
        first + n <= u32::MAX,
        is_drawable(sprites, images, items[i]),
    ensures
        ({
            let instance = phase_quads(sprites, images, items, i).len() as int;
            let quads = phase_quads(sprites, images, items, n);
            let batches = phase_batches(sprites, images, phase, items, first, n);
            &&& instance < quads.len()
            &&& quads[instance] == TextModeSpriteQuad::spec_new(
                sprites[items[i]],
                images[sprites[items[i]].image_handle_id],
            )
            &&& exists|k: int|
                0 <= k < batches.len() && (#[trigger] batches[k]).batch.start <= first + instance
                    < batches[k].batch.end && batches[k].batch.image_handle_id
                    == sprites[items[i]].image_handle_id
        }),
    decreases n,
{
    let instance = phase_quads(sprites, images, items, i).len() as int;
    let before = phase_batches(sprites, images, phase, items, first, n - 1);
    let after = phase_batches(sprites, images, phase, items, first, n);
    let image = sprites[items[i]].image_handle_id;
    lemma_phase_quads_len(sprites, images, items, n - 1);
    lemma_phase_batches_tile(sprites, images, phase, items, first, n - 1);
    lemma_phase_batches_tile(sprites, images, phase, items, first, n);
    if i == n - 1 {
        let k = after.len() - 1;
        assert(after[k].batch.start <= first + instance < after[k].batch.end);
        assert(after[k].batch.image_handle_id == image);
    } else {
        lemma_drawn_item_is_batched(sprites, images, phase, items, first, n - 1, i);
        let k = choose|k: int|
            0 <= k < before.len() && (#[trigger] before[k]).batch.start <= first + instance
                < before[k].batch.end && before[k].batch.image_handle_id == image;
        if !is_drawable(sprites, images, items[n - 1]) {
            assert(after[k] == before[k]);
        } else if opens_batch(sprites, images, items, n - 1) {
            assert(after[k] == before[k]);
        } else {
            if k == before.len() - 1 {
                assert(after[k] == grown_batch(before[k]));
            } else {
                assert(after[k] == before[k]);
            }
        }
        assert(after[k].batch.start <= first + instance < after[k].batch.end
            && after[k].batch.image_handle_id == image);
    }
}

/// Batching keeps the order of the draw items: of two drawn items of a
/// phase, the earlier one has the smaller instance number.
pub proof fn lemma_batching_preserves_order(
    sprites: Map<EntityId, TextModeExtractedSprite>,
    images: Map<ImageId, ImageSize>,
    items: Seq<EntityId>,
    i: int,
    j: int,
)
    requires
        0 <= i < j <= items.len(),
        is_drawable(sprites, images, items[i]),
    ensures
        phase_quads(sprites, images, items, i).len() < phase_quads(sprites, images, items, j).len(),
    decreases j - i,
{
    if i + 1 < j {
        lemma_batching_preserves_order(sprites, images, items, i, j - 1);
    }
}

/// Two neighbouring batches of a phase that share a texture are kept apart
/// by a draw item between them that is no extracted sprite; wherever nothing
/// stands between two runs of one texture, they are one batch.
pub proof fn lemma_batches_are_merged(
    sprites: Map<EntityId, TextModeExtractedSprite>,
    images: Map<ImageId, ImageSize>,
    phase: usize,
    items: Seq<EntityId>,
    first: int,
    n: int,
    k: int,
)
    requires
        0 <= n <= items.len(),
        0 <= first,
        first + n <= u32::MAX,
        0 <= k,
        k + 1 < phase_batches(sprites, images, phase, items, first, n).len(),
        phase_batches(sprites, images, phase, items, first, n)[k].batch.image_handle_id
            == phase_batches(sprites, images, phase, items, first, n)[k + 1].batch.image_handle_id,
    ensures
        exists|i: int|
            phase_batches(sprites, images, phase, items, first, n)[k].item < i < phase_batches(
                sprites,
                images,
                phase,
                items,
                first,
                n,
            )[k + 1].item && !sprites.contains_key(#[trigger] items[i]),
{
    let batches = phase_batches(sprites, images, phase, items, first, n);
    let a = batches[k].item as int;
    let b = batches[k + 1].item as int;
    let image = batches[k].batch.image_handle_id;
    lemma_phase_batch_opener(sprites, images, phase, items, first, n, k);
    lemma_phase_batch_opener(sprites, images, phase, items, first, n, k + 1);
    lemma_phase_batches_tile(sprites, images, phase, items, first, n);
    assert(batches[k].batch.end == batches[k + 1].batch.start);
    assert(batches[k].batch.start < batches[k].batch.end);
    if b <= a {
        if b < a {
            lemma_batching_preserves_order(sprites, images, items, b, a);
        }
        assert(false);
    }
    lemma_run_of_one_texture(sprites, images, phase, items, first, n, k, b);
}

/// Between the opening items of two neighbouring batches, as long as every
/// draw item is an extracted sprite, every drawn sprite has the texture of
/// the first batch, which is therefore still open.
proof fn lemma_run_of_one_texture(
    sprites: Map<EntityId, TextModeExtractedSprite>,
    images: Map<ImageId, ImageSize>,
    phase: usize,
    items: Seq<EntityId>,
    first: int,
    n: int,
    k: int,
    m: int,
)
    requires
        0 <= n <= items.len(),
        0 <= first,
        first + n <= u32::MAX,
        0 <= k,
        k + 1 < phase_batches(sprites, images, phase, items, first, n).len(),
        phase_batches(sprites, images, phase, items, first, n)[k].item < m <= phase_batches(
            sprites,
            images,
            phase,
            items,
            first,
            n,
        )[k + 1].item,
    ensures
        (exists|i: int|
            phase_batches(sprites, images, phase, items, first, n)[k].item < i < m
                && !sprites.contains_key(#[trigger] items[i])) || batch_image_before(
            sprites,
            images,
            items,
            m,
        ) == Some(phase_batches(sprites, images, phase, items, first, n)[k].batch.image_handle_id),
    decreases m,
{
    let batches = phase_batches(sprites, images, phase, items, first, n);
    let a = batches[k].item as int;
    let b = batches[k + 1].item as int;
    let image = batches[k].batch.image_handle_id;
    lemma_phase_batch_opener(sprites, images, phase, items, first, n, k);
    lemma_phase_batch_opener(sprites, images, phase, items, first, n, k + 1);
    lemma_phase_batches_tile(sprites, images, phase, items, first, n);
    if m == a + 1 {
    } else {
        lemma_run_of_one_texture(sprites, images, phase, items, first, n, k, m - 1);
        if exists|i: int| a < i < m - 1 && !sprites.contains_key(#[trigger] items[i]) {
            let i = choose|i: int| a < i < m - 1 && !sprites.contains_key(#[trigger] items[i]);
            assert(a < i < m && !sprites.contains_key(items[i]));
        } else if !sprites.contains_key(items[m - 1]) {
            assert(a < m - 1 < m && !sprites.contains_key(items[m - 1]));
        } else if is_drawable(sprites, images, items[m - 1]) {
            // A drawn sprite strictly between the two openers belongs to the
            // first batch, so it has that batch's texture.
            lemma_drawn_between_openers(sprites, images, phase, items, first, n, k, m - 1);
        }
    }
}

/// A drawn item that stands strictly between the opening items of two
/// neighbouring batches has the texture of the first of them.
proof fn lemma_drawn_between_openers(
    sprites: Map<EntityId, TextModeExtractedSprite>,
    images: Map<ImageId, ImageSize>,
    phase: usize,
    items: Seq<EntityId>,
    first: int,
    n: int,
    k: int,
    i: int,
)
    requires
        0 <= n <= items.len(),
        0 <= first,
        first + n <= u32::MAX,
        0 <= k,
        k + 1 < phase_batches(sprites, images, phase, items, first, n).len(),
        phase_batches(sprites, images, phase, items, first, n)[k].item < i < phase_batches(
            sprites,
            images,
            phase,
            items,
            first,
            n,
        )[k + 1].item,
        is_drawable(sprites, images, items[i]),
    ensures
        sprites[items[i]].image_handle_id == phase_batches(
            sprites,
            images,
            phase,
            items,
            first,
            n,
        )[k].batch.image_handle_id,
{
    let batches = phase_batches(sprites, images, phase, items, first, n);
    let a = batches[k].item as int;
    let b = batches[k + 1].item as int;
    lemma_phase_batch_opener(sprites, images, phase, items, first, n, k);
    lemma_phase_batch_opener(sprites, images, phase, items, first, n, k + 1);
    lemma_phase_batches_tile(sprites, images, phase, items, first, n);
    lemma_drawn_item_is_batched(sprites, images, phase, items, first, n, i);
    lemma_batching_preserves_order(sprites, images, items, a, i);
    lemma_batching_preserves_order(sprites, images, items, i, b);
    let instance = first + phase_quads(sprites, images, items, i).len();
    let c = choose|c: int|
        0 <= c < batches.len() && (#[trigger] batches[c]).batch.start <= instance
            < batches[c].batch.end && batches[c].batch.image_handle_id
            == sprites[items[i]].image_handle_id;
    assert(batches[k].batch.start < instance < batches[k + 1].batch.start);
    let count = phase_quads(sprites, images, items, n).len() as int;
    lemma_tiles_are_ordered(batches, first, count, c, k);
    lemma_tiles_are_ordered(batches, first, count, k + 1, c);
}

/// In a tiling, a later batch starts where an earlier one ends or after it.
pub proof fn lemma_tiles_are_ordered(
    batches: Seq<TextModeBatchEntry>,
    first: int,
    count: int,
    a: int,
    b: int,
)
    requires
        batches_tile(batches, first, count),
        0 <= a < batches.len(),
        0 <= b < batches.len(),
    ensures
        a < b ==> batches[a].batch.end <= batches[b].batch.start,
        a <= b ==> batches[a].batch.start <= batches[b].batch.start,
    decreases b - a,
{
    if a < b {
        lemma_tiles_are_ordered(batches, first, count, a, b - 1);
        assert(batches[b - 1].batch.end == batches[b].batch.start);
        assert(batches[b - 1].batch.start < batches[b - 1].batch.end);
    }
}

/// Two tilings that follow one another make one tiling.
pub proof fn lemma_tiles_concat(
    front: Seq<TextModeBatchEntry>,
    back: Seq<TextModeBatchEntry>,
    first: int,
    front_count: int,
    back_count: int,
)
    requires
        0 <= front_count,
        0 <= back_count,
        batches_tile(front, first, front_count),
        batches_tile(back, first + front_count, back_count),
    ensures
        batches_tile(front + back, first, front_count + back_count),
{
    let all = front + back;
    assert forall|k: int| 0 <= k < all.len() implies (#[trigger] all[k]).batch.start
        < all[k].batch.end by {
        if k < front.len() {
            assert(all[k] == front[k]);
        } else {
            assert(all[k] == back[k - front.len()]);
        }
    }
    assert forall|k: int| 0 <= k < all.len() - 1 implies (#[trigger] all[k]).batch.end == all[k
        + 1].batch.start by {
        if k < front.len() - 1 {
            assert(all[k] == front[k]);
            assert(all[k + 1] == front[k + 1]);
        } else if k == front.len() - 1 {
            assert(all[k] == front.last());
            assert(all[k + 1] == back[0]);
        } else {
            assert(all[k] == back[k - front.len()]);
            assert(all[k + 1] == back[k - front.len() + 1]);
        }
    }
    if all.len() > 0 {
        if front.len() > 0 {
            assert(all[0] == front[0]);
        } else {
            assert(all[0] == back[0]);
        }
        if back.len() > 0 {
            assert(all.last() == back.last());
        } else {
            assert(all.last() == front.last());
        }
    }
}

/// Over a whole frame the batches tile the instance buffer: the first batch
/// starts at instance 0, each batch starts where the one before it ends, the
/// last ends with the buffer, and no batch is empty.
pub proof fn lemma_all_batches_tile(
    sprites: Map<EntityId, TextModeExtractedSprite>,
    images: Map<ImageId, ImageSize>,
    phases: Seq<Vec<EntityId>>,
    p: int,
)
    requires
        0 <= p <= phases.len(),
        total_items(phases, phases.len() as int) <= u32::MAX,
    ensures
        batches_tile(
            all_batches(sprites, images, phases, p),
            0,
            all_quads(sprites, images, phases, p).len() as int,
        ),
    decreases p,
{
    if p > 0 {
        lemma_all_batches_tile(sprites, images, phases, p - 1);
        lemma_all_quads_len(sprites, images, phases, p - 1);
        lemma_total_items_monotone(phases, p, phases.len() as int);
        let first = all_quads(sprites, images, phases, p - 1).len() as int;
        let items = phases[p - 1]@;
        lemma_phase_batches_tile(
            sprites,
            images,
            (p - 1) as usize,
            items,
            first,
            items.len() as int,
        );
        lemma_tiles_concat(
            all_batches(sprites, images, phases, p - 1),
            phase_batches(sprites, images, (p - 1) as usize, items, first, items.len() as int),
            0,
            first,
            phase_quads(sprites, images, items, items.len() as int).len() as int,
        );
    }
}

} // verus!

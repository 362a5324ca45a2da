use crate::image::ImageId;
use crate::sprite::EntityId;
use vstd::prelude::*;
use vstd::seq_lib::{lemma_multiset_commutative, to_multiset_build};

verus! {

broadcast use vstd::multiset::group_multiset_axioms;

/// A sprite in a view's draw list.
#[derive(Clone, Copy, Debug, PartialEq, Eq, Structural)]
pub struct TextModePhaseItem {
    /// The key of the extracted sprite.
    pub entity: EntityId,
    /// The sort key of the sprite's depth; see `spec_depth_sort_key`.
    pub sort_key: u32,
    /// The sprite's texture, which orders sprites of equal depth.
    pub image_handle_id: ImageId,
    /// Handle of the pipeline variant of the item's view.
    pub pipeline: usize,
    /// The item's batch, still a placeholder: preparation assigns the
    /// batches.
    pub batch_start: u32,
    pub batch_end: u32,
}

/// The place of a depth, given as a single-precision bit pattern, on the
/// number line of sign-and-magnitude integers: the magnitude for a clear
/// sign bit and minus the magnitude for a set sign bit.
///
/// Single-precision numbers other than NaN are ordered like these integers,
/// and the two zeros share the place 0.
pub open spec fn depth_rank(depth: u32) -> int {
    if depth & 0x8000_0000u32 != 0 {
        -((depth & 0x7FFF_FFFFu32) as int)
    } else {
        (depth & 0x7FFF_FFFFu32) as int
    }
}

/// The sort key of a depth given as a single-precision bit pattern.
///
/// The key of negative zero is that of zero. Otherwise the key flips the
/// sign bit of a number whose sign bit is clear, and every bit of a number
/// whose sign bit is set, so that the keys are ordered as plain unsigned
/// integers.
pub open spec fn spec_depth_sort_key(depth: u32) -> u32 {
    if depth == 0x8000_0000u32 {
        0x8000_0000u32
    } else if depth & 0x8000_0000u32 != 0 {
        !depth
    } else {
        depth | 0x8000_0000u32
    }
}

/// Computes `spec_depth_sort_key`.
pub fn depth_sort_key(depth: u32) -> (key: u32)
    ensures
        key == spec_depth_sort_key(depth),
{
    if depth == 0x8000_0000u32 {
        0x8000_0000u32
    } else if depth & 0x8000_0000u32 != 0 {
        !depth
    } else {
        depth | 0x8000_0000u32
    }
}

/// The sort keys order depths exactly as their ranks do.
pub proof fn lemma_depth_sort_key_orders_ranks(a: u32, b: u32)
    ensures
        spec_depth_sort_key(a) <= spec_depth_sort_key(b) <==> depth_rank(a) <= depth_rank(b),
        spec_depth_sort_key(a) == spec_depth_sort_key(b) <==> depth_rank(a) == depth_rank(b),
{
    lemma_depth_sort_key_of_rank(a);
    lemma_depth_sort_key_of_rank(b);
}

/// The key of a depth at or above zero is its rank moved up by 2^31; the key
/// of a depth below zero is its rank moved up by 2^31 - 1.
proof fn lemma_depth_sort_key_of_rank(depth: u32)
    ensures
        depth_rank(depth) >= 0 ==> spec_depth_sort_key(depth) == depth_rank(depth) + 0x8000_0000,
        depth_rank(depth) < 0 ==> spec_depth_sort_key(depth) == depth_rank(depth) + 0x7FFF_FFFF,
{
    let magnitude = depth & 0x7FFF_FFFFu32;
    if depth & 0x8000_0000u32 != 0 {
        assert(!depth == 0x7FFF_FFFFu32 - magnitude && (magnitude == 0 <==> depth
            == 0x8000_0000u32)) by (bit_vector)
            requires
                depth & 0x8000_0000u32 != 0,
                magnitude == depth & 0x7FFF_FFFFu32,
        ;
    } else {
        assert(depth | 0x8000_0000u32 == magnitude + 0x8000_0000u32 && depth != 0x8000_0000u32)
            by (bit_vector)
            requires
                depth & 0x8000_0000u32 == 0,
                magnitude == depth & 0x7FFF_FFFFu32,
        ;
    }
}

/// The draw order: by ascending depth key, and among equal depth keys by
/// texture identity.
pub open spec fn draws_before(a: TextModePhaseItem, b: TextModePhaseItem) -> bool {
    a.sort_key < b.sort_key || (a.sort_key == b.sort_key && a.image_handle_id.precedes(
        b.image_handle_id,
    ))
}

/// Decides `draws_before`.
pub fn in_draw_order(a: &TextModePhaseItem, b: &TextModePhaseItem) -> (r: bool)
    ensures
        r == draws_before(*a, *b),
{
    a.sort_key < b.sort_key || (a.sort_key == b.sort_key && a.image_handle_id.le(
        &b.image_handle_id,
    ))
}

/// Every item draws before every item that comes after it.
pub open spec fn is_draw_ordered(items: Seq<TextModePhaseItem>) -> bool {
    forall|i: int, j: int| 0 <= i < j < items.len() ==> draws_before(items[i], items[j])
}

/// The draw order compares any two items and is transitive.
pub proof fn lemma_draw_order(a: TextModePhaseItem, b: TextModePhaseItem, c: TextModePhaseItem)
    ensures
        draws_before(a, b) || draws_before(b, a),
        draws_before(a, b) && draws_before(b, c) ==> draws_before(a, c),
{
    ImageId::lemma_precedes_total(a.image_handle_id, b.image_handle_id);
    if a.image_handle_id.precedes(b.image_handle_id) && b.image_handle_id.precedes(
        c.image_handle_id,
    ) {
        ImageId::lemma_precedes_transitive(a.image_handle_id, b.image_handle_id, c.image_handle_id);
    }
}

/// In a draw-ordered list the depth keys never decrease, and the items of
/// one depth that share a texture stand next to each other: nothing of
/// another depth or texture comes between two of them.
pub proof fn lemma_draw_order_groups_textures(
    items: Seq<TextModePhaseItem>,
    i: int,
    k: int,
    j: int,
)
    requires
        is_draw_ordered(items),
        0 <= i <= k <= j < items.len(),
    ensures
        items[i].sort_key <= items[k].sort_key <= items[j].sort_key,
        items[i].sort_key == items[j].sort_key && items[i].image_handle_id
            == items[j].image_handle_id ==> items[k].sort_key == items[i].sort_key
            && items[k].image_handle_id == items[i].image_handle_id,
{
    if i < k {
        assert(draws_before(items[i], items[k]));
    }
    if k < j {
        assert(draws_before(items[k], items[j]));
    }
    ImageId::lemma_precedes_total(items[i].image_handle_id, items[k].image_handle_id);
}

fn merge(left: &Vec<TextModePhaseItem>, right: &Vec<TextModePhaseItem>) -> (out: Vec<
    TextModePhaseItem,
>)
    requires
        is_draw_ordered(left@),
        is_draw_ordered(right@),
        left@.len() + right@.len() <= usize::MAX,
    ensures
        is_draw_ordered(out@),
        out@.to_multiset() == left@.to_multiset().add(right@.to_multiset()),
        out@.len() == left@.len() + right@.len(),
{
    let mut out: Vec<TextModePhaseItem> = Vec::with_capacity(left.len() + right.len());
    let mut i: usize = 0;
    let mut j: usize = 0;
    proof {
        assert(out@ =~= left@.take(0) + right@.take(0));
        lemma_multiset_commutative(left@.take(0), right@.take(0));
    }
    while i < left.len() || j < right.len()
        invariant
            i <= left@.len(),
            j <= right@.len(),
            is_draw_ordered(left@),
            is_draw_ordered(right@),
            is_draw_ordered(out@),
            out@.len() == i + j,
            out@.to_multiset() == left@.take(i as int).to_multiset().add(
                right@.take(j as int).to_multiset(),
            ),
            forall|a: int, x: int|
                0 <= a < out@.len() && i <= x < left@.len() ==> draws_before(out@[a], left@[x]),
            forall|a: int, y: int|
                0 <= a < out@.len() && j <= y < right@.len() ==> draws_before(out@[a], right@[y]),
        decreases left@.len() - i + right@.len() - j,
    {
        let take_left = if i >= left.len() {
            false
        } else if j >= right.len() {
            true
        } else {
            in_draw_order(&left[i], &right[j])
        };
        let ghost before = out@;
        if take_left {
            let item = left[i];
            out.push(item);
            proof {
                to_multiset_build(before, item);
                to_multiset_build(left@.take(i as int), item);
                assert(left@.take(i + 1) =~= left@.take(i as int).push(item));
                assert(out@.to_multiset() =~= left@.take(i + 1).to_multiset().add(
                    right@.take(j as int).to_multiset(),
                ));
                assert forall|a: int, y: int|
                    0 <= a < out@.len() && j <= y < right@.len() implies draws_before(
                    out@[a],
                    right@[y],
                ) by {
                    if a == before.len() {
                        if y > j {
                            lemma_draw_order(item, right@[j as int], right@[y]);
                        }
                    }
                }
                assert forall|a: int, b: int| 0 <= a < b < out@.len() implies draws_before(
                    out@[a],
                    out@[b],
                ) by {
                    if b == before.len() {
                        assert(draws_before(before[a], left@[i as int]));
                    }
                }
            }
            i += 1;
        } else {
            let item = right[j];
            out.push(item);
            proof {
                to_multiset_build(before, item);
                to_multiset_build(right@.take(j as int), item);
                assert(right@.take(j + 1) =~= right@.take(j as int).push(item));
                assert(out@.to_multiset() =~= left@.take(i as int).to_multiset().add(
                    right@.take(j + 1).to_multiset(),
                ));
                if i < left@.len() {
                    lemma_draw_order(left@[i as int], item, item);
                }
                assert forall|a: int, x: int|
                    0 <= a < out@.len() && i <= x < left@.len() implies draws_before(
                    out@[a],
                    left@[x],
                ) by {
                    if a == before.len() {
                        if x > i {
                            lemma_draw_order(item, left@[i as int], left@[x]);
                        }
                    }
                }
                assert forall|a: int, b: int| 0 <= a < b < out@.len() implies draws_before(
                    out@[a],
                    out@[b],
                ) by {
                    if b == before.len() {
                        assert(draws_before(before[a], right@[j as int]));
                    }
                }
            }
            j += 1;
        }
    }
    proof {
        assert(left@.take(left@.len() as int) =~= left@);
        assert(right@.take(right@.len() as int) =~= right@);
    }
    out
}

/// Sorts `items` into draw order by merging sorted halves.
pub fn sort_phase_items(items: Vec<TextModePhaseItem>) -> (sorted: Vec<TextModePhaseItem>)
    ensures
        is_draw_ordered(sorted@),
        sorted@.to_multiset() == items@.to_multiset(),
        sorted@.len() == items@.len(),
    decreases items@.len(),
{
    let n = items.len();
    if n <= 1 {
        return items;
    }
    let mid = n / 2;
    let mut left: Vec<TextModePhaseItem> = Vec::with_capacity(mid);
    let mut right: Vec<TextModePhaseItem> = Vec::with_capacity(n - mid);
    let mut i: usize = 0;
    while i < mid
        invariant
            i <= mid <= n,
            n == items@.len(),
            left@ == items@.subrange(0, i as int),
        decreases mid - i,
    {
        left.push(items[i]);
        assert(left@ =~= items@.subrange(0, i + 1));
        i += 1;
    }
    while i < n
        invariant
            mid <= i <= n,
            n == items@.len(),
            right@ == items@.subrange(mid as int, i as int),
        decreases n - i,
    {
        right.push(items[i]);
        assert(right@ =~= items@.subrange(mid as int, i + 1));
        i += 1;
    }
    proof {
        assert(items@ =~= left@ + right@);
        lemma_multiset_commutative(left@, right@);
    }
    let left = sort_phase_items(left);
    let right = sort_phase_items(right);
    merge(&left, &right)
}

} // verus!

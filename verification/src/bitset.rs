use fixedbitset::FixedBitSet;
use vstd::prelude::*;

verus! {

/// The bit set of the `fixedbitset` crate. Nothing inside it is visible
/// here; what it holds is spoken of through `stored_bits` and `bit_len`.
#[verifier::external_type_specification]
#[verifier::external_body]
pub struct ExFixedBitSet(FixedBitSet);

/// The positions of the bits that are set in the storage of a bit set,
/// whether or not they lie below its length.
pub uninterp spec fn stored_bits(set: FixedBitSet) -> Set<int>;

/// The length of a bit set in bits.
pub uninterp spec fn bit_len(set: FixedBitSet) -> nat;

/// `FixedBitSet::clear` writes zero to every block of the storage, so no bit
/// stays set, and leaves the length as it is.
pub assume_specification[ FixedBitSet::clear ](set: &mut FixedBitSet)
    ensures
        stored_bits(*final(set)) == Set::<int>::empty(),
        bit_len(*final(set)) == bit_len(*old(set)),
;

/// `FixedBitSet::contains` answers whether `bit` lies below the length and
/// is set; a bit at or beyond the length counts as not set.
pub assume_specification[ FixedBitSet::contains ](set: &FixedBitSet, bit: usize) -> (enabled: bool)
    ensures
        enabled == (bit < bit_len(*set) && stored_bits(*set).contains(bit as int)),
;

/// `FixedBitSet::extend` sets the bit at every position in `bits`, first
/// growing the set by zeroed blocks to one more than a position that lies at
/// or beyond its length. The bits that were set stay set, no other bit is
/// set, and the set never shrinks. The position `usize::MAX` is left out
/// because one more than it does not exist.
#[verifier::external_body]
pub(crate) fn enable_bits(set: &mut FixedBitSet, bits: &Vec<usize>)
    requires
        forall|i: int| 0 <= i < bits@.len() ==> bits@[i] < usize::MAX,
    ensures
        stored_bits(*final(set)) == stored_bits(*old(set)).union(
            Set::new(|bit: int| exists|i: int| 0 <= i < bits@.len() && bits@[i] == bit),
        ),
        bit_len(*final(set)) >= bit_len(*old(set)),
        forall|i: int| 0 <= i < bits@.len() ==> bits@[i] < bit_len(*final(set)),
{
    set.extend(bits.iter().copied());
}

} // verus!

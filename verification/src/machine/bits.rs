use vstd::prelude::*;

verus! {

/// A masked byte is at most its mask.
pub broadcast proof fn lemma_mask_bound_u8(x: u8, mask: u8)
    by (bit_vector)
    ensures
        #[trigger] (x & mask) <= mask,
{
}

/// A masked word is at most its mask.
pub broadcast proof fn lemma_mask_bound_u16(x: u16, mask: u16)
    by (bit_vector)
    ensures
        #[trigger] (x & mask) <= mask,
{
}

} // verus!

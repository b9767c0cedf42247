//! Indexing of the cepstral ring buffer.
//!
//! The feature extractor keeps the last [`CEPS_MEM`](crate::CEPS_MEM)
//! cepstra in a fixed table and advances a head index modulo the table
//! size.  The current cepstrum is written at the head; the delta features
//! read the head together with the two slots before it.

use vstd::prelude::*;

verus! {

use crate::CEPS_MEM;

/// Slot holding the cepstrum written `back` frames ago, when the head
/// stands at `head`.
pub open spec fn spec_prev_slot(head: int, back: int) -> int {
    (head + CEPS_MEM - back) % (CEPS_MEM as int)
}

/// Slot holding the cepstrum written `back` frames ago.
pub fn prev_slot(head: usize, back: usize) -> (r: usize)
    requires
        head < CEPS_MEM,
        back < CEPS_MEM,
    ensures
        r == spec_prev_slot(head as int, back as int),
        r < CEPS_MEM,
{
    if head < back {
        CEPS_MEM + head - back
    } else {
        head - back
    }
}

/// Head index for the next frame: one step forward, wrapping at the table
/// size.
pub fn advance_head(head: usize) -> (r: usize)
    requires
        head < CEPS_MEM,
    ensures
        r == (head + 1) % (CEPS_MEM as int),
        r < CEPS_MEM,
{
    let next = head + 1;
    if next == CEPS_MEM {
        0
    } else {
        next
    }
}

/// The three slots read for the delta features — the current cepstrum and
/// the two before it — are pairwise distinct, so the reads never alias the
/// slot just written beyond the intended one.
pub proof fn lemma_recent_slots_distinct(head: int)
    requires
        0 <= head < CEPS_MEM,
    ensures
        spec_prev_slot(head, 0) != spec_prev_slot(head, 1),
        spec_prev_slot(head, 0) != spec_prev_slot(head, 2),
        spec_prev_slot(head, 1) != spec_prev_slot(head, 2),
{
}

} // verus!

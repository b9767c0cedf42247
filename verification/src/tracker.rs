//! Integer streaming state of one denoised stream.
//!
//! Each stream carries two integers between frames: the head of the
//! cepstral ring and the pitch period found on the previous frame.  This
//! tracker owns them, keeps the head inside the ring and the period inside
//! the supported range, and is the single place where they change.

use vstd::prelude::*;

verus! {

use crate::ring;
use crate::pitch;
use crate::{CEPS_MEM, PITCH_MAX_PERIOD, PITCH_MIN_PERIOD};

/// The per-stream integer state: cepstral ring head and previous pitch
/// period.
pub struct StreamTracker {
    /// Slot of the cepstral ring that the next cepstrum is written to.
    pub mem_id: usize,
    /// Pitch period found on the previous frame; zero before the first
    /// voiced frame.
    pub last_period: usize,
}

impl StreamTracker {
    /// The head stays inside the ring, and the period is either still
    /// unset or inside the supported range.
    pub open spec fn wf(&self) -> bool {
        &&& self.mem_id < CEPS_MEM
        &&& (self.last_period == 0 || PITCH_MIN_PERIOD <= self.last_period < PITCH_MAX_PERIOD)
    }

    /// A fresh stream: head at slot zero, no period found yet.
    pub fn new() -> (r: StreamTracker)
        ensures
            r.wf(),
            r.mem_id == 0,
            r.last_period == 0,
    {
        StreamTracker { mem_id: 0, last_period: 0 }
    }

    /// The three ring slots the delta features read: the slot about to be
    /// written and the two most recently written ones.  The slots are
    /// pairwise distinct.
    pub fn cepstral_slots(&self) -> (r: (usize, usize, usize))
        requires
            self.wf(),
        ensures
            r.0 == ring::spec_prev_slot(self.mem_id as int, 0),
            r.1 == ring::spec_prev_slot(self.mem_id as int, 1),
            r.2 == ring::spec_prev_slot(self.mem_id as int, 2),
            r.0 < CEPS_MEM && r.1 < CEPS_MEM && r.2 < CEPS_MEM,
            r.0 != r.1 && r.0 != r.2 && r.1 != r.2,
    {
        proof {
            ring::lemma_recent_slots_distinct(self.mem_id as int);
        }
        (
            ring::prev_slot(self.mem_id, 0),
            ring::prev_slot(self.mem_id, 1),
            ring::prev_slot(self.mem_id, 2),
        )
    }

    /// Steps the ring head after a cepstrum has been written at it.  The
    /// period is untouched: only voiced frames reach this point, and they
    /// record their period separately.
    pub fn push_cepstrum(&mut self)
        requires
            old(self).wf(),
        ensures
            final(self).wf(),
            final(self).mem_id == (old(self).mem_id + 1) % (CEPS_MEM as int),
            final(self).last_period == old(self).last_period,
    {
        self.mem_id = ring::advance_head(self.mem_id);
    }

    /// Records the period chosen by the doubling remover: twice the
    /// winning half-rate lag `t`, pseudo-interpolated by `offset` and
    /// floored at the minimum period.  The recorded period always lands
    /// inside the supported range.
    pub fn record_period(&mut self, t: usize, offset: i32)
        requires
            old(self).wf(),
            -1 <= offset <= 1,
            offset == 1 ==> t >= 1,
            t < PITCH_MAX_PERIOD / 2,
        ensures
            final(self).wf(),
            final(self).mem_id == old(self).mem_id,
            final(self).last_period as int == (if 2 * (t as int) - offset as int
                >= PITCH_MIN_PERIOD as int {
                2 * (t as int) - offset as int
            } else {
                PITCH_MIN_PERIOD as int
            }),
            PITCH_MIN_PERIOD <= final(self).last_period < PITCH_MAX_PERIOD,
    {
        self.last_period = pitch::final_period(t, offset, PITCH_MIN_PERIOD);
    }
}

} // verus!

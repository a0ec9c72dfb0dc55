//! The zoom controller: holds the current zoom scale and applies bounded
//! increments from scroll input.
//!
//! The scale counts two-thousandths, so that applying the smoothness factor
//! of -1/2 to a scroll delta given in thousandths stays exact: the candidate
//! scale is `scale + delta * (-1/2)` in real terms, which in these units is
//! plain subtraction.
use vstd::prelude::*;

verus! {

/// The scale unit: `SCALE_ONE` two-thousandths make a zoom factor of 1.0.
pub const SCALE_ONE: i64 = 2000;

/// The current zoom scale, in two-thousandths of the neutral factor.
#[derive(Clone, Copy, Debug, PartialEq, Eq, Structural)]
pub struct ZoomState {
    pub scale: i64,
}

impl ZoomState {
    /// The scale never falls below the neutral factor 1.0.
    pub open spec fn wf(self) -> bool {
        self.scale >= SCALE_ONE
    }

    /// The scale an update with scroll delta `delta` (in thousandths) aims
    /// for: `scale + delta * (-1/2)`, exact in two-thousandths.
    pub open spec fn candidate(self, delta: i64) -> int {
        self.scale - delta
    }

    /// Start at the neutral zoom factor.
    pub fn new() -> (z: ZoomState)
        ensures
            z.scale == SCALE_ONE,
            z.wf(),
    {
        ZoomState { scale: SCALE_ONE }
    }

    /// Apply a scroll delta (in thousandths of a scroll unit). A candidate
    /// below the neutral factor is rejected: the scale stays put and no
    /// redraw is called for. Otherwise the candidate is adopted and the
    /// caller must redraw.
    pub fn update(&mut self, delta: i64) -> (redraw: bool)
        requires
            old(self).wf(),
            old(self).candidate(delta) <= i64::MAX,
        ensures
            final(self).wf(),
            redraw == (old(self).candidate(delta) >= SCALE_ONE),
            redraw ==> final(self).scale == old(self).candidate(delta),
            !redraw ==> *final(self) == *old(self),
    {
        let candidate = self.scale - delta;
        if SCALE_ONE <= candidate {
            self.scale = candidate;
            true
        } else {
            false
        }
    }
}

} // verus!

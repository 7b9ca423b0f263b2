//! Input level metering: when to read from the capture stream, and how long
//! a peak marker is held before it starts to fall.
use vstd::prelude::*;

verus! {

/// The fewest samples worth reading for a meter update.
pub const MIN_READ: usize = 256;

/// The most samples read for one meter update.
pub const MAX_READ: usize = 4096;

/// Frames a new peak is held before the marker decays.
pub const HOLD_FRAMES: u32 = 60;

/// How many samples to read when `available` are waiting: none below
/// [`MIN_READ`], otherwise all of them up to [`MAX_READ`].
pub fn read_size(available: usize) -> (r: Option<usize>)
    ensures
        available < MIN_READ <==> r is None,
        r matches Some(n) ==> n == (if available < MAX_READ { available } else { MAX_READ }),
{
    if available >= MIN_READ {
        Some(if available < MAX_READ { available } else { MAX_READ })
    } else {
        None
    }
}

/// The hold timer after a frame that starts with timer `t`.
pub open spec fn next_timer(t: nat, new_peak: bool) -> nat {
    let t0: nat = if new_peak { HOLD_FRAMES as nat } else { t };
    if t0 > 0 {
        (t0 - 1) as nat
    } else {
        0
    }
}

/// Whether the held peaks decay in a frame that starts with timer `t`.
pub open spec fn decays(t: nat, new_peak: bool) -> bool {
    !new_peak && t == 0
}

/// The hold timer after `n` frames without a new peak.
pub open spec fn timer_after_quiet(t: nat, n: nat) -> nat
    decreases n,
{
    if n == 0 {
        t
    } else {
        next_timer(timer_after_quiet(t, (n - 1) as nat), false)
    }
}

/// The hold countdown of a peak meter.
pub struct PeakHold {
    timer: u32,
}

impl PeakHold {
    pub closed spec fn view(&self) -> nat {
        self.timer as nat
    }

    #[verifier::type_invariant]
    closed spec fn inv(&self) -> bool {
        self.timer <= HOLD_FRAMES
    }

    /// No peak held.
    pub fn new() -> (r: Self)
        ensures
            r.view() == 0,
    {
        PeakHold { timer: 0 }
    }

    /// One meter frame; `new_peak` says that a channel rose above its held
    /// peak, which restarts the hold. Returns whether the held peaks decay
    /// in this frame: only once the hold has run out.
    pub fn tick(&mut self, new_peak: bool) -> (decay: bool)
        ensures
            decay == decays(old(self).view(), new_peak),
            final(self).view() == next_timer(old(self).view(), new_peak),
            final(self).view() <= HOLD_FRAMES,
    {
        proof {
            use_type_invariant(&*self);
        }
        let t0: u32 = if new_peak { HOLD_FRAMES } else { self.timer };
        if t0 > 0 {
            self.timer = t0 - 1;
            false
        } else {
            self.timer = 0;
            true
        }
    }
}

/// A new peak is held: after the frame that brings it, the held peaks do
/// not decay during the next `HOLD_FRAMES - 1` quiet frames, and decay in
/// every quiet frame after those.
pub proof fn lemma_hold_duration(t: nat, n: nat)
    ensures
        decays(timer_after_quiet(next_timer(t, true), n), false) <==> n >= HOLD_FRAMES - 1,
{
    lemma_quiet_countdown(n);
}

proof fn lemma_quiet_countdown(n: nat)
    ensures
        timer_after_quiet((HOLD_FRAMES - 1) as nat, n) == (if n <= HOLD_FRAMES - 1 {
            (HOLD_FRAMES - 1 - n) as nat
        } else {
            0
        }),
    decreases n,
{
    if n > 0 {
        lemma_quiet_countdown((n - 1) as nat);
    }
}

} // verus!

//! Frame bookkeeping of the test-signal players: which frames of an audio
//! callback carry the signal and which are silent.
use vstd::prelude::*;

verus! {

/// The abstract state of a [`PulseCursor`].
pub struct CursorView {
    pub active: bool,
    pub position: nat,
    pub pulse_len: nat,
}

/// Plays a fixed pulse of `pulse_len` frames once per trigger: `position` is
/// the next pulse frame to play while `active`.
pub struct PulseCursor {
    active: bool,
    position: usize,
    pulse_len: usize,
}

/// The number of pulse frames played in a callback of `frames` frames that
/// starts in state (`active`, `position`).
pub open spec fn pulse_frames(active: bool, position: nat, pulse_len: nat, frames: nat) -> nat {
    if !active {
        0
    } else if frames <= pulse_len - position {
        frames
    } else {
        (pulse_len - position) as nat
    }
}

impl PulseCursor {
    pub closed spec fn view(&self) -> CursorView {
        CursorView {
            active: self.active,
            position: self.position as nat,
            pulse_len: self.pulse_len as nat,
        }
    }

    #[verifier::type_invariant]
    closed spec fn inv(&self) -> bool {
        self.position <= self.pulse_len
    }

    /// A silent cursor over a pulse of `pulse_len` frames.
    pub fn new(pulse_len: usize) -> (r: Self)
        ensures
            r.view() == (CursorView { active: false, position: 0, pulse_len: pulse_len as nat }),
    {
        PulseCursor { active: false, position: 0, pulse_len }
    }

    /// Plans one callback of `frames` frames; a trigger restarts the pulse
    /// from its beginning. Returns `(first, count)`: the first `count` frames
    /// play pulse frames `first..first + count`, the rest are silent. The
    /// pulse stops once a frame finds it exhausted.
    pub fn render(&mut self, triggered: bool, frames: usize) -> (r: (usize, usize))
        ensures
            ({
                let a0 = triggered || old(self).view().active;
                let p0: nat = if triggered { 0 } else { old(self).view().position };
                let len = old(self).view().pulse_len;
                &&& r.0 == p0
                &&& r.1 == pulse_frames(a0, p0, len, frames as nat)
                &&& r.0 + r.1 <= len
                &&& final(self).view() == (CursorView {
                    active: a0 && frames <= len - p0,
                    position: (p0 + r.1) as nat,
                    pulse_len: len,
                })
            }),
    {
        proof {
            use_type_invariant(&*self);
        }
        let active: bool = triggered || self.active;
        let start: usize = if triggered { 0 } else { self.position };
        let left: usize = self.pulse_len - start;
        let count: usize = if !active {
            0
        } else if frames <= left {
            frames
        } else {
            left
        };
        *self = PulseCursor {
            active: active && frames <= left,
            position: start + count,
            pulse_len: self.pulse_len,
        };
        (start, count)
    }

    pub fn is_active(&self) -> (r: bool)
        ensures
            r == self.view().active,
    {
        self.active
    }

    pub fn position(&self) -> (r: usize)
        ensures
            r == self.view().position,
    {
        self.position
    }
}

/// The number of beep frames in a callback of `frames` frames when
/// `remaining` frames of the beep are left.
pub open spec fn beep_frames(remaining: nat, frames: nat) -> nat {
    if remaining <= frames {
        remaining
    } else {
        frames
    }
}

/// Counts down the frames left of a beep.
pub struct BeepCountdown {
    remaining: u32,
}

impl BeepCountdown {
    pub closed spec fn view(&self) -> nat {
        self.remaining as nat
    }

    /// No beep pending.
    pub fn new() -> (r: Self)
        ensures
            r.view() == 0,
    {
        BeepCountdown { remaining: 0 }
    }

    /// Plans one callback of `frames` frames; `reload` starts a new beep of
    /// that many frames. Returns how many leading frames carry the beep; the
    /// rest are silent.
    pub fn render(&mut self, reload: Option<u32>, frames: usize) -> (tone: usize)
        ensures
            ({
                let r0: nat = match reload {
                    Some(n) => n as nat,
                    None => old(self).view(),
                };
                &&& tone == beep_frames(r0, frames as nat)
                &&& final(self).view() == r0 - tone
            }),
    {
        let rem: u32 = match reload {
            Some(n) => n,
            None => self.remaining,
        };
        let tone: usize = if (rem as u64) <= (frames as u64) {
            rem as usize
        } else {
            frames
        };
        self.remaining = rem - tone as u32;
        tone
    }

    pub fn remaining(&self) -> (r: u32)
        ensures
            r == self.view(),
    {
        self.remaining
    }
}

/// Played without new triggers, a pulse comes out whole and in order: two
/// callbacks of `f1` and `f2` frames play exactly what one callback of
/// `f1 + f2` frames would.
pub proof fn lemma_pulse_split(active: bool, position: nat, pulse_len: nat, f1: nat, f2: nat)
    requires
        position <= pulse_len,
    ensures
        ({
            let n1 = pulse_frames(active, position, pulse_len, f1);
            let a1 = active && f1 <= pulse_len - position;
            n1 + pulse_frames(a1, position + n1, pulse_len, f2) == pulse_frames(
                active,
                position,
                pulse_len,
                f1 + f2,
            )
        }),
{
}

/// A beep is never cut or stretched by how the audio is split into
/// callbacks: two callbacks of `f1` and `f2` frames play as many beep frames
/// as one callback of `f1 + f2` frames, and leave as many to play.
pub proof fn lemma_beep_split(remaining: nat, f1: nat, f2: nat)
    ensures
        ({
            let n1 = beep_frames(remaining, f1);
            &&& n1 + beep_frames((remaining - n1) as nat, f2) == beep_frames(remaining, f1 + f2)
            &&& (remaining - n1) - beep_frames((remaining - n1) as nat, f2) == remaining
                - beep_frames(remaining, f1 + f2)
        }),
{
}

/// A callback plays as much of the pulse as it can: nothing once the pulse is
/// stopped, otherwise all its frames or all that is left of the pulse,
/// whichever is fewer. A beep likewise fills the callback or plays out.
pub proof fn lemma_frames_played(active: bool, position: nat, pulse_len: nat, frames: nat, remaining: nat)
    requires
        position <= pulse_len,
    ensures
        !active ==> pulse_frames(active, position, pulse_len, frames) == 0,
        active ==> pulse_frames(active, position, pulse_len, frames) <= frames,
        active ==> pulse_frames(active, position, pulse_len, frames) <= pulse_len - position,
        active ==> (pulse_frames(active, position, pulse_len, frames) == frames
            || pulse_frames(active, position, pulse_len, frames) == pulse_len - position),
        beep_frames(remaining, frames) <= remaining,
        beep_frames(remaining, frames) <= frames,
        beep_frames(remaining, frames) == remaining || beep_frames(remaining, frames) == frames,
{
}

} // verus!

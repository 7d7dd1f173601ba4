use vstd::prelude::*;

verus! {

/// Whether a timer fires once or over and over.
#[derive(Debug, Clone, Copy, PartialEq, Eq, Structural)]
pub enum TimerMode {
    Once,
    Repeating,
}

/// A countdown over elapsed game time, in milliseconds. It only advances
/// when ticked, and not at all while paused.
#[derive(Debug, Clone, Copy, PartialEq, Eq, Structural)]
pub struct Timer {
    pub duration: u64,
    pub elapsed: u64,
    pub mode: TimerMode,
    pub paused: bool,
    /// The last tick reached the end of the countdown.
    pub finished: bool,
}

impl Timer {
    pub open spec fn wf(self) -> bool {
        &&& self.elapsed <= self.duration
        &&& (self.mode == TimerMode::Repeating && self.duration > 0 ==> self.elapsed < self.duration)
    }

    /// The timer after `delta` milliseconds.
    pub open spec fn spec_tick(self, delta: u64) -> Timer {
        if self.paused {
            Timer { finished: if self.mode == TimerMode::Repeating { false } else { self.finished }, ..self }
        } else if self.mode == TimerMode::Once && self.finished {
            self
        } else {
            let e = self.elapsed.saturating_add(delta);
            if e >= self.duration {
                Timer {
                    elapsed: if self.mode == TimerMode::Once {
                        self.duration
                    } else if self.duration > 0 {
                        (e % self.duration) as u64
                    } else {
                        0
                    },
                    finished: true,
                    ..self
                }
            } else {
                Timer { elapsed: e, finished: false, ..self }
            }
        }
    }

    /// A fresh, running timer of `duration` milliseconds.
    pub fn from_millis(duration: u64, mode: TimerMode) -> (r: Timer)
        ensures
            r.wf(),
            r == (Timer { duration, elapsed: 0, mode, paused: false, finished: false }),
    {
        Timer { duration, elapsed: 0, mode, paused: false, finished: false }
    }

    /// Advances the timer by `delta` milliseconds; tells whether it fired.
    pub fn tick(&mut self, delta: u64) -> (r: bool)
        requires
            old(self).wf(),
        ensures
            final(self).wf(),
            *final(self) == old(self).spec_tick(delta),
            r == final(self).finished,
    {
        if self.paused {
            if let TimerMode::Repeating = self.mode {
                self.finished = false;
            }
            return self.finished;
        }
        if let TimerMode::Once = self.mode {
            if self.finished {
                return true;
            }
        }
        let e = self.elapsed.saturating_add(delta);
        if e >= self.duration {
            self.elapsed = match self.mode {
                TimerMode::Once => self.duration,
                TimerMode::Repeating => if self.duration > 0 {
                    e % self.duration
                } else {
                    0
                },
            };
            self.finished = true;
        } else {
            self.elapsed = e;
            self.finished = false;
        }
        self.finished
    }

    pub fn pause(&mut self)
        ensures
            *final(self) == (Timer { paused: true, ..*old(self) }),
    {
        self.paused = true;
    }

    pub fn unpause(&mut self)
        ensures
            *final(self) == (Timer { paused: false, ..*old(self) }),
    {
        self.paused = false;
    }

    /// Milliseconds left before the timer fires.
    pub fn remaining(&self) -> (r: u64)
        requires
            self.wf(),
        ensures
            r == self.duration - self.elapsed,
    {
        self.duration - self.elapsed
    }
}

/// A paused timer makes no progress however long it is ticked, and a pause is
/// transparent: pausing, ticking, resuming and then ticking by `delta` leaves
/// the timer as ticking it by `delta` alone would.
pub proof fn lemma_pause_transparent(t: Timer, paused_for: u64, delta: u64)
    requires
        t.wf(),
        !t.paused,
    ensures
        (Timer { paused: true, ..t }).spec_tick(paused_for).elapsed == t.elapsed,
        (Timer { paused: false, ..(Timer { paused: true, ..t }).spec_tick(paused_for) }).spec_tick(delta)
            == t.spec_tick(delta),
{
}

} // verus!

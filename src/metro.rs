use vstd::prelude::*;

verus! {

/// Ticks per beat.
pub const LINES_PER_BAR: u64 = 4;

/// Milliseconds between two ticks at `bpm` beats per minute, rounded down.
pub open spec fn interval_for(bpm: nat) -> nat {
    60000nat / (bpm * LINES_PER_BAR as nat)
}

/// A metronome: it fires a tick once a fixed interval has passed since the last
/// one, and carries the state that its ticks act on. Times are milliseconds on a
/// clock that the caller reads.
pub struct Metro<State> {
    interval: u64,
    last_execution: u64,
    state: State,
}

impl<State> Metro<State> {
    pub closed spec fn spec_interval(&self) -> nat {
        self.interval as nat
    }

    pub closed spec fn spec_last_execution(&self) -> nat {
        self.last_execution as nat
    }

    pub closed spec fn spec_state(&self) -> State {
        self.state
    }

    /// A metronome at `bpm` beats per minute, `LINES_PER_BAR` ticks per beat,
    /// that counts its first interval from `now`.
    pub fn new(bpm: u32, state: State, now: u64) -> (r: Self)
        requires
            bpm > 0,
        ensures
            r.spec_interval() == interval_for(bpm as nat),
            r.spec_last_execution() == now,
            r.spec_state() == state,
    {
        let interval = 60000 / (bpm as u64 * LINES_PER_BAR);
        Metro { interval, last_execution: now, state }
    }

    /// Milliseconds between two ticks.
    pub fn interval(&self) -> (r: u64)
        ensures
            r == self.spec_interval(),
    {
        self.interval
    }

    /// Whether the interval has passed at time `now` since the last tick.
    pub fn is_ready(&self, now: u64) -> (r: bool)
        ensures
            r == (now >= self.spec_last_execution() + self.spec_interval()),
    {
        self.interval <= now && self.last_execution <= now - self.interval
    }

    /// Records that a tick ran, finishing at time `now`: the next interval counts from there.
    pub fn fired(&mut self, now: u64)
        ensures
            final(self).spec_last_execution() == now,
            final(self).spec_interval() == old(self).spec_interval(),
            final(self).spec_state() == old(self).spec_state(),
    {
        self.last_execution = now;
    }

    pub fn state(&self) -> (r: &State)
        ensures
            *r == self.spec_state(),
    {
        &self.state
    }

    /// The state, to act on; the timing stays as it is.
    pub fn state_mut(&mut self) -> (r: &mut State)
        ensures
            *r == old(self).spec_state(),
            final(self).spec_state() == *final(r),
            final(self).spec_interval() == old(self).spec_interval(),
            final(self).spec_last_execution() == old(self).spec_last_execution(),
    {
        &mut self.state
    }
}

} // verus!

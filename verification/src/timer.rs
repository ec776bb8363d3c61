//! The delay and sound counters, which count down at 60 Hz.

use vstd::prelude::*;

verus! {

/// The two countdown timers.
pub struct Timer {
    delay: u8,
    sound: u8,
}

/// What a `Timer` holds.
pub struct TimerView {
    pub delay: u8,
    pub sound: u8,
}

impl TimerView {
    /// The counters one tick later: each one lower unless it is zero already.
    pub open spec fn tick(self) -> TimerView {
        TimerView {
            delay: if self.delay > 0 { (self.delay - 1) as u8 } else { 0 },
            sound: if self.sound > 0 { (self.sound - 1) as u8 } else { 0 },
        }
    }

    /// The counters `n` ticks later.
    pub open spec fn ticks(self, n: nat) -> TimerView
        decreases n,
    {
        if n == 0 {
            self
        } else {
            self.tick().ticks((n - 1) as nat)
        }
    }

    /// Whether the tone is to sound.
    pub open spec fn tone(self) -> bool {
        self.sound > 0
    }
}

impl View for Timer {
    type V = TimerView;

    closed spec fn view(&self) -> TimerView {
        TimerView { delay: self.delay, sound: self.sound }
    }
}

impl Timer {
    /// Both counters at zero.
    pub fn new() -> (timer: Timer)
        ensures
            timer@ == (TimerView { delay: 0, sound: 0 }),
    {
        Timer { delay: 0, sound: 0 }
    }

    /// Sets the delay counter.
    pub fn set_delay(&mut self, val: u8)
        ensures
            final(self)@ == (TimerView { delay: val, ..old(self)@ }),
    {
        self.delay = val;
    }

    /// The delay counter.
    pub fn get_delay(&self) -> (val: u8)
        ensures
            val == self@.delay,
    {
        self.delay
    }

    /// Sets the sound counter.
    pub fn set_sound(&mut self, val: u8)
        ensures
            final(self)@ == (TimerView { sound: val, ..old(self)@ }),
    {
        self.sound = val;
    }

    /// The sound counter.
    pub fn get_sound(&self) -> (val: u8)
        ensures
            val == self@.sound,
    {
        self.sound
    }

    /// One tick: lowers each counter that is above zero, and says whether
    /// the tone is to sound from now on.
    pub fn one_iteration(&mut self) -> (tone: bool)
        ensures
            final(self)@ == old(self)@.tick(),
            tone == final(self)@.tone(),
    {
        if self.delay > 0 {
            self.delay -= 1;
        }
        if self.sound > 0 {
            self.sound -= 1;
        }
        self.sound > 0
    }
}

} // verus!

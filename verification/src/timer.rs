//! Periodic timers.

use crate::anim::RepeatCount;
use vstd::prelude::*;

verus! {

/// A periodic timer, modeled by its configuration and pause state.
#[derive(Clone, Copy, Debug)]
pub struct Timer {
    /// The timer period in milliseconds.
    pub period_ms: u32,
    pub paused: bool,
    /// The remaining repeats: a count, or `-1` for forever.
    pub repeat_raw: i32,
    /// Whether the timer deletes itself when the repeat count expires.
    pub auto_delete: bool,
    /// Whether the timer was made ready to fire at the next handler run.
    pub fire_ready: bool,
}

impl Timer {
    /// A fresh timer with the given period: running, repeating forever,
    /// deleting itself when done.
    pub open spec fn initial(period_ms: u32) -> Timer {
        Timer { period_ms, paused: false, repeat_raw: -1i32, auto_delete: true, fire_ready: false }
    }

    /// Create a new timer that fires every `period_ms` milliseconds.
    pub fn new(period_ms: u32) -> (r: Option<Timer>)
        ensures
            r == Some(Timer::initial(period_ms)),
    {
        Some(
            Timer {
                period_ms,
                paused: false,
                repeat_raw: -1i32,
                auto_delete: true,
                fire_ready: false,
            },
        )
    }

    /// Pause the timer.
    pub fn pause(&mut self)
        ensures
            *final(self) == (Timer { paused: true, ..*old(self) }),
    {
        self.paused = true;
    }

    /// Resume a paused timer.
    pub fn resume(&mut self)
        ensures
            *final(self) == (Timer { paused: false, ..*old(self) }),
    {
        self.paused = false;
    }

    /// Whether the timer is paused.
    pub fn is_paused(&self) -> (r: bool)
        ensures
            r == self.paused,
    {
        self.paused
    }

    /// Restart the period countdown; a pending ready mark is cleared.
    pub fn reset(&mut self)
        ensures
            *final(self) == (Timer { fire_ready: false, ..*old(self) }),
    {
        self.fire_ready = false;
    }

    /// Make the timer ready to fire at the next handler run.
    pub fn ready(&mut self)
        ensures
            *final(self) == (Timer { fire_ready: true, ..*old(self) }),
    {
        self.fire_ready = true;
    }

    /// Set the timer period in milliseconds.
    pub fn set_period(&mut self, period_ms: u32)
        ensures
            *final(self) == (Timer { period_ms, ..*old(self) }),
    {
        self.period_ms = period_ms;
    }

    /// Set how many times the timer fires before deleting itself.
    pub fn set_repeat(&mut self, count: RepeatCount)
        requires
            count matches RepeatCount::Finite(n) ==> n <= i32::MAX,
        ensures
            *final(self) == (Timer {
                repeat_raw: match count {
                    RepeatCount::Finite(n) => n as i32,
                    RepeatCount::Infinite => -1i32,
                },
                ..*old(self)
            }),
    {
        let raw: i32 = match count {
            RepeatCount::Finite(n) => n as i32,
            RepeatCount::Infinite => -1i32,
        };
        self.repeat_raw = raw;
    }

    /// Enable auto-delete when the repeat count expires.
    pub fn set_auto_delete(&mut self, auto_delete: bool)
        ensures
            *final(self) == (Timer { auto_delete, ..*old(self) }),
    {
        self.auto_delete = auto_delete;
    }

    /// Delete the timer, consuming it.
    pub fn delete(self) {
    }
}

} // verus!

//! Animations: a builder for their configuration, handles to running
//! ones, and timelines for sequencing several of them.

use vstd::prelude::*;

verus! {

/// The C ABI repeat count that means `forever`.
pub const ANIM_REPEAT_INFINITE: u32 = 0xffff_ffff;

/// Animation repeat count.
#[derive(Clone, Copy, Debug, PartialEq, Eq, Structural)]
pub enum RepeatCount {
    /// Repeat a finite number of times (0 means play once).
    Finite(u32),
    /// Repeat forever.
    Infinite,
}

impl RepeatCount {
    /// The C ABI code of this repeat count.
    pub open spec fn code(self) -> u32 {
        match self {
            RepeatCount::Finite(n) => n,
            RepeatCount::Infinite => ANIM_REPEAT_INFINITE,
        }
    }

    /// Convert to the C ABI code.
    pub fn to_raw(self) -> (r: u32)
        ensures
            r == self.code(),
    {
        match self {
            RepeatCount::Finite(n) => n,
            RepeatCount::Infinite => ANIM_REPEAT_INFINITE,
        }
    }

    /// The repeat count a C ABI code reads back as: the reserved code
    /// means forever, every other code is a finite count.
    pub open spec fn spec_from_raw(raw: u32) -> RepeatCount {
        if raw == ANIM_REPEAT_INFINITE {
            RepeatCount::Infinite
        } else {
            RepeatCount::Finite(raw)
        }
    }

    /// Read back from a C ABI code.
    pub fn from_raw(raw: u32) -> (r: RepeatCount)
        ensures
            r == RepeatCount::spec_from_raw(raw),
    {
        if raw == ANIM_REPEAT_INFINITE {
            RepeatCount::Infinite
        } else {
            RepeatCount::Finite(raw)
        }
    }

    /// Writing the repeat count read from a code gives back that code.
    pub proof fn lemma_raw_roundtrip(raw: u32)
        ensures
            RepeatCount::spec_from_raw(raw).code() == raw,
    {
    }
}

/// Animation path (easing function).
#[derive(Clone, Copy, Debug, PartialEq, Eq, Structural)]
pub enum AnimPath {
    /// Linear progression.
    Linear,
    /// Slow start, fast end.
    EaseIn,
    /// Fast start, slow end.
    EaseOut,
    /// Slow start and end (S-curve).
    EaseInOut,
    /// Bounces past the target, then settles.
    Overshoot,
    /// Multiple bounces at the end.
    Bounce,
    /// Instant jump to the end value.
    Step,
    /// Custom cubic bezier curve.
    CustomBezier { x1: i16, y1: i16, x2: i16, y2: i16 },
}

/// An animation's configuration, built up with the setter methods and
/// handed to [`Anim::start`].
#[derive(Clone, Copy, Debug)]
pub struct Anim {
    pub start_value: i32,
    pub end_value: i32,
    /// Playback duration in milliseconds.
    pub duration: u32,
    /// Delay before playback starts, in milliseconds.
    pub delay: u32,
    pub path: AnimPath,
    pub repeat: RepeatCount,
    /// Delay between repeats, in milliseconds.
    pub repeat_delay: u32,
    /// Duration of reverse playback, in milliseconds (0 means none).
    pub reverse_duration: u32,
    /// Delay before reverse playback, in milliseconds.
    pub reverse_delay: u32,
    /// Whether the start value is applied immediately, even during the
    /// delay.
    pub early_apply: bool,
}

impl Anim {
    /// The default animation: 500 ms, linear path, no delay, no repeat.
    pub open spec fn initial() -> Anim {
        Anim {
            start_value: 0,
            end_value: 0,
            duration: 500,
            delay: 0,
            path: AnimPath::Linear,
            repeat: RepeatCount::Finite(0),
            repeat_delay: 0,
            reverse_duration: 0,
            reverse_delay: 0,
            early_apply: true,
        }
    }

    /// Create a new animation with default settings: 500 ms duration,
    /// linear path, no delay, no repeat.
    pub fn new() -> (a: Anim)
        ensures
            a == Anim::initial(),
    {
        Anim {
            start_value: 0,
            end_value: 0,
            duration: 500,
            delay: 0,
            path: AnimPath::Linear,
            repeat: RepeatCount::Finite(0),
            repeat_delay: 0,
            reverse_duration: 0,
            reverse_delay: 0,
            early_apply: true,
        }
    }

    /// Set the start and end values.
    pub fn set_values(&mut self, start: i32, end: i32) -> (r: &mut Anim)
        ensures
            *r == (Anim { start_value: start, end_value: end, ..*old(self) }),
            *final(self) == *final(r),
    {
        self.start_value = start;
        self.end_value = end;
        self
    }

    /// Set the animation duration in milliseconds.
    pub fn set_duration(&mut self, ms: u32) -> (r: &mut Anim)
        ensures
            *r == (Anim { duration: ms, ..*old(self) }),
            *final(self) == *final(r),
    {
        self.duration = ms;
        self
    }

    /// Set the delay before the animation starts, in milliseconds.
    pub fn set_delay(&mut self, ms: u32) -> (r: &mut Anim)
        ensures
            *r == (Anim { delay: ms, ..*old(self) }),
            *final(self) == *final(r),
    {
        self.delay = ms;
        self
    }

    /// Set the animation path (easing function).
    pub fn set_path(&mut self, path: AnimPath) -> (r: &mut Anim)
        ensures
            *r == (Anim { path, ..*old(self) }),
            *final(self) == *final(r),
    {
        self.path = path;
        self
    }

    /// Set the repeat count, normalized through the C ABI code: the
    /// finite count whose code is the reserved `forever` value reads back
    /// as `Infinite`, as the wrapped library stores it.
    pub fn set_repeat(&mut self, count: RepeatCount) -> (r: &mut Anim)
        ensures
            *r == (Anim { repeat: RepeatCount::spec_from_raw(count.code()), ..*old(self) }),
            *final(self) == *final(r),
    {
        self.repeat = RepeatCount::from_raw(count.to_raw());
        self
    }

    /// Set the delay between repeats, in milliseconds.
    pub fn set_repeat_delay(&mut self, ms: u32) -> (r: &mut Anim)
        ensures
            *r == (Anim { repeat_delay: ms, ..*old(self) }),
            *final(self) == *final(r),
    {
        self.repeat_delay = ms;
        self
    }

    /// Set the reverse playback duration (0 means no reverse playback).
    pub fn set_reverse_duration(&mut self, ms: u32) -> (r: &mut Anim)
        ensures
            *r == (Anim { reverse_duration: ms, ..*old(self) }),
            *final(self) == *final(r),
    {
        self.reverse_duration = ms;
        self
    }

    /// Set the delay before reverse playback, in milliseconds.
    pub fn set_reverse_delay(&mut self, ms: u32) -> (r: &mut Anim)
        ensures
            *r == (Anim { reverse_delay: ms, ..*old(self) }),
            *final(self) == *final(r),
    {
        self.reverse_delay = ms;
        self
    }

    /// Apply the start value immediately, even during the delay.
    pub fn set_early_apply(&mut self, apply: bool) -> (r: &mut Anim)
        ensures
            *r == (Anim { early_apply: apply, ..*old(self) }),
            *final(self) == *final(r),
    {
        self.early_apply = apply;
        self
    }

    /// Start the animation, returning a handle to the running copy.
    pub fn start(&self) -> (r: Option<AnimHandle>)
        ensures
            r == Some(AnimHandle { anim: *self, paused: false }),
    {
        Some(AnimHandle { anim: *self, paused: false })
    }

    /// Configure callbacks before starting.
    pub fn with_callbacks(self) -> (b: AnimBuilder)
        ensures
            b == (AnimBuilder {
                anim: self,
                has_exec: false,
                has_start: false,
                has_completed: false,
            }),
    {
        AnimBuilder { anim: self, has_exec: false, has_start: false, has_completed: false }
    }

    /// Start the animation with a value callback.
    pub fn start_with_exec<F: FnMut(i32)>(self, exec: F) -> (r: Option<AnimHandle>)
        ensures
            r == Some(AnimHandle { anim: self, paused: false }),
    {
        self.with_callbacks().on_exec(exec).start()
    }
}

impl Default for Anim {
    /// The default animation configuration.
    fn default() -> (a: Anim)
        ensures
            a == Anim::initial(),
    {
        Anim::new()
    }
}

/// Builder for an animation with callbacks.
///
/// The model records which callbacks were attached; running them is the
/// embedding's concern.
pub struct AnimBuilder {
    pub anim: Anim,
    pub has_exec: bool,
    pub has_start: bool,
    pub has_completed: bool,
}

impl AnimBuilder {
    /// Attach the callback that receives animation values.
    pub fn on_exec<F: FnMut(i32)>(self, _f: F) -> (r: AnimBuilder)
        ensures
            r == (AnimBuilder { has_exec: true, ..self }),
    {
        AnimBuilder { has_exec: true, ..self }
    }

    /// Attach a callback to run when the animation starts.
    pub fn on_start<F: FnMut()>(self, _f: F) -> (r: AnimBuilder)
        ensures
            r == (AnimBuilder { has_start: true, ..self }),
    {
        AnimBuilder { has_start: true, ..self }
    }

    /// Attach a callback to run when the animation completes.
    pub fn on_completed<F: FnMut()>(self, _f: F) -> (r: AnimBuilder)
        ensures
            r == (AnimBuilder { has_completed: true, ..self }),
    {
        AnimBuilder { has_completed: true, ..self }
    }

    /// Start the animation with all configured callbacks.
    pub fn start(self) -> (r: Option<AnimHandle>)
        ensures
            r == Some(AnimHandle { anim: self.anim, paused: false }),
    {
        self.anim.start()
    }
}

/// Handle to a running animation.
#[derive(Clone, Copy, Debug)]
pub struct AnimHandle {
    /// The configuration the animation runs with.
    pub anim: Anim,
    pub paused: bool,
}

impl AnimHandle {
    /// Pause the animation.
    pub fn pause(&mut self)
        ensures
            *final(self) == (AnimHandle { paused: true, ..*old(self) }),
    {
        self.paused = true;
    }

    /// Resume a paused animation.
    pub fn resume(&mut self)
        ensures
            *final(self) == (AnimHandle { paused: false, ..*old(self) }),
    {
        self.paused = false;
    }

    /// Whether the animation is paused.
    pub fn is_paused(&self) -> (r: bool)
        ensures
            r == self.paused,
    {
        self.paused
    }

    /// Delete the animation, consuming the handle.
    pub fn delete(self) {
    }
}

/// Timeline for sequencing multiple animations with precise timing.
#[derive(Clone, Copy, Debug)]
pub struct AnimTimeline {
    /// How many animations the timeline holds.
    pub anim_count: u64,
    /// The total playtime in milliseconds: the largest end time of any
    /// added animation.
    pub playtime: u32,
    /// Whether the timeline plays in reverse.
    pub reverse: bool,
    /// The playback position on the 0 to 65535 scale.
    pub progress_raw: u16,
    /// Delay before the timeline starts, in milliseconds.
    pub delay: u32,
    pub repeat: RepeatCount,
    /// Delay between repeats, in milliseconds.
    pub repeat_delay: u32,
    /// Whether the timeline is playing.
    pub running: bool,
}

impl AnimTimeline {
    /// A fresh, empty timeline.
    pub open spec fn initial() -> AnimTimeline {
        AnimTimeline {
            anim_count: 0,
            playtime: 0,
            reverse: false,
            progress_raw: 0,
            delay: 0,
            repeat: RepeatCount::Finite(0),
            repeat_delay: 0,
            running: false,
        }
    }

    /// Create a new, empty animation timeline.
    pub fn new() -> (r: Option<AnimTimeline>)
        ensures
            r == Some(AnimTimeline::initial()),
    {
        Some(
            AnimTimeline {
                anim_count: 0,
                playtime: 0,
                reverse: false,
                progress_raw: 0,
                delay: 0,
                repeat: RepeatCount::Finite(0),
                repeat_delay: 0,
                running: false,
            },
        )
    }

    /// Add an animation, to start `start_time` milliseconds after the
    /// timeline starts.  The total playtime grows to cover the new
    /// animation's delay, playback and reverse playback.
    pub fn add(&mut self, start_time: u32, anim: &Anim)
        requires
            old(self).anim_count < u64::MAX,
            start_time + anim.delay + anim.duration + anim.reverse_delay + anim.reverse_duration
                <= u32::MAX,
        ensures
            *final(self) == (AnimTimeline {
                anim_count: (old(self).anim_count + 1) as u64,
                playtime: if start_time + anim.delay + anim.duration + anim.reverse_delay
                    + anim.reverse_duration > old(self).playtime {
                    (start_time + anim.delay + anim.duration + anim.reverse_delay
                        + anim.reverse_duration) as u32
                } else {
                    old(self).playtime
                },
                ..*old(self)
            }),
    {
        let end: u32 = start_time + anim.delay + anim.duration + anim.reverse_delay
            + anim.reverse_duration;
        if end > self.playtime {
            self.playtime = end;
        }
        self.anim_count = self.anim_count + 1;
    }

    /// Start the timeline; returns the total playtime in milliseconds.
    pub fn start(&mut self) -> (r: u32)
        ensures
            *final(self) == (AnimTimeline { running: true, ..*old(self) }),
            r == old(self).playtime,
    {
        self.running = true;
        self.playtime
    }

    /// Pause the timeline.
    pub fn pause(&mut self)
        ensures
            *final(self) == (AnimTimeline { running: false, ..*old(self) }),
    {
        self.running = false;
    }

    /// Set reverse playback.
    pub fn set_reverse(&mut self, reverse: bool)
        ensures
            *final(self) == (AnimTimeline { reverse, ..*old(self) }),
    {
        self.reverse = reverse;
    }

    /// Whether the timeline plays in reverse.
    pub fn reverse(&self) -> (r: bool)
        ensures
            r == self.reverse,
    {
        self.reverse
    }

    /// Set the playback position on the 0 to 65535 scale.
    pub fn set_progress(&mut self, progress: u16)
        ensures
            *final(self) == (AnimTimeline { progress_raw: progress, ..*old(self) }),
    {
        self.progress_raw = progress;
    }

    /// The playback position on the 0 to 65535 scale.
    pub fn progress(&self) -> (r: u16)
        ensures
            r == self.progress_raw,
    {
        self.progress_raw
    }

    /// Set the delay before the timeline starts, in milliseconds.
    pub fn set_delay(&mut self, ms: u32)
        ensures
            *final(self) == (AnimTimeline { delay: ms, ..*old(self) }),
    {
        self.delay = ms;
    }

    /// The delay before the timeline starts, in milliseconds.
    pub fn delay(&self) -> (r: u32)
        ensures
            r == self.delay,
    {
        self.delay
    }

    /// Set the repeat count for the entire timeline, normalized through
    /// the C ABI code: the finite count whose code is the reserved
    /// `forever` value reads back as `Infinite`, as the wrapped library
    /// stores it.
    pub fn set_repeat(&mut self, count: RepeatCount)
        ensures
            *final(self) == (AnimTimeline {
                repeat: RepeatCount::spec_from_raw(count.code()),
                ..*old(self)
            }),
    {
        self.repeat = RepeatCount::from_raw(count.to_raw());
    }

    /// The repeat count for the entire timeline.
    pub fn repeat_count(&self) -> (r: RepeatCount)
        ensures
            r == self.repeat,
    {
        self.repeat
    }

    /// Set the delay between repeats, in milliseconds.
    pub fn set_repeat_delay(&mut self, ms: u32)
        ensures
            *final(self) == (AnimTimeline { repeat_delay: ms, ..*old(self) }),
    {
        self.repeat_delay = ms;
    }

    /// The delay between repeats, in milliseconds.
    pub fn repeat_delay(&self) -> (r: u32)
        ensures
            r == self.repeat_delay,
    {
        self.repeat_delay
    }

    /// The total playtime in milliseconds.
    pub fn playtime(&self) -> (r: u32)
        ensures
            r == self.playtime,
    {
        self.playtime
    }
}

} // verus!

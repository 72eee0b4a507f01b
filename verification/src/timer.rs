//! The countdown timer: a state machine with `Stopped` and `Running` modes,
//! drift-corrected ticking from sampled wall-clock times, and the one-shot
//! alarm decision. The machine is pure: scheduling the repeating callback,
//! sampling the clock and playing the alarm are the caller's side effects,
//! requested through [`TimerEffect`] values and fed back through plain
//! arguments.

use crate::time_format;
use vstd::prelude::*;

verus! {

/// Intents the presentation layer can dispatch at a timer.
#[derive(PartialEq, Eq, Structural, Copy, Clone, Debug)]
pub enum TimerAction {
    /// Begin counting down from the given number of seconds.
    Start(i32),
    /// Cancel the countdown, leaving the remaining time as it stands.
    Stop,
}

/// The side effect the caller must perform after a transition.
#[derive(PartialEq, Eq, Structural, Copy, Clone, Debug)]
pub enum TimerEffect {
    /// Register a repeating callback (well under a second apart) that calls
    /// [`TimerData::tick`], then record its handle with
    /// [`TimerData::set_interval_handle`].
    ScheduleTicks,
    /// Deregister the repeating callback with this handle.
    CancelTicks(i32),
    /// Nothing to do.
    NoEffect,
}

/// Failure of parsing a free-text time input.
#[derive(PartialEq, Eq, Structural, Copy, Clone, Debug)]
pub enum TimerParseError {
    InvalidInput,
}

/// The timer's state: seconds remaining (negative once the countdown passes
/// zero), whether it is running, the handle of the active repeating callback
/// (`-1` when none), and the wall-clock sample the next elapsed-time reading
/// is measured from.
#[derive(PartialEq, Eq, Structural, Copy, Clone, Debug)]
pub struct TimerData {
    pub time_left: i32,
    pub running: bool,
    pub timer_interval_id: i32,
    pub last_sample_ms: u64,
}

/// `t - e`, stopped at the smallest representable count.
pub open spec fn spec_clamped_sub(t: int, e: int) -> int {
    if t - e >= i32::MIN {
        t - e
    } else {
        i32::MIN as int
    }
}

/// What one transition yields: `Start` is ignored while running (at most one
/// repeating callback may exist); otherwise it consumes the first second
/// eagerly, records the clock sample, and asks for ticks to be scheduled.
/// `Stop` keeps the remaining time and asks for the active callback, if any,
/// to be cancelled.
pub open spec fn spec_reduce(s: TimerData, action: TimerAction, now_ms: u64) -> (TimerData,
    TimerEffect) {
    match action {
        TimerAction::Start(st) => {
            if s.running {
                (s, TimerEffect::NoEffect)
            } else {
                (
                    TimerData {
                        time_left: (st - 1) as i32,
                        running: true,
                        timer_interval_id: s.timer_interval_id,
                        last_sample_ms: now_ms,
                    },
                    TimerEffect::ScheduleTicks,
                )
            }
        },
        TimerAction::Stop => {
            (
                TimerData {
                    time_left: s.time_left,
                    running: false,
                    timer_interval_id: -1i32,
                    last_sample_ms: s.last_sample_ms,
                },
                if s.timer_interval_id > -1 {
                    TimerEffect::CancelTicks(s.timer_interval_id)
                } else {
                    TimerEffect::NoEffect
                },
            )
        },
    }
}

/// What one tick yields: if at least one whole second of wall-clock time has
/// passed since the last recorded sample, the remaining time drops by that
/// whole number of seconds (not by one) and the sample is re-recorded;
/// otherwise nothing changes. Measuring elapsed wall-clock time keeps the
/// countdown accurate however irregularly the ticks arrive.
pub open spec fn spec_tick(s: TimerData, now_ms: u64) -> TimerData {
    let elapsed = (now_ms - s.last_sample_ms) / 1000;
    if elapsed >= 1 {
        TimerData {
            time_left: spec_clamped_sub(s.time_left as int, elapsed) as i32,
            running: s.running,
            timer_interval_id: s.timer_interval_id,
            last_sample_ms: now_ms,
        }
    } else {
        s
    }
}

impl TimerData {
    /// A stopped timer never holds a callback handle.
    pub open spec fn wf(self) -> bool {
        !self.running ==> self.timer_interval_id == -1
    }

    /// A fresh, stopped timer showing `initial_time`.
    pub fn new(initial_time: i32) -> (r: TimerData)
        ensures
            r == (TimerData {
                time_left: initial_time,
                running: false,
                timer_interval_id: -1i32,
                last_sample_ms: 0,
            }),
            r.wf(),
    {
        TimerData { time_left: initial_time, running: false, timer_interval_id: -1, last_sample_ms: 0 }
    }

    /// Renders a second count as `MM:SS`, zero-padded, `-`-prefixed when
    /// negative, minutes unbounded.
    pub fn format_time_left(time_left: i32) -> (r: String)
        requires
            time_left > i32::MIN,
        ensures
            r@ == time_format::spec_format_time(time_left as int),
    {
        time_format::format_time(time_left)
    }

    /// Parses free-text `[MM:]SS` input, after dropping every character that
    /// is not a decimal digit or `:`, into a second count; every failure is
    /// `InvalidInput`.
    pub fn seconds_from_str(time: String) -> (r: Result<u16, TimerParseError>)
        ensures
            match r {
                Ok(v) => time_format::spec_seconds_from_str(time@) == Some(v),
                Err(e) => {
                    &&& e == TimerParseError::InvalidInput
                    &&& time_format::spec_seconds_from_str(time@) is None
                },
            },
    {
        let chars = time_format::sanitize(time.as_str());
        match time_format::parse_time_chars(&chars) {
            Some(v) => Ok(v),
            None => Err(TimerParseError::InvalidInput),
        }
    }

    /// The handle of the repeating callback a `Stop` must cancel, if one is
    /// registered.
    pub fn stop(&self) -> (r: Option<i32>)
        ensures
            r == if self.timer_interval_id > -1 {
                Some(self.timer_interval_id)
            } else {
                None::<i32>
            },
    {
        if self.timer_interval_id > -1 {
            Some(self.timer_interval_id)
        } else {
            None
        }
    }

    /// Applies one action at the sampled wall-clock time `now_ms`. Starting
    /// with `N` seconds sets the remaining time to `N - 1` at once: the first
    /// second is consumed eagerly.
    pub fn reduce(self, action: TimerAction, now_ms: u64) -> (r: (TimerData, TimerEffect))
        requires
            action matches TimerAction::Start(st) ==> st > i32::MIN,
        ensures
            r == spec_reduce(self, action, now_ms),
            match action {
                TimerAction::Start(st) => !self.running ==> r.0.time_left == st - 1
                    && r.0.running,
                TimerAction::Stop => true,
            },
    {
        match action {
            TimerAction::Start(st) => {
                if self.running {
                    (self, TimerEffect::NoEffect)
                } else {
                    (
                        TimerData {
                            time_left: st - 1,
                            running: true,
                            timer_interval_id: self.timer_interval_id,
                            last_sample_ms: now_ms,
                        },
                        TimerEffect::ScheduleTicks,
                    )
                }
            },
            TimerAction::Stop => {
                let effect = match self.stop() {
                    Some(id) => TimerEffect::CancelTicks(id),
                    None => TimerEffect::NoEffect,
                };
                (
                    TimerData {
                        time_left: self.time_left,
                        running: false,
                        timer_interval_id: -1i32,
                        last_sample_ms: self.last_sample_ms,
                    },
                    effect,
                )
            },
        }
    }

    /// Records the handle of the repeating callback that a `ScheduleTicks`
    /// effect had the caller register.
    pub fn set_interval_handle(&mut self, id: i32)
        requires
            old(self).running,
            id >= 0,
        ensures
            *final(self) == (TimerData { timer_interval_id: id, ..*old(self) }),
            final(self).wf(),
    {
        self.timer_interval_id = id;
    }

    /// Explicitly resets the remaining time. A `Stop` leaves the count where
    /// it stands; whether to put the configured start value back is the
    /// caller's separate choice, made through this.
    pub fn reset(&mut self, value: i32)
        ensures
            *final(self) == (TimerData { time_left: value, ..*old(self) }),
    {
        self.time_left = value;
    }

    /// One callback invocation at the sampled wall-clock time `now_ms`.
    pub fn tick(&self, now_ms: u64) -> (r: TimerData)
        requires
            self.running,
            self.last_sample_ms <= now_ms,
        ensures
            r == spec_tick(*self, now_ms),
            r.running,
    {
        let elapsed_ms: u64 = now_ms - self.last_sample_ms;
        let elapsed_s: u64 = elapsed_ms / 1000;
        if elapsed_s >= 1 {
            // Any elapse of 2^32 seconds or more drives any `i32` count below
            // its minimum, exactly as the true elapse would.
            let capped: u64 = if elapsed_s > 4294967296 {
                4294967296
            } else {
                elapsed_s
            };
            let nt: i64 = (self.time_left as i64) - (capped as i64);
            let new_time_left: i32 = if nt < -2147483648i64 {
                i32::MIN
            } else {
                nt as i32
            };
            TimerData {
                time_left: new_time_left,
                running: self.running,
                timer_interval_id: self.timer_interval_id,
                last_sample_ms: now_ms,
            }
        } else {
            *self
        }
    }

    /// Whether the alarm must start playing now: the countdown has passed
    /// zero and the alarm resource reports itself paused. Played-state is
    /// read off the resource itself, so the sound is started once when the
    /// count crosses below zero and not restarted while it is still playing.
    pub fn should_play_alarm(&self, alarm_paused: bool) -> (r: bool)
        ensures
            r == (self.time_left < 0 && alarm_paused),
    {
        self.time_left < 0 && alarm_paused
    }
}

/// Every transition preserves well-formedness, and ticks are scheduled only
/// by a `Start` accepted in the stopped state: the machine itself enforces
/// that at most one repeating callback is ever active.
pub proof fn lemma_reduce_preserves_wf(s: TimerData, action: TimerAction, now_ms: u64)
    requires
        s.wf(),
    ensures
        spec_reduce(s, action, now_ms).0.wf(),
        spec_reduce(s, action, now_ms).1 == TimerEffect::ScheduleTicks ==> !s.running
            && action is Start,
{
}

/// Ticking never changes the mode or the callback handle, so it preserves
/// well-formedness; and when at least one second has elapsed, the remaining
/// time drops by exactly the whole elapsed seconds (down to the
/// representable minimum) and the sample is re-recorded.
pub proof fn lemma_tick_preserves_wf(s: TimerData, now_ms: u64)
    requires
        s.wf(),
        s.last_sample_ms <= now_ms,
    ensures
        spec_tick(s, now_ms).wf(),
        spec_tick(s, now_ms).running == s.running,
        spec_tick(s, now_ms).timer_interval_id == s.timer_interval_id,
        (now_ms - s.last_sample_ms) / 1000 >= 1 ==> spec_tick(s, now_ms).time_left
            == spec_clamped_sub(s.time_left as int, (now_ms - s.last_sample_ms) / 1000),
{
}

} // verus!

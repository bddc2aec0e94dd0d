//! The motion handle: the state of one animated value, and the state
//! machine that a host drives by calling `advance` once per frame.
//!
//! A handle is `Idle` until it is sent somewhere. `animate_to` takes the
//! value as it stands for the new start, so that retargeting in mid-flight
//! never makes the value jump, and puts the handle into `Delaying` or, with
//! no delay, `Running`. While `Running`, each tick advances the driver; when
//! the driver reaches its end the loop mode decides between another run and
//! `Completed`. Completion is reported once, by the callback name that the
//! tick hands back.

use crate::animatable::Animatable;
use crate::config::{AnimationConfig, AnimationMode, CallbackId, LoopMode};
use crate::easing::{Curve, EaseMode, Easing};
use crate::error::KeyframeError;
use crate::keyframes::{even_frames, sequence_fault, KeyframeAnimation};
use crate::spring::SpringState;
use crate::tween::{progress_raw, Tween};
use vstd::prelude::*;

verus! {

/// Where a handle stands in its life cycle.
#[derive(Clone, Copy, Debug, PartialEq, Eq, Structural)]
pub enum Phase {
    /// Never sent anywhere.
    Idle,
    /// Waiting out the configured delay.
    Delaying,
    /// The driver is moving the value.
    Running,
    /// The animation has ended; the value rests on its target.
    Completed,
}

/// The runtime state of one animated value.
#[derive(Debug)]
pub struct MotionHandle<V: Animatable> {
    /// The value as it stands.
    pub current: V,
    /// The velocity of the value; only a spring gives it one.
    pub velocity: V,
    /// Where the present run started.
    pub start: V,
    /// Where the present run is headed.
    pub target: V,
    /// Microseconds spent in the present phase: of the delay while
    /// `Delaying`, of the present run while `Running`.
    pub elapsed: u64,
    /// Runs of the driver that have ended, as `LoopMode::Times` counts
    /// them: every run under `Times`, the last one included. The other
    /// loop modes do not count.
    pub loop_count: u32,
    /// Where the handle stands in its life cycle.
    pub phase: Phase,
    /// The animation being played.
    pub config: AnimationConfig,
    /// The keyframes being played, if the animation is a sequence.
    pub track: Option<KeyframeAnimation<V>>,
}

/// A time in microseconds, held at the largest count that fits.
pub open spec fn clamp_time(micros: int) -> u64 {
    if micros > u64::MAX {
        u64::MAX
    } else {
        micros as u64
    }
}

/// The configuration under which a keyframe sequence of `duration`
/// microseconds is played: one linear pass, at once, reporting to nobody.
pub open spec fn track_config(duration: u64) -> AnimationConfig {
    AnimationConfig {
        driver: AnimationMode::Tween(
            Tween { duration, easing: Easing { curve: Curve::Linear, mode: EaseMode::InOut } },
        ),
        loop_mode: LoopMode::Once,
        delay: 0,
        on_complete: None,
    }
}

impl<V: Animatable> MotionHandle<V> {
    /// A handle that rests on `seed` and has never been sent anywhere.
    pub open spec fn seeded(seed: V) -> Self {
        MotionHandle {
            current: seed,
            velocity: V::zero_spec(),
            start: seed,
            target: seed,
            elapsed: 0,
            loop_count: 0,
            phase: Phase::Idle,
            config: track_config(0),
            track: None,
        }
    }

    /// The velocity with which `config`'s driver sets out from `start`
    /// toward `target`.
    pub open spec fn launch_velocity(config: AnimationConfig, start: V, target: V) -> V {
        match config.driver {
            AnimationMode::Spring(spring) => spring.launch_spec(start, target),
            AnimationMode::Tween(_) => V::zero_spec(),
        }
    }

    /// The handle after it has been sent toward `target` under `config`.
    pub open spec fn retarget_spec(self, target: V, config: AnimationConfig) -> Self {
        MotionHandle {
            current: self.current,
            velocity: Self::launch_velocity(config, self.current, target),
            start: self.current,
            target,
            elapsed: 0,
            loop_count: 0,
            phase: if config.delay > 0 {
                Phase::Delaying
            } else {
                Phase::Running
            },
            config,
            track: None,
        }
    }

    /// The handle after it has been set to play `animation`.
    pub open spec fn track_spec(self, animation: KeyframeAnimation<V>) -> Self {
        MotionHandle {
            current: self.current,
            velocity: V::zero_spec(),
            start: self.current,
            target: animation.frames()[animation.frames().len() - 1].value,
            elapsed: 0,
            loop_count: 0,
            phase: Phase::Running,
            config: track_config(animation.duration_spec()),
            track: Some(animation),
        }
    }

    /// The handle at rest on its target.
    pub open spec fn completed_spec(self) -> Self {
        MotionHandle {
            current: self.target,
            velocity: V::zero_spec(),
            phase: Phase::Completed,
            ..self
        }
    }

    /// The handle at the outset of another run, from `start` to `target`.
    pub open spec fn restarted_spec(self, start: V, target: V, loop_count: u32) -> Self {
        MotionHandle {
            current: start,
            velocity: Self::launch_velocity(self.config, start, target),
            start,
            target,
            elapsed: 0,
            loop_count,
            phase: Phase::Running,
            ..self
        }
    }

    /// Whether the run that has just ended, and has not been counted yet,
    /// was the last one.
    pub open spec fn is_last_run(self) -> bool {
        match self.config.loop_mode {
            LoopMode::Once => true,
            LoopMode::Times(n) => self.loop_count + 1 >= n,
            LoopMode::Infinite => false,
            LoopMode::Alternate => false,
        }
    }

    /// The loop count once the run that has just ended has been counted:
    /// one more under `Times`, held at the largest count that fits, and
    /// unchanged under the other loop modes.
    pub open spec fn counted_spec(self) -> u32 {
        match self.config.loop_mode {
            LoopMode::Times(_) => if self.loop_count < u32::MAX {
                (self.loop_count + 1) as u32
            } else {
                u32::MAX
            },
            _ => self.loop_count,
        }
    }

    /// What the end of a run leads to. The run is counted first. If it
    /// was the last, the handle comes to rest and the callback is
    /// reported; if not, another run starts: where the last one started
    /// under `Times` and `Infinite`, with start and target exchanged under
    /// `Alternate`.
    pub open spec fn finish_spec(self) -> (Self, Option<CallbackId>) {
        if self.is_last_run() {
            (
                MotionHandle { loop_count: self.counted_spec(), ..self.completed_spec() },
                self.config.on_complete,
            )
        } else {
            match self.config.loop_mode {
                LoopMode::Alternate => (
                    self.restarted_spec(self.target, self.start, self.counted_spec()),
                    None,
                ),
                _ => (self.restarted_spec(self.start, self.target, self.counted_spec()), None),
            }
        }
    }

    /// The value that `tween` gives after `elapsed` microseconds of the
    /// present run: read off the keyframes if there are any, interpolated
    /// between start and target otherwise.
    pub open spec fn sample_spec(self, tween: Tween, elapsed: int) -> V {
        match self.track {
            Some(animation) => animation.value_spec(progress_raw(elapsed, tween.duration as int)),
            None => tween.value_spec(self.start, self.target, elapsed),
        }
    }

    /// Whether `dt` more microseconds bring the present run to its end.
    pub open spec fn run_ends(self, dt: int) -> bool {
        match self.config.driver {
            AnimationMode::Tween(tween) => clamp_time(self.elapsed + dt) >= tween.duration,
            AnimationMode::Spring(spring) => spring.advance_spec(
                SpringState { position: self.current, velocity: self.velocity },
                self.target,
                dt,
            ).settled,
        }
    }

    /// A running handle after `dt` microseconds of its driver.
    pub open spec fn drive_spec(self, dt: int) -> (Self, Option<CallbackId>) {
        if self.run_ends(dt) {
            self.finish_spec()
        } else {
            match self.config.driver {
                AnimationMode::Tween(tween) => (
                    MotionHandle {
                        current: self.sample_spec(tween, clamp_time(self.elapsed + dt) as int),
                        elapsed: clamp_time(self.elapsed + dt),
                        ..self
                    },
                    None,
                ),
                AnimationMode::Spring(spring) => {
                    let sample = spring.advance_spec(
                        SpringState { position: self.current, velocity: self.velocity },
                        self.target,
                        dt,
                    );
                    (
                        MotionHandle {
                            current: sample.state.position,
                            velocity: sample.state.velocity,
                            elapsed: clamp_time(self.elapsed + dt),
                            ..self
                        },
                        None,
                    )
                },
            }
        }
    }

    /// What is left of the delay.
    pub open spec fn delay_left(self) -> int {
        if self.elapsed < self.config.delay {
            self.config.delay - self.elapsed
        } else {
            0
        }
    }

    /// The handle after a tick of `dt` microseconds, and the callback that
    /// the tick reports, if it ended the animation.
    pub open spec fn tick_spec(self, dt: int) -> (Self, Option<CallbackId>) {
        match self.phase {
            Phase::Idle => (self, None),
            Phase::Completed => (self, None),
            Phase::Running => self.drive_spec(dt),
            Phase::Delaying => if dt < self.delay_left() {
                (MotionHandle { elapsed: (self.elapsed + dt) as u64, ..self }, None)
            } else {
                (MotionHandle { phase: Phase::Running, elapsed: 0, ..self }).drive_spec(
                    dt - self.delay_left(),
                )
            },
        }
    }

    /// Whether a run of the driver comes to its end within a tick of `dt`
    /// microseconds.
    pub open spec fn tick_ends_run(self, dt: int) -> bool {
        match self.phase {
            Phase::Running => self.run_ends(dt),
            Phase::Delaying => dt >= self.delay_left() && (MotionHandle {
                phase: Phase::Running,
                elapsed: 0,
                ..self
            }).run_ends(dt - self.delay_left()),
            _ => false,
        }
    }

    /// Sends the value toward `target` under `config`. Whatever the handle
    /// was doing is abandoned; the value stays where it is and becomes the
    /// start of the new animation.
    pub fn animate_to(&mut self, target: V, config: AnimationConfig)
        ensures
            *final(self) == old(self).retarget_spec(target, config),
            final(self).current == old(self).current,
    {
        let velocity = match config.driver {
            AnimationMode::Spring(spring) => spring.launch(&self.current, &target),
            AnimationMode::Tween(_) => V::zero(),
        };
        self.velocity = velocity;
        self.start = self.current;
        self.target = target;
        self.elapsed = 0;
        self.loop_count = 0;
        self.phase = if config.delay > 0 {
            Phase::Delaying
        } else {
            Phase::Running
        };
        self.config = config;
        self.track = None;
    }

    /// Plays `animation` from its first keyframe to its last, in one
    /// linear pass over its duration. The value stays where it is until
    /// the next tick.
    pub fn animate_keyframes(&mut self, animation: KeyframeAnimation<V>)
        ensures
            *final(self) == old(self).track_spec(animation),
            final(self).current == old(self).current,
    {
        self.velocity = V::zero();
        self.start = self.current;
        self.target = animation.last_value();
        self.elapsed = 0;
        self.loop_count = 0;
        self.phase = Phase::Running;
        self.config = AnimationConfig::new(
            AnimationMode::Tween(Tween::new(animation.duration(), Easing::linear())),
        );
        self.track = Some(animation);
    }

    /// Plays through `values` in order, one linear segment of
    /// `step_duration` microseconds from each to the next. Where the
    /// values make no sequence, nothing is started and the handle is left
    /// as it was.
    pub fn interpolate_sequence(&mut self, values: Vec<V>, step_duration: u64) -> (r: Result<
        (),
        KeyframeError,
    >)
        ensures
            r is Ok <==> sequence_fault(values@.len() as int, step_duration as int) is None,
            r matches Err(e) ==> sequence_fault(values@.len() as int, step_duration as int)
                == Some(e) && *final(self) == *old(self),
            r is Ok ==> (final(self).track matches Some(animation) && {
                &&& animation.frames() == even_frames(values@)
                &&& animation.duration_spec() == (values@.len() - 1) * step_duration
                &&& *final(self) == old(self).track_spec(animation)
            }),
    {
        match KeyframeAnimation::evenly_spaced(values, step_duration) {
            Ok(animation) => {
                self.animate_keyframes(animation);
                Ok(())
            },
            Err(e) => Err(e),
        }
    }

    /// The value as it stands.
    pub fn get_value(&self) -> (r: V)
        ensures
            r == self.current,
    {
        self.current
    }

    /// Whether an animation is under way: waiting out its delay or moving.
    pub fn is_running(&self) -> (r: bool)
        ensures
            r == (self.phase == Phase::Delaying || self.phase == Phase::Running),
    {
        match self.phase {
            Phase::Delaying => true,
            Phase::Running => true,
            Phase::Idle => false,
            Phase::Completed => false,
        }
    }

    fn finish(&mut self) -> (fired: Option<CallbackId>)
        ensures
            (*final(self), fired) == old(self).finish_spec(),
    {
        let last = match self.config.loop_mode {
            LoopMode::Once => true,
            LoopMode::Times(n) => n <= 1 || self.loop_count >= n - 1,
            LoopMode::Infinite => false,
            LoopMode::Alternate => false,
        };
        let counted: u32 = match self.config.loop_mode {
            LoopMode::Times(_) => if self.loop_count < u32::MAX {
                self.loop_count + 1
            } else {
                u32::MAX
            },
            _ => self.loop_count,
        };
        self.loop_count = counted;
        if last {
            self.current = self.target;
            self.velocity = V::zero();
            self.phase = Phase::Completed;
            self.config.on_complete
        } else {
            let (start, target) = match self.config.loop_mode {
                LoopMode::Alternate => (self.target, self.start),
                _ => (self.start, self.target),
            };
            self.velocity = match self.config.driver {
                AnimationMode::Spring(spring) => spring.launch(&start, &target),
                AnimationMode::Tween(_) => V::zero(),
            };
            self.current = start;
            self.start = start;
            self.target = target;
            self.elapsed = 0;
            self.phase = Phase::Running;
            None
        }
    }

    fn drive(&mut self, dt: u64) -> (fired: Option<CallbackId>)
        ensures
            (*final(self), fired) == old(self).drive_spec(dt as int),
    {
        let elapsed: u64 = match self.elapsed.checked_add(dt) {
            Some(sum) => sum,
            None => u64::MAX,
        };
        match self.config.driver {
            AnimationMode::Tween(tween) => {
                if elapsed >= tween.duration {
                    self.finish()
                } else {
                    let value = match &self.track {
                        Some(animation) => animation.value_at(tween.progress(elapsed)),
                        None => tween.evaluate(&self.start, &self.target, elapsed).value,
                    };
                    self.current = value;
                    self.elapsed = elapsed;
                    None
                }
            },
            AnimationMode::Spring(spring) => {
                let state = SpringState { position: self.current, velocity: self.velocity };
                let sample = spring.advance(&state, &self.target, dt);
                if sample.settled {
                    self.finish()
                } else {
                    self.current = sample.state.position;
                    self.velocity = sample.state.velocity;
                    self.elapsed = elapsed;
                    None
                }
            },
        }
    }

    /// Advances the handle by `dt` microseconds. The host calls this once
    /// per frame, before it reads the value. Returns the callback to run,
    /// in the one tick that ends the animation for good.
    pub fn advance(&mut self, dt: u64) -> (fired: Option<CallbackId>)
        ensures
            (*final(self), fired) == old(self).tick_spec(dt as int),
    {
        match self.phase {
            Phase::Idle => None,
            Phase::Completed => None,
            Phase::Running => self.drive(dt),
            Phase::Delaying => {
                let left: u64 = if self.elapsed < self.config.delay {
                    self.config.delay - self.elapsed
                } else {
                    0
                };
                if dt < left {
                    self.elapsed = self.elapsed + dt;
                    None
                } else {
                    self.phase = Phase::Running;
                    self.elapsed = 0;
                    self.drive(dt - left)
                }
            },
        }
    }
}

/// A handle that rests on `seed` and has never been sent anywhere.
pub fn new_motion<V: Animatable>(seed: V) -> (r: MotionHandle<V>)
    ensures
        r == MotionHandle::<V>::seeded(seed),
{
    MotionHandle {
        current: seed,
        velocity: V::zero(),
        start: seed,
        target: seed,
        elapsed: 0,
        loop_count: 0,
        phase: Phase::Idle,
        config: AnimationConfig::new(AnimationMode::Tween(Tween::new(0, Easing::linear()))),
        track: None,
    }
}

} // verus!

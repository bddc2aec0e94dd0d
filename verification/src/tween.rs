//! Time-based interpolation: a tween moves a value from a start to a target
//! over a fixed duration, shaped by an easing curve.
//!
//! Time is counted in whole microseconds. The evaluator keeps no memory: the
//! value at an elapsed time is a function of the tween, the two ends and
//! that time alone.

use crate::animatable::Animatable;
use crate::easing::{ease_raw, lemma_ease_range, Curve, EaseMode, Easing};
use crate::error::ConfigError;
use crate::fixed::{fixed, Fixed, SCALE};
use vstd::prelude::*;

verus! {

/// A duration in microseconds and the easing applied over it.
#[derive(Clone, Copy, Debug, PartialEq, Eq, Structural)]
pub struct Tween {
    pub duration: u64,
    pub easing: Easing,
}

/// What a tween yields at one instant.
#[derive(Debug)]
pub struct TweenSample<V> {
    /// The interpolated value.
    pub value: V,
    /// Whether the elapsed time has reached the duration.
    pub finished: bool,
}

/// Raw progress through a tween: elapsed time over duration, limited to one
/// and rounded down. A tween of no duration is complete from the outset.
pub open spec fn progress_raw(elapsed: int, duration: int) -> int {
    if elapsed >= duration {
        SCALE as int
    } else {
        (elapsed * SCALE) / duration
    }
}

pub proof fn lemma_progress_range(elapsed: int, duration: int)
    by (nonlinear_arith)
    requires
        0 <= elapsed,
        0 <= duration,
    ensures
        0 <= progress_raw(elapsed, duration) <= SCALE,
        elapsed == 0 && duration > 0 ==> progress_raw(elapsed, duration) == 0,
{
}

impl Tween {
    /// The value of this tween between `start` and `target` after
    /// `elapsed` microseconds.
    pub open spec fn value_spec<V: Animatable>(self, start: V, target: V, elapsed: int) -> V {
        start.interpolate_spec(
            target,
            fixed(ease_raw(self.easing, progress_raw(elapsed, self.duration as int))),
        )
    }

    /// A tween of `duration` microseconds.
    pub fn new(duration: u64, easing: Easing) -> (r: Tween)
        ensures
            r == (Tween { duration, easing }),
    {
        Tween { duration, easing }
    }

    /// A tween of `millis` milliseconds, unless that many microseconds do
    /// not fit into 64 bits.
    pub fn from_millis(millis: u64, easing: Easing) -> (r: Result<Tween, ConfigError>)
        ensures
            millis * 1000 <= u64::MAX ==> r == Ok::<Tween, ConfigError>(
                Tween { duration: (millis * 1000) as u64, easing },
            ),
            millis * 1000 > u64::MAX ==> r == Err::<Tween, ConfigError>(
                ConfigError::DurationOverflow,
            ),
    {
        match millis.checked_mul(1000) {
            Some(duration) => Ok(Tween { duration, easing }),
            None => Err(ConfigError::DurationOverflow),
        }
    }

    /// Progress through the tween after `elapsed` microseconds, before
    /// easing.
    pub fn progress(&self, elapsed: u64) -> (r: Fixed)
        ensures
            r@ == progress_raw(elapsed as int, self.duration as int),
            0 <= r@ <= SCALE,
    {
        proof {
            lemma_progress_range(elapsed as int, self.duration as int);
        }
        if elapsed >= self.duration {
            Fixed::one()
        } else {
            let scaled: u128 = (elapsed as u128) * 1_000_000;
            Fixed::from_raw((scaled / (self.duration as u128)) as i64)
        }
    }

    /// The value between `start` and `target` after `elapsed` microseconds,
    /// and whether the tween has run its course. A finished tween yields
    /// the target itself.
    pub fn evaluate<V: Animatable>(&self, start: &V, target: &V, elapsed: u64) -> (r: TweenSample<V>)
        ensures
            r.value == self.value_spec(*start, *target, elapsed as int),
            r.finished == (elapsed >= self.duration),
            r.finished ==> r.value == *target,
    {
        let eased = self.easing.apply(self.progress(elapsed));
        proof {
            lemma_ease_range(self.easing, progress_raw(elapsed as int, self.duration as int));
            V::lemma_interpolate_endpoints(*start, *target);
        }
        TweenSample { value: start.interpolate(target, eased), finished: elapsed >= self.duration }
    }
}

impl Default for Tween {
    /// Three hundred milliseconds, linear.
    fn default() -> (r: Tween)
        ensures
            r == (Tween {
                duration: 300_000,
                easing: Easing { curve: Curve::Linear, mode: EaseMode::InOut },
            }),
    {
        Tween { duration: 300_000, easing: Easing::linear() }
    }
}

/// A tween has no hidden state: any two evaluations with the same tween,
/// ends and elapsed time give the same value and the same verdict.
pub proof fn lemma_tween_deterministic<V: Animatable>(
    tween: Tween,
    start: V,
    target: V,
    elapsed: u64,
    first: TweenSample<V>,
    second: TweenSample<V>,
)
    requires
        call_ensures(Tween::evaluate::<V>, (&tween, &start, &target, elapsed), first),
        call_ensures(Tween::evaluate::<V>, (&tween, &start, &target, elapsed), second),
    ensures
        first == second,
{
}

/// A tween that has finished rests on its target, whatever the easing; one
/// that has not yet started rests on its start.
pub proof fn lemma_tween_ends<V: Animatable>(tween: Tween, start: V, target: V, elapsed: int)
    requires
        0 <= elapsed,
    ensures
        elapsed >= tween.duration ==> tween.value_spec(start, target, elapsed) == target,
        elapsed == 0 && tween.duration > 0 ==> tween.value_spec(start, target, elapsed) == start,
{
    lemma_progress_range(elapsed, tween.duration as int);
    lemma_ease_range(tween.easing, progress_raw(elapsed, tween.duration as int));
    V::lemma_interpolate_endpoints(start, target);
}

} // verus!

//! What to run when a value is sent toward a target: the driver, how often
//! to repeat it, how long to wait first, and whom to tell at the end.

use crate::spring::Spring;
use crate::tween::Tween;
use vstd::prelude::*;

verus! {

/// The algorithm that moves the value.
#[derive(Clone, Copy, Debug, PartialEq, Eq)]
pub enum AnimationMode {
    /// Time-based interpolation with an easing curve.
    Tween(Tween),
    /// A damped spring.
    Spring(Spring),
}

/// What happens when the driver reaches its end.
#[derive(Clone, Copy, Debug, PartialEq, Eq, Structural)]
pub enum LoopMode {
    /// Run once.
    Once,
    /// Run the given number of times; zero counts as one.
    Times(u32),
    /// Run again from the start, forever.
    Infinite,
    /// Run back and forth between start and target, forever.
    Alternate,
}

/// Names a completion callback. The engine never runs host code: when an
/// animation ends it hands back the name it was configured with, and the
/// host runs what it stands for.
#[derive(Clone, Copy, Debug, PartialEq, Eq, Structural)]
pub struct CallbackId(pub u64);

/// The description of one animation.
#[derive(Clone, Copy, Debug, PartialEq, Eq)]
pub struct AnimationConfig {
    /// The driver.
    pub driver: AnimationMode,
    /// What happens when the driver reaches its end.
    pub loop_mode: LoopMode,
    /// Microseconds to wait before the driver starts.
    pub delay: u64,
    /// The callback to report when the animation ends for good.
    pub on_complete: Option<CallbackId>,
}

impl AnimationConfig {
    /// A configuration that runs `driver` once, at once, and reports to
    /// nobody.
    pub fn new(driver: AnimationMode) -> (r: AnimationConfig)
        ensures
            r == (AnimationConfig {
                driver,
                loop_mode: LoopMode::Once,
                delay: 0,
                on_complete: None,
            }),
    {
        AnimationConfig { driver, loop_mode: LoopMode::Once, delay: 0, on_complete: None }
    }

    /// The same configuration with another loop mode.
    pub fn with_loop(self, loop_mode: LoopMode) -> (r: AnimationConfig)
        ensures
            r == (AnimationConfig { loop_mode, ..self }),
    {
        AnimationConfig { loop_mode, ..self }
    }

    /// The same configuration with a delay of `delay` microseconds.
    pub fn with_delay(self, delay: u64) -> (r: AnimationConfig)
        ensures
            r == (AnimationConfig { delay, ..self }),
    {
        AnimationConfig { delay, ..self }
    }

    /// The same configuration reporting to `callback` at the end.
    pub fn with_on_complete(self, callback: CallbackId) -> (r: AnimationConfig)
        ensures
            r == (AnimationConfig { on_complete: Some(callback), ..self }),
    {
        AnimationConfig { on_complete: Some(callback), ..self }
    }
}

} // verus!

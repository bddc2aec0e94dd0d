//! A deterministic animation value engine.
//!
//! The engine takes a value of any [`animatable::Animatable`] type, a
//! target and a description of the motion, and yields the value frame by
//! frame: a [`tween::Tween`] moves it over a fixed time along an easing
//! curve, a [`spring::Spring`] pulls it like a damped oscillator, and a
//! [`keyframes::KeyframeAnimation`] leads it through a list of values. A
//! [`motion::MotionHandle`] holds the state of one animated value; the host
//! calls `advance` on it once per frame and reads the value back.
//!
//! All numbers are [`fixed::Fixed`]: integers counting millionths. Time is
//! counted in whole microseconds. Nothing here rounds by chance, reads a
//! clock or runs host code, so the value after any sequence of ticks is a
//! function of the ticks alone, stated by `tick_spec` and proved of
//! `advance`. What holds over whole sequences of ticks is collected in
//! [`laws`].

pub mod animatable;
pub mod color;
pub mod config;
pub mod easing;
pub mod error;
pub mod fixed;
pub mod keyframes;
pub mod laws;
pub mod motion;
pub mod norm;
pub mod spring;
pub mod transform;
pub mod tween;

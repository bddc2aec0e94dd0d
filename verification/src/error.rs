//! Why a piece of configuration was refused.

use vstd::prelude::*;

verus! {

/// A driver description that cannot be run.
#[derive(Clone, Copy, Debug, PartialEq, Eq, Structural)]
pub enum ConfigError {
    /// A spring's stiffness is zero or negative.
    NonPositiveStiffness,
    /// A spring's damping is negative.
    NegativeDamping,
    /// A spring's mass is zero or negative.
    NonPositiveMass,
    /// A duration does not fit into 64 bits of microseconds.
    DurationOverflow,
}

/// A keyframe list that does not describe an animation.
#[derive(Clone, Copy, Debug, PartialEq, Eq, Structural)]
pub enum KeyframeError {
    /// The list holds no keyframe.
    Empty,
    /// The first keyframe does not sit at offset zero.
    FirstOffsetNotZero,
    /// The last keyframe does not sit at offset one.
    LastOffsetNotOne,
    /// Some keyframe's offset is not greater than its predecessor's.
    OffsetsNotIncreasing,
    /// The steps of a sequence add up to more than 64 bits of microseconds.
    DurationOverflow,
}

impl ConfigError {
    /// What went wrong, for a log line.
    pub fn message(&self) -> (r: String)
        ensures
            r@ == match *self {
                ConfigError::NonPositiveStiffness => "spring stiffness must be positive"@,
                ConfigError::NegativeDamping => "spring damping must not be negative"@,
                ConfigError::NonPositiveMass => "spring mass must be positive"@,
                ConfigError::DurationOverflow => "duration does not fit in microseconds"@,
            },
    {
        match self {
            ConfigError::NonPositiveStiffness => "spring stiffness must be positive".to_owned(),
            ConfigError::NegativeDamping => "spring damping must not be negative".to_owned(),
            ConfigError::NonPositiveMass => "spring mass must be positive".to_owned(),
            ConfigError::DurationOverflow => "duration does not fit in microseconds".to_owned(),
        }
    }
}

impl KeyframeError {
    /// What went wrong, for a log line.
    pub fn message(&self) -> (r: String)
        ensures
            r@ == match *self {
                KeyframeError::Empty => "keyframe list is empty"@,
                KeyframeError::FirstOffsetNotZero => "first keyframe offset must be 0"@,
                KeyframeError::LastOffsetNotOne => "last keyframe offset must be 1"@,
                KeyframeError::OffsetsNotIncreasing => "keyframe offsets must strictly increase"@,
                KeyframeError::DurationOverflow => "sequence duration does not fit in microseconds"@,
            },
    {
        match self {
            KeyframeError::Empty => "keyframe list is empty".to_owned(),
            KeyframeError::FirstOffsetNotZero => "first keyframe offset must be 0".to_owned(),
            KeyframeError::LastOffsetNotOne => "last keyframe offset must be 1".to_owned(),
            KeyframeError::OffsetsNotIncreasing => "keyframe offsets must strictly increase".to_owned(),
            KeyframeError::DurationOverflow => "sequence duration does not fit in microseconds".to_owned(),
        }
    }
}

} // verus!

use dioxus_motion::motion::Motion;
use dioxus_motion::prelude::{
    AnimationConfig as FloatConfig, AnimationMode as FloatMode, LoopMode as FloatLoop,
    Spring as FloatSpring, Tween as FloatTween,
};
use dioxus_motion::KeyframeAnimation as FloatKeyframes;
use easer::functions::{Cubic, Easing as Classic, Linear, Quart};
use motion_engine::config::{AnimationConfig, AnimationMode, LoopMode};
use motion_engine::easing::{Curve, EaseMode, Easing};
use motion_engine::fixed::Fixed;
use motion_engine::keyframes::{Keyframe, KeyframeAnimation};
use motion_engine::motion::{new_motion, MotionHandle};
use motion_engine::spring::Spring;
use motion_engine::tween::Tween;
use std::time::Duration;

type FloatEasing = fn(f32, f32, f32, f32) -> f32;

const FRAME_MICROS: u64 = 15_625;
const FRAME_SECONDS: f32 = 0.015_625;

fn float_tween(millis: u64, easing: FloatEasing) -> FloatConfig {
    FloatConfig::new(FloatMode::Tween(FloatTween { duration: Duration::from_millis(millis), easing }))
}

fn fixed_tween(millis: u64, curve: Curve, mode: EaseMode) -> AnimationConfig {
    AnimationConfig::new(AnimationMode::Tween(Tween::new(millis * 1000, Easing::new(curve, mode))))
}

fn float_value(handle: &MotionHandle<Fixed>) -> f32 {
    (handle.get_value().raw() as f64 / 1_000_000.0) as f32
}

fn float_motion(seed: f32) -> Motion<f32> {
    match Motion::new(seed) {
        Ok(motion) => motion,
        Err(e) => panic!("{:?}", e),
    }
}

fn side_by_side(
    ours: &mut MotionHandle<Fixed>,
    theirs: &mut Motion<f32>,
    frames: u32,
    tolerance: f32,
) {
    for frame in 1..=frames {
        ours.advance(FRAME_MICROS);
        if let Err(e) = theirs.update(FRAME_SECONDS) {
            panic!("{:?}", e);
        }
        let (a, b) = (float_value(ours), theirs.get_value());
        assert!((a - b).abs() <= tolerance, "frame {}: {} against {}", frame, a, b);
        assert_eq!(ours.is_running(), theirs.is_running(), "frame {}", frame);
    }
}

fn start_both(
    target: i64,
    ours_config: AnimationConfig,
    theirs_config: FloatConfig,
) -> (MotionHandle<Fixed>, Motion<f32>) {
    let mut ours = new_motion(Fixed::zero());
    let mut theirs = float_motion(0.0);
    ours.animate_to(Fixed::from_int(target), ours_config);
    if let Err(e) = theirs.animate_to(target as f32, theirs_config) {
        panic!("{:?}", e);
    }
    (ours, theirs)
}

#[test]
fn linear_tween_tracks_the_floating_point_engine() {
    let (mut ours, mut theirs) = start_both(
        100,
        fixed_tween(1000, Curve::Linear, EaseMode::InOut),
        float_tween(1000, <Linear as Classic<f32>>::ease_in_out),
    );
    side_by_side(&mut ours, &mut theirs, 80, 0.001);
    assert_eq!(float_value(&ours), 100.0);
    assert!(!ours.is_running());
}

#[test]
fn cubic_tween_tracks_the_floating_point_engine() {
    let (mut ours, mut theirs) = start_both(
        100,
        fixed_tween(500, Curve::Cubic, EaseMode::InOut),
        float_tween(500, <Cubic as Classic<f32>>::ease_in_out),
    );
    side_by_side(&mut ours, &mut theirs, 40, 0.001);
}

#[test]
fn quart_tween_tracks_the_floating_point_engine() {
    let (mut ours, mut theirs) = start_both(
        -360,
        fixed_tween(800, Curve::Quart, EaseMode::Out),
        float_tween(800, <Quart as Classic<f32>>::ease_out),
    );
    side_by_side(&mut ours, &mut theirs, 60, 0.001);
}

#[test]
fn counted_loop_tracks_the_floating_point_engine() {
    let (mut ours, mut theirs) = start_both(
        100,
        fixed_tween(250, Curve::Cubic, EaseMode::Out).with_loop(LoopMode::Times(3)),
        float_tween(250, <Cubic as Classic<f32>>::ease_out).with_loop(FloatLoop::Times(3)),
    );
    side_by_side(&mut ours, &mut theirs, 47, 0.001);
    assert!(ours.is_running());
    side_by_side(&mut ours, &mut theirs, 1, 0.001);
    assert!(!ours.is_running());
    side_by_side(&mut ours, &mut theirs, 10, 0.001);
}

#[test]
fn endless_loop_tracks_the_floating_point_engine() {
    let (mut ours, mut theirs) = start_both(
        100,
        fixed_tween(250, Curve::Linear, EaseMode::InOut).with_loop(LoopMode::Infinite),
        float_tween(250, <Linear as Classic<f32>>::ease_in_out).with_loop(FloatLoop::Infinite),
    );
    side_by_side(&mut ours, &mut theirs, 100, 0.001);
    assert!(ours.is_running());
}

#[test]
fn alternating_loop_tracks_the_floating_point_engine() {
    let (mut ours, mut theirs) = start_both(
        100,
        fixed_tween(250, Curve::Quart, EaseMode::In).with_loop(LoopMode::Alternate),
        float_tween(250, <Quart as Classic<f32>>::ease_in).with_loop(FloatLoop::Alternate),
    );
    side_by_side(&mut ours, &mut theirs, 100, 0.001);
    assert!(ours.is_running());
}

#[test]
fn delayed_tween_tracks_the_floating_point_engine() {
    let (mut ours, mut theirs) = start_both(
        100,
        fixed_tween(500, Curve::Linear, EaseMode::InOut).with_delay(200_000),
        float_tween(500, <Linear as Classic<f32>>::ease_in_out).with_delay(Duration::from_millis(200)),
    );
    side_by_side(&mut ours, &mut theirs, 12, 0.001);
    assert_eq!(float_value(&ours), 0.0);
    side_by_side(&mut ours, &mut theirs, 40, 0.001);
    assert!(!ours.is_running());
}

#[test]
fn retargeting_tracks_the_floating_point_engine() {
    let (mut ours, mut theirs) = start_both(
        100,
        fixed_tween(1000, Curve::Cubic, EaseMode::InOut),
        float_tween(1000, <Cubic as Classic<f32>>::ease_in_out),
    );
    side_by_side(&mut ours, &mut theirs, 23, 0.001);
    ours.animate_to(Fixed::from_int(-50), fixed_tween(500, Curve::Quart, EaseMode::Out));
    if let Err(e) = theirs.animate_to(-50.0, float_tween(500, <Quart as Classic<f32>>::ease_out)) {
        panic!("{:?}", e);
    }
    assert!((float_value(&ours) - theirs.get_value()).abs() <= 0.001);
    side_by_side(&mut ours, &mut theirs, 40, 0.001);
    assert_eq!(float_value(&ours), -50.0);
}

#[test]
fn keyframes_track_the_floating_point_engine() {
    let frames: [(i64, i64, f32, Option<(Curve, EaseMode, FloatEasing)>); 4] = [
        (0, 0, 0.0, None),
        (50, 300_000, 0.3, None),
        (100, 600_000, 0.6, Some((Curve::Cubic, EaseMode::InOut, <Cubic as Classic<f32>>::ease_in_out))),
        (0, 1_000_000, 1.0, Some((Curve::Quart, EaseMode::Out, <Quart as Classic<f32>>::ease_out))),
    ];
    let mut fixed_frames = Vec::new();
    let mut float_frames = FloatKeyframes::new(Duration::from_millis(500));
    for (value, raw_offset, offset, easing) in frames {
        fixed_frames.push(Keyframe {
            value: Fixed::from_int(value),
            offset: Fixed::from_raw(raw_offset),
            easing: easing.map(|(curve, mode, _)| Easing::new(curve, mode)),
        });
        float_frames = match float_frames.add_keyframe(value as f32, offset, easing.map(|e| e.2)) {
            Ok(frames) => frames,
            Err(e) => panic!("{:?}", e),
        };
    }
    let animation = match KeyframeAnimation::new(500_000, fixed_frames) {
        Ok(animation) => animation,
        Err(e) => panic!("{:?}", e),
    };
    let mut ours = new_motion(Fixed::zero());
    let mut theirs = float_motion(0.0);
    ours.animate_keyframes(animation);
    if let Err(e) = theirs.animate_keyframes(float_frames) {
        panic!("{:?}", e);
    }
    side_by_side(&mut ours, &mut theirs, 40, 0.01);
    assert!(!ours.is_running());
    assert_eq!(float_value(&ours), 0.0);
}

#[test]
fn spring_stays_close_to_the_exact_oscillator() {
    for (stiffness, damping, mass) in [(100, 10, 1), (180, 12, 1), (200, 20, 1), (30, 5, 1), (25, 8, 2)] {
        let spring = match Spring::new(
            Fixed::from_int(stiffness),
            Fixed::from_int(damping),
            Fixed::from_int(mass),
            Fixed::zero(),
        ) {
            Ok(spring) => spring,
            Err(e) => panic!("{:?}", e),
        };
        let float_spring = FloatSpring {
            stiffness: stiffness as f32,
            damping: damping as f32,
            mass: mass as f32,
        };
        let mut ours = new_motion(Fixed::zero());
        let mut theirs = float_motion(0.0);
        ours.animate_to(Fixed::from_int(1), AnimationConfig::new(AnimationMode::Spring(spring)));
        if let Err(e) = theirs.animate_to(1.0, FloatConfig::new(FloatMode::Spring(float_spring))) {
            panic!("{:?}", e);
        }
        let mut widest: f32 = 0.0;
        for _ in 0..1000 {
            ours.advance(FRAME_MICROS);
            if let Err(e) = theirs.update(FRAME_SECONDS) {
                panic!("{:?}", e);
            }
            widest = widest.max((float_value(&ours) - theirs.get_value()).abs());
        }
        assert!(widest < 0.05, "{} {} {}: {}", stiffness, damping, mass, widest);
        assert!(!ours.is_running());
        assert!(!theirs.is_running());
        assert_eq!(float_value(&ours), 1.0);
        assert_eq!(theirs.get_value(), 1.0);
    }
}

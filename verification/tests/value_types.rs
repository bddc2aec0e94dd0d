use motion_engine::animatable::Animatable;
use motion_engine::color::ColorValue;
use motion_engine::config::{AnimationConfig, AnimationMode};
use motion_engine::easing::Easing;
use motion_engine::fixed::{Fixed, RAW_MAX, RAW_MIN};
use motion_engine::motion::new_motion;
use motion_engine::norm::{add_square, integer_root, length_of, SQUARE_CAP};
use motion_engine::transform::Transform3D;
use motion_engine::tween::Tween;

fn transform(parts: [i64; 6]) -> Transform3D {
    Transform3D::new(
        Fixed::from_raw(parts[0]),
        Fixed::from_raw(parts[1]),
        Fixed::from_raw(parts[2]),
        Fixed::from_raw(parts[3]),
        Fixed::from_raw(parts[4]),
        Fixed::from_raw(parts[5]),
    )
}

fn color(r: i64, g: i64, b: i64) -> ColorValue {
    ColorValue { r: Fixed::from_raw(r), g: Fixed::from_raw(g), b: Fixed::from_raw(b) }
}

#[test]
fn integer_roots() {
    assert_eq!(integer_root(0), 0);
    assert_eq!(integer_root(1), 1);
    assert_eq!(integer_root(3), 1);
    assert_eq!(integer_root(4), 2);
    assert_eq!(integer_root(24), 4);
    assert_eq!(integer_root(25), 5);
    assert_eq!(integer_root(1_000_000_000_000), 1_000_000);
    assert_eq!(integer_root(999_999_999_999), 999_999);
    assert_eq!(integer_root(SQUARE_CAP), RAW_MAX as u64);
    assert_eq!(integer_root(SQUARE_CAP - 1), RAW_MAX as u64 - 1);
    assert_eq!(integer_root(u128::MAX), u64::MAX);
}

#[test]
fn sums_of_squares_are_capped() {
    assert_eq!(add_square(0, Fixed::from_raw(-3)), 9);
    assert_eq!(add_square(16, Fixed::from_raw(3)), 25);
    assert_eq!(add_square(1, Fixed::from_raw(RAW_MAX)), SQUARE_CAP);
    assert_eq!(add_square(0, Fixed::from_raw(RAW_MIN)), SQUARE_CAP);
    assert_eq!(add_square(u128::MAX, Fixed::zero()), SQUARE_CAP);
    assert_eq!(length_of(25).raw(), 5);
    assert_eq!(length_of(u128::MAX).raw(), RAW_MAX);
}

#[test]
fn transform_keeps_its_components() {
    let t = transform([1, 2, 3, 4, 5, 6]);
    assert_eq!(t.rotate_x.raw(), 1);
    assert_eq!(t.rotate_y.raw(), 2);
    assert_eq!(t.rotate_z.raw(), 3);
    assert_eq!(t.translate_x.raw(), 4);
    assert_eq!(t.translate_y.raw(), 5);
    assert_eq!(t.scale.raw(), 6);
}

#[test]
fn transform_zero_and_identity() {
    assert_eq!(Transform3D::zero(), transform([0, 0, 0, 0, 0, 0]));
    assert_eq!(Transform3D::identity(), transform([0, 0, 0, 0, 0, 1_000_000]));
    assert_eq!(Transform3D::zero().magnitude(), Fixed::zero());
    assert_eq!(Transform3D::identity().magnitude(), Fixed::one());
}

#[test]
fn transform_algebra_works_by_component() {
    let a = transform([1_000_000, -2_000_000, 3_000_000, 0, 500_000, 1_200_000]);
    let b = transform([500_000, 500_000, -500_000, 7, -500_000, 300_000]);
    assert_eq!(a.add(&b), transform([1_500_000, -1_500_000, 2_500_000, 7, 0, 1_500_000]));
    assert_eq!(b.add(&a), a.add(&b));
    assert_eq!(a.sub(&b), transform([500_000, -2_500_000, 3_500_000, -7, 1_000_000, 900_000]));
    assert_eq!(
        a.scale(Fixed::from_raw(-500_000)),
        transform([-500_000, 1_000_000, -1_500_000, 0, -250_000, -600_000])
    );
}

#[test]
fn transform_magnitude_is_the_euclidean_length() {
    assert_eq!(transform([3, 0, 0, 4, 0, 0]).magnitude().raw(), 5);
    assert_eq!(transform([1, 1, 1, 1, 1, 1]).magnitude().raw(), 2);
    assert_eq!(transform([2, 2, 2, 2, 2, 2]).magnitude().raw(), 4);
    assert_eq!(transform([0, -7, 0, 0, 0, 0]).magnitude().raw(), 7);
    assert_eq!(
        transform([1_000_000, 2_000_000, 2_000_000, 0, 0, 0]).magnitude(),
        Fixed::from_int(3)
    );
}

#[test]
fn transform_magnitude_saturates() {
    let huge = transform([RAW_MAX, RAW_MIN, RAW_MAX, RAW_MIN, RAW_MAX, RAW_MIN]);
    assert_eq!(huge.magnitude().raw(), RAW_MAX);
    assert_eq!(transform([RAW_MAX, 0, 0, 0, 0, 0]).magnitude().raw(), RAW_MAX);
    assert_eq!(transform([RAW_MIN, 0, 0, 0, 0, 0]).magnitude().raw(), RAW_MAX);
}

#[test]
fn transform_interpolation_meets_both_ends() {
    let a = transform([RAW_MIN, -2, 3, RAW_MAX, 5, 1_000_000]);
    let b = transform([RAW_MAX, 2, -3, RAW_MIN, -5, 1_400_000]);
    assert_eq!(a.interpolate(&b, Fixed::zero()), a);
    assert_eq!(a.interpolate(&b, Fixed::one()), b);
    assert_eq!(b.interpolate(&a, Fixed::one()), a);
}

#[test]
fn transform_interpolation_at_the_middle() {
    let a = transform([0, 0, 0, 0, 0, 1_000_000]);
    let b = transform([1_256_637, 3_141_592, 1_047_197, 3_000_000, -2_000_000, 1_400_000]);
    assert_eq!(
        a.interpolate(&b, Fixed::from_raw(500_000)),
        transform([628_318, 1_570_796, 523_598, 1_500_000, -1_000_000, 1_200_000])
    );
}

#[test]
fn colour_channels_are_limited_on_construction() {
    assert_eq!(
        ColorValue::new(Fixed::from_raw(-1), Fixed::from_raw(500_000), Fixed::from_int(2)),
        color(0, 500_000, 1_000_000)
    );
    assert_eq!(ColorValue::default(), color(0, 0, 0));
    assert_eq!(ColorValue::zero(), ColorValue::default());
}

#[test]
fn colour_sums_and_differences_are_signed() {
    let cool = color(200_000, 500_000, 800_000);
    let warm = color(800_000, 300_000, 200_000);
    assert_eq!(cool.add(&warm), color(1_000_000, 800_000, 1_000_000));
    assert_eq!(warm.add(&cool), cool.add(&warm));
    assert_eq!(warm.sub(&cool), color(600_000, -200_000, -600_000));
    assert_eq!(cool.sub(&warm), color(-600_000, 200_000, 600_000));
    assert_eq!(color(900_000, 0, 0).add(&color(900_000, 0, 0)), color(1_800_000, 0, 0));
}

#[test]
fn colour_difference_adds_back() {
    let cool = color(200_000, 500_000, 800_000);
    let warm = color(800_000, 300_000, 200_000);
    assert_eq!(warm.sub(&cool).add(&cool), warm);
    assert_eq!(cool.sub(&warm).add(&warm), cool);
    assert_eq!(cool.add(&warm.sub(&cool)), warm);
    let black = color(0, 0, 0);
    let white = color(1_000_000, 1_000_000, 1_000_000);
    assert_eq!(black.sub(&white).add(&white), black);
    assert_eq!(white.sub(&black).add(&black), white);
}

#[test]
fn colour_scaling_is_signed() {
    let cool = color(200_000, 500_000, 800_000);
    assert_eq!(cool.scale(Fixed::from_raw(500_000)), color(100_000, 250_000, 400_000));
    assert_eq!(cool.scale(Fixed::from_int(2)), color(400_000, 1_000_000, 1_600_000));
    assert_eq!(cool.scale(Fixed::from_int(-1)), color(-200_000, -500_000, -800_000));
}

#[test]
fn colour_blend_is_the_start_plus_the_scaled_difference() {
    let cool = color(200_000, 500_000, 800_000);
    let warm = color(800_000, 300_000, 200_000);
    for raw in [0, 1, 250_000, 333_333, 500_000, 999_999, 1_000_000] {
        let t = Fixed::from_raw(raw);
        assert_eq!(cool.interpolate(&warm, t), cool.add(&warm.sub(&cool).scale(t)));
        assert_eq!(warm.interpolate(&cool, t), warm.add(&cool.sub(&warm).scale(t)));
    }
}

#[test]
fn colour_magnitude() {
    assert_eq!(color(0, 0, 0).magnitude(), Fixed::zero());
    assert_eq!(color(300_000, 400_000, 0).magnitude().raw(), 500_000);
    assert_eq!(color(1_000_000, 1_000_000, 1_000_000).magnitude().raw(), 1_732_050);
}

#[test]
fn colour_blend_lets_channels_rise_and_fall() {
    let cool = color(200_000, 500_000, 800_000);
    let warm = color(800_000, 300_000, 200_000);
    assert_eq!(cool.interpolate(&warm, Fixed::zero()), cool);
    assert_eq!(cool.interpolate(&warm, Fixed::one()), warm);
    assert_eq!(warm.interpolate(&cool, Fixed::one()), cool);
    assert_eq!(cool.interpolate(&warm, Fixed::from_raw(500_000)), color(500_000, 400_000, 500_000));
    assert_eq!(cool.interpolate(&warm, Fixed::from_raw(250_000)), color(350_000, 450_000, 650_000));
}

#[test]
fn a_colour_can_be_animated() {
    let cool = color(200_000, 500_000, 800_000);
    let warm = color(800_000, 300_000, 200_000);
    let mut handle = new_motion(cool);
    handle.animate_to(
        warm,
        AnimationConfig::new(AnimationMode::Tween(Tween::new(1_000, Easing::linear()))),
    );
    handle.advance(500);
    assert_eq!(handle.get_value(), color(500_000, 400_000, 500_000));
    handle.advance(500);
    assert_eq!(handle.get_value(), warm);
    assert!(!handle.is_running());
}

#[test]
fn a_spring_raises_and_lowers_the_channels_of_a_colour() {
    let spring = match motion_engine::spring::Spring::new(
        Fixed::from_int(100),
        Fixed::from_int(10),
        Fixed::from_int(1),
        Fixed::zero(),
    ) {
        Ok(spring) => spring,
        Err(e) => panic!("{:?}", e),
    };
    let cool = color(200_000, 500_000, 800_000);
    let warm = color(800_000, 300_000, 200_000);
    let mut handle = new_motion(cool);
    handle.animate_to(warm, AnimationConfig::new(AnimationMode::Spring(spring)));
    handle.advance(16_667);
    assert!(handle.is_running());
    assert_eq!(handle.get_value(), color(212_122, 495_960, 787_878));
    assert_eq!(handle.velocity, color(954_874, -318_291, -954_874));
    for _ in 0..9 {
        handle.advance(16_667);
    }
    assert_eq!(handle.get_value(), color(637_082, 354_313, 362_918));
    let mut ticks = 10;
    while handle.is_running() && ticks < 600 {
        handle.advance(16_667);
        ticks += 1;
        let shown = handle.get_value();
        assert_eq!(ColorValue::new(shown.r, shown.g, shown.b), shown);
    }
    assert_eq!(ticks, 85);
    assert_eq!(handle.get_value(), warm);
    assert_eq!(handle.velocity, ColorValue::zero());

    handle.animate_to(cool, AnimationConfig::new(AnimationMode::Spring(spring)));
    let mut back = 0;
    while handle.is_running() && back < 600 {
        handle.advance(16_667);
        back += 1;
    }
    assert_eq!(back, 85);
    assert_eq!(handle.get_value(), cool);
}

#[test]
fn a_spring_does_not_settle_short_of_a_darker_colour() {
    let spring = motion_engine::spring::Spring::default();
    let target = color(800_000, 300_000, 200_000);
    let near = motion_engine::spring::SpringState {
        position: color(800_000, 500_000, 800_000),
        velocity: ColorValue::zero(),
    };
    assert!(!motion_engine::spring::Spring::is_settled(&near, &target));
    let sample = spring.advance(&near, &target, 16_667);
    assert!(!sample.settled);
    assert!(sample.state.position.g.raw() < 500_000);
    assert!(sample.state.position.b.raw() < 800_000);
    assert_eq!(sample.state.position.r.raw(), 800_000);
}

#[test]
fn a_transform_can_be_sprung() {
    let spring = match motion_engine::spring::Spring::new(
        Fixed::from_int(100),
        Fixed::from_int(10),
        Fixed::from_int(1),
        Fixed::zero(),
    ) {
        Ok(spring) => spring,
        Err(e) => panic!("{:?}", e),
    };
    let target = transform([0, 0, 785_398, 100_000_000, 50_000_000, 1_200_000]);
    let mut handle = new_motion(Transform3D::identity());
    handle.animate_to(target, AnimationConfig::new(AnimationMode::Spring(spring)));
    let mut ticks = 0;
    while handle.is_running() && ticks < 600 {
        handle.advance(16_667);
        ticks += 1;
    }
    assert!(ticks < 600);
    assert_eq!(handle.get_value(), target);
    assert_eq!(handle.velocity, Transform3D::zero());
}

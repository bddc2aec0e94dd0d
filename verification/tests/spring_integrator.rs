use motion_engine::error::ConfigError;
use motion_engine::fixed::Fixed;
use motion_engine::spring::{Spring, SpringState, EPSILON, MAX_TICK, SUBSTEP};

fn standard_spring() -> Spring {
    match Spring::new(Fixed::from_int(100), Fixed::from_int(10), Fixed::from_int(1), Fixed::zero()) {
        Ok(spring) => spring,
        Err(e) => panic!("{:?}", e),
    }
}

#[test]
fn spring_parameters_are_kept() {
    let spring = match Spring::new(
        Fixed::from_int(25),
        Fixed::from_int(8),
        Fixed::from_raw(1_200_000),
        Fixed::from_int(3),
    ) {
        Ok(spring) => spring,
        Err(e) => panic!("{:?}", e),
    };
    assert_eq!(spring.stiffness(), Fixed::from_int(25));
    assert_eq!(spring.damping(), Fixed::from_int(8));
    assert_eq!(spring.mass(), Fixed::from_raw(1_200_000));
    assert_eq!(spring.velocity(), Fixed::from_int(3));
}

#[test]
fn default_spring() {
    let spring = Spring::default();
    assert_eq!(spring.stiffness(), Fixed::from_int(100));
    assert_eq!(spring.damping(), Fixed::from_int(10));
    assert_eq!(spring.mass(), Fixed::from_int(1));
    assert_eq!(spring.velocity(), Fixed::zero());
    assert_eq!(spring, standard_spring());
}

#[test]
fn stiffness_must_be_positive() {
    let one = Fixed::one();
    assert_eq!(
        Spring::new(Fixed::zero(), one, one, one).err(),
        Some(ConfigError::NonPositiveStiffness)
    );
    assert_eq!(
        Spring::new(Fixed::from_raw(-1), Fixed::from_raw(-1), Fixed::zero(), one).err(),
        Some(ConfigError::NonPositiveStiffness)
    );
}

#[test]
fn damping_must_not_be_negative() {
    let one = Fixed::one();
    assert_eq!(
        Spring::new(one, Fixed::from_raw(-1), one, one).err(),
        Some(ConfigError::NegativeDamping)
    );
    assert_eq!(
        Spring::new(one, Fixed::from_raw(-1), Fixed::zero(), one).err(),
        Some(ConfigError::NegativeDamping)
    );
    assert!(Spring::new(one, Fixed::zero(), one, one).is_ok());
}

#[test]
fn mass_must_be_positive() {
    let one = Fixed::one();
    assert_eq!(Spring::new(one, one, Fixed::zero(), one).err(), Some(ConfigError::NonPositiveMass));
    assert_eq!(
        Spring::new(one, one, Fixed::from_int(-3), one).err(),
        Some(ConfigError::NonPositiveMass)
    );
    assert!(Spring::new(one, one, Fixed::from_raw(1), Fixed::from_int(-3)).is_ok());
}

#[test]
fn one_step_updates_velocity_before_position() {
    let spring = standard_spring();
    let rest = SpringState { position: Fixed::zero(), velocity: Fixed::zero() };
    let next = spring.step(&rest, &Fixed::one(), Fixed::from_raw(8_333));
    assert_eq!(next.velocity.raw(), 833_300);
    assert_eq!(next.position.raw(), 6_943);
}

#[test]
fn a_step_of_no_time_changes_nothing() {
    let spring = standard_spring();
    let state = SpringState { position: Fixed::from_raw(123), velocity: Fixed::from_raw(-456) };
    let next = spring.step(&state, &Fixed::one(), Fixed::zero());
    assert_eq!(next.position.raw(), 123);
    assert_eq!(next.velocity.raw(), -456);
}

#[test]
fn a_frame_is_integrated_in_substeps() {
    let spring = standard_spring();
    let target = Fixed::one();
    let rest = SpringState { position: Fixed::zero(), velocity: Fixed::zero() };
    let frame = spring.advance(&rest, &target, 16_667);
    assert!(!frame.settled);
    assert_eq!(frame.state.position.raw(), 20_204);
    assert_eq!(frame.state.velocity.raw(), 1_591_457);

    let first = spring.step(&rest, &target, Fixed::from_raw(SUBSTEP as i64));
    let second = spring.step(&first, &target, Fixed::from_raw(SUBSTEP as i64));
    let third = spring.step(&second, &target, Fixed::from_raw(1));
    assert_eq!(third.position, frame.state.position);
    assert_eq!(third.velocity, frame.state.velocity);
}

#[test]
fn a_tick_longer_than_a_tenth_of_a_second_counts_as_a_tenth() {
    let spring = standard_spring();
    let target = Fixed::one();
    let rest = SpringState { position: Fixed::zero(), velocity: Fixed::zero() };
    let capped = spring.advance(&rest, &target, MAX_TICK);
    let long = spring.advance(&rest, &target, 1_000_000_000);
    let longest = spring.advance(&rest, &target, u64::MAX);
    assert_eq!(capped.state.position.raw(), 372_335);
    assert_eq!(capped.state.velocity.raw(), 5_434_295);
    assert_eq!(long.state.position, capped.state.position);
    assert_eq!(long.state.velocity, capped.state.velocity);
    assert_eq!(longest.state.position, capped.state.position);
    assert_eq!(longest.state.velocity, capped.state.velocity);
}

#[test]
fn a_spring_close_to_rest_snaps_to_its_target() {
    let spring = standard_spring();
    let target = Fixed::one();
    let near = SpringState { position: Fixed::from_raw(999_500), velocity: Fixed::from_raw(100) };
    assert!(Spring::is_settled(&near, &target));
    let sample = spring.advance(&near, &target, 0);
    assert!(sample.settled);
    assert_eq!(sample.state.position, target);
    assert_eq!(sample.state.velocity, Fixed::zero());
}

#[test]
fn settling_needs_both_position_and_velocity_below_epsilon() {
    let target = Fixed::one();
    let far = SpringState { position: Fixed::from_raw(1_000_000 - EPSILON), velocity: Fixed::zero() };
    let fast = SpringState { position: target, velocity: Fixed::from_raw(-EPSILON) };
    let both = SpringState {
        position: Fixed::from_raw(1_000_000 + EPSILON - 1),
        velocity: Fixed::from_raw(EPSILON - 1),
    };
    assert!(!Spring::is_settled(&far, &target));
    assert!(!Spring::is_settled(&fast, &target));
    assert!(Spring::is_settled(&both, &target));
}

#[test]
fn standard_spring_converges_within_five_seconds() {
    let spring = standard_spring();
    let target = Fixed::one();
    let mut state = SpringState { position: Fixed::zero(), velocity: Fixed::zero() };
    let mut settled_at = 0;
    for tick in 1..=300 {
        let sample = spring.advance(&state, &target, 16_667);
        state = sample.state;
        if sample.settled {
            settled_at = tick;
            break;
        }
    }
    assert_eq!(settled_at, 85);
    assert_eq!(state.position, target);
    assert_eq!(state.velocity, Fixed::zero());
}

#[test]
fn launch_velocity_is_the_displacement_times_the_initial_velocity() {
    let spring = match Spring::new(
        Fixed::from_int(25),
        Fixed::from_int(8),
        Fixed::from_raw(1_200_000),
        Fixed::from_int(3),
    ) {
        Ok(spring) => spring,
        Err(e) => panic!("{:?}", e),
    };
    assert_eq!(spring.launch(&Fixed::zero(), &Fixed::from_int(3)), Fixed::from_int(9));
    assert_eq!(spring.launch(&Fixed::from_int(3), &Fixed::zero()), Fixed::from_int(-9));
    assert_eq!(standard_spring().launch(&Fixed::zero(), &Fixed::from_int(3)), Fixed::zero());

    let mut state = SpringState {
        position: Fixed::zero(),
        velocity: spring.launch(&Fixed::zero(), &Fixed::from_int(3)),
    };
    let expected = [(150_404, 9_027_457), (300_588, 9_001_176), (449_730, 8_927_108)];
    for (position, velocity) in expected {
        let sample = spring.advance(&state, &Fixed::from_int(3), 16_667);
        assert!(!sample.settled);
        assert_eq!(sample.state.position.raw(), position);
        assert_eq!(sample.state.velocity.raw(), velocity);
        state = sample.state;
    }
}

#[test]
fn a_spring_at_rest_sets_out_toward_its_target() {
    let spring = standard_spring();
    let rest = SpringState { position: Fixed::zero(), velocity: Fixed::zero() };
    let up = spring.step(&rest, &Fixed::one(), Fixed::from_raw(100));
    assert_eq!(up.velocity.raw(), 10_000);
    assert_eq!(up.position.raw(), 1);
    let down = spring.step(&rest, &Fixed::from_int(-1), Fixed::from_raw(100));
    assert_eq!(down.velocity.raw(), -10_000);
    assert_eq!(down.position.raw(), -1);
}

#[test]
fn a_step_too_short_to_show_gains_velocity_only() {
    let spring = standard_spring();
    let rest = SpringState { position: Fixed::zero(), velocity: Fixed::zero() };
    let shortest = spring.step(&rest, &Fixed::one(), Fixed::from_raw(1));
    assert_eq!(shortest.velocity.raw(), 100);
    assert_eq!(shortest.position.raw(), 0);
    let short = spring.step(&rest, &Fixed::one(), Fixed::from_raw(99));
    assert_eq!(short.velocity.raw(), 9_900);
    assert_eq!(short.position.raw(), 0);
    let mut state = rest;
    let mut ticks = 0;
    while state.position.raw() == 0 && ticks < 20_000 {
        state = spring.advance(&state, &Fixed::one(), 1).state;
        ticks += 1;
    }
    assert_eq!(ticks, 10_592);
    assert_eq!(state.position.raw(), 1);
    assert_eq!(state.velocity.raw(), 1_000_023);
}

//! Spring physics: a damped harmonic oscillator pulling a value toward its
//! target.
//!
//! The oscillator is advanced by semi-implicit Euler steps: the velocity is
//! updated from the force first, and the position from the new velocity.
//! A tick is cut into steps of at most `SUBSTEP` microseconds, which keeps
//! the integration stable at interactive frame rates, and a tick longer than
//! `MAX_TICK` counts as `MAX_TICK`, which bounds the work of one tick. Once
//! the position is within `EPSILON` of the target and the velocity below
//! `EPSILON`, the spring has settled: the position snaps to the target and
//! the velocity to zero.
//!
//! Every product is rounded toward zero, so a step moves the position only
//! by whole millionths: over a step of a few microseconds a slow value
//! gains velocity and stays where it is. At frame rates up to some
//! thousand ticks a second what is lost is far below `EPSILON`.

use crate::animatable::Animatable;
use crate::error::ConfigError;
use crate::fixed::{
    add_raw, fixed, lemma_trunc_div_bounds, mul_raw, sub_raw, Fixed, SCALE,
};
use vstd::prelude::*;

verus! {

/// Raw distance and raw speed below which a spring counts as settled:
/// one thousandth.
pub const EPSILON: i64 = 1_000;

/// The parameters of a spring. Stiffness and mass are positive and damping
/// is not negative; `new` refuses anything else.
#[derive(Clone, Copy, Debug, PartialEq, Eq)]
pub struct Spring {
    stiffness: Fixed,
    damping: Fixed,
    mass: Fixed,
    velocity: Fixed,
}

/// Position and velocity of a value on a spring.
#[derive(Debug)]
pub struct SpringState<V> {
    pub position: V,
    pub velocity: V,
}

/// What one tick of a spring yields.
#[derive(Debug)]
pub struct SpringSample<V> {
    /// Position and velocity after the tick.
    pub state: SpringState<V>,
    /// Whether the spring came to rest on its target in this tick.
    pub settled: bool,
}

/// Longest single integration step, in microseconds: a 120th of a second.
pub const SUBSTEP: u64 = 8_333;

/// Longest time, in microseconds, that one tick integrates: a tenth of a
/// second.
pub const MAX_TICK: u64 = 100_000;

/// The part of a tick of `micros` microseconds that is integrated.
pub open spec fn tick_span(micros: int) -> int {
    if micros > MAX_TICK {
        MAX_TICK as int
    } else {
        micros
    }
}

/// The reciprocal of a positive raw mass, rounded down.
pub open spec fn inverse_raw(mass: int) -> int {
    (SCALE * SCALE) / mass
}

/// Why spring parameters are refused, if they are.
pub open spec fn refusal(stiffness: Fixed, damping: Fixed, mass: Fixed) -> Option<ConfigError> {
    if stiffness@ <= 0 {
        Some(ConfigError::NonPositiveStiffness)
    } else if damping@ < 0 {
        Some(ConfigError::NegativeDamping)
    } else if mass@ <= 0 {
        Some(ConfigError::NonPositiveMass)
    } else {
        None
    }
}

pub proof fn lemma_inverse_range(mass: int)
    by (nonlinear_arith)
    requires
        mass >= 1,
    ensures
        0 <= inverse_raw(mass) <= SCALE * SCALE,
{
}

impl Spring {
    #[verifier::type_invariant]
    pub closed spec fn well_formed(self) -> bool {
        &&& self.stiffness@ > 0
        &&& self.damping@ >= 0
        &&& self.mass@ > 0
    }

    pub closed spec fn stiffness_spec(self) -> Fixed {
        self.stiffness
    }

    pub closed spec fn damping_spec(self) -> Fixed {
        self.damping
    }

    pub closed spec fn mass_spec(self) -> Fixed {
        self.mass
    }

    pub closed spec fn velocity_spec(self) -> Fixed {
        self.velocity
    }

    /// The velocity a value leaves `start` with on its way to `target`:
    /// the displacement scaled by the spring's initial velocity, which is
    /// thus measured in displacements per second.
    pub open spec fn launch_spec<V: Animatable>(self, start: V, target: V) -> V {
        target.sub_spec(start).scale_spec(self.velocity_spec())
    }

    /// The acceleration of a value at `state` pulled toward `target`:
    /// stiffness times displacement, less damping times velocity, over
    /// the mass.
    pub open spec fn acceleration_spec<V: Animatable>(self, state: SpringState<V>, target: V) -> V {
        target.sub_spec(state.position).scale_spec(self.stiffness_spec()).sub_spec(
            state.velocity.scale_spec(self.damping_spec()),
        ).scale_spec(fixed(inverse_raw(self.mass_spec()@)))
    }

    /// One semi-implicit Euler step of `dt` seconds.
    pub open spec fn step_spec<V: Animatable>(
        self,
        state: SpringState<V>,
        target: V,
        dt: Fixed,
    ) -> SpringState<V> {
        let velocity = state.velocity.add_spec(self.acceleration_spec(state, target).scale_spec(dt));
        SpringState { position: state.position.add_spec(velocity.scale_spec(dt)), velocity }
    }

    /// Whether `state` is at rest on `target`, within `EPSILON`.
    pub open spec fn settled_spec<V: Animatable>(state: SpringState<V>, target: V) -> bool {
        &&& target.sub_spec(state.position).magnitude_spec()@ < EPSILON
        &&& state.velocity.magnitude_spec()@ < EPSILON
    }

    /// The state after `micros` microseconds, taken in steps of `SUBSTEP`
    /// and one shorter step for what is left.
    pub open spec fn integrate_spec<V: Animatable>(
        self,
        state: SpringState<V>,
        target: V,
        micros: int,
    ) -> SpringState<V>
        decreases micros,
    {
        if micros <= 0 {
            state
        } else if micros <= SUBSTEP {
            self.step_spec(state, target, fixed(micros))
        } else {
            self.integrate_spec(
                self.step_spec(state, target, fixed(SUBSTEP as int)),
                target,
                micros - SUBSTEP,
            )
        }
    }

    /// One tick of `micros` microseconds: the integration, then the snap to
    /// the target if it left the spring settled.
    pub open spec fn advance_spec<V: Animatable>(
        self,
        state: SpringState<V>,
        target: V,
        micros: int,
    ) -> SpringSample<V> {
        let next = self.integrate_spec(state, target, tick_span(micros));
        if Self::settled_spec(next, target) {
            SpringSample {
                state: SpringState { position: target, velocity: V::zero_spec() },
                settled: true,
            }
        } else {
            SpringSample { state: next, settled: false }
        }
    }

    /// A spring with the given parameters. Refused, in this order, for a
    /// stiffness that is not positive, a negative damping, and a mass that
    /// is not positive.
    pub fn new(stiffness: Fixed, damping: Fixed, mass: Fixed, velocity: Fixed) -> (r: Result<
        Spring,
        ConfigError,
    >)
        ensures
            r is Ok <==> refusal(stiffness, damping, mass) is None,
            r matches Ok(spring) ==> {
                &&& spring.stiffness_spec() == stiffness
                &&& spring.damping_spec() == damping
                &&& spring.mass_spec() == mass
                &&& spring.velocity_spec() == velocity
            },
            r matches Err(e) ==> refusal(stiffness, damping, mass) == Some(e),
    {
        if stiffness.raw <= 0 {
            Err(ConfigError::NonPositiveStiffness)
        } else if damping.raw < 0 {
            Err(ConfigError::NegativeDamping)
        } else if mass.raw <= 0 {
            Err(ConfigError::NonPositiveMass)
        } else {
            Ok(Spring { stiffness, damping, mass, velocity })
        }
    }

    /// Stiffness: the pull per unit of displacement.
    pub fn stiffness(&self) -> (r: Fixed)
        ensures
            r == self.stiffness_spec(),
            r@ > 0,
    {
        proof {
            use_type_invariant(self);
        }
        self.stiffness
    }

    /// Damping: the drag per unit of velocity.
    pub fn damping(&self) -> (r: Fixed)
        ensures
            r == self.damping_spec(),
            r@ >= 0,
    {
        proof {
            use_type_invariant(self);
        }
        self.damping
    }

    /// Mass: the inertia of the animated value.
    pub fn mass(&self) -> (r: Fixed)
        ensures
            r == self.mass_spec(),
            r@ > 0,
    {
        proof {
            use_type_invariant(self);
        }
        self.mass
    }

    /// Initial velocity, in displacements per second.
    pub fn velocity(&self) -> (r: Fixed)
        ensures
            r == self.velocity_spec(),
    {
        self.velocity
    }

    /// The velocity a value leaves `start` with on its way to `target`.
    pub fn launch<V: Animatable>(&self, start: &V, target: &V) -> (r: V)
        ensures
            r == self.launch_spec(*start, *target),
    {
        target.sub(start).scale(self.velocity)
    }

    /// One semi-implicit Euler step of `dt` seconds.
    pub fn step<V: Animatable>(&self, state: &SpringState<V>, target: &V, dt: Fixed) -> (r:
        SpringState<V>)
        ensures
            r == self.step_spec(*state, *target, dt),
    {
        proof {
            use_type_invariant(self);
            lemma_inverse_range(self.mass@);
        }
        let inverse_mass = Fixed::from_raw(1_000_000_000_000 / self.mass.raw);
        let pull = target.sub(&state.position).scale(self.stiffness);
        let drag = state.velocity.scale(self.damping);
        let acceleration = pull.sub(&drag).scale(inverse_mass);
        let velocity = state.velocity.add(&acceleration.scale(dt));
        let position = state.position.add(&velocity.scale(dt));
        SpringState { position, velocity }
    }

    /// Whether `state` is at rest on `target`, within `EPSILON`.
    pub fn is_settled<V: Animatable>(state: &SpringState<V>, target: &V) -> (r: bool)
        ensures
            r == Self::settled_spec(*state, *target),
    {
        let distance = target.sub(&state.position).magnitude();
        let speed = state.velocity.magnitude();
        distance.raw < EPSILON && speed.raw < EPSILON
    }

    /// One tick of `micros` microseconds.
    pub fn advance<V: Animatable>(&self, state: &SpringState<V>, target: &V, micros: u64) -> (r:
        SpringSample<V>)
        ensures
            r == self.advance_spec(*state, *target, micros as int),
    {
        let span: u64 = if micros > MAX_TICK {
            MAX_TICK
        } else {
            micros
        };
        let mut left: u64 = span;
        let mut current = SpringState { position: state.position, velocity: state.velocity };
        while left > SUBSTEP
            invariant
                left <= span,
                self.integrate_spec(current, *target, left as int) == self.integrate_spec(
                    *state,
                    *target,
                    span as int,
                ),
            decreases left,
        {
            current = self.step(&current, target, Fixed::from_raw(SUBSTEP as i64));
            left = left - SUBSTEP;
        }
        if left > 0 {
            current = self.step(&current, target, Fixed::from_raw(left as i64));
        }
        if Self::is_settled(&current, target) {
            SpringSample { state: SpringState { position: *target, velocity: V::zero() }, settled: true }
        } else {
            SpringSample { state: current, settled: false }
        }
    }
}

/// A tick leaves a spring either settled, exactly on its target and with
/// no velocity, or not within `EPSILON` of rest: it never ends close to
/// the target without having snapped to it.
pub proof fn lemma_tick_snaps_or_moves<V: Animatable>(
    spring: Spring,
    state: SpringState<V>,
    target: V,
    micros: int,
)
    ensures
        ({
            let sample = spring.advance_spec(state, target, micros);
            &&& sample.settled ==> sample.state.position == target && sample.state.velocity
                == V::zero_spec()
            &&& !sample.settled ==> !Spring::settled_spec(sample.state, target)
        }),
{
}

proof fn lemma_product_sign(a: int, b: int)
    requires
        b >= 0,
    ensures
        a >= 0 ==> mul_raw(a, b) >= 0,
        a <= 0 ==> mul_raw(a, b) <= 0,
{
    assert(a >= 0 ==> a * b >= 0) by (nonlinear_arith)
        requires
            b >= 0,
    ;
    assert(a <= 0 ==> a * b <= 0) by (nonlinear_arith)
        requires
            b >= 0,
    ;
    lemma_trunc_div_bounds(a * b, SCALE as int);
}

/// A number on a spring that is at rest sets out toward its target, never
/// away from it: after one step its velocity points at the target or is
/// zero, and it has come no farther from the target. How far it comes
/// depends on the step: over a step so short that the displacement is less
/// than a millionth, the number stays where it is and only gains velocity.
pub proof fn lemma_sets_out_toward_target(spring: Spring, position: Fixed, target: Fixed, dt: Fixed)
    requires
        spring.well_formed(),
        dt@ >= 0,
    ensures
        ({
            let rest = SpringState { position, velocity: fixed(0) };
            let next = spring.step_spec(rest, target, dt);
            &&& target@ >= position@ ==> next.velocity@ >= 0 && next.position@ >= position@
            &&& target@ <= position@ ==> next.velocity@ <= 0 && next.position@ <= position@
        }),
{
    let gap = sub_raw(target@, position@);
    let pull = mul_raw(gap, spring.stiffness@);
    let drag = mul_raw(0, spring.damping@);
    let force = sub_raw(pull, drag);
    let inverse = inverse_raw(spring.mass@);
    let acceleration = mul_raw(force, inverse);
    let velocity = add_raw(0, mul_raw(acceleration, dt@));
    lemma_inverse_range(spring.mass@);
    lemma_product_sign(gap, spring.stiffness@);
    lemma_product_sign(0, spring.damping@);
    lemma_product_sign(force, inverse);
    lemma_product_sign(acceleration, dt@);
    lemma_product_sign(velocity, dt@);
}

impl Default for Spring {
    /// Stiffness 100, damping 10, mass 1, no initial velocity.
    fn default() -> (r: Spring)
        ensures
            r.stiffness_spec()@ == 100 * SCALE,
            r.damping_spec()@ == 10 * SCALE,
            r.mass_spec()@ == SCALE,
            r.velocity_spec()@ == 0,
    {
        Spring {
            stiffness: Fixed { raw: 100_000_000 },
            damping: Fixed { raw: 10_000_000 },
            mass: Fixed { raw: 1_000_000 },
            velocity: Fixed { raw: 0 },
        }
    }
}

} // verus!

//! What holds of a motion handle over any sequence of ticks.
//!
//! The contracts of `animate_to` and `advance` say what one call does. The
//! statements here follow a handle through a whole trace of ticks: how long
//! a delay holds the value still, how many runs a loop mode allows, when the
//! completion callback is reported, and that a handle at rest stays at rest.

use crate::animatable::Animatable;
use crate::config::{AnimationConfig, AnimationMode, CallbackId, LoopMode};
use crate::motion::{MotionHandle, Phase};
use crate::tween::Tween;
use vstd::prelude::*;

verus! {

/// The handle after the ticks of `ticks`, in order.
pub open spec fn run<V: Animatable>(handle: MotionHandle<V>, ticks: Seq<u64>) -> MotionHandle<V>
    decreases ticks.len(),
{
    if ticks.len() == 0 {
        handle
    } else {
        run(handle, ticks.drop_last()).tick_spec(ticks.last() as int).0
    }
}

/// The callbacks that the ticks of `ticks` report, in order.
pub open spec fn fired<V: Animatable>(handle: MotionHandle<V>, ticks: Seq<u64>) -> Seq<CallbackId>
    decreases ticks.len(),
{
    if ticks.len() == 0 {
        Seq::empty()
    } else {
        let before = fired(handle, ticks.drop_last());
        match run(handle, ticks.drop_last()).tick_spec(ticks.last() as int).1 {
            Some(callback) => before.push(callback),
            None => before,
        }
    }
}

/// The number of runs of the driver that come to their end within the
/// ticks of `ticks`.
pub open spec fn ended_runs<V: Animatable>(handle: MotionHandle<V>, ticks: Seq<u64>) -> nat
    decreases ticks.len(),
{
    if ticks.len() == 0 {
        0
    } else {
        let before = ended_runs(handle, ticks.drop_last());
        if run(handle, ticks.drop_last()).tick_ends_run(ticks.last() as int) {
            before + 1
        } else {
            before
        }
    }
}

/// The time that the ticks of `ticks` add up to, in microseconds.
pub open spec fn total(ticks: Seq<u64>) -> int
    decreases ticks.len(),
{
    if ticks.len() == 0 {
        0
    } else {
        total(ticks.drop_last()) + ticks.last()
    }
}

/// The number of runs that a loop mode allows, if it allows only so many.
pub open spec fn run_limit(mode: LoopMode) -> Option<nat> {
    match mode {
        LoopMode::Once => Some(1nat),
        LoopMode::Times(n) => Some(if n == 0 { 1nat } else { n as nat }),
        LoopMode::Infinite => None,
        LoopMode::Alternate => None,
    }
}

/// What a completed animation reports: its callback, if it has one.
pub open spec fn report(config: AnimationConfig) -> Seq<CallbackId> {
    match config.on_complete {
        Some(callback) => seq![callback],
        None => Seq::empty(),
    }
}

/// Whether an animation is under way.
pub open spec fn under_way(phase: Phase) -> bool {
    phase == Phase::Delaying || phase == Phase::Running
}

/// Sending a value to a new target never makes it jump: the value
/// immediately after retargeting is the value immediately before, and it
/// is the start of the new animation.
pub proof fn lemma_retarget_is_continuous<V: Animatable>(
    handle: MotionHandle<V>,
    target: V,
    config: AnimationConfig,
)
    ensures
        handle.retarget_spec(target, config).current == handle.current,
        handle.retarget_spec(target, config).start == handle.current,
        handle.retarget_spec(target, config).target == target,
        handle.retarget_spec(target, config).config == config,
        handle.retarget_spec(target, config).loop_count == 0,
        handle.retarget_spec(target, config).elapsed == 0,
        under_way(handle.retarget_spec(target, config).phase),
{
}

/// A tick changes neither the configuration nor the keyframes: only
/// `animate_to` and its kin do.
pub proof fn lemma_tick_keeps_config<V: Animatable>(handle: MotionHandle<V>, dt: u64)
    ensures
        handle.tick_spec(dt as int).0.config == handle.config,
        handle.tick_spec(dt as int).0.track == handle.track,
{
}

/// A tick reports a callback only when it ends the animation, and then it
/// reports the configured one and leaves the value on its target with no
/// velocity.
pub proof fn lemma_report_means_completion<V: Animatable>(handle: MotionHandle<V>, dt: u64)
    ensures
        ({
            let (next, callback) = handle.tick_spec(dt as int);
            &&& callback is Some ==> handle.phase != Phase::Completed && next.phase
                == Phase::Completed
            &&& handle.phase != Phase::Completed && next.phase == Phase::Completed ==> {
                &&& callback == handle.config.on_complete
                &&& next.current == next.target
                &&& next.velocity == V::zero_spec()
                &&& handle.tick_ends_run(dt as int)
            }
        }),
{
}

/// The tick that ends the last run completes the animation, and the tick
/// that ends any other run leaves it running.
pub proof fn lemma_run_end_decides<V: Animatable>(handle: MotionHandle<V>, dt: u64)
    requires
        under_way(handle.phase),
        handle.tick_ends_run(dt as int),
    ensures
        handle.is_last_run() ==> handle.tick_spec(dt as int).0.phase == Phase::Completed
            && handle.tick_spec(dt as int).1 == handle.config.on_complete,
        !handle.is_last_run() ==> handle.tick_spec(dt as int).0.phase == Phase::Running
            && handle.tick_spec(dt as int).1 is None,
{
}

/// A handle that is idle or has completed stays as it is under any ticks,
/// and reports nothing.
pub proof fn lemma_rest_is_terminal<V: Animatable>(handle: MotionHandle<V>, ticks: Seq<u64>)
    requires
        !under_way(handle.phase),
    ensures
        run(handle, ticks) == handle,
        fired(handle, ticks) == Seq::<CallbackId>::empty(),
        ended_runs(handle, ticks) == 0,
    decreases ticks.len(),
{
    if ticks.len() > 0 {
        lemma_rest_is_terminal(handle, ticks.drop_last());
    }
}

/// While the ticks add up to less than what is left of the delay, the
/// handle keeps waiting and its value does not move.
pub proof fn lemma_delay_holds_value<V: Animatable>(handle: MotionHandle<V>, ticks: Seq<u64>)
    requires
        handle.phase == Phase::Delaying,
        handle.elapsed + total(ticks) < handle.config.delay,
    ensures
        run(handle, ticks).current == handle.current,
        run(handle, ticks).phase == Phase::Delaying,
        run(handle, ticks).elapsed == handle.elapsed + total(ticks),
        run(handle, ticks).config == handle.config,
        run(handle, ticks).track == handle.track,
        run(handle, ticks).start == handle.start,
        run(handle, ticks).target == handle.target,
        fired(handle, ticks) == Seq::<CallbackId>::empty(),
    decreases ticks.len(),
{
    if ticks.len() > 0 {
        lemma_total_nonnegative(ticks.drop_last());
        lemma_delay_holds_value(handle, ticks.drop_last());
    }
}

/// A value sent on its way with a delay stays where it was for as long
/// as the ticks add up to less than the delay.
pub proof fn lemma_delayed_start_holds_value<V: Animatable>(
    handle: MotionHandle<V>,
    target: V,
    config: AnimationConfig,
    ticks: Seq<u64>,
)
    requires
        total(ticks) < config.delay,
    ensures
        run(handle.retarget_spec(target, config), ticks).current == handle.current,
        under_way(run(handle.retarget_spec(target, config), ticks).phase),
        fired(handle.retarget_spec(target, config), ticks) == Seq::<CallbackId>::empty(),
{
    lemma_total_nonnegative(ticks);
    lemma_delay_holds_value(handle.retarget_spec(target, config), ticks);
}

pub proof fn lemma_total_nonnegative(ticks: Seq<u64>)
    ensures
        total(ticks) >= 0,
    decreases ticks.len(),
{
    if ticks.len() > 0 {
        lemma_total_nonnegative(ticks.drop_last());
    }
}

/// The tick in which the delay runs out starts the driver, with the time
/// that the tick has left over.
pub proof fn lemma_delay_ends<V: Animatable>(handle: MotionHandle<V>, dt: u64)
    requires
        handle.phase == Phase::Delaying,
        handle.elapsed + dt >= handle.config.delay,
    ensures
        handle.tick_spec(dt as int) == (MotionHandle {
            phase: Phase::Running,
            elapsed: 0,
            ..handle
        }).drive_spec(dt - handle.delay_left()),
        handle.tick_spec(dt as int).0.phase != Phase::Delaying,
{
}

/// Once the delay has run out a tween moves the value: after ticks that
/// reach past the delay, the value is the value that the tween, or the
/// keyframes played by it, gives for the time by which they reach past it.
pub proof fn lemma_delay_then_tween<V: Animatable>(
    handle: MotionHandle<V>,
    tween: Tween,
    ticks: Seq<u64>,
)
    requires
        handle.phase == Phase::Delaying,
        handle.config.driver == AnimationMode::Tween(tween),
        ticks.len() > 0,
        total(ticks) >= handle.delay_left(),
        total(ticks) - handle.delay_left() < tween.duration,
    ensures
        run(handle, ticks).phase == Phase::Running,
        run(handle, ticks).elapsed == total(ticks) - handle.delay_left(),
        run(handle, ticks).current == handle.sample_spec(
            tween,
            total(ticks) - handle.delay_left(),
        ),
        run(handle, ticks).config == handle.config,
        run(handle, ticks).track == handle.track,
        run(handle, ticks).start == handle.start,
        run(handle, ticks).target == handle.target,
        fired(handle, ticks) == Seq::<CallbackId>::empty(),
    decreases ticks.len(),
{
    let earlier = ticks.drop_last();
    lemma_total_nonnegative(earlier);
    if earlier.len() > 0 && total(earlier) >= handle.delay_left() {
        lemma_delay_then_tween(handle, tween, earlier);
    } else if total(earlier) < handle.delay_left() {
        lemma_delay_holds_value(handle, earlier);
    } else {
        assert(run(handle, earlier) == handle);
        assert(fired(handle, earlier) == Seq::<CallbackId>::empty());
    }
}

/// A tween does not depend on the frame rate: while a run lasts, the value
/// after any ticks is the value that the tween, or the keyframes played
/// by it, gives for the time the ticks add up to, however that time was
/// cut into ticks.
pub proof fn lemma_tween_follows_total_time<V: Animatable>(
    handle: MotionHandle<V>,
    tween: Tween,
    ticks: Seq<u64>,
)
    requires
        handle.phase == Phase::Running,
        handle.config.driver == AnimationMode::Tween(tween),
        handle.elapsed + total(ticks) < tween.duration,
    ensures
        run(handle, ticks).phase == Phase::Running,
        run(handle, ticks).elapsed == handle.elapsed + total(ticks),
        run(handle, ticks).config == handle.config,
        run(handle, ticks).track == handle.track,
        run(handle, ticks).start == handle.start,
        run(handle, ticks).target == handle.target,
        ticks.len() > 0 ==> run(handle, ticks).current == handle.sample_spec(
            tween,
            handle.elapsed + total(ticks),
        ),
        fired(handle, ticks) == Seq::<CallbackId>::empty(),
    decreases ticks.len(),
{
    if ticks.len() > 0 {
        lemma_total_nonnegative(ticks.drop_last());
        lemma_tween_follows_total_time(handle, tween, ticks.drop_last());
    }
}

/// Under a loop mode that allows `limit` runs, an animation completes in
/// the tick that ends its last run, not before and not again: after any
/// ticks, fewer than `limit` runs have ended and the animation is under
/// way with nothing reported, or exactly `limit` have ended, the
/// animation has completed and its callback has been reported once.
/// Under `Times` the loop count is the number of runs that have ended, the
/// last one included; under `Once` it stays zero.
pub proof fn lemma_bounded_loop<V: Animatable>(handle: MotionHandle<V>, ticks: Seq<u64>)
    requires
        under_way(handle.phase),
        handle.loop_count == 0,
        run_limit(handle.config.loop_mode) is Some,
    ensures
        ({
            let limit = run_limit(handle.config.loop_mode)->0;
            let ended = ended_runs(handle, ticks);
            let end = run(handle, ticks);
            &&& ended <= limit
            &&& end.config == handle.config
            &&& handle.config.loop_mode is Times ==> end.loop_count == ended
            &&& handle.config.loop_mode is Once ==> end.loop_count == 0
            &&& ended < limit ==> {
                &&& under_way(end.phase)
                &&& fired(handle, ticks) == Seq::<CallbackId>::empty()
            }
            &&& ended == limit ==> {
                &&& end.phase == Phase::Completed
                &&& end.current == end.target
                &&& fired(handle, ticks) == report(handle.config)
            }
        }),
    decreases ticks.len(),
{
    if ticks.len() > 0 {
        let before = run(handle, ticks.drop_last());
        lemma_bounded_loop(handle, ticks.drop_last());
        lemma_tick_keeps_config(before, ticks.last());
        lemma_report_means_completion(before, ticks.last());
        if !under_way(before.phase) {
            assert(before.tick_spec(ticks.last() as int).0 == before);
        }
    }
}

/// Under `Infinite` and `Alternate` an animation never completes and never
/// reports, however many runs end.
pub proof fn lemma_unbounded_loop<V: Animatable>(handle: MotionHandle<V>, ticks: Seq<u64>)
    requires
        under_way(handle.phase),
        run_limit(handle.config.loop_mode) is None,
    ensures
        under_way(run(handle, ticks).phase),
        run(handle, ticks).config == handle.config,
        fired(handle, ticks) == Seq::<CallbackId>::empty(),
    decreases ticks.len(),
{
    if ticks.len() > 0 {
        lemma_unbounded_loop(handle, ticks.drop_last());
        lemma_tick_keeps_config(run(handle, ticks.drop_last()), ticks.last());
    }
}

/// Under `Alternate` the tick that ends a run exchanges start and target
/// and leaves the value where the run ended, so that the next run leads
/// back.
pub proof fn lemma_alternate_turns_round<V: Animatable>(handle: MotionHandle<V>, dt: u64)
    requires
        handle.phase == Phase::Running,
        handle.config.loop_mode == LoopMode::Alternate,
        handle.tick_ends_run(dt as int),
    ensures
        handle.tick_spec(dt as int).0.start == handle.target,
        handle.tick_spec(dt as int).0.target == handle.start,
        handle.tick_spec(dt as int).0.current == handle.target,
        handle.tick_spec(dt as int).0.phase == Phase::Running,
        handle.tick_spec(dt as int).0.elapsed == 0,
        handle.tick_spec(dt as int).1 is None,
{
}

/// Under `Alternate` the ends between which the value moves are the ones
/// it set out with, the right way round after an even number of ended
/// runs and exchanged after an odd one.
pub proof fn lemma_alternate_ends<V: Animatable>(handle: MotionHandle<V>, ticks: Seq<u64>)
    requires
        under_way(handle.phase),
        handle.config.loop_mode == LoopMode::Alternate,
    ensures
        ended_runs(handle, ticks) % 2 == 0 ==> run(handle, ticks).start == handle.start && run(
            handle,
            ticks,
        ).target == handle.target,
        ended_runs(handle, ticks) % 2 == 1 ==> run(handle, ticks).start == handle.target && run(
            handle,
            ticks,
        ).target == handle.start,
    decreases ticks.len(),
{
    if ticks.len() > 0 {
        lemma_alternate_ends(handle, ticks.drop_last());
        lemma_unbounded_loop(handle, ticks.drop_last());
        lemma_tick_keeps_config(run(handle, ticks.drop_last()), ticks.last());
    }
}

/// Under `Times` every run that ends is counted, the last one as well as
/// the ones before it.
pub proof fn lemma_times_counts_every_run<V: Animatable>(handle: MotionHandle<V>, dt: u64)
    requires
        under_way(handle.phase),
        handle.config.loop_mode is Times,
        handle.loop_count < u32::MAX,
        handle.tick_ends_run(dt as int),
    ensures
        handle.tick_spec(dt as int).0.loop_count == handle.loop_count + 1,
{
}

/// Under `Times` and `Infinite` the tick that ends a run which is not the
/// last puts the value back on the start of that run.
pub proof fn lemma_repeat_starts_over<V: Animatable>(handle: MotionHandle<V>, dt: u64)
    requires
        handle.phase == Phase::Running,
        handle.config.loop_mode is Times || handle.config.loop_mode is Infinite,
        handle.tick_ends_run(dt as int),
        !handle.is_last_run(),
    ensures
        handle.tick_spec(dt as int).0.start == handle.start,
        handle.tick_spec(dt as int).0.target == handle.target,
        handle.tick_spec(dt as int).0.current == handle.start,
        handle.tick_spec(dt as int).0.phase == Phase::Running,
        handle.tick_spec(dt as int).0.elapsed == 0,
        handle.tick_spec(dt as int).1 is None,
{
}

} // verus!

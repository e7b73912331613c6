//! What holds of the engine on every input.

use vstd::prelude::*;
use crate::config::{ConfigSpec, ThresholdsConfig, TimingsConfig};
use crate::cycle::{CycleState, Event, Request};
use crate::lock::{EngineState, LockOutcome, UnlockOutcome};
use crate::model::{cycle, nth_cycle, run, CycleInput};
use crate::signal::{all_weak, any_connected, any_in_range, Reading, Signals};

verus! {

/// Silence is not weakness: in a cycle in which no device answered, the
/// devices do not count as all weak, whatever the thresholds are.
pub proof fn lemma_silence_is_not_weak(
    readings: Seq<Reading>,
    thresholds: ThresholdsConfig,
    locked: bool,
)
    requires
        !any_connected(readings),
    ensures
        !Signals::of(readings, thresholds, locked).any_device_connected,
        !Signals::of(readings, thresholds, locked).all_devices_weak,
{
}

/// One strong device is enough: if any connected device reads at or above
/// the lock threshold, the devices do not count as all weak.
pub proof fn lemma_strong_device_is_not_weak(
    readings: Seq<Reading>,
    thresholds: ThresholdsConfig,
    locked: bool,
    i: int,
)
    requires
        0 <= i < readings.len(),
        readings[i] matches Reading::Present(rssi) && rssi >= thresholds.lock_threshold,
    ensures
        !Signals::of(readings, thresholds, locked).all_devices_weak,
{
    assert(readings[i].prevents_lock(thresholds.lock_threshold));
}

/// While the engine believes the screen unlocked, no device is in range,
/// whatever it reads.
pub proof fn lemma_nothing_in_range_while_unlocked(
    readings: Seq<Reading>,
    thresholds: ThresholdsConfig,
)
    ensures
        !Signals::of(readings, thresholds, false).any_device_in_range,
{
}

/// The devices of a cycle are all weak, and the actuator finds the screen
/// unlocked: the condition that feeds the lock timer.
pub open spec fn weak_and_unlocked(input: CycleInput, thresholds: ThresholdsConfig) -> bool {
    all_weak(input.readings, thresholds.lock_threshold) && !input.locked
}

/// A device of a cycle reads above the unlock threshold, and the actuator
/// finds the screen locked: the condition that, on an engine that believes
/// the screen locked, feeds the unlock timer.
pub open spec fn in_range_and_locked(input: CycleInput, thresholds: ThresholdsConfig) -> bool {
    any_in_range(input.readings, thresholds.unlock_threshold, true) && input.locked
}

/// The lock timer knows two moves. In a cycle in which the devices are not
/// all weak, or the screen is locked, it is reset to zero, and no lock
/// command is run. In any other cycle it grows by exactly the poll
/// interval; it ends the cycle at that value unless the lock command was
/// run and started the locker, which resets it.
pub proof fn lemma_lock_timer_resets_or_advances(
    engine: EngineState,
    thresholds: ThresholdsConfig,
    timings: TimingsConfig,
    input: CycleInput,
)
    ensures
        ({
            let c = cycle(engine, thresholds, timings, input);
            if weak_and_unlocked(input, thresholds) {
                &&& c.timed.lock_timer == engine.lock_timer + timings.poll_interval
                &&& c.engine.lock_timer == if c.lock_invoked && input.lock_outcome is Started {
                    0
                } else {
                    c.timed.lock_timer
                }
            } else {
                &&& c.timed.lock_timer == 0
                &&& c.engine.lock_timer == 0
                &&& !c.lock_invoked
            }
        }),
{
}

/// The unlock timer knows the same two moves. In a cycle in which the
/// engine finds no device in range, or the screen is unlocked, it is reset
/// to zero, and no unlock sequence is run. In any other cycle it grows by
/// exactly the poll interval; it ends the cycle at that value unless the
/// unlock sequence was run and did its work, which resets it.
pub proof fn lemma_unlock_timer_resets_or_advances(
    engine: EngineState,
    thresholds: ThresholdsConfig,
    timings: TimingsConfig,
    input: CycleInput,
)
    ensures
        ({
            let c = cycle(engine, thresholds, timings, input);
            if engine.locked && in_range_and_locked(input, thresholds) {
                &&& c.timed.unlock_timer == engine.unlock_timer + timings.poll_interval
                &&& !c.lock_invoked
                &&& c.engine.unlock_timer == if c.unlock_invoked && input.unlock_outcome.succeeded() {
                    0
                } else {
                    c.timed.unlock_timer
                }
            } else {
                &&& c.timed.unlock_timer == 0
                &&& c.engine.unlock_timer == 0
            }
        }),
{
}

/// A cycle runs the lock command exactly if the devices are all weak, the
/// screen is unlocked, and the lock timer, this cycle counted in, has
/// reached the lock hold.
pub proof fn lemma_lock_invoked_iff_due(
    engine: EngineState,
    thresholds: ThresholdsConfig,
    timings: TimingsConfig,
    input: CycleInput,
)
    ensures
        cycle(engine, thresholds, timings, input).lock_invoked <==> weak_and_unlocked(
            input,
            thresholds,
        ) && engine.lock_timer + timings.poll_interval >= timings.lock_hold_seconds,
{
}

/// A cycle that does not run the lock command runs the unlock sequence
/// exactly if the engine believed the screen locked, a device is in range,
/// the actuator finds the screen locked, and the unlock timer, this cycle
/// counted in, has reached the unlock hold.
pub proof fn lemma_unlock_invoked_iff_due(
    engine: EngineState,
    thresholds: ThresholdsConfig,
    timings: TimingsConfig,
    input: CycleInput,
)
    requires
        !cycle(engine, thresholds, timings, input).lock_invoked,
    ensures
        cycle(engine, thresholds, timings, input).unlock_invoked <==> engine.locked
            && in_range_and_locked(input, thresholds) && engine.unlock_timer
            + timings.poll_interval >= timings.unlock_hold_seconds,
{
}

proof fn lemma_take_last<A>(s: Seq<A>, k: int)
    requires
        0 < k <= s.len(),
    ensures
        s.take(k).drop_last() == s.take(k - 1),
        s.take(k).last() == s[k - 1],
{
}

proof fn lemma_quiet_streak_of_weak_cycles(
    engine: EngineState,
    thresholds: ThresholdsConfig,
    timings: TimingsConfig,
    inputs: Seq<CycleInput>,
    k: int,
)
    requires
        0 <= k <= inputs.len(),
        forall|j: int| 0 <= j < k ==> weak_and_unlocked(#[trigger] inputs[j], thresholds),
        k > 0 ==> engine.lock_timer + k * timings.poll_interval < timings.lock_hold_seconds,
    ensures
        run(engine, thresholds, timings, inputs.take(k)).lock_timer == engine.lock_timer + k
            * timings.poll_interval,
        forall|j: int| 0 <= j < k ==> !(#[trigger] nth_cycle(engine, thresholds, timings, inputs, j)).lock_invoked,
    decreases k,
{
    let p = timings.poll_interval as int;
    if k > 0 {
        assert((k - 1) * p <= k * p) by (nonlinear_arith)
            requires
                0 <= p,
        ;
        assert(k * p == (k - 1) * p + p) by (nonlinear_arith);
        lemma_quiet_streak_of_weak_cycles(engine, thresholds, timings, inputs, k - 1);
        lemma_take_last(inputs, k);
        assert(!nth_cycle(engine, thresholds, timings, inputs, k - 1).lock_invoked);
    } else {
        assert(0 * p == 0) by (nonlinear_arith);
    }
}

/// The lock command is run when the lock hold is reached: never before,
/// and no later. Take a run of cycles whose first `k + 1` all find the
/// devices weak and the screen unlocked, so that the lock timer grows from
/// cycle to cycle, and let cycle `k` be one before which the timer is still
/// short of the lock hold. Then no cycle before `k` runs the lock command,
/// and cycle `k` runs it exactly if the timer, which by then stands at the
/// value it started the run with plus `k + 1` poll intervals, has reached
/// the hold.
pub proof fn lemma_lock_fires_when_hold_is_reached(
    engine: EngineState,
    thresholds: ThresholdsConfig,
    timings: TimingsConfig,
    inputs: Seq<CycleInput>,
    k: int,
)
    requires
        0 <= k < inputs.len(),
        forall|j: int| 0 <= j <= k ==> weak_and_unlocked(#[trigger] inputs[j], thresholds),
        k > 0 ==> engine.lock_timer + k * timings.poll_interval < timings.lock_hold_seconds,
    ensures
        forall|j: int| 0 <= j < k ==> !(#[trigger] nth_cycle(engine, thresholds, timings, inputs, j)).lock_invoked,
        nth_cycle(engine, thresholds, timings, inputs, k).timed.lock_timer == engine.lock_timer + (k
            + 1) * timings.poll_interval,
        nth_cycle(engine, thresholds, timings, inputs, k).lock_invoked <==> engine.lock_timer + (k
            + 1) * timings.poll_interval >= timings.lock_hold_seconds,
{
    let p = timings.poll_interval as int;
    lemma_quiet_streak_of_weak_cycles(engine, thresholds, timings, inputs, k);
    assert((k + 1) * p == k * p + p) by (nonlinear_arith);
}

proof fn lemma_quiet_streak_of_cycles_in_range(
    engine: EngineState,
    thresholds: ThresholdsConfig,
    timings: TimingsConfig,
    inputs: Seq<CycleInput>,
    k: int,
)
    requires
        0 <= k <= inputs.len(),
        engine.locked,
        forall|j: int| 0 <= j < k ==> in_range_and_locked(#[trigger] inputs[j], thresholds),
        k > 0 ==> engine.unlock_timer + k * timings.poll_interval < timings.unlock_hold_seconds,
    ensures
        run(engine, thresholds, timings, inputs.take(k)).locked,
        run(engine, thresholds, timings, inputs.take(k)).unlock_timer == engine.unlock_timer + k
            * timings.poll_interval,
        forall|j: int|
            0 <= j < k ==> {
                &&& !(#[trigger] nth_cycle(engine, thresholds, timings, inputs, j)).lock_invoked
                &&& !nth_cycle(engine, thresholds, timings, inputs, j).unlock_invoked
            },
    decreases k,
{
    let p = timings.poll_interval as int;
    if k > 0 {
        assert((k - 1) * p <= k * p) by (nonlinear_arith)
            requires
                0 <= p,
        ;
        assert(k * p == (k - 1) * p + p) by (nonlinear_arith);
        lemma_quiet_streak_of_cycles_in_range(engine, thresholds, timings, inputs, k - 1);
        lemma_take_last(inputs, k);
        assert(!nth_cycle(engine, thresholds, timings, inputs, k - 1).unlock_invoked);
    } else {
        assert(0 * p == 0) by (nonlinear_arith);
    }
}

/// The unlock sequence is run when the unlock hold is reached: never
/// before, and no later. Take an engine that believes the screen locked
/// and a run of cycles whose first `k + 1` all find a device in range and
/// the screen locked, and let cycle `k` be one before which the unlock
/// timer is still short of the unlock hold. Then no cycle before `k` runs
/// the unlock sequence, none up to `k` runs the lock command, and cycle `k`
/// runs the unlock sequence exactly if the timer, which by then stands at
/// the value it started the run with plus `k + 1` poll intervals, has
/// reached the hold.
pub proof fn lemma_unlock_fires_when_hold_is_reached(
    engine: EngineState,
    thresholds: ThresholdsConfig,
    timings: TimingsConfig,
    inputs: Seq<CycleInput>,
    k: int,
)
    requires
        0 <= k < inputs.len(),
        engine.locked,
        forall|j: int| 0 <= j <= k ==> in_range_and_locked(#[trigger] inputs[j], thresholds),
        k > 0 ==> engine.unlock_timer + k * timings.poll_interval < timings.unlock_hold_seconds,
    ensures
        forall|j: int|
            0 <= j < k ==> !(#[trigger] nth_cycle(engine, thresholds, timings, inputs, j)).unlock_invoked,
        forall|j: int|
            0 <= j <= k ==> !(#[trigger] nth_cycle(engine, thresholds, timings, inputs, j)).lock_invoked,
        nth_cycle(engine, thresholds, timings, inputs, k).timed.unlock_timer == engine.unlock_timer
            + (k + 1) * timings.poll_interval,
        nth_cycle(engine, thresholds, timings, inputs, k).unlock_invoked <==> engine.unlock_timer
            + (k + 1) * timings.poll_interval >= timings.unlock_hold_seconds,
{
    let p = timings.poll_interval as int;
    lemma_quiet_streak_of_cycles_in_range(engine, thresholds, timings, inputs, k);
    assert((k + 1) * p == k * p + p) by (nonlinear_arith);
}

/// The lock action changes nothing on a locked screen, and once it has
/// locked the screen, doing it again changes nothing more.
pub proof fn lemma_lock_is_idempotent(engine: EngineState, first: LockOutcome, second: LockOutcome)
    ensures
        engine.locked ==> engine.after_lock(first) == engine,
        first is Started ==> engine.after_lock(first).after_lock(second) == engine.after_lock(first),
        engine.after_lock(first).locked == (engine.locked || first is Started),
{
}

/// The unlock action changes nothing on an unlocked screen, and once it
/// has unlocked the screen, doing it again changes nothing more.
pub proof fn lemma_unlock_is_idempotent(
    engine: EngineState,
    first: UnlockOutcome,
    second: UnlockOutcome,
)
    ensures
        !engine.locked ==> engine.after_unlock(first) == engine,
        first.succeeded() ==> engine.after_unlock(first).after_unlock(second) == engine.after_unlock(
            first,
        ),
        engine.after_unlock(first).locked == (engine.locked && !first.succeeded()),
{
}

/// A failed command leaves the engine as it was, timers included: a lock
/// command that could not be started, and an unlock sequence of which a
/// command could not be run or ran and reported a failure.
pub proof fn lemma_failure_keeps_state(engine: EngineState, outcome: UnlockOutcome)
    requires
        !outcome.succeeded(),
    ensures
        outcome is SignalFailed || outcome is DisplayFailed || outcome is DisplayRefused,
        outcome.error() is Some,
        engine.after_lock(LockOutcome::SpawnFailed) == engine,
        engine.after_unlock(outcome) == engine,
{
}

/// A cycle whose command fails ends as it stood after the timer update:
/// the lock state and both timers are kept, so that the next cycle finds
/// the action still due. After a failed lock command the cycle runs no
/// unlock sequence.
pub proof fn lemma_failed_command_keeps_the_cycle(
    engine: EngineState,
    thresholds: ThresholdsConfig,
    timings: TimingsConfig,
    input: CycleInput,
)
    ensures
        ({
            let c = cycle(engine, thresholds, timings, input);
            &&& c.lock_invoked && input.lock_outcome is SpawnFailed ==> c.engine == c.timed
                && !c.unlock_invoked
            &&& !c.lock_invoked && c.unlock_invoked && !input.unlock_outcome.succeeded()
                ==> c.engine == c.timed
            &&& !c.lock_invoked && !c.unlock_invoked ==> c.engine == c.timed
        }),
{
}

/// A timer whose condition fails is reset, whatever it stood at, whatever
/// the poll interval is, and whatever the other timer does.
pub proof fn lemma_timers_reset(
    engine: EngineState,
    locked: bool,
    all_devices_weak: bool,
    any_device_in_range: bool,
    poll_interval: nat,
)
    ensures
        !(all_devices_weak && !locked) ==> engine.resync(locked).tick(
            all_devices_weak,
            any_device_in_range,
            poll_interval,
        ).lock_timer == 0,
        !(any_device_in_range && locked) ==> engine.resync(locked).tick(
            all_devices_weak,
            any_device_in_range,
            poll_interval,
        ).unlock_timer == 0,
        engine.resync(locked).tick(all_devices_weak, any_device_in_range, poll_interval).locked
            == locked,
{
}

/// The engine never asks for a command that has nothing to do: whatever
/// event comes in, it asks for the lock command only while it holds the
/// screen unlocked, and for the unlock sequence only while it holds the
/// screen locked; and a reading is only ever asked of an enabled device.
pub proof fn lemma_step_keeps_requests_justified(state: CycleState, event: Event)
    requires
        state.wf(),
    ensures
        state.step(event).wf(),
        state.step(event).pending is Lock ==> !state.step(event).engine.locked,
        state.step(event).pending is Unlock ==> state.step(event).engine.locked,
        state.step(event).config == state.config,
{
    match (state.pending, event) {
        (Request::Sleep, Event::Wake) => {
            state.config.lemma_next_enabled(0);
        },
        (Request::ReadSignal(i), Event::Signal(_)) => {
            state.config.lemma_next_enabled(i + 1);
        },
        _ => {},
    }
}

/// The state after the readings of a cycle have come in, one after the
/// other.
pub open spec fn feed(state: CycleState, readings: Seq<Reading>) -> CycleState
    decreases readings.len(),
{
    if readings.len() == 0 {
        state
    } else {
        feed(state.step(Event::Signal(readings[0])), readings.drop_first())
    }
}

proof fn lemma_enabled_from_next(config: ConfigSpec, from: int)
    requires
        0 <= from,
    ensures
        config.enabled_from(from) == config.enabled_from(config.next_enabled(from)),
        config.next_enabled(from) < config.devices.len() ==> config.enabled_from(from).len() > 0,
    decreases config.devices.len() - from,
{
    if from < config.devices.len() && !config.devices[from].enabled {
        lemma_enabled_from_next(config, from + 1);
    }
}

proof fn lemma_sampling(state: CycleState, from: int, rest: Seq<Reading>)
    requires
        0 <= from,
        state.config.devices.len() <= usize::MAX,
        rest.len() == state.config.enabled_from(from).len(),
    ensures
        feed(state.sample_from(from), rest) == (CycleState {
            pending: Request::QueryLockState,
            readings: state.readings + rest,
            signals: Signals::of(state.readings + rest, state.config.thresholds, state.engine.locked),
            ..state
        }),
    decreases rest.len(),
{
    let config = state.config;
    let next = config.next_enabled(from);
    config.lemma_next_enabled(from);
    lemma_enabled_from_next(config, from);
    if next < config.devices.len() {
        let asked = state.sample_from(from);
        let heard = CycleState { readings: state.readings.push(rest[0]), ..state };
        assert(asked.step(Event::Signal(rest[0])) == heard.sample_from(next + 1));
        assert(config.enabled_from(next) == seq![next] + config.enabled_from(next + 1));
        lemma_sampling(heard, next + 1, rest.drop_first());
        assert(heard.readings + rest.drop_first() == state.readings + rest);
    } else {
        assert(config.enabled_from(next) == Seq::<int>::empty());
        assert(state.readings + rest == state.readings);
    }
}

/// The state machine runs the cycle. From a pause, let the engine be woken,
/// be given the readings of the enabled devices in their order, then the
/// actuator's word, then the outcome of the lock command and that of the
/// unlock sequence, each of which it passes over unless it asked for it.
/// Then it is back at a pause, it asked for the lock command and for the
/// unlock sequence exactly where the cycle runs them, and its lock state
/// and timers are those the cycle ends with.
pub proof fn lemma_machine_runs_the_cycle(state: CycleState, input: CycleInput)
    requires
        state.wf(),
        state.pending is Sleep,
        input.readings.len() == state.config.enabled_from(0).len(),
    ensures
        ({
            let sampled = feed(state.step(Event::Wake), input.readings);
            let synced = sampled.step(Event::LockState(input.locked));
            let locked = synced.step(Event::LockResult(input.lock_outcome));
            let done = locked.step(Event::UnlockResult(input.unlock_outcome));
            let c = cycle(state.engine, state.config.thresholds, state.config.timings, input);
            &&& sampled.pending is QueryLockState
            &&& sampled.readings == input.readings
            &&& sampled.signals == c.signals
            &&& synced.engine == c.timed
            &&& synced.pending is Lock <==> c.lock_invoked
            &&& locked.pending is Unlock <==> c.unlock_invoked
            &&& done.pending is Sleep
            &&& done.engine == c.engine
            &&& done.config == state.config
        }),
{
    let fresh = CycleState { readings: Seq::empty(), ..state };
    lemma_sampling(fresh, 0, input.readings);
    assert(fresh.readings + input.readings == input.readings);
}

} // verus!

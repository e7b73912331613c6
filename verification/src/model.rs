//! A whole polling cycle, and a run of cycles, as mathematical functions.

use vstd::prelude::*;
use crate::config::{ThresholdsConfig, TimingsConfig};
use crate::lock::{EngineState, LockOutcome, UnlockOutcome};
use crate::signal::{Reading, Signals};

verus! {

/// All that the world contributes to one cycle.
pub struct CycleInput {
    /// The readings of the enabled devices, one each, in their order.
    pub readings: Seq<Reading>,
    /// Whether the actuator finds the screen locked.
    pub locked: bool,
    /// How the lock command ends, should the cycle run it.
    pub lock_outcome: LockOutcome,
    /// How the unlock sequence ends, should the cycle run it.
    pub unlock_outcome: UnlockOutcome,
}

/// What one cycle comes to.
pub struct CycleOutcome {
    /// What the readings amounted to.
    pub signals: Signals,
    /// The engine after the timer update, before any action.
    pub timed: EngineState,
    /// The cycle ran the lock command.
    pub lock_invoked: bool,
    /// The cycle ran the unlock sequence.
    pub unlock_invoked: bool,
    /// The engine at the end of the cycle.
    pub engine: EngineState,
}

/// One cycle, step by step: aggregate the readings against the lock state
/// that the engine still holds from the cycle before; take over the
/// actuator's word; update the timers; run the lock action if it is due;
/// then, on the state that this leaves, run the unlock action if it is due.
pub open spec fn cycle(
    engine: EngineState,
    thresholds: ThresholdsConfig,
    timings: TimingsConfig,
    input: CycleInput,
) -> CycleOutcome {
    let signals = Signals::of(input.readings, thresholds, engine.locked);
    let timed = engine.resync(input.locked).tick(
        signals.all_devices_weak,
        signals.any_device_in_range,
        timings.poll_interval as nat,
    );
    let lock_invoked = timed.lock_due(signals.all_devices_weak, timings.lock_hold_seconds as nat);
    let after_lock = if lock_invoked {
        timed.after_lock(input.lock_outcome)
    } else {
        timed
    };
    let unlock_invoked = after_lock.unlock_due(
        signals.any_device_in_range,
        timings.unlock_hold_seconds as nat,
    );
    let engine = if unlock_invoked {
        after_lock.after_unlock(input.unlock_outcome)
    } else {
        after_lock
    };
    CycleOutcome { signals, timed, lock_invoked, unlock_invoked, engine }
}

/// The engine after a run of cycles, one for each input, in order.
pub open spec fn run(
    engine: EngineState,
    thresholds: ThresholdsConfig,
    timings: TimingsConfig,
    inputs: Seq<CycleInput>,
) -> EngineState
    decreases inputs.len(),
{
    if inputs.len() == 0 {
        engine
    } else {
        cycle(run(engine, thresholds, timings, inputs.drop_last()), thresholds, timings, inputs.last()).engine
    }
}

/// What cycle number `k` of a run comes to, counting from zero.
pub open spec fn nth_cycle(
    engine: EngineState,
    thresholds: ThresholdsConfig,
    timings: TimingsConfig,
    inputs: Seq<CycleInput>,
    k: int,
) -> CycleOutcome
    recommends
        0 <= k < inputs.len(),
{
    cycle(run(engine, thresholds, timings, inputs.take(k)), thresholds, timings, inputs[k])
}

} // verus!

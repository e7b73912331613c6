//! The lock state and its two hysteresis timers.

use vstd::prelude::*;

verus! {

/// The mathematical state of the engine: what it believes of the screen,
/// and how long each sustaining condition has held.
pub struct EngineState {
    /// The screen is locked, as far as the engine knows.
    pub locked: bool,
    /// How long all devices have been weak while the screen was unlocked.
    pub lock_timer: nat,
    /// How long a device has been in range while the screen was locked.
    pub unlock_timer: nat,
}

impl EngineState {
    /// The state of a fresh engine that found the screen `locked`.
    pub open spec fn initial(locked: bool) -> EngineState {
        EngineState { locked, lock_timer: 0, unlock_timer: 0 }
    }

    /// Taking over the actuator's word on whether the screen is locked.
    pub open spec fn resync(self, locked: bool) -> EngineState {
        EngineState { locked, ..self }
    }

    /// The weak-and-unlocked condition that feeds the lock timer.
    pub open spec fn lock_condition(self, all_devices_weak: bool) -> bool {
        all_devices_weak && !self.locked
    }

    /// The in-range-and-locked condition that feeds the unlock timer.
    pub open spec fn unlock_condition(self, any_device_in_range: bool) -> bool {
        any_device_in_range && self.locked
    }

    /// One cycle's timer update: each timer grows by the poll interval while
    /// its condition holds and falls back to zero the moment it does not.
    pub open spec fn tick(
        self,
        all_devices_weak: bool,
        any_device_in_range: bool,
        poll_interval: nat,
    ) -> EngineState {
        EngineState {
            locked: self.locked,
            lock_timer: if self.lock_condition(all_devices_weak) {
                self.lock_timer + poll_interval
            } else {
                0
            },
            unlock_timer: if self.unlock_condition(any_device_in_range) {
                self.unlock_timer + poll_interval
            } else {
                0
            },
        }
    }

    /// The lock action is due: the lock condition holds and has held for
    /// at least `lock_hold`.
    pub open spec fn lock_due(self, all_devices_weak: bool, lock_hold: nat) -> bool {
        self.lock_condition(all_devices_weak) && self.lock_timer >= lock_hold
    }

    /// The unlock action is due: the unlock condition holds and has held for
    /// at least `unlock_hold`.
    pub open spec fn unlock_due(self, any_device_in_range: bool, unlock_hold: nat) -> bool {
        self.unlock_condition(any_device_in_range) && self.unlock_timer >= unlock_hold
    }

    /// The state after a lock command that did its work.
    pub open spec fn locked_now(self) -> EngineState {
        EngineState { locked: true, lock_timer: 0, ..self }
    }

    /// The state after an unlock sequence that did its work.
    pub open spec fn unlocked_now(self) -> EngineState {
        EngineState { locked: false, unlock_timer: 0, ..self }
    }

    /// The state after the lock action with the given outcome of the lock
    /// command. On a locked screen the action does nothing, whatever the
    /// outcome says; a failed command leaves the state as it was.
    pub open spec fn after_lock(self, outcome: LockOutcome) -> EngineState {
        if !self.locked && outcome is Started {
            self.locked_now()
        } else {
            self
        }
    }

    /// The state after the unlock action with the given outcome of the
    /// unlock sequence. On an unlocked screen the action does nothing; a
    /// sequence in which a command failed, be it to start or by its status,
    /// leaves the state as it was.
    pub open spec fn after_unlock(self, outcome: UnlockOutcome) -> EngineState {
        if self.locked && outcome.succeeded() {
            self.unlocked_now()
        } else {
            self
        }
    }
}

/// How running the lock command ended.
#[derive(Clone, Copy, Debug, PartialEq, Eq, Structural)]
pub enum LockOutcome {
    /// The locker was started.
    Started,
    /// The locker could not be started.
    SpawnFailed,
}

/// How the unlock sequence ended: signal the locker, wait, switch the
/// display on.
#[derive(Clone, Copy, Debug, PartialEq, Eq, Structural)]
pub enum UnlockOutcome {
    /// The locker was signalled and the display switched on.
    Done,
    /// The locker was signalled and the display command ran, but reported
    /// a failure.
    DisplayRefused,
    /// The unlock signal could not be sent.
    SignalFailed,
    /// The locker was signalled, but the display command could not be run.
    DisplayFailed,
}

impl UnlockOutcome {
    /// Every command of the sequence ran and reported success. Nothing
    /// less makes the screen count as unlocked.
    pub open spec fn succeeded(self) -> bool {
        self is Done
    }

    /// The error that the sequence ends in, if a command of it failed.
    pub open spec fn error(self) -> Option<ActuatorError> {
        match self {
            UnlockOutcome::Done => None,
            UnlockOutcome::DisplayRefused => Some(ActuatorError::DisplayRefused),
            UnlockOutcome::SignalFailed => Some(ActuatorError::UnlockSignal),
            UnlockOutcome::DisplayFailed => Some(ActuatorError::DisplayCommand),
        }
    }
}

/// An actuator command that failed. The state of the engine is as it was
/// before the action.
#[derive(Clone, Copy, Debug, PartialEq, Eq, Structural)]
pub enum ActuatorError {
    /// The locker could not be started.
    Lock,
    /// The unlock signal could not be sent to the locker.
    UnlockSignal,
    /// The command that switches the display on could not be run.
    DisplayCommand,
    /// The command that switches the display on ran and reported a failure.
    DisplayRefused,
}

/// The engine's lock state and hysteresis timers.
#[derive(Debug)]
pub struct LockManager {
    locked: bool,
    lock_timer: u64,
    unlock_timer: u64,
}

impl View for LockManager {
    type V = EngineState;

    closed spec fn view(&self) -> EngineState {
        EngineState {
            locked: self.locked,
            lock_timer: self.lock_timer as nat,
            unlock_timer: self.unlock_timer as nat,
        }
    }
}

impl LockManager {
    /// A fresh engine, with both timers at zero. `locked` is what the
    /// actuator said of the screen at startup.
    pub fn new(locked: bool) -> (m: Self)
        ensures
            m@ == EngineState::initial(locked),
    {
        LockManager { locked, lock_timer: 0, unlock_timer: 0 }
    }

    /// Whether the engine believes the screen locked.
    pub fn is_locked(&self) -> (locked: bool)
        ensures
            locked == self@.locked,
    {
        self.locked
    }

    /// How long the lock condition has held.
    pub fn get_lock_timer(&self) -> (timer: u64)
        ensures
            timer == self@.lock_timer,
    {
        self.lock_timer
    }

    /// How long the unlock condition has held.
    pub fn get_unlock_timer(&self) -> (timer: u64)
        ensures
            timer == self@.unlock_timer,
    {
        self.unlock_timer
    }

    /// Both timers stay within `u64` in a timer update with these arguments.
    pub open spec fn timers_fit(
        self,
        locked: bool,
        all_devices_weak: bool,
        any_device_in_range: bool,
        poll_interval: u64,
    ) -> bool {
        let next = self@.resync(locked).tick(all_devices_weak, any_device_in_range, poll_interval as nat);
        next.lock_timer <= u64::MAX && next.unlock_timer <= u64::MAX
    }

    /// Tells whether [`Self::update_timers`] may be called with these
    /// arguments, that is, whether both timers stay within `u64`.
    pub fn can_update_timers(
        &self,
        locked: bool,
        all_devices_weak: bool,
        any_device_in_range: bool,
        poll_interval: u64,
    ) -> (fits: bool)
        ensures
            fits == self.timers_fit(locked, all_devices_weak, any_device_in_range, poll_interval),
    {
        let lock_fits = !(all_devices_weak && !locked) || poll_interval <= u64::MAX
            - self.lock_timer;
        let unlock_fits = !(any_device_in_range && locked) || poll_interval <= u64::MAX
            - self.unlock_timer;
        lock_fits && unlock_fits
    }

    /// One cycle's state update. First the engine takes over `locked`, the
    /// actuator's word on the screen; then each timer grows by
    /// `poll_interval` if its condition holds and is reset to zero if not.
    pub fn update_timers(
        &mut self,
        locked: bool,
        all_devices_weak: bool,
        any_device_in_range: bool,
        poll_interval: u64,
    )
        requires
            old(self).timers_fit(locked, all_devices_weak, any_device_in_range, poll_interval),
        ensures
            final(self)@ == old(self)@.resync(locked).tick(
                all_devices_weak,
                any_device_in_range,
                poll_interval as nat,
            ),
            final(self)@.locked == locked,
            final(self)@.lock_timer == if all_devices_weak && !locked {
                old(self)@.lock_timer + poll_interval
            } else {
                0
            },
            final(self)@.unlock_timer == if any_device_in_range && locked {
                old(self)@.unlock_timer + poll_interval
            } else {
                0
            },
    {
        self.locked = locked;

        if all_devices_weak && !self.locked {
            self.lock_timer += poll_interval;
        } else {
            self.lock_timer = 0;
        }

        if any_device_in_range && self.locked {
            self.unlock_timer += poll_interval;
        } else {
            self.unlock_timer = 0;
        }
    }

    /// Whether the lock action is due in this cycle: all devices are weak,
    /// the screen is unlocked, and the lock timer has reached `lock_hold`.
    pub fn lock_due(&self, all_devices_weak: bool, lock_hold: u64) -> (due: bool)
        ensures
            due == self@.lock_due(all_devices_weak, lock_hold as nat),
    {
        all_devices_weak && !self.locked && self.lock_timer >= lock_hold
    }

    /// Whether the unlock action is due in this cycle: a device is in
    /// range, the screen is locked, and the unlock timer has reached
    /// `unlock_hold`.
    pub fn unlock_due(&self, any_device_in_range: bool, unlock_hold: u64) -> (due: bool)
        ensures
            due == self@.unlock_due(any_device_in_range, unlock_hold as nat),
    {
        any_device_in_range && self.locked && self.unlock_timer >= unlock_hold
    }

    /// The lock action. `outcome` tells how the lock command ended; the
    /// command is to be run only on an unlocked screen, and on a locked one
    /// the action changes nothing and `outcome` is not looked at. A started
    /// locker makes the screen locked and resets the lock timer; a failed
    /// command is reported and changes nothing.
    pub fn lock_screen(&mut self, outcome: LockOutcome) -> (r: Result<(), ActuatorError>)
        ensures
            final(self)@ == old(self)@.after_lock(outcome),
            r == if !old(self)@.locked && outcome is SpawnFailed {
                Err::<(), ActuatorError>(ActuatorError::Lock)
            } else {
                Ok::<(), ActuatorError>(())
            },
    {
        if !self.locked {
            match outcome {
                LockOutcome::Started => {
                    self.locked = true;
                    self.lock_timer = 0;
                },
                LockOutcome::SpawnFailed => {
                    return Err(ActuatorError::Lock);
                },
            }
        }
        Ok(())
    }

    /// The unlock action. `outcome` tells how the unlock sequence ended;
    /// the sequence is to be run only on a locked screen, and on an
    /// unlocked one the action changes nothing and `outcome` is not looked
    /// at. A sequence of which every command did its work makes the screen
    /// unlocked and resets the unlock timer; one in which a command could
    /// not be run, or ran and reported a failure, is an error and changes
    /// nothing.
    pub fn unlock_screen(&mut self, outcome: UnlockOutcome) -> (r: Result<(), ActuatorError>)
        ensures
            final(self)@ == old(self)@.after_unlock(outcome),
            r is Err <==> old(self)@.locked && !outcome.succeeded(),
            r == if old(self)@.locked && outcome.error() is Some {
                Err::<(), ActuatorError>(outcome.error()->Some_0)
            } else {
                Ok::<(), ActuatorError>(())
            },
            r is Err ==> final(self)@ == old(self)@,
    {
        if self.locked {
            match outcome {
                UnlockOutcome::SignalFailed => {
                    return Err(ActuatorError::UnlockSignal);
                },
                UnlockOutcome::DisplayFailed => {
                    return Err(ActuatorError::DisplayCommand);
                },
                UnlockOutcome::DisplayRefused => {
                    return Err(ActuatorError::DisplayRefused);
                },
                UnlockOutcome::Done => {
                    self.locked = false;
                    self.unlock_timer = 0;
                },
            }
        }
        Ok(())
    }
}

} // verus!

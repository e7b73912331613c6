//! The polling cycle as a state machine.
//!
//! The engine does no waiting, reading or locking of its own. It says what
//! it needs next, as a [`Request`]; whoever runs it does that and hands
//! back what came of it, as an [`Event`]. One cycle asks for a reading of
//! each enabled device in turn, then for the actuator's word on the screen,
//! then, where one is due, for the lock command or the unlock sequence, and
//! at last for a pause of one poll interval.

use vstd::prelude::*;
use crate::config::{Config, ConfigSpec};
use crate::lock::{EngineState, LockManager, LockOutcome, UnlockOutcome};
use crate::signal::{Reading, Signals};

verus! {

/// What the engine needs done before it can go on.
#[derive(Clone, Copy, Debug, PartialEq, Eq, Structural)]
pub enum Request {
    /// Wait one poll interval, then answer [`Event::Wake`].
    Sleep,
    /// Read the signal of the device with this index in the configuration,
    /// then answer [`Event::Signal`]. A failed read is an absent reading.
    ReadSignal(usize),
    /// Ask the actuator whether the screen is locked, then answer
    /// [`Event::LockState`].
    QueryLockState,
    /// Run the lock command, then answer [`Event::LockResult`].
    Lock,
    /// Run the unlock sequence, then answer [`Event::UnlockResult`].
    Unlock,
}

/// What came of a [`Request`].
#[derive(Clone, Copy, Debug, PartialEq, Eq, Structural)]
pub enum Event {
    /// The pause is over.
    Wake,
    /// The reading of the device asked for.
    Signal(Reading),
    /// Whether the actuator finds the screen locked.
    LockState(bool),
    /// How the lock command ended.
    LockResult(LockOutcome),
    /// How the unlock sequence ended.
    UnlockResult(UnlockOutcome),
}

/// The mathematical state of a running engine.
pub struct CycleState {
    /// The configuration, which never changes.
    pub config: ConfigSpec,
    /// Lock state and timers.
    pub engine: EngineState,
    /// The request that the engine waits on.
    pub pending: Request,
    /// The readings taken so far in this cycle, one per enabled device.
    pub readings: Seq<Reading>,
    /// What the readings of this cycle amounted to, once all are taken.
    pub signals: Signals,
}

impl CycleState {
    /// The devices can be told apart by a `usize`, and the pending request is
    /// one that the engine had cause for: a reading is asked of an enabled
    /// device of the configuration, the lock command only while the lock
    /// action is due, and the unlock sequence only while the unlock action
    /// is due.
    pub open spec fn wf(self) -> bool {
        &&& self.config.devices.len() <= usize::MAX
        &&& match self.pending {
            Request::ReadSignal(i) => i < self.config.devices.len()
                && self.config.devices[i as int].enabled,
            Request::Lock => self.engine.lock_due(
                self.signals.all_devices_weak,
                self.config.timings.lock_hold_seconds as nat,
            ),
            Request::Unlock => self.engine.unlock_due(
                self.signals.any_device_in_range,
                self.config.timings.unlock_hold_seconds as nat,
            ),
            Request::Sleep | Request::QueryLockState => true,
        }
    }

    /// Sampling goes on with the first enabled device at or after `from`.
    /// If there is none, the readings are aggregated, against the lock
    /// state that the engine holds at that moment, and the engine turns to
    /// the actuator.
    pub open spec fn sample_from(self, from: int) -> CycleState {
        let next = self.config.next_enabled(from);
        if next < self.config.devices.len() {
            CycleState { pending: Request::ReadSignal(next as usize), ..self }
        } else {
            CycleState {
                pending: Request::QueryLockState,
                signals: Signals::of(self.readings, self.config.thresholds, self.engine.locked),
                ..self
            }
        }
    }

    /// The start of a cycle: no readings yet, sampling from the first device.
    pub open spec fn begin(self) -> CycleState {
        CycleState { readings: Seq::empty(), ..self }.sample_from(0)
    }

    /// An engine that has just been made, at the start of its first cycle:
    /// it runs on `config`, found the screen `locked`, and has both timers
    /// at zero.
    pub open spec fn start(config: ConfigSpec, locked: bool) -> CycleState {
        (CycleState {
            config,
            engine: EngineState::initial(locked),
            pending: Request::Sleep,
            readings: Seq::empty(),
            signals: Signals::of(Seq::empty(), config.thresholds, locked),
        }).begin()
    }

    /// The unlock trigger: the unlock sequence if it is due, else a pause.
    pub open spec fn decide_unlock(self) -> CycleState {
        if self.engine.unlock_due(
            self.signals.any_device_in_range,
            self.config.timings.unlock_hold_seconds as nat,
        ) {
            CycleState { pending: Request::Unlock, ..self }
        } else {
            CycleState { pending: Request::Sleep, ..self }
        }
    }

    /// The two triggers in their order: the lock command if it is due, else
    /// the unlock trigger.
    pub open spec fn decide(self) -> CycleState {
        if self.engine.lock_due(
            self.signals.all_devices_weak,
            self.config.timings.lock_hold_seconds as nat,
        ) {
            CycleState { pending: Request::Lock, ..self }
        } else {
            self.decide_unlock()
        }
    }

    /// The engine's timers after it has heard whether the screen is locked.
    pub open spec fn synced(self, locked: bool) -> EngineState {
        self.engine.resync(locked).tick(
            self.signals.all_devices_weak,
            self.signals.any_device_in_range,
            self.config.timings.poll_interval as nat,
        )
    }

    /// The state after `event`. An event that does not answer the pending
    /// request changes nothing.
    pub open spec fn step(self, event: Event) -> CycleState {
        match (self.pending, event) {
            (Request::Sleep, Event::Wake) => self.begin(),
            (Request::ReadSignal(i), Event::Signal(reading)) => CycleState {
                readings: self.readings.push(reading),
                ..self
            }.sample_from(i + 1),
            (Request::QueryLockState, Event::LockState(locked)) => CycleState {
                engine: self.synced(locked),
                ..self
            }.decide(),
            (Request::Lock, Event::LockResult(outcome)) => CycleState {
                engine: self.engine.after_lock(outcome),
                ..self
            }.decide_unlock(),
            (Request::Unlock, Event::UnlockResult(outcome)) => CycleState {
                engine: self.engine.after_unlock(outcome),
                pending: Request::Sleep,
                ..self
            },
            _ => self,
        }
    }

    /// The timers stay within `u64` when `event` comes in.
    pub open spec fn admits(self, event: Event) -> bool {
        self.pending is QueryLockState ==> (event matches Event::LockState(locked) ==> {
            &&& self.synced(locked).lock_timer <= u64::MAX
            &&& self.synced(locked).unlock_timer <= u64::MAX
        })
    }
}

/// A running engine: the configuration, the lock state with its timers,
/// and how far the current cycle has come.
#[derive(Debug)]
pub struct ProxLock {
    config: Config,
    lock: LockManager,
    pending: Request,
    readings: Vec<Reading>,
    signals: Signals,
}

impl View for ProxLock {
    type V = CycleState;

    closed spec fn view(&self) -> CycleState {
        CycleState {
            config: self.config@,
            engine: self.lock@,
            pending: self.pending,
            readings: self.readings@,
            signals: self.signals,
        }
    }
}

impl ProxLock {
    /// An engine at the start of its first cycle. `locked` is what the
    /// actuator said of the screen at startup.
    pub fn new(config: Config, locked: bool) -> (engine: Self)
        ensures
            engine@ == CycleState::start(config@, locked),
            engine@.wf(),
    {
        let first = config.next_enabled(0);
        let thresholds = config.thresholds;
        let signals = Signals::aggregate(Vec::new().as_slice(), &thresholds, locked);
        proof {
            config@.lemma_next_enabled(0);
        }
        if first < config.devices.len() {
            ProxLock {
                config,
                lock: LockManager::new(locked),
                pending: Request::ReadSignal(first),
                readings: Vec::new(),
                signals,
            }
        } else {
            ProxLock {
                config,
                lock: LockManager::new(locked),
                pending: Request::QueryLockState,
                readings: Vec::new(),
                signals,
            }
        }
    }

    /// The configuration that the engine runs on.
    pub fn config(&self) -> (config: &Config)
        ensures
            config@ == self@.config,
    {
        &self.config
    }

    /// Lock state and timers.
    pub fn lock(&self) -> (lock: &LockManager)
        ensures
            lock@ == self@.engine,
    {
        &self.lock
    }

    /// What this cycle's readings amounted to. Meaningful from the moment
    /// the engine asks for the lock state until the next cycle does.
    pub fn signals(&self) -> (signals: Signals)
        ensures
            signals == self@.signals,
    {
        self.signals
    }

    /// The request that the engine waits on.
    pub fn request(&self) -> (request: Request)
        ensures
            request == self@.pending,
    {
        self.pending
    }

    /// Tells whether [`Self::step`] may be called with `event`, that is,
    /// whether the timers stay within `u64`.
    pub fn admits(&self, event: Event) -> (ok: bool)
        ensures
            ok == self@.admits(event),
    {
        match (self.pending, event) {
            (Request::QueryLockState, Event::LockState(locked)) => self.lock.can_update_timers(
                locked,
                self.signals.all_devices_weak,
                self.signals.any_device_in_range,
                self.config.timings.poll_interval,
            ),
            _ => true,
        }
    }

    fn sample_from(&mut self, from: usize)
        requires
            from <= old(self).config.devices.len(),
        ensures
            final(self)@ == old(self)@.sample_from(from as int),
            final(self)@.wf(),
    {
        let next = self.config.next_enabled(from);
        proof {
            self.config@.lemma_next_enabled(from as int);
        }
        if next < self.config.devices.len() {
            self.pending = Request::ReadSignal(next);
        } else {
            self.signals = Signals::aggregate(
                self.readings.as_slice(),
                &self.config.thresholds,
                self.lock.is_locked(),
            );
            self.pending = Request::QueryLockState;
        }
    }

    fn decide_unlock(&mut self)
        requires
            old(self)@.config.devices.len() <= usize::MAX,
        ensures
            final(self)@ == old(self)@.decide_unlock(),
            final(self)@.wf(),
    {
        if self.lock.unlock_due(
            self.signals.any_device_in_range,
            self.config.timings.unlock_hold_seconds,
        ) {
            self.pending = Request::Unlock;
        } else {
            self.pending = Request::Sleep;
        }
    }

    /// Takes in what came of the pending request and says what the engine
    /// needs next. An event that does not answer the pending request is
    /// passed over: the state stays, and the same request comes back.
    pub fn step(&mut self, event: Event) -> (request: Request)
        requires
            old(self)@.wf(),
            old(self)@.admits(event),
        ensures
            final(self)@ == old(self)@.step(event),
            final(self)@.wf(),
            request == final(self)@.pending,
    {
        match (self.pending, event) {
            (Request::Sleep, Event::Wake) => {
                self.readings.clear();
                self.sample_from(0);
            },
            (Request::ReadSignal(i), Event::Signal(reading)) => {
                assert(self.config@.devices.len() == self.config.devices.len());
                self.readings.push(reading);
                self.sample_from(i + 1);
            },
            (Request::QueryLockState, Event::LockState(locked)) => {
                self.lock.update_timers(
                    locked,
                    self.signals.all_devices_weak,
                    self.signals.any_device_in_range,
                    self.config.timings.poll_interval,
                );
                if self.lock.lock_due(
                    self.signals.all_devices_weak,
                    self.config.timings.lock_hold_seconds,
                ) {
                    self.pending = Request::Lock;
                } else {
                    self.decide_unlock();
                }
            },
            (Request::Lock, Event::LockResult(outcome)) => {
                let _ = self.lock.lock_screen(outcome);
                self.decide_unlock();
            },
            (Request::Unlock, Event::UnlockResult(outcome)) => {
                let _ = self.lock.unlock_screen(outcome);
                self.pending = Request::Sleep;
            },
            _ => {},
        }
        self.pending
    }
}

} // verus!

//! Signal readings of paired devices, and what one polling cycle makes of them.

use vstd::prelude::*;
use crate::config::ThresholdsConfig;

verus! {

/// The raw strength that a signal source reports for a device it cannot read.
pub const UNREACHABLE_RSSI: i16 = -255;

/// What one device reported in one polling cycle.
#[derive(Clone, Copy, Debug, PartialEq, Eq, Structural)]
pub enum Reading {
    /// The device answered with this signal strength.
    Present(i16),
    /// The device could not be reached or read.
    Absent,
}

impl Reading {
    /// The device answered at all.
    pub open spec fn connected(self) -> bool {
        self is Present
    }

    /// The device is near enough to keep the screen from locking:
    /// it answered at or above the lock threshold.
    pub open spec fn prevents_lock(self, lock_threshold: i16) -> bool {
        self matches Reading::Present(v) && v >= lock_threshold
    }

    /// The device is near enough to unlock the screen:
    /// it answered strictly above the unlock threshold.
    pub open spec fn allows_unlock(self, unlock_threshold: i16) -> bool {
        self matches Reading::Present(v) && v > unlock_threshold
    }

    /// The reading that a raw signal strength stands for.
    pub open spec fn of_raw(rssi: i16) -> Reading {
        if rssi > UNREACHABLE_RSSI {
            Reading::Present(rssi)
        } else {
            Reading::Absent
        }
    }

    /// Turns a raw signal strength into a reading. Anything at or below
    /// [`UNREACHABLE_RSSI`] counts as absent.
    pub fn from_raw(rssi: i16) -> (r: Reading)
        ensures
            r == Reading::of_raw(rssi),
    {
        if rssi > UNREACHABLE_RSSI {
            Reading::Present(rssi)
        } else {
            Reading::Absent
        }
    }
}

/// At least one device answered.
pub open spec fn any_connected(readings: Seq<Reading>) -> bool {
    exists|i: int| 0 <= i < readings.len() && (#[trigger] readings[i]).connected()
}

/// Some device answered, and every device that answered is below the lock
/// threshold. With no device answering at all this is false: silence is
/// not weakness.
pub open spec fn all_weak(readings: Seq<Reading>, lock_threshold: i16) -> bool {
    &&& any_connected(readings)
    &&& forall|i: int|
        0 <= i < readings.len() ==> !(#[trigger] readings[i]).prevents_lock(lock_threshold)
}

/// The engine believes the screen locked, and some device answered above
/// the unlock threshold. While unlocked nothing is ever in range.
pub open spec fn any_in_range(readings: Seq<Reading>, unlock_threshold: i16, locked: bool) -> bool {
    &&& locked
    &&& exists|i: int|
        0 <= i < readings.len() && (#[trigger] readings[i]).allows_unlock(unlock_threshold)
}

/// What one cycle's readings amount to.
#[derive(Clone, Copy, Debug, PartialEq, Eq, Structural)]
pub struct Signals {
    /// At least one enabled device produced a reading.
    pub any_device_connected: bool,
    /// Some device is connected and all connected devices are below the lock threshold.
    pub all_devices_weak: bool,
    /// The screen is believed locked and a connected device is above the unlock threshold.
    pub any_device_in_range: bool,
}

impl Signals {
    /// The signals that a cycle's readings amount to, given the thresholds
    /// and whether the engine believes the screen locked.
    pub open spec fn of(readings: Seq<Reading>, thresholds: ThresholdsConfig, locked: bool) -> Signals {
        Signals {
            any_device_connected: any_connected(readings),
            all_devices_weak: all_weak(readings, thresholds.lock_threshold),
            any_device_in_range: any_in_range(readings, thresholds.unlock_threshold, locked),
        }
    }

    /// Aggregates the readings of the enabled devices, one per device, into
    /// the three signals of a cycle.
    pub fn aggregate(readings: &[Reading], thresholds: &ThresholdsConfig, locked: bool) -> (s: Signals)
        ensures
            s == Signals::of(readings@, *thresholds, locked),
    {
        let mut connected = false;
        let mut strong = false;
        let mut in_range = false;
        let mut i: usize = 0;
        while i < readings.len()
            invariant
                i <= readings.len(),
                connected == any_connected(readings@.take(i as int)),
                strong == exists|j: int|
                    0 <= j < i && (#[trigger] readings@[j]).prevents_lock(thresholds.lock_threshold),
                in_range == any_in_range(readings@.take(i as int), thresholds.unlock_threshold, locked),
            decreases readings.len() - i,
        {
            let ghost before = readings@.take(i as int);
            let ghost after = readings@.take(i + 1);
            match readings[i] {
                Reading::Present(rssi) => {
                    connected = true;
                    if rssi >= thresholds.lock_threshold {
                        strong = true;
                    }
                    if locked && rssi > thresholds.unlock_threshold {
                        in_range = true;
                    }
                },
                Reading::Absent => {},
            }
            proof {
                assert(after[i as int] == readings@[i as int]);
                assert(forall|j: int| 0 <= j < i ==> before[j] == after[j]);
                if any_connected(before) {
                    let j = choose|j: int| 0 <= j < before.len() && (#[trigger] before[j]).connected();
                    assert(after[j].connected());
                }
                if any_in_range(before, thresholds.unlock_threshold, locked) {
                    let j = choose|j: int|
                        0 <= j < before.len() && (#[trigger] before[j]).allows_unlock(
                            thresholds.unlock_threshold,
                        );
                    assert(after[j].allows_unlock(thresholds.unlock_threshold));
                }
                if any_connected(after) && !readings@[i as int].connected() {
                    let j = choose|j: int| 0 <= j < after.len() && (#[trigger] after[j]).connected();
                    assert(before[j].connected());
                }
                if any_in_range(after, thresholds.unlock_threshold, locked) && !readings@[i as int].allows_unlock(
                    thresholds.unlock_threshold,
                ) {
                    let j = choose|j: int|
                        0 <= j < after.len() && (#[trigger] after[j]).allows_unlock(
                            thresholds.unlock_threshold,
                        );
                    assert(before[j].allows_unlock(thresholds.unlock_threshold));
                }
            }
            i += 1;
        }
        proof {
            assert(readings@.take(readings@.len() as int) == readings@);
        }
        Signals {
            any_device_connected: connected,
            all_devices_weak: connected && !strong,
            any_device_in_range: in_range,
        }
    }
}

} // verus!

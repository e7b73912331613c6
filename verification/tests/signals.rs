use hyprproxlock::config::ThresholdsConfig;
use hyprproxlock::signal::{Reading, Signals, UNREACHABLE_RSSI};

fn thresholds() -> ThresholdsConfig {
    ThresholdsConfig { lock_threshold: -25, unlock_threshold: -15 }
}

#[test]
fn no_readings_at_all() {
    for locked in [false, true] {
        let s = Signals::aggregate(&[], &thresholds(), locked);
        assert_eq!(
            s,
            Signals { any_device_connected: false, all_devices_weak: false, any_device_in_range: false }
        );
    }
}

#[test]
fn absent_devices_are_not_weak() {
    let readings = [Reading::Absent, Reading::Absent, Reading::Absent];
    for locked in [false, true] {
        let s = Signals::aggregate(&readings, &thresholds(), locked);
        assert!(!s.any_device_connected);
        assert!(!s.all_devices_weak);
        assert!(!s.any_device_in_range);
    }
}

#[test]
fn one_strong_device_among_weak_ones() {
    let readings = [Reading::Present(-80), Reading::Present(-25), Reading::Absent, Reading::Present(-90)];
    let s = Signals::aggregate(&readings, &thresholds(), false);
    assert!(s.any_device_connected);
    assert!(!s.all_devices_weak);
}

#[test]
fn lock_threshold_itself_is_strong() {
    let at = Signals::aggregate(&[Reading::Present(-25)], &thresholds(), false);
    assert!(!at.all_devices_weak);
    let below = Signals::aggregate(&[Reading::Present(-26)], &thresholds(), false);
    assert!(below.all_devices_weak);
}

#[test]
fn unlock_threshold_itself_is_not_in_range() {
    let at = Signals::aggregate(&[Reading::Present(-15)], &thresholds(), true);
    assert!(!at.any_device_in_range);
    let above = Signals::aggregate(&[Reading::Present(-14)], &thresholds(), true);
    assert!(above.any_device_in_range);
}

#[test]
fn nothing_is_in_range_while_unlocked() {
    let readings = [Reading::Present(0), Reading::Present(i16::MAX)];
    let s = Signals::aggregate(&readings, &thresholds(), false);
    assert!(!s.any_device_in_range);
    assert!(s.any_device_connected);
    let locked = Signals::aggregate(&readings, &thresholds(), true);
    assert!(locked.any_device_in_range);
}

#[test]
fn weak_devices_with_absent_ones_are_all_weak() {
    let readings = [Reading::Absent, Reading::Present(-50), Reading::Absent, Reading::Present(-26)];
    let s = Signals::aggregate(&readings, &thresholds(), true);
    assert_eq!(
        s,
        Signals { any_device_connected: true, all_devices_weak: true, any_device_in_range: false }
    );
}

#[test]
fn thresholds_in_either_order_are_taken_as_they_are() {
    let odd = ThresholdsConfig { lock_threshold: -40, unlock_threshold: -10 };
    let s = Signals::aggregate(&[Reading::Present(-20)], &odd, true);
    assert!(!s.all_devices_weak);
    assert!(!s.any_device_in_range);
    let other = ThresholdsConfig { lock_threshold: -10, unlock_threshold: -40 };
    let t = Signals::aggregate(&[Reading::Present(-20)], &other, true);
    assert!(t.all_devices_weak);
    assert!(t.any_device_in_range);
}

#[test]
fn raw_strength_becomes_a_reading() {
    assert_eq!(UNREACHABLE_RSSI, -255);
    assert_eq!(Reading::from_raw(-255), Reading::Absent);
    assert_eq!(Reading::from_raw(-256), Reading::Absent);
    assert_eq!(Reading::from_raw(i16::MIN), Reading::Absent);
    assert_eq!(Reading::from_raw(-254), Reading::Present(-254));
    assert_eq!(Reading::from_raw(0), Reading::Present(0));
    assert_eq!(Reading::from_raw(-50), Reading::Present(-50));
    assert_eq!(Reading::from_raw(i16::MAX), Reading::Present(i16::MAX));
}

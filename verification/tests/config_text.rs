use hyprproxlock::config::{Config, DeviceConfig, ThresholdsConfig, TimingsConfig};

const SAMPLE: &str = "device {\n\tmac_address = \"XX:XX:XX:XX:XX:XX\"\n\tname = \"My Device\"\n\tenabled = true\n}\n\nthresholds {\n\tlock_threshold = -25\n\tunlock_threshold = -15\n}\n\ntimings {\n\tlock_hold_seconds = 3\n\tunlock_hold_seconds = 3\n\tpoll_interval = 1\n}";

/// The same reading of the text with what std offers.
fn oracle(content: &str) -> Config {
    let mut devices = Vec::new();
    let mut thresholds = ThresholdsConfig { lock_threshold: -20, unlock_threshold: -15 };
    let mut timings =
        TimingsConfig { lock_hold_seconds: 3, unlock_hold_seconds: 3, poll_interval: 1 };
    let mut section = String::new();
    let mut open: Option<DeviceConfig> = None;
    for line in content.lines() {
        let line = line.trim();
        if line.is_empty() || line.starts_with('#') {
            continue;
        }
        if line.ends_with('{') {
            section = line.trim_end_matches('{').trim().to_string();
            if section == "device" {
                open = Some(DeviceConfig {
                    mac_address: String::new(),
                    name: String::new(),
                    enabled: true,
                });
            }
            continue;
        }
        if line == "}" {
            if section == "device" {
                if let Some(device) = open.take() {
                    devices.push(device);
                }
            }
            section.clear();
            continue;
        }
        if let Some(at) = line.find('=') {
            let key = line[..at].trim();
            let value = line[at + 1..].trim().trim_matches('"');
            match section.as_str() {
                "device" => {
                    if let Some(device) = open.as_mut() {
                        match key {
                            "mac_address" => device.mac_address = value.to_string(),
                            "name" => device.name = value.to_string(),
                            "enabled" => device.enabled = value.parse().unwrap_or(true),
                            _ => {}
                        }
                    }
                }
                "thresholds" => match key {
                    "lock_threshold" => thresholds.lock_threshold = value.parse().unwrap_or(-20),
                    "unlock_threshold" => thresholds.unlock_threshold = value.parse().unwrap_or(-15),
                    _ => {}
                },
                "timings" => match key {
                    "lock_hold_seconds" => timings.lock_hold_seconds = value.parse().unwrap_or(3),
                    "unlock_hold_seconds" => timings.unlock_hold_seconds = value.parse().unwrap_or(3),
                    "poll_interval" => timings.poll_interval = value.parse().unwrap_or(1),
                    _ => {}
                },
                _ => {}
            }
        }
    }
    Config { devices, thresholds, timings }
}

fn same(a: &Config, b: &Config) -> bool {
    a.thresholds == b.thresholds
        && a.timings == b.timings
        && a.devices.len() == b.devices.len()
        && a.devices.iter().zip(b.devices.iter()).all(|(x, y)| {
            x.mac_address == y.mac_address && x.name == y.name && x.enabled == y.enabled
        })
}

#[test]
fn sample_file() {
    let config = Config::load(SAMPLE);
    assert_eq!(config.devices.len(), 1);
    assert_eq!(config.devices[0].mac_address, "XX:XX:XX:XX:XX:XX");
    assert_eq!(config.devices[0].name, "My Device");
    assert!(config.devices[0].enabled);
    assert_eq!(config.thresholds, ThresholdsConfig { lock_threshold: -25, unlock_threshold: -15 });
    assert_eq!(
        config.timings,
        TimingsConfig { lock_hold_seconds: 3, unlock_hold_seconds: 3, poll_interval: 1 }
    );
}

#[test]
fn empty_text_is_all_defaults() {
    let config = Config::load("");
    assert!(config.devices.is_empty());
    assert_eq!(config.thresholds, ThresholdsConfig { lock_threshold: -20, unlock_threshold: -15 });
    assert_eq!(
        config.timings,
        TimingsConfig { lock_hold_seconds: 3, unlock_hold_seconds: 3, poll_interval: 1 }
    );
}

#[test]
fn several_devices_in_order() {
    let text = "device {\nname = a\nenabled = false\n}\ndevice {\nname = b\n}\ndevice{\nmac_address=\"c\"\nenabled = nonsense\n}\n";
    let config = Config::load(text);
    assert_eq!(config.devices.len(), 3);
    assert_eq!(config.devices[0].name, "a");
    assert!(!config.devices[0].enabled);
    assert_eq!(config.devices[0].mac_address, "");
    assert_eq!(config.devices[1].name, "b");
    assert!(config.devices[1].enabled);
    assert_eq!(config.devices[2].mac_address, "c");
    assert_eq!(config.devices[2].name, "");
    assert!(config.devices[2].enabled);
    assert_eq!(config.next_enabled(0), 1);
    assert_eq!(config.next_enabled(1), 1);
    assert_eq!(config.next_enabled(2), 2);
    assert_eq!(config.next_enabled(3), 3);
    assert_eq!(config.next_enabled(9), 3);
}

#[test]
fn unclosed_device_is_dropped() {
    let config = Config::load("device {\nname = lost\n");
    assert!(config.devices.is_empty());
    let reopened = Config::load("device {\nname = lost\ndevice {\nname = kept\n}\n");
    assert_eq!(reopened.devices.len(), 1);
    assert_eq!(reopened.devices[0].name, "kept");
}

#[test]
fn values_that_are_no_numbers_fall_back_to_defaults() {
    let text = "thresholds {\nlock_threshold = -30\nlock_threshold = loud\nunlock_threshold = 99999\n}\ntimings {\nlock_hold_seconds = -1\nunlock_hold_seconds = 1.5\npoll_interval = 18446744073709551616\n}\n";
    let config = Config::load(text);
    assert_eq!(config.thresholds, ThresholdsConfig { lock_threshold: -20, unlock_threshold: -15 });
    assert_eq!(
        config.timings,
        TimingsConfig { lock_hold_seconds: 3, unlock_hold_seconds: 3, poll_interval: 1 }
    );
}

#[test]
fn limits_of_the_number_types() {
    let text = "thresholds {\nlock_threshold = -32768\nunlock_threshold = +32767\n}\ntimings {\nlock_hold_seconds = 18446744073709551615\nunlock_hold_seconds = +0\npoll_interval = 0042\n}\n";
    let config = Config::load(text);
    assert_eq!(
        config.thresholds,
        ThresholdsConfig { lock_threshold: i16::MIN, unlock_threshold: i16::MAX }
    );
    assert_eq!(
        config.timings,
        TimingsConfig { lock_hold_seconds: u64::MAX, unlock_hold_seconds: 0, poll_interval: 42 }
    );
}

#[test]
fn comments_blank_lines_and_unknown_things_are_passed_over() {
    let text = "# a comment\n\n   \t\nlock_threshold = -1\nother {\nlock_threshold = -2\n}\nthresholds {\n  # lock_threshold = -3\n  volume = 11\n  lock_threshold   =   \"-4\"  \n just words\n}\nlock_threshold = -5\n";
    let config = Config::load(text);
    assert_eq!(config.thresholds, ThresholdsConfig { lock_threshold: -4, unlock_threshold: -15 });
    assert!(config.devices.is_empty());
}

#[test]
fn entry_is_split_at_the_first_equals_sign() {
    let config = Config::load("device {\nname = a = b\nmac_address = \"\"quoted\"\"\n}\n");
    assert_eq!(config.devices[0].name, "a = b");
    assert_eq!(config.devices[0].mac_address, "quoted");
}

#[test]
fn keys_belong_to_their_own_block() {
    let text = "timings {\nlock_threshold = -1\nname = x\n}\nthresholds {\npoll_interval = 9\n}\ndevice {\npoll_interval = 9\nlock_threshold = -9\n}\n";
    let config = Config::load(text);
    assert_eq!(config.thresholds, ThresholdsConfig { lock_threshold: -20, unlock_threshold: -15 });
    assert_eq!(
        config.timings,
        TimingsConfig { lock_hold_seconds: 3, unlock_hold_seconds: 3, poll_interval: 1 }
    );
    assert_eq!(config.devices.len(), 1);
    assert_eq!(config.devices[0].name, "");
}

#[test]
fn agrees_with_std_on_many_texts() {
    let texts = [
        SAMPLE,
        "",
        "\n",
        "}",
        "{",
        "device {",
        "device {}\n}",
        "device {\n}\n}\n}",
        "device {{{\nname = x\n}",
        "device { {\nname = x\n}",
        " device  {\r\n name = \"x y\" \r\n}\r\n",
        "device {\nname = x\nthresholds {\nlock_threshold = -1\n}\nname = y\n}",
        "device {\nname = x\nthresholds {\nlock_threshold = -1\ndevice {\n}\n",
        "device {\nname=\nmac_address==\nenabled=false\n}",
        "device {\nenabled = False\n}\ndevice {\nenabled = \"false\"\n}\ndevice {\nenabled = false \n}",
        "device {\n= x\n name = \"\n}",
        "device {\nname = \"\"\"\nmac_address = \" a \"\n}",
        "thresholds {\nlock_threshold = - 5\nunlock_threshold = +-5\n}",
        "thresholds {\nlock_threshold = 32768\nunlock_threshold = -32769\n}",
        "thresholds {\nlock_threshold = 0x10\nunlock_threshold = \u{665}\n}",
        "thresholds {\nlock_threshold =\u{a0}-7\u{2003}\n}",
        "thresholds\u{3000}{\nlock_threshold = -7\n}",
        "timings {\npoll_interval = +5\nlock_hold_seconds = 00000000000000000000000018446744073709551615\n}",
        "timings {\npoll_interval = -0\nlock_hold_seconds = +\nunlock_hold_seconds = 7 \n}",
        "timings {\n poll_interval = 2 # two\n}",
        "timings {\n#poll_interval = 2\n}",
        "timings {\npoll_interval = 2 {\npoll_interval = 4\n}",
        "timings {\npoll_interval = 2\n }\npoll_interval = 4\n",
        "timings {\npoll_interval = 2\n} \ntimings {\nlock_hold_seconds = 10\n}",
        "timings {\rpoll_interval = 2\r}\r",
        "thresholds {\n}x\nlock_threshold = -9\n",
        "\u{e9}\u{e9} {\n\u{e9} = \u{e9}\n}\ndevice {\nname = \u{e9}t\u{e9}\n}",
    ];
    for text in texts {
        assert!(same(&Config::load(text), &oracle(text)), "{:?}", text);
    }
}

//! Parser behaviour on realistic tool output and on the edge cases the
//! model calls out.

use statusline::battery::{parse_battery, BatteryState};
use statusline::brightness::parse_brightness;
use statusline::errors::ParseError;
use statusline::memory::parse_memory;
use statusline::virsh::parse_guest_listing;
use statusline::volume::parse_volume;

const BATTERY_TEXT: &str = "  battery\n    energy:              26.6 Wh\n    energy-full:         53.2 Wh\n    time to empty:       2.5 hours\n    state:               discharging\n";

#[test]
fn battery_typical_output() {
    let b = parse_battery(BATTERY_TEXT).unwrap();
    assert_eq!(b.energy_micro, 26_600_000);
    assert_eq!(b.energy_full_micro, 53_200_000);
    assert_eq!(b.time_micro_hours, 2_500_000);
    assert!(b.state == BatteryState::Discharging);
    assert_eq!(b.percentage(), 50);
    assert_eq!(b.time_to_empty_full_str(), "02:30");
}

#[test]
fn battery_minutes_normalize_to_hours() {
    let text = "    energy:              10.0 Wh\n    energy-full:         40.0 Wh\n    time to empty:       45 minutes\n    state:               discharging\n";
    let b = parse_battery(text).unwrap();
    assert_eq!(b.time_micro_hours, 750_000);
    assert_eq!(b.time_to_empty_full_secs(), 2700);
    assert_eq!(b.time_to_empty_full_str(), "00:45");
}

#[test]
fn battery_missing_energy_full_line() {
    let text = "    energy:              26.6 Wh\n    time to empty:       2.5 hours\n    state:               discharging\n";
    let err = parse_battery(text).unwrap_err();
    assert!(matches!(err, ParseError::MissingLine { .. }));
    assert!(err.message().contains("energy-full"));
}

#[test]
fn battery_malformed_number_fails() {
    let text = "    energy:              garbage Wh\n    energy-full:         53.2 Wh\n    time to empty:       2.5 hours\n    state:               charging\n";
    let err = parse_battery(text).unwrap_err();
    assert!(matches!(err, ParseError::InvalidNumber { .. }));
    assert!(err.message().contains("energy"));
}

#[test]
fn battery_missing_field_fails() {
    let text = "    energy:\n    energy-full:         53.2 Wh\n";
    let err = parse_battery(text).unwrap_err();
    assert!(matches!(err, ParseError::MissingField { .. }));
    assert!(err.message().contains("energy"));
}

#[test]
fn battery_state_keywords() {
    let charging = "    energy: 1.0 Wh\n    energy-full: 2.0 Wh\n    time to full: 1.0 hours\n    state: charging\n";
    let b = parse_battery(charging).unwrap();
    assert!(b.state == BatteryState::Charging);
    let other = "    energy: 1.0 Wh\n    energy-full: 2.0 Wh\n    time to full: 1.0 hours\n    state: fully-charged\n";
    let b = parse_battery(other).unwrap();
    assert!(b.state == BatteryState::Full);
}

#[test]
fn battery_zero_full_energy_rejected() {
    let text = "    energy: 1.0 Wh\n    energy-full: 0.0 Wh\n    time to full: 1.0 hours\n    state: charging\n";
    let err = parse_battery(text).unwrap_err();
    assert!(matches!(err, ParseError::InvalidNumber { .. }));
    assert!(err.message().contains("energy-full"));
}

#[test]
fn memory_typical_output() {
    let text = "               total        used        free\nMem:        16384000     8192000      512000\nSwap:        2097152           0     2097152\n";
    let m = parse_memory(text).unwrap();
    assert_eq!(m.total, 16_384_000);
    assert_eq!(m.used, 8_192_000);
    assert_eq!(m.total_mib(), 16_000);
    assert_eq!(m.used_mib(), 8_000);
}

#[test]
fn memory_short_output_fails() {
    let err = parse_memory("only one line\n").unwrap_err();
    assert!(matches!(err, ParseError::MissingLine { .. }));
    assert!(err.message().contains("memory summary"));
}

#[test]
fn memory_bad_number_fails() {
    let text = "header\nMem:   many    8192\n";
    let err = parse_memory(text).unwrap_err();
    assert!(matches!(err, ParseError::InvalidNumber { .. }));
}

#[test]
fn volume_typical_output() {
    let vol = "Volume: front-left: 65530 / 100% / -0.00 dB,   front-right: 32765 / 50% / -18.06 dB\n        balance 0.00\n";
    let v = parse_volume(vol, "Mute: no\n").unwrap();
    assert_eq!(v.left, 65530);
    assert_eq!(v.right, 32765);
    assert!(!v.mute);
    let muted = parse_volume(vol, "Mute: yes\n").unwrap();
    assert!(muted.mute);
}

#[test]
fn volume_empty_output_fails() {
    let err = parse_volume("", "Mute: no\n").unwrap_err();
    assert!(matches!(err, ParseError::MissingLine { .. }));
    let err = parse_volume("Volume: front-left: 1 / 0% / x dB,   front-right: 1 / 0% / x dB\n", "").unwrap_err();
    assert!(matches!(err, ParseError::MissingLine { .. }));
    assert!(err.message().contains("sink mute"));
}

#[test]
fn volume_missing_field_fails() {
    let err = parse_volume("Volume: front-left:\n", "Mute: no\n").unwrap_err();
    assert!(matches!(err, ParseError::MissingField { .. }));
}

#[test]
fn brightness_typical_output() {
    let text = "Device 'intel_backlight' of class 'backlight':\n\tCurrent brightness: 1200 (50%)\n\tMax brightness: 2400\n";
    let b = parse_brightness(text).unwrap();
    assert_eq!(b.current, 1200);
    assert_eq!(b.max, 2400);
    assert_eq!(b.pct(), 50);
}

#[test]
fn brightness_defaults_when_lines_missing() {
    let b = parse_brightness("nothing relevant here\n").unwrap();
    assert_eq!(b.current, 0);
    assert_eq!(b.max, 1);
    assert_eq!(b.pct(), 0);
}

#[test]
fn brightness_zero_max_rejected() {
    let err = parse_brightness("Max brightness: 0\n").unwrap_err();
    assert!(matches!(err, ParseError::InvalidNumber { .. }));
    assert!(err.message().contains("Max brightness"));
}

#[test]
fn brightness_bad_number_fails() {
    let err = parse_brightness("Current brightness: high\n").unwrap_err();
    assert!(matches!(err, ParseError::InvalidNumber { .. }));
    assert!(err.message().contains("Current brightness"));
}

#[test]
fn guest_listing_classifies_by_state() {
    let text = " Id   Name   State\n----------------------\n 1    vm1    running something\n -    vm2    shut off\n -    vm3    paused\n";
    let st = parse_guest_listing(text).unwrap();
    assert_eq!(st.active.len(), 1);
    assert_eq!(st.active[0], "vm1");
    assert_eq!(st.inactive.len(), 1);
    assert_eq!(st.inactive[0], "vm2");
}

#[test]
fn guest_listing_empty_after_headers() {
    let st = parse_guest_listing(" Id   Name   State\n----------------------\n").unwrap();
    assert!(st.active.is_empty());
    assert!(st.inactive.is_empty());
}

#[test]
fn guest_listing_missing_state_fails() {
    let text = " Id   Name   State\n----\n 1    vm1\n";
    let err = parse_guest_listing(text).unwrap_err();
    assert!(matches!(err, ParseError::MissingField { .. }));
    assert!(err.message().contains("guest state"));
}

#[test]
fn guest_listing_missing_name_fails() {
    let text = " Id   Name   State\n----\n 1\n";
    let err = parse_guest_listing(text).unwrap_err();
    assert!(matches!(err, ParseError::MissingField { .. }));
    assert!(err.message().contains("guest name"));
}

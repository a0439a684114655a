//! Formatter and renderer behaviour: exact rendered strings, icon bands,
//! numeric conversions, and the clock renderings.

use statusline::battery::{battery_line, battery_report, parse_battery, BatteryInfo, BatteryState};
use statusline::brightness::BrightnessInfo;
use statusline::clock::ClockTime;
use statusline::markup::PangoSpan;
use statusline::memory::{memory_line, MemoryInfo};
use statusline::num::{u64_to_string, u64_to_string_pad2};
use statusline::theme::Theme;
use statusline::volume::{volume_line, Volume};

#[test]
fn span_with_no_attributes_is_bare_wrapper() {
    let span = PangoSpan::default();
    assert_eq!(span.open_tag(), "<span >");
    assert_eq!(span.render("frag"), "<span >frag</span>");
}

#[test]
fn span_attribute_order_is_fixed() {
    let span = PangoSpan {
        color: Some("#112233".to_string()),
        font_family: Some("monospace".to_string()),
        font_size: Some("110%".to_string()),
        weight: Some("ultrabold".to_string()),
    };
    assert_eq!(
        span.render("x"),
        "<span color=\"#112233\" font_family=\"monospace\" font_size=\"110%\" weight=\"ultrabold\" >x</span>"
    );
}

#[test]
fn span_single_attribute() {
    let span = PangoSpan { weight: Some("bold".to_string()), ..Default::default() };
    assert_eq!(span.render("y"), "<span weight=\"bold\" >y</span>");
}

#[test]
fn theme_palette_values() {
    let t = Theme::tokyonight_normal();
    assert_eq!(t.foreground(), "#c0caf5");
    assert_eq!(t.white(), "#a9b1d6");
    assert_eq!(t.index_17(), "#db4b4b");
}

#[test]
fn battery_percentage_truncates() {
    let b = BatteryInfo {
        energy_full_micro: 20_000_000,
        energy_micro: 19_000_000,
        time_micro_hours: 0,
        state: BatteryState::Discharging,
    };
    assert_eq!(b.percentage(), 95);
    let b = BatteryInfo {
        energy_full_micro: 3_000_000,
        energy_micro: 1_000_000,
        time_micro_hours: 0,
        state: BatteryState::Discharging,
    };
    assert_eq!(b.percentage(), 33);
}

#[test]
fn battery_icon_bands() {
    let mut b = BatteryInfo {
        energy_full_micro: 100,
        energy_micro: 50,
        time_micro_hours: 0,
        state: BatteryState::Charging,
    };
    assert_eq!(b.icon(), "\u{1f50c}");
    b.state = BatteryState::Discharging;
    assert_eq!(b.icon(), "\u{1f50b}");
    b.energy_micro = 19;
    assert_eq!(b.icon(), "\u{1faab}");
    b.state = BatteryState::Full;
    b.energy_micro = 20;
    assert_eq!(b.icon(), "\u{1f50b}");
}

#[test]
fn battery_parse_then_format_stays_in_range() {
    let fixtures = [
        "    energy: 26.6 Wh\n    energy-full: 53.2 Wh\n    time to empty: 2.5 hours\n    state: discharging\n",
        "    energy: 0 Wh\n    energy-full: 50 Wh\n    time to empty: 45 minutes\n    state: discharging\n",
        "    energy: 53.2 Wh\n    energy-full: 53.2 Wh\n    time to full: 0.1 hours\n    state: charging\n",
    ];
    for text in fixtures {
        let b = parse_battery(text).unwrap();
        assert!(b.percentage() <= 100);
        let d = b.time_to_empty_full_str();
        let chars: Vec<char> = d.chars().collect();
        assert_eq!(chars.len(), 5);
        assert!(chars[0].is_ascii_digit());
        assert!(chars[1].is_ascii_digit());
        assert_eq!(chars[2], ':');
        assert!(chars[3].is_ascii_digit());
        assert!(chars[4].is_ascii_digit());
    }
}

#[test]
fn battery_line_rendered_exactly() {
    let theme = Theme::tokyonight_normal();
    let b = BatteryInfo {
        energy_full_micro: 53_200_000,
        energy_micro: 26_600_000,
        time_micro_hours: 2_500_000,
        state: BatteryState::Discharging,
    };
    assert_eq!(
        battery_line(&b, &theme),
        "<span font_size=\"120%\" >\u{1f50b}</span> <span color=\"#c0caf5\" font_size=\"110%\" weight=\"ultrabold\" >50</span><span color=\"#a9b1d6\" >%</span> <span color=\"#a9b1d6\" >02:30</span>"
    );
}

#[test]
fn battery_report_policy_on_failure() {
    let theme = Theme::tokyonight_normal();
    let bad = "    energy: 26.6 Wh\n    state: discharging\n";
    let parsed = parse_battery(bad);
    assert!(parsed.is_err());
    let silent = battery_report(parse_battery(bad), false, &theme).unwrap();
    assert_eq!(silent, "\u{1f50c}");
    let loud = battery_report(parsed, true, &theme).unwrap_err();
    assert!(loud.message().contains("energy-full"));
}

#[test]
fn battery_report_surfaces_malformed_numbers_in_default_mode() {
    let theme = Theme::tokyonight_normal();
    let malformed = "    energy: NaN Wh\n    energy-full: 53.2 Wh\n    time to empty: 2.5 hours\n    state: discharging\n";
    let err = battery_report(parse_battery(malformed), false, &theme).unwrap_err();
    assert!(err.message().contains("energy"));
}

#[test]
fn memory_line_rendered_exactly() {
    let theme = Theme::tokyonight_normal();
    let m = MemoryInfo { total: 16_384_000, used: 8_192_000 };
    assert_eq!(
        memory_line(&m, &theme),
        "<span color=\"#c0caf5\" font_size=\"110%\" weight=\"ultrabold\" >8000</span><span color=\"#a9b1d6\" >/</span><span color=\"#c0caf5\" font_size=\"110%\" weight=\"ultrabold\" >16000</span><span color=\"#a9b1d6\" >MiB</span>"
    );
}

#[test]
fn volume_divisor_is_65530() {
    let v = Volume { left: 65530, right: 32765, mute: false };
    assert_eq!(v.left_pct(), 100);
    assert_eq!(v.right_pct(), 50);
}

#[test]
fn volume_icon_bands_and_mute_override() {
    let v = Volume { left: 0, right: 65530, mute: false };
    assert_eq!(v.left_icon(), "\u{1f507}");
    assert_eq!(v.right_icon(), "\u{1f50a}");
    let quiet = Volume { left: 13106, right: 39318, mute: false };
    assert_eq!(quiet.left_pct(), 20);
    assert_eq!(quiet.left_icon(), "\u{1f508}");
    assert_eq!(quiet.right_pct(), 60);
    assert_eq!(quiet.right_icon(), "\u{1f509}");
    let muted = Volume { left: 65530, right: 65530, mute: true };
    assert_eq!(muted.left_icon(), "\u{1f507}");
    assert_eq!(muted.right_icon(), "\u{1f507}");
}

#[test]
fn volume_line_rendered_exactly() {
    let theme = Theme::tokyonight_normal();
    let v = Volume { left: 65530, right: 65530, mute: false };
    assert_eq!(
        volume_line(&v, &theme),
        "<span font_size=\"120%\" >\u{1f50a}</span> <span color=\"#c0caf5\" font_size=\"110%\" weight=\"ultrabold\" >100</span><span color=\"#a9b1d6\" >%</span>"
    );
}

#[test]
fn brightness_zero_current_with_default_max() {
    let b = BrightnessInfo { current: 0, max: 1 };
    assert_eq!(b.pct(), 0);
    assert_eq!(b.icon(), "\u{1f311}");
}

#[test]
fn brightness_icon_bands() {
    let cases: [(u64, &str); 5] = [
        (0, "\u{1f311}"),
        (20, "\u{1f312}"),
        (50, "\u{1f313}"),
        (80, "\u{1f314}"),
        (100, "\u{1f315}"),
    ];
    for (pct, icon) in cases {
        let b = BrightnessInfo { current: pct, max: 100 };
        assert_eq!(b.pct(), pct);
        assert_eq!(b.icon(), icon);
    }
}

#[test]
fn digit_rendering() {
    assert_eq!(u64_to_string(0), "0");
    assert_eq!(u64_to_string(907), "907");
    assert_eq!(u64_to_string_pad2(5), "05");
    assert_eq!(u64_to_string_pad2(59), "59");
    assert_eq!(u64_to_string_pad2(123), "123");
}

fn clock(hour: u32, minute: u32, second: u32) -> ClockTime {
    ClockTime { year: 2024, month: 7, day: 3, hour, minute, second }
}

#[test]
fn localized_hour_zero_displays_as_twelve() {
    let c = clock(0, 0, 0);
    assert_eq!(c.localized_hour(true), 12);
    assert_eq!(c.localized_time_string(false, true), "12:00");
    assert_eq!(c.localized_hour(false), 0);
    assert_eq!(c.localized_time_string(false, false), "00:00");
}

#[test]
fn localized_hour_wraps_afternoon() {
    let c = clock(15, 30, 0);
    assert_eq!(c.localized_hour(true), 3);
    assert_eq!(c.localized_hour(false), 15);
}

#[test]
fn day_period_bands() {
    assert_eq!(clock(3, 0, 0).day_period(), "\u{51cc}\u{6668}");
    assert_eq!(clock(9, 0, 0).day_period(), "\u{4e0a}\u{5348}");
    assert_eq!(clock(13, 0, 0).day_period(), "\u{4e2d}\u{5348}");
    assert_eq!(clock(16, 0, 0).day_period(), "\u{4e0b}\u{5348}");
    assert_eq!(clock(22, 0, 0).day_period(), "\u{665a}\u{4e0a}");
}

#[test]
fn english_time_line() {
    let c = ClockTime { year: 2024, month: 7, day: 3, hour: 14, minute: 5, second: 9 };
    assert_eq!(c.time_line(true, true), "2024-07-03 14:05:09 PM");
    assert_eq!(c.time_line(false, false), "14:05 PM");
    let morning = ClockTime { year: 2024, month: 7, day: 3, hour: 0, minute: 0, second: 0 };
    assert_eq!(morning.time_line(false, false), "00:00 AM");
    assert_eq!(morning.date_string(), "2024-07-03");
}

#[test]
fn localized_line_without_date_is_plain() {
    let c = clock(0, 7, 0);
    let theme = Theme::tokyonight_normal();
    assert_eq!(c.time_zh_line(&theme, false, false, true), "12:07 \u{51cc}\u{6668}");
}

#[test]
fn localized_line_with_date_is_styled() {
    let c = ClockTime { year: 2024, month: 7, day: 3, hour: 22, minute: 7, second: 0 };
    let theme = Theme::tokyonight_normal();
    let line = c.time_zh_line(&theme, false, true, true);
    let expected = "<span color=\"#c0caf5\" font_size=\"110%\" weight=\"ultrabold\" >2024</span>\
<span color=\"#a9b1d6\" >\u{5e74}</span>\
<span color=\"#c0caf5\" font_size=\"110%\" weight=\"ultrabold\" >7</span>\
<span color=\"#a9b1d6\" >\u{6708}</span>\
<span color=\"#c0caf5\" font_size=\"110%\" weight=\"ultrabold\" >3</span>\
<span color=\"#a9b1d6\" >\u{65e5}</span> \
<span color=\"#c0caf5\" font_size=\"120%\" weight=\"ultrabold\" >10:07</span> \
<span color=\"#a9b1d6\" >\u{665a}\u{4e0a}</span>";
    assert_eq!(line, expected);
}

#[test]
fn current_time_is_well_formed() {
    if let Some(c) = statusline::clock::current_clock_time() {
        assert!(c.check_wf());
        assert_eq!(c.hm_string(false).len(), 5);
    }
}

#[test]
fn volume_pct_is_total_at_extremes() {
    let v = Volume { left: u64::MAX, right: 0, mute: false };
    let expected = (u64::MAX as u128 * 100 / 65530) as u64;
    assert_eq!(v.left_pct(), expected);
    assert_eq!(v.right_pct(), 0);
}

#[test]
fn brightness_pct_at_admitted_maximum() {
    let b = BrightnessInfo { current: 184467440737095516, max: 1 };
    assert_eq!(b.pct(), 18446744073709551600);
}

#[test]
fn brightness_current_beyond_range_rejected() {
    let err = statusline::brightness::parse_brightness(
        "Current brightness: 184467440737095517\n",
    )
    .unwrap_err();
    assert!(matches!(
        err,
        statusline::errors::ParseError::InvalidNumber { .. }
    ));
}

#[test]
fn numeric_range_edges() {
    let huge = "header\nMem: 18446744073709551615 1\n";
    let m = statusline::memory::parse_memory(huge).unwrap();
    assert_eq!(m.total, u64::MAX);
    let over = "header\nMem: 18446744073709551616 1\n";
    assert!(statusline::memory::parse_memory(over).is_err());
    let big_energy = "    energy: 1000000 Wh\n    energy-full: 53.2 Wh\n    time to empty: 2.5 hours\n    state: discharging\n";
    assert!(parse_battery(big_energy).is_err());
    let dot_forms = "    energy: .5 Wh\n    energy-full: 53.2 Wh\n    time to empty: 2.5 hours\n    state: discharging\n";
    assert!(parse_battery(dot_forms).is_err());
    let trailing_dot = "    energy: 5. Wh\n    energy-full: 53.2 Wh\n    time to empty: 2.5 hours\n    state: discharging\n";
    assert!(parse_battery(trailing_dot).is_err());
}

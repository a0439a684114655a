//! The battery reading.
//!
//! The power tool's output supplies four lines: `energy-full:`, `energy:`,
//! a `time to empty` or `time to full` line, and `state:`.  Energies and
//! times are decimals, held here in fixed point (micro-units, see
//! [`crate::num`]).  The time line's value is followed by a unit token; when
//! that token is `minutes` the value is divided by 60 to normalize to
//! hours.  The state token maps `charging` and `discharging` to their
//! states and anything else to `Full`.

use vstd::prelude::*;

verus! {

use vstd::arithmetic::div_mod::{lemma_div_is_ordered, lemma_div_multiples_vanish};
use crate::errors::{ParseError, SpecError};
use crate::markup::{colored_span, icon_span, spec_span, value_span_sized};
use crate::num::{
    char_of_digit, is_digit, spec_pad2, spec_parse_decimal_micro, spec_u64_digits,
    u64_to_string_pad2, parse_decimal_micro, MAX_DECIMAL_MICRO, MICRO,
};
use crate::text::{
    chars_eq_str, find_line_with_prefix, find_prefixed, spec_lines, spec_nth_field, split_fields,
    split_lines, to_chars,
};
use crate::theme::Theme;

/// The charge state the power tool reports.
#[derive(Clone, Copy, PartialEq, Eq, Structural, Debug)]
pub enum BatteryState {
    Charging,
    Discharging,
    Full,
}

/// A battery snapshot.  Energies are in micro-units of the tool's energy
/// unit; the projected time to empty or full is in micro-hours.
#[derive(Clone, Copy, PartialEq, Eq, Structural, Debug)]
pub struct BatteryInfo {
    pub energy_full_micro: u64,
    pub energy_micro: u64,
    pub time_micro_hours: u64,
    pub state: BatteryState,
}

/// The state a `state:` token denotes.
pub open spec fn spec_state_of(st: Seq<char>) -> BatteryState {
    if st == "charging"@ {
        BatteryState::Charging
    } else if st == "discharging"@ {
        BatteryState::Discharging
    } else {
        BatteryState::Full
    }
}

/// `secs` rendered as zero-padded `HH:MM`: truncated hours, then the
/// minutes of the remainder.
pub open spec fn spec_duration_hm(secs: int) -> Seq<char> {
    spec_pad2(secs / 3600) + ":"@ + spec_pad2(secs % 3600 / 60)
}

impl BatteryInfo {
    /// A well-formed reading: the full energy is positive, and every
    /// quantity is within the range a decimal token can parse to.
    pub open spec fn wf(&self) -> bool {
        1 <= self.energy_full_micro <= MAX_DECIMAL_MICRO && self.energy_micro <= MAX_DECIMAL_MICRO
            && self.time_micro_hours <= MAX_DECIMAL_MICRO
    }

    /// The charge percentage: energy over full energy, scaled to 100 and
    /// truncated.
    pub open spec fn spec_percentage(&self) -> int {
        self.energy_micro as int * 100 / self.energy_full_micro as int
    }

    /// The projected time in whole seconds.
    pub open spec fn spec_time_secs(&self) -> int {
        self.time_micro_hours as int * 3600 / MICRO as int
    }

    /// The charge percentage, truncating.
    pub fn percentage(&self) -> (r: u64)
        requires
            self.wf(),
        ensures
            r == self.spec_percentage(),
    {
        self.energy_micro * 100 / self.energy_full_micro
    }

    /// The projected time to empty or full, in whole seconds.
    pub fn time_to_empty_full_secs(&self) -> (r: u64)
        requires
            self.wf(),
        ensures
            r == self.spec_time_secs(),
    {
        self.time_micro_hours * 3600 / MICRO
    }

    /// The projected time rendered as zero-padded `HH:MM`.
    pub fn time_to_empty_full_str(&self) -> (r: String)
        requires
            self.wf(),
        ensures
            r@ == spec_duration_hm(self.spec_time_secs()),
    {
        let secs = self.time_to_empty_full_secs();
        let hours = secs / 3600;
        let minutes = (secs % 3600) / 60;
        let mut s = u64_to_string_pad2(hours);
        s.append(":");
        let m = u64_to_string_pad2(minutes);
        s.append(m.as_str());
        proof {
            assert(s@ =~= spec_duration_hm(self.spec_time_secs()));
        }
        s
    }

    /// The icon: charging shows the plug; otherwise 20 percent or more
    /// shows the full-ish battery and less shows the low one.
    pub fn icon(&self) -> (r: &'static str)
        requires
            self.wf(),
        ensures
            r@ == spec_battery_icon(*self),
    {
        if self.state == BatteryState::Charging {
            "\u{1f50c}"
        } else {
            if self.percentage() >= 20 {
                "\u{1f50b}"
            } else {
                "\u{1faab}"
            }
        }
    }

    /// Whether this reading is well-formed, decided at run time.
    pub fn check_wf(&self) -> (r: bool)
        ensures
            r == self.wf(),
    {
        1 <= self.energy_full_micro && self.energy_full_micro <= MAX_DECIMAL_MICRO
            && self.energy_micro <= MAX_DECIMAL_MICRO && self.time_micro_hours <= MAX_DECIMAL_MICRO
    }
}

/// The icon a battery reading selects.
pub open spec fn spec_battery_icon(b: BatteryInfo) -> Seq<char> {
    if b.state == BatteryState::Charging {
        "\u{1f50c}"@
    } else if b.spec_percentage() >= 20 {
        "\u{1f50b}"@
    } else {
        "\u{1faab}"@
    }
}

/// What parsing the power tool's output yields.  The four required lines
/// are sought in a fixed order — `energy-full:`, `energy:`, `time to`,
/// `state:` — and the first line, field or number that is missing or
/// unreadable decides the failure.
pub open spec fn spec_parse_battery(text: Seq<char>) -> Result<BatteryInfo, SpecError> {
    let lines = spec_lines(text);
    match find_prefixed(lines, "energy-full:"@) {
        Option::None => Result::Err(SpecError::MissingLine("energy-full"@)),
        Option::Some(l1) => match spec_nth_field(l1, 1) {
            Option::None => Result::Err(SpecError::MissingField("energy-full"@)),
            Option::Some(t1) => match spec_parse_decimal_micro(t1) {
                Option::None => Result::Err(SpecError::InvalidNumber("energy-full"@)),
                Option::Some(ef) => if ef == 0 {
                    Result::Err(SpecError::InvalidNumber("energy-full"@))
                } else {
                    match find_prefixed(lines, "energy:"@) {
                        Option::None => Result::Err(SpecError::MissingLine("energy"@)),
                        Option::Some(l2) => match spec_nth_field(l2, 1) {
                            Option::None => Result::Err(SpecError::MissingField("energy"@)),
                            Option::Some(t2) => match spec_parse_decimal_micro(t2) {
                                Option::None => Result::Err(SpecError::InvalidNumber("energy"@)),
                                Option::Some(e) => spec_parse_battery_time(lines, ef, e),
                            },
                        },
                    }
                },
            },
        },
    }
}

/// The tail of the battery model: the `time to` line, then the `state:`
/// line.
pub open spec fn spec_parse_battery_time(lines: Seq<Seq<char>>, ef: u64, e: u64) -> Result<
    BatteryInfo,
    SpecError,
> {
    match find_prefixed(lines, "time to"@) {
        Option::None => Result::Err(SpecError::MissingLine("time to empty or full"@)),
        Option::Some(l3) => match spec_nth_field(l3, 3) {
            Option::None => Result::Err(SpecError::MissingField("time to empty or full"@)),
            Option::Some(t3) => match spec_parse_decimal_micro(t3) {
                Option::None => Result::Err(SpecError::InvalidNumber("time to empty or full"@)),
                Option::Some(tv) => match spec_nth_field(l3, 4) {
                    Option::None => Result::Err(
                        SpecError::MissingField("time to empty or full"@),
                    ),
                    Option::Some(unit) => {
                        let t = if unit == "minutes"@ {
                            tv / 60
                        } else {
                            tv
                        };
                        match find_prefixed(lines, "state:"@) {
                            Option::None => Result::Err(SpecError::MissingLine("state"@)),
                            Option::Some(l4) => match spec_nth_field(l4, 1) {
                                Option::None => Result::Err(SpecError::MissingField("state"@)),
                                Option::Some(st) => Result::Ok(
                                    BatteryInfo {
                                        energy_full_micro: ef,
                                        energy_micro: e,
                                        time_micro_hours: t,
                                        state: spec_state_of(st),
                                    },
                                ),
                            },
                        }
                    },
                },
            },
        },
    }
}

/// Parses the power tool's output, exactly as the model says; a successful
/// reading is well-formed.
pub fn parse_battery(text: &str) -> (r: Result<BatteryInfo, ParseError>)
    ensures
        match (r, spec_parse_battery(text@)) {
            (Result::Ok(b), Result::Ok(sb)) => b == sb && b.wf(),
            (Result::Err(e), Result::Err(se)) => e.model() == se,
            _ => false,
        },
{
    let chars = to_chars(text);
    let lines = split_lines(&chars);
    let ef: u64 = match find_line_with_prefix(&lines, "energy-full:") {
        None => {
            return Err(ParseError::missing_line("energy-full"));
        },
        Some(l) => {
            let fs = split_fields(l);
            if fs.len() <= 1 {
                return Err(ParseError::missing_field("energy-full"));
            }
            match parse_decimal_micro(&fs[1]) {
                None => {
                    return Err(ParseError::invalid_number("energy-full"));
                },
                Some(v) => {
                    if v == 0 {
                        return Err(ParseError::invalid_number("energy-full"));
                    }
                    v
                },
            }
        },
    };
    let e: u64 = match find_line_with_prefix(&lines, "energy:") {
        None => {
            return Err(ParseError::missing_line("energy"));
        },
        Some(l) => {
            let fs = split_fields(l);
            if fs.len() <= 1 {
                return Err(ParseError::missing_field("energy"));
            }
            match parse_decimal_micro(&fs[1]) {
                None => {
                    return Err(ParseError::invalid_number("energy"));
                },
                Some(v) => v,
            }
        },
    };
    let t: u64 = match find_line_with_prefix(&lines, "time to") {
        None => {
            return Err(ParseError::missing_line("time to empty or full"));
        },
        Some(l) => {
            let fs = split_fields(l);
            if fs.len() <= 3 {
                return Err(ParseError::missing_field("time to empty or full"));
            }
            let tv = match parse_decimal_micro(&fs[3]) {
                None => {
                    return Err(ParseError::invalid_number("time to empty or full"));
                },
                Some(v) => v,
            };
            if fs.len() <= 4 {
                return Err(ParseError::missing_field("time to empty or full"));
            }
            if chars_eq_str(&fs[4], "minutes") {
                tv / 60
            } else {
                tv
            }
        },
    };
    let state: BatteryState = match find_line_with_prefix(&lines, "state:") {
        None => {
            return Err(ParseError::missing_line("state"));
        },
        Some(l) => {
            let fs = split_fields(l);
            if fs.len() <= 1 {
                return Err(ParseError::missing_field("state"));
            }
            if chars_eq_str(&fs[1], "charging") {
                BatteryState::Charging
            } else if chars_eq_str(&fs[1], "discharging") {
                BatteryState::Discharging
            } else {
                BatteryState::Full
            }
        },
    };
    Ok(BatteryInfo { energy_full_micro: ef, energy_micro: e, time_micro_hours: t, state })
}

/// The rendered battery snippet: the icon, the percentage in the emphasis
/// style with a plain percent sign, and the projected `HH:MM`.
pub open spec fn spec_battery_line(b: BatteryInfo, t: Theme) -> Seq<char> {
    spec_span(
        Option::None,
        Option::None,
        Option::Some("120%"@),
        Option::None,
        spec_battery_icon(b),
    ) + " "@ + spec_span(
        Option::Some(t.foreground@),
        Option::None,
        Option::Some("110%"@),
        Option::Some("ultrabold"@),
        spec_u64_digits(b.spec_percentage()),
    ) + spec_span(
        Option::Some(t.white@),
        Option::None,
        Option::None,
        Option::None,
        "%"@,
    ) + " "@ + spec_span(
        Option::Some(t.white@),
        Option::None,
        Option::None,
        Option::None,
        spec_duration_hm(b.spec_time_secs()),
    )
}

/// Renders the battery snippet.
pub fn battery_line(info: &BatteryInfo, theme: &Theme) -> (r: String)
    requires
        info.wf(),
    ensures
        r@ == spec_battery_line(*info, *theme),
{
    let pct = crate::num::u64_to_string(info.percentage());
    let dur = info.time_to_empty_full_str();
    let mut s = icon_span(info.icon());
    s.append(" ");
    let val = value_span_sized(theme.foreground(), "110%", pct.as_str());
    s.append(val.as_str());
    let sign = colored_span(theme.white(), "%");
    s.append(sign.as_str());
    s.append(" ");
    let time = colored_span(theme.white(), dur.as_str());
    s.append(time.as_str());
    proof {
        assert(s@ =~= spec_battery_line(*info, *theme));
    }
    s
}

/// The battery snippet, or the policy on failure.  A missing line or field
/// means the device is absent: in default mode that is swallowed and the
/// fixed plug glyph stands in, while debug mode surfaces it.  An invalid
/// number is a genuine contract violation by the tool and surfaces in
/// either mode.
pub fn battery_report(parsed: Result<BatteryInfo, ParseError>, debug: bool, theme: &Theme) -> (r:
    Result<String, ParseError>)
    requires
        parsed is Ok ==> parsed->Ok_0.wf(),
    ensures
        match (parsed, r) {
            (Result::Ok(b), Result::Ok(s)) => s@ == spec_battery_line(b, *theme),
            (Result::Err(e), Result::Ok(s)) => !debug && !(e.model() is InvalidNumber) && s@
                == "\u{1f50c}"@,
            (Result::Err(e), Result::Err(e2)) => (debug || e.model() is InvalidNumber)
                && e2.model() == e.model(),
            _ => false,
        },
{
    match parsed {
        Ok(b) => Ok(battery_line(&b, theme)),
        Err(e) => {
            let malformed = matches!(&e, ParseError::InvalidNumber { .. });
            if debug || malformed {
                Err(e)
            } else {
                Ok(String::from_str("\u{1f50c}"))
            }
        },
    }
}

/// For a well-formed reading whose energy does not exceed the full energy
/// and whose projected time is under 100 hours, the percentage lies in
/// `[0, 100]` and the duration renders as two digits, a colon, and two
/// digits.
pub proof fn lemma_battery_display_shape(b: BatteryInfo)
    requires
        b.wf(),
        b.energy_micro <= b.energy_full_micro,
        b.time_micro_hours < 100 * MICRO,
    ensures
        0 <= b.spec_percentage() <= 100,
        spec_duration_hm(b.spec_time_secs()).len() == 5,
        is_digit(spec_duration_hm(b.spec_time_secs())[0]),
        is_digit(spec_duration_hm(b.spec_time_secs())[1]),
        spec_duration_hm(b.spec_time_secs())[2] == ':',
        is_digit(spec_duration_hm(b.spec_time_secs())[3]),
        is_digit(spec_duration_hm(b.spec_time_secs())[4]),
{
    let e = b.energy_micro as int;
    let f = b.energy_full_micro as int;
    assert(e * 100 <= f * 100);
    lemma_div_is_ordered(e * 100, f * 100, f);
    lemma_div_multiples_vanish(100, f);
    assert(f * 100 == f * 100);
    assert(b.spec_percentage() <= 100);
    let secs = b.spec_time_secs();
    assert(b.time_micro_hours as int * 3600 <= (100 * MICRO - 1) * 3600);
    lemma_div_is_ordered(b.time_micro_hours as int * 3600, (100 * MICRO - 1) * 3600, MICRO as int);
    assert(secs <= 359999);
    let h = secs / 3600;
    let m = secs % 3600 / 60;
    assert(0 <= h <= 99);
    assert(0 <= m <= 59);
    lemma_pad2_digits(h);
    lemma_pad2_digits(m);
    let d = spec_duration_hm(secs);
    reveal_strlit(":");
    assert(":"@.len() == 1);
    assert(d[2] == ":"@[0]);
    assert(d[0] == spec_pad2(h)[0] && d[1] == spec_pad2(h)[1]);
    assert(d[3] == spec_pad2(m)[0] && d[4] == spec_pad2(m)[1]);
}

/// A two-digit rendering of a value up to 99 is two decimal digits.
pub proof fn lemma_pad2_digits(n: int)
    requires
        0 <= n <= 99,
    ensures
        spec_pad2(n).len() == 2,
        is_digit(spec_pad2(n)[0]),
        is_digit(spec_pad2(n)[1]),
{
    lemma_char_of_digit_is_digit(n % 10);
    if n <= 9 {
        lemma_char_of_digit_is_digit(n);
    } else {
        assert(spec_u64_digits(n) == spec_u64_digits(n / 10).push(char_of_digit(n % 10)));
        assert(1 <= n / 10 <= 9);
        assert(spec_u64_digits(n / 10) == seq![char_of_digit(n / 10)]);
        lemma_char_of_digit_is_digit(n / 10);
    }
}

/// Digit characters are digits.
pub proof fn lemma_char_of_digit_is_digit(d: int)
    requires
        0 <= d <= 9,
    ensures
        is_digit(char_of_digit(d)),
{
}

} // verus!

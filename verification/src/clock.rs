//! The clock reading and its two renderings.
//!
//! A clock value is plain calendar and time-of-day components.  The English
//! rendering is a 24-hour `HH:MM` with an `AM`/`PM` label and an optional
//! `YYYY-MM-DD` date.  The localized rendering uses a five-way day-period
//! label, an optional 12-hour mode in which hour 0 displays as 12, and a
//! styled date whose year, month and day each carry a unit glyph.

use vstd::prelude::*;

use chrono::Datelike;
use chrono::Timelike;

verus! {

use crate::markup::{colored_span, spec_span, value_span_sized};
use crate::num::{
    spec_pad2, spec_pad4, spec_u64_digits, u64_to_string, u64_to_string_pad2, u64_to_string_pad4,
};
use crate::theme::Theme;

/// A local date and time, component by component.
#[derive(Clone, Copy, PartialEq, Eq, Structural, Debug)]
pub struct ClockTime {
    pub year: u32,
    pub month: u32,
    pub day: u32,
    pub hour: u32,
    pub minute: u32,
    pub second: u32,
}

impl ClockTime {
    /// A well-formed clock value: a four-digit year, calendar month and
    /// day, and a time of day.
    pub open spec fn wf(&self) -> bool {
        self.year <= 9999 && 1 <= self.month <= 12 && 1 <= self.day <= 31 && self.hour <= 23
            && self.minute <= 59 && self.second <= 59
    }

    /// Whether this clock value is well-formed, decided at run time.
    pub fn check_wf(&self) -> (r: bool)
        ensures
            r == self.wf(),
    {
        self.year <= 9999 && 1 <= self.month && self.month <= 12 && 1 <= self.day && self.day <= 31
            && self.hour <= 23 && self.minute <= 59 && self.second <= 59
    }

    /// Builds a clock value from raw components, refusing any that fall
    /// outside the model's ranges.
    pub fn from_parts(year: i32, month: u32, day: u32, hour: u32, minute: u32, second: u32) -> (r:
        Option<ClockTime>)
        ensures
            match r {
                Option::Some(c) => c.wf() && c.year == year && c.month == month && c.day == day
                    && c.hour == hour && c.minute == minute && c.second == second,
                Option::None => !(0 <= year <= 9999 && 1 <= month <= 12 && 1 <= day <= 31 && hour
                    <= 23 && minute <= 59 && second <= 59),
            },
    {
        if 0 <= year && year <= 9999 && 1 <= month && month <= 12 && 1 <= day && day <= 31 && hour
            <= 23 && minute <= 59 && second <= 59 {
            Some(ClockTime { year: year as u32, month, day, hour, minute, second })
        } else {
            None
        }
    }
}

/// Relies on chrono's `Local::now` together with its `Datelike` and
/// `Timelike` accessors, whose documented ranges are: month 1 to 12, day
/// 1 to 31, hour 0 to 23, minute 0 to 59, second 0 to 59.  The year
/// carries no documented bound.
#[verifier::external_body]
fn local_now_parts() -> (r: (i32, u32, u32, u32, u32, u32))
    ensures
        1 <= r.1 <= 12,
        1 <= r.2 <= 31,
        r.3 <= 23,
        r.4 <= 59,
        r.5 <= 59,
{
    let t = chrono::Local::now();
    (t.year(), t.month(), t.day(), t.hour(), t.minute(), t.second())
}

/// The local time now, as a clock value; `None` only if the reported year
/// falls outside 0 to 9999.
pub fn current_clock_time() -> (r: Option<ClockTime>)
    ensures
        match r {
            Option::Some(c) => c.wf(),
            Option::None => true,
        },
{
    let parts = local_now_parts();
    ClockTime::from_parts(parts.0, parts.1, parts.2, parts.3, parts.4, parts.5)
}

/// The 24-hour time: `HH:MM`, with `:SS` when seconds are requested.
pub open spec fn spec_hm(c: ClockTime, seconds: bool) -> Seq<char> {
    let base = spec_pad2(c.hour as int) + ":"@ + spec_pad2(c.minute as int);
    if seconds {
        base + ":"@ + spec_pad2(c.second as int)
    } else {
        base
    }
}

/// The period label: `AM` for hours 0 to 11, `PM` for 12 to 23.
pub open spec fn spec_am_pm(c: ClockTime) -> Seq<char> {
    if c.hour < 12 {
        "AM"@
    } else {
        "PM"@
    }
}

/// The date as `YYYY-MM-DD`.
pub open spec fn spec_date(c: ClockTime) -> Seq<char> {
    spec_pad4(c.year as int) + "-"@ + spec_pad2(c.month as int) + "-"@ + spec_pad2(c.day as int)
}

/// The English line: the optional date, the time, and the period label,
/// space-separated, all unstyled.
pub open spec fn spec_time_line(c: ClockTime, seconds: bool, date: bool) -> Seq<char> {
    if date {
        spec_date(c) + " "@ + spec_hm(c, seconds) + " "@ + spec_am_pm(c)
    } else {
        spec_hm(c, seconds) + " "@ + spec_am_pm(c)
    }
}

/// The displayed hour: reduced modulo 12 or 24, with hour 0 shown as 12
/// on the 12-hour clock only.
pub open spec fn spec_localized_hour(c: ClockTime, twelve: bool) -> int {
    let h = c.hour as int % (if twelve {
        12int
    } else {
        24int
    });
    if twelve && h == 0 {
        12
    } else {
        h
    }
}

/// The five-way localized day-period label.
pub open spec fn spec_day_period(c: ClockTime) -> Seq<char> {
    if c.hour <= 5 {
        "\u{51cc}\u{6668}"@
    } else if c.hour <= 11 {
        "\u{4e0a}\u{5348}"@
    } else if c.hour <= 13 {
        "\u{4e2d}\u{5348}"@
    } else if c.hour <= 17 {
        "\u{4e0b}\u{5348}"@
    } else {
        "\u{665a}\u{4e0a}"@
    }
}

/// The localized time: the displayed hour, minutes, and optional seconds.
pub open spec fn spec_localized_time(c: ClockTime, seconds: bool, twelve: bool) -> Seq<char> {
    let base = spec_pad2(spec_localized_hour(c, twelve)) + ":"@ + spec_pad2(c.minute as int);
    if seconds {
        base + ":"@ + spec_pad2(c.second as int)
    } else {
        base
    }
}

/// The localized date markup: year, month and day in the emphasis style,
/// each followed by its plainly colored unit glyph.
pub open spec fn spec_localized_date_markup(c: ClockTime, t: Theme) -> Seq<char> {
    spec_span(
        Option::Some(t.foreground@),
        Option::None,
        Option::Some("110%"@),
        Option::Some("ultrabold"@),
        spec_u64_digits(c.year as int),
    ) + spec_span(
        Option::Some(t.white@),
        Option::None,
        Option::None,
        Option::None,
        "\u{5e74}"@,
    ) + spec_span(
        Option::Some(t.foreground@),
        Option::None,
        Option::Some("110%"@),
        Option::Some("ultrabold"@),
        spec_u64_digits(c.month as int),
    ) + spec_span(
        Option::Some(t.white@),
        Option::None,
        Option::None,
        Option::None,
        "\u{6708}"@,
    ) + spec_span(
        Option::Some(t.foreground@),
        Option::None,
        Option::Some("110%"@),
        Option::Some("ultrabold"@),
        spec_u64_digits(c.day as int),
    ) + spec_span(
        Option::Some(t.white@),
        Option::None,
        Option::None,
        Option::None,
        "\u{65e5}"@,
    )
}

/// The localized line: with the date, the styled date, time and period;
/// without it, the plain time and period.
pub open spec fn spec_time_zh_line(
    c: ClockTime,
    t: Theme,
    seconds: bool,
    date: bool,
    twelve: bool,
) -> Seq<char> {
    if date {
        spec_localized_date_markup(c, t) + " "@ + spec_span(
            Option::Some(t.foreground@),
            Option::None,
            Option::Some("120%"@),
            Option::Some("ultrabold"@),
            spec_localized_time(c, seconds, twelve),
        ) + " "@ + spec_span(
            Option::Some(t.white@),
            Option::None,
            Option::None,
            Option::None,
            spec_day_period(c),
        )
    } else {
        spec_localized_time(c, seconds, twelve) + " "@ + spec_day_period(c)
    }
}

impl ClockTime {
    /// Renders the 24-hour time.
    pub fn hm_string(&self, seconds: bool) -> (r: String)
        ensures
            r@ == spec_hm(*self, seconds),
    {
        let mut s = u64_to_string_pad2(self.hour as u64);
        s.append(":");
        let m = u64_to_string_pad2(self.minute as u64);
        s.append(m.as_str());
        if seconds {
            s.append(":");
            let sec = u64_to_string_pad2(self.second as u64);
            s.append(sec.as_str());
        }
        proof {
            assert(s@ =~= spec_hm(*self, seconds));
        }
        s
    }

    /// The period label for this hour.
    pub fn am_pm(&self) -> (r: &'static str)
        ensures
            r@ == spec_am_pm(*self),
    {
        if self.hour < 12 {
            "AM"
        } else {
            "PM"
        }
    }

    /// Renders the date as `YYYY-MM-DD`.
    pub fn date_string(&self) -> (r: String)
        requires
            self.wf(),
        ensures
            r@ == spec_date(*self),
    {
        let mut s = u64_to_string_pad4(self.year as u64);
        s.append("-");
        let mo = u64_to_string_pad2(self.month as u64);
        s.append(mo.as_str());
        s.append("-");
        let d = u64_to_string_pad2(self.day as u64);
        s.append(d.as_str());
        proof {
            assert(s@ =~= spec_date(*self));
        }
        s
    }

    /// Renders the English line.
    pub fn time_line(&self, seconds: bool, date: bool) -> (r: String)
        requires
            self.wf(),
        ensures
            r@ == spec_time_line(*self, seconds, date),
    {
        if date {
            let mut s = self.date_string();
            s.append(" ");
            let hm = self.hm_string(seconds);
            s.append(hm.as_str());
            s.append(" ");
            s.append(self.am_pm());
            proof {
                assert(s@ =~= spec_time_line(*self, seconds, date));
            }
            s
        } else {
            let mut s = self.hm_string(seconds);
            s.append(" ");
            s.append(self.am_pm());
            proof {
                assert(s@ =~= spec_time_line(*self, seconds, date));
            }
            s
        }
    }

    /// The hour as displayed: modulo 12 or 24, with 0 shown as 12 in
    /// 12-hour mode.
    pub fn localized_hour(&self, twelve: bool) -> (r: u32)
        ensures
            r == spec_localized_hour(*self, twelve),
    {
        let h = if twelve {
            self.hour % 12
        } else {
            self.hour % 24
        };
        if twelve && h == 0 {
            12
        } else {
            h
        }
    }

    /// The localized day-period label for this hour.
    pub fn day_period(&self) -> (r: &'static str)
        ensures
            r@ == spec_day_period(*self),
    {
        if self.hour <= 5 {
            "\u{51cc}\u{6668}"
        } else if self.hour <= 11 {
            "\u{4e0a}\u{5348}"
        } else if self.hour <= 13 {
            "\u{4e2d}\u{5348}"
        } else if self.hour <= 17 {
            "\u{4e0b}\u{5348}"
        } else {
            "\u{665a}\u{4e0a}"
        }
    }

    /// Renders the localized time.
    pub fn localized_time_string(&self, seconds: bool, twelve: bool) -> (r: String)
        ensures
            r@ == spec_localized_time(*self, seconds, twelve),
    {
        let mut s = u64_to_string_pad2(self.localized_hour(twelve) as u64);
        s.append(":");
        let m = u64_to_string_pad2(self.minute as u64);
        s.append(m.as_str());
        if seconds {
            s.append(":");
            let sec = u64_to_string_pad2(self.second as u64);
            s.append(sec.as_str());
        }
        proof {
            assert(s@ =~= spec_localized_time(*self, seconds, twelve));
        }
        s
    }

    /// Renders the localized date markup.
    pub fn localized_date_markup(&self, theme: &Theme) -> (r: String)
        ensures
            r@ == spec_localized_date_markup(*self, *theme),
    {
        let y = u64_to_string(self.year as u64);
        let mut s = value_span_sized(theme.foreground(), "110%", y.as_str());
        let nian = colored_span(theme.white(), "\u{5e74}");
        s.append(nian.as_str());
        let mo = u64_to_string(self.month as u64);
        let mo_span = value_span_sized(theme.foreground(), "110%", mo.as_str());
        s.append(mo_span.as_str());
        let yue = colored_span(theme.white(), "\u{6708}");
        s.append(yue.as_str());
        let d = u64_to_string(self.day as u64);
        let d_span = value_span_sized(theme.foreground(), "110%", d.as_str());
        s.append(d_span.as_str());
        let ri = colored_span(theme.white(), "\u{65e5}");
        s.append(ri.as_str());
        proof {
            assert(s@ =~= spec_localized_date_markup(*self, *theme));
        }
        s
    }

    /// Renders the localized line.
    pub fn time_zh_line(&self, theme: &Theme, seconds: bool, date: bool, twelve: bool) -> (r:
        String)
        ensures
            r@ == spec_time_zh_line(*self, *theme, seconds, date, twelve),
    {
        let time_str = self.localized_time_string(seconds, twelve);
        if date {
            let mut s = self.localized_date_markup(theme);
            s.append(" ");
            let t_span = value_span_sized(theme.foreground(), "120%", time_str.as_str());
            s.append(t_span.as_str());
            s.append(" ");
            let p_span = colored_span(theme.white(), self.day_period());
            s.append(p_span.as_str());
            proof {
                assert(s@ =~= spec_time_zh_line(*self, *theme, seconds, date, twelve));
            }
            s
        } else {
            let mut s = time_str;
            s.append(" ");
            s.append(self.day_period());
            proof {
                assert(s@ =~= spec_time_zh_line(*self, *theme, seconds, date, twelve));
            }
            s
        }
    }
}

} // verus!

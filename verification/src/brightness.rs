//! The display brightness reading.
//!
//! The brightness tool prints `Current brightness: <n> ...` and
//! `Max brightness: <n>` lines; each value is the third field of its line.
//! A missing current value defaults to 0 and a missing maximum to 1, so the
//! percentage division is always defined.

use vstd::prelude::*;

verus! {

use crate::errors::{ParseError, SpecError};
use crate::markup::{colored_span, icon_span, spec_span, value_span_sized};
use crate::num::{spec_parse_u64, spec_u64_digits, u64_to_string, parse_u64};
use crate::text::{
    find_line_with_prefix, find_prefixed, spec_lines, spec_nth_field, split_fields, split_lines,
    to_chars,
};
use crate::theme::Theme;

/// Largest current value a reading admits, so that the percent conversion
/// stays within `u64`.
pub const MAX_CURRENT: u64 = 184467440737095516;

/// A brightness snapshot: the current level and the device maximum.
#[derive(Clone, Copy, PartialEq, Eq, Structural, Debug)]
pub struct BrightnessInfo {
    pub current: u64,
    pub max: u64,
}

impl BrightnessInfo {
    /// A well-formed reading: the maximum is positive (the parser defaults
    /// it to 1), and the current level is small enough that scaling it by
    /// 100 stays within `u64`.
    pub open spec fn wf(&self) -> bool {
        self.max >= 1 && self.current <= MAX_CURRENT
    }

    /// The brightness as a percentage of the maximum, truncating.
    pub fn pct(&self) -> (r: u64)
        requires
            self.wf(),
        ensures
            r == self.current as int * 100 / self.max as int,
    {
        self.current * 100 / self.max
    }

    /// Whether this reading is well-formed, decided at run time.
    pub fn check_wf(&self) -> (r: bool)
        ensures
            r == self.wf(),
    {
        self.max >= 1 && self.current <= MAX_CURRENT
    }

    /// The icon for the level, from five bands by percentage
    /// (0; 1-33; 34-66; 67-99; 100 and up).
    pub fn icon(&self) -> (r: &'static str)
        requires
            self.wf(),
        ensures
            r@ == spec_brightness_icon(self.current as int * 100 / self.max as int),
    {
        let p = self.pct();
        if p == 0 {
            "\u{1f311}"
        } else if p <= 33 {
            "\u{1f312}"
        } else if p <= 66 {
            "\u{1f313}"
        } else if p <= 99 {
            "\u{1f314}"
        } else {
            "\u{1f315}"
        }
    }
}

/// The icon band for a brightness percentage.
pub open spec fn spec_brightness_icon(pct: int) -> Seq<char> {
    if pct == 0 {
        "\u{1f311}"@
    } else if pct <= 33 {
        "\u{1f312}"@
    } else if pct <= 66 {
        "\u{1f313}"@
    } else if pct <= 99 {
        "\u{1f314}"@
    } else {
        "\u{1f315}"@
    }
}

/// The current level read from the first `Current brightness:` line, or 0
/// if no such line is present.
pub open spec fn spec_current_field(lines: Seq<Seq<char>>) -> Result<u64, SpecError> {
    match find_prefixed(lines, "Current brightness:"@) {
        Option::None => Result::Ok(0u64),
        Option::Some(l) => match spec_nth_field(l, 2) {
            Option::None => Result::Err(SpecError::MissingField("Current brightness"@)),
            Option::Some(t) => match spec_parse_u64(t) {
                Option::None => Result::Err(SpecError::InvalidNumber("Current brightness"@)),
                Option::Some(v) => if v <= MAX_CURRENT {
                    Result::Ok(v)
                } else {
                    Result::Err(SpecError::InvalidNumber("Current brightness"@))
                },
            },
        },
    }
}

/// The maximum read from the first `Max brightness:` line, or 1 if no such
/// line is present; an explicit zero is rejected to keep the percentage
/// division defined.
pub open spec fn spec_max_field(lines: Seq<Seq<char>>) -> Result<u64, SpecError> {
    match find_prefixed(lines, "Max brightness:"@) {
        Option::None => Result::Ok(1u64),
        Option::Some(l) => match spec_nth_field(l, 2) {
            Option::None => Result::Err(SpecError::MissingField("Max brightness"@)),
            Option::Some(t) => match spec_parse_u64(t) {
                Option::None => Result::Err(SpecError::InvalidNumber("Max brightness"@)),
                Option::Some(v) => if v >= 1 {
                    Result::Ok(v)
                } else {
                    Result::Err(SpecError::InvalidNumber("Max brightness"@))
                },
            },
        },
    }
}

/// What parsing the brightness tool's output yields: the current field,
/// then the maximum, the first failure winning.
pub open spec fn spec_parse_brightness(text: Seq<char>) -> Result<BrightnessInfo, SpecError> {
    let lines = spec_lines(text);
    match spec_current_field(lines) {
        Result::Err(e) => Result::Err(e),
        Result::Ok(current) => match spec_max_field(lines) {
            Result::Err(e) => Result::Err(e),
            Result::Ok(max) => Result::Ok(BrightnessInfo { current, max }),
        },
    }
}

/// Parses the brightness tool's output, exactly as the model says; a
/// successful reading is well-formed.
pub fn parse_brightness(text: &str) -> (r: Result<BrightnessInfo, ParseError>)
    ensures
        match (r, spec_parse_brightness(text@)) {
            (Result::Ok(b), Result::Ok(sb)) => b == sb && b.wf(),
            (Result::Err(e), Result::Err(se)) => e.model() == se,
            _ => false,
        },
{
    let chars = to_chars(text);
    let lines = split_lines(&chars);
    let current: u64 = match find_line_with_prefix(&lines, "Current brightness:") {
        None => 0,
        Some(l) => {
            let fs = split_fields(l);
            if fs.len() <= 2 {
                return Err(ParseError::missing_field("Current brightness"));
            }
            match parse_u64(&fs[2]) {
                None => {
                    return Err(ParseError::invalid_number("Current brightness"));
                },
                Some(v) => {
                    if v > MAX_CURRENT {
                        return Err(ParseError::invalid_number("Current brightness"));
                    }
                    v
                },
            }
        },
    };
    let max: u64 = match find_line_with_prefix(&lines, "Max brightness:") {
        None => 1,
        Some(l) => {
            let fs = split_fields(l);
            if fs.len() <= 2 {
                return Err(ParseError::missing_field("Max brightness"));
            }
            match parse_u64(&fs[2]) {
                None => {
                    return Err(ParseError::invalid_number("Max brightness"));
                },
                Some(v) => {
                    if v < 1 {
                        return Err(ParseError::invalid_number("Max brightness"));
                    }
                    v
                },
            }
        },
    };
    Ok(BrightnessInfo { current, max })
}

/// The rendered brightness snippet: the band icon, then the percentage in
/// the emphasis style, then a plain percent sign.
pub open spec fn spec_brightness_line(b: BrightnessInfo, t: Theme) -> Seq<char> {
    spec_span(
        Option::None,
        Option::None,
        Option::Some("120%"@),
        Option::None,
        spec_brightness_icon(b.current as int * 100 / b.max as int),
    ) + " "@ + spec_span(
        Option::Some(t.foreground@),
        Option::None,
        Option::Some("110%"@),
        Option::Some("ultrabold"@),
        spec_u64_digits(b.current as int * 100 / b.max as int),
    ) + spec_span(
        Option::Some(t.white@),
        Option::None,
        Option::None,
        Option::None,
        "%"@,
    )
}

/// Renders the brightness snippet.
pub fn brightness_line(info: &BrightnessInfo, theme: &Theme) -> (r: String)
    requires
        info.wf(),
    ensures
        r@ == spec_brightness_line(*info, *theme),
{
    let pct = u64_to_string(info.pct());
    let mut s = icon_span(info.icon());
    s.append(" ");
    let val = value_span_sized(theme.foreground(), "110%", pct.as_str());
    s.append(val.as_str());
    let sign = colored_span(theme.white(), "%");
    s.append(sign.as_str());
    proof {
        assert(s@ =~= spec_brightness_line(*info, *theme));
    }
    s
}

} // verus!

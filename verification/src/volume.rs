//! The audio sink volume reading.
//!
//! The sink-volume query's first line follows a fixed template,
//! `Volume: front-left: <raw> / <pct>% / <dB> dB,   front-right: <raw> / ...`,
//! so the raw channel values sit at fixed field positions (the third and the
//! tenth).  Raw values live on a 65530-max scale — deliberately not the
//! 65535 one would expect — and the percent conversion must keep that exact
//! divisor.  A second query's first line reports the mute state by carrying
//! the word `yes`.

use vstd::prelude::*;

verus! {

use vstd::arithmetic::div_mod::lemma_div_is_ordered;
use crate::errors::{ParseError, SpecError};
use crate::markup::{colored_span, icon_span, spec_span, value_span_sized};
use crate::num::{spec_parse_u64, spec_u64_digits, u64_to_string, parse_u64};
use crate::text::{
    contains_str, spec_contains_seq, spec_lines, spec_nth_field, split_fields, split_lines,
    to_chars,
};
use crate::theme::Theme;

/// Raw left and right channel levels on the 65530-max scale, plus the mute
/// flag.
#[derive(Clone, Copy, PartialEq, Eq, Structural, Debug)]
pub struct Volume {
    pub left: u64,
    pub right: u64,
    pub mute: bool,
}

/// A raw channel level as a percentage: multiplied by 100 and divided by
/// the source's 65530 full-scale value, truncating.
pub open spec fn spec_raw_pct(raw: int) -> int {
    raw * 100 / 65530
}

/// The icon for a channel: muted always shows the muted icon; otherwise one
/// of four bands by percentage (0; 1-33; 34-66; 67 and up).
pub open spec fn spec_volume_icon(pct: int, mute: bool) -> Seq<char> {
    if mute {
        "\u{1f507}"@
    } else if pct == 0 {
        "\u{1f507}"@
    } else if pct <= 33 {
        "\u{1f508}"@
    } else if pct <= 66 {
        "\u{1f509}"@
    } else {
        "\u{1f50a}"@
    }
}

fn raw_to_pct(raw: u64) -> (r: u64)
    ensures
        r == spec_raw_pct(raw as int),
{
    let wide = (raw as u128) * 100 / 65530;
    proof {
        lemma_div_is_ordered(raw as int * 100, u64::MAX as int * 100, 65530);
    }
    wide as u64
}

fn icon(value: u64, mute: bool) -> (r: &'static str)
    ensures
        r@ == spec_volume_icon(value as int, mute),
{
    if mute {
        return "\u{1f507}";
    }
    if value == 0 {
        "\u{1f507}"
    } else if value <= 33 {
        "\u{1f508}"
    } else if value <= 66 {
        "\u{1f509}"
    } else {
        "\u{1f50a}"
    }
}

impl Volume {
    /// The left channel as a percentage of the 65530 full scale.
    pub fn left_pct(&self) -> (r: u64)
        ensures
            r == spec_raw_pct(self.left as int),
    {
        raw_to_pct(self.left)
    }

    /// The right channel as a percentage of the 65530 full scale.
    pub fn right_pct(&self) -> (r: u64)
        ensures
            r == spec_raw_pct(self.right as int),
    {
        raw_to_pct(self.right)
    }

    /// The icon for the left channel's level, or the muted icon.
    pub fn left_icon(&self) -> (r: &'static str)
        ensures
            r@ == spec_volume_icon(spec_raw_pct(self.left as int), self.mute),
    {
        icon(self.left_pct(), self.mute)
    }

    /// The icon for the right channel's level, or the muted icon.
    pub fn right_icon(&self) -> (r: &'static str)
        ensures
            r@ == spec_volume_icon(spec_raw_pct(self.right as int), self.mute),
    {
        icon(self.right_pct(), self.mute)
    }
}

/// What parsing the two sink queries yields: the first line of the volume
/// output supplies the third and tenth fields as raw channel values, and
/// the first line of the mute output is muted exactly when it contains
/// `yes`.
pub open spec fn spec_parse_volume(vol: Seq<char>, mute: Seq<char>) -> Result<Volume, SpecError> {
    let lines = spec_lines(vol);
    if lines.len() == 0 {
        Result::Err(SpecError::MissingLine("sink volume"@))
    } else {
        match spec_nth_field(lines[0], 2) {
            Option::None => Result::Err(SpecError::MissingField("left channel volume"@)),
            Option::Some(lt) => match spec_parse_u64(lt) {
                Option::None => Result::Err(SpecError::InvalidNumber("left channel volume"@)),
                Option::Some(left) => match spec_nth_field(lines[0], 9) {
                    Option::None => Result::Err(SpecError::MissingField("right channel volume"@)),
                    Option::Some(rt) => match spec_parse_u64(rt) {
                        Option::None => Result::Err(
                            SpecError::InvalidNumber("right channel volume"@),
                        ),
                        Option::Some(right) => {
                            let mlines = spec_lines(mute);
                            if mlines.len() == 0 {
                                Result::Err(SpecError::MissingLine("sink mute"@))
                            } else {
                                Result::Ok(
                                    Volume {
                                        left,
                                        right,
                                        mute: spec_contains_seq(mlines[0], "yes"@),
                                    },
                                )
                            }
                        },
                    },
                },
            },
        }
    }
}

/// Parses the sink-volume and sink-mute outputs, exactly as the model says.
pub fn parse_volume(vol_text: &str, mute_text: &str) -> (r: Result<Volume, ParseError>)
    ensures
        match (r, spec_parse_volume(vol_text@, mute_text@)) {
            (Result::Ok(v), Result::Ok(sv)) => v == sv,
            (Result::Err(e), Result::Err(se)) => e.model() == se,
            _ => false,
        },
{
    let chars = to_chars(vol_text);
    let lines = split_lines(&chars);
    if lines.len() == 0 {
        return Err(ParseError::missing_line("sink volume"));
    }
    let fs = split_fields(&lines[0]);
    if fs.len() <= 2 {
        return Err(ParseError::missing_field("left channel volume"));
    }
    let left = match parse_u64(&fs[2]) {
        None => {
            return Err(ParseError::invalid_number("left channel volume"));
        },
        Some(v) => v,
    };
    if fs.len() <= 9 {
        return Err(ParseError::missing_field("right channel volume"));
    }
    let right = match parse_u64(&fs[9]) {
        None => {
            return Err(ParseError::invalid_number("right channel volume"));
        },
        Some(v) => v,
    };
    let mchars = to_chars(mute_text);
    let mlines = split_lines(&mchars);
    if mlines.len() == 0 {
        return Err(ParseError::missing_line("sink mute"));
    }
    let mute = contains_str(&mlines[0], "yes");
    Ok(Volume { left, right, mute })
}

/// The rendered volume snippet: the left channel's icon, then its
/// percentage in the emphasis style, then a plain percent sign.
pub open spec fn spec_volume_line(v: Volume, t: Theme) -> Seq<char> {
    spec_span(
        Option::None,
        Option::None,
        Option::Some("120%"@),
        Option::None,
        spec_volume_icon(spec_raw_pct(v.left as int), v.mute),
    ) + " "@ + spec_span(
        Option::Some(t.foreground@),
        Option::None,
        Option::Some("110%"@),
        Option::Some("ultrabold"@),
        spec_u64_digits(spec_raw_pct(v.left as int)),
    ) + spec_span(
        Option::Some(t.white@),
        Option::None,
        Option::None,
        Option::None,
        "%"@,
    )
}

/// Renders the volume snippet.
pub fn volume_line(info: &Volume, theme: &Theme) -> (r: String)
    ensures
        r@ == spec_volume_line(*info, *theme),
{
    let pct = u64_to_string(info.left_pct());
    let mut s = icon_span(info.left_icon());
    s.append(" ");
    let val = value_span_sized(theme.foreground(), "110%", pct.as_str());
    s.append(val.as_str());
    let sign = colored_span(theme.white(), "%");
    s.append(sign.as_str());
    proof {
        assert(s@ =~= spec_volume_line(*info, *theme));
    }
    s
}

} // verus!

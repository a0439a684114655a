//! The memory reading: total and used KiB scraped from the summary line of
//! the memory-reporting tool, whose second output line carries the totals as
//! its second and third fields.

use vstd::prelude::*;

verus! {

use crate::errors::{ParseError, SpecError};
use crate::markup::{colored_span, spec_span, value_span_sized};
use crate::num::{spec_parse_u64, spec_u64_digits, u64_to_string, parse_u64};
use crate::text::{spec_lines, spec_nth_field, split_fields, split_lines, to_chars};
use crate::theme::Theme;

/// A snapshot of memory use, both figures in KiB as the source tool reports
/// them.  Garbage input is tolerated: `used <= total` is not enforced.
#[derive(Clone, Copy, PartialEq, Eq, Structural, Debug)]
pub struct MemoryInfo {
    pub total: u64,
    pub used: u64,
}

impl MemoryInfo {
    /// Total memory in MiB: KiB divided by 1024, truncating.
    pub fn total_mib(&self) -> (r: u64)
        ensures
            r == self.total / 1024,
    {
        self.total / 1024
    }

    /// Used memory in MiB: KiB divided by 1024, truncating.
    pub fn used_mib(&self) -> (r: u64)
        ensures
            r == self.used / 1024,
    {
        self.used / 1024
    }
}

/// What parsing the memory tool's output yields: the second line's second
/// field is the total and its third field the used amount, or the first
/// failure in that order.
pub open spec fn spec_parse_memory(text: Seq<char>) -> Result<MemoryInfo, SpecError> {
    let lines = spec_lines(text);
    if lines.len() < 2 {
        Result::Err(SpecError::MissingLine("memory summary"@))
    } else {
        match spec_nth_field(lines[1], 1) {
            Option::None => Result::Err(SpecError::MissingField("memory total"@)),
            Option::Some(t) => match spec_parse_u64(t) {
                Option::None => Result::Err(SpecError::InvalidNumber("memory total"@)),
                Option::Some(total) => match spec_nth_field(lines[1], 2) {
                    Option::None => Result::Err(SpecError::MissingField("memory used"@)),
                    Option::Some(u) => match spec_parse_u64(u) {
                        Option::None => Result::Err(SpecError::InvalidNumber("memory used"@)),
                        Option::Some(used) => Result::Ok(MemoryInfo { total, used }),
                    },
                },
            },
        }
    }
}

/// Parses the memory tool's output, exactly as the model says.
pub fn parse_memory(text: &str) -> (r: Result<MemoryInfo, ParseError>)
    ensures
        match (r, spec_parse_memory(text@)) {
            (Result::Ok(m), Result::Ok(sm)) => m == sm,
            (Result::Err(e), Result::Err(se)) => e.model() == se,
            _ => false,
        },
{
    let chars = to_chars(text);
    let lines = split_lines(&chars);
    if lines.len() < 2 {
        return Err(ParseError::missing_line("memory summary"));
    }
    let fs = split_fields(&lines[1]);
    if fs.len() <= 1 {
        return Err(ParseError::missing_field("memory total"));
    }
    let total = match parse_u64(&fs[1]) {
        None => {
            return Err(ParseError::invalid_number("memory total"));
        },
        Some(t) => t,
    };
    if fs.len() <= 2 {
        return Err(ParseError::missing_field("memory used"));
    }
    let used = match parse_u64(&fs[2]) {
        None => {
            return Err(ParseError::invalid_number("memory used"));
        },
        Some(u) => u,
    };
    Ok(MemoryInfo { total, used })
}

/// The rendered memory snippet: used and total MiB in the emphasis style,
/// separated by a plain slash and followed by the unit.
pub open spec fn spec_memory_line(m: MemoryInfo, t: Theme) -> Seq<char> {
    spec_span(
        Option::Some(t.foreground@),
        Option::None,
        Option::Some("110%"@),
        Option::Some("ultrabold"@),
        spec_u64_digits(m.used as int / 1024),
    ) + spec_span(
        Option::Some(t.white@),
        Option::None,
        Option::None,
        Option::None,
        "/"@,
    ) + spec_span(
        Option::Some(t.foreground@),
        Option::None,
        Option::Some("110%"@),
        Option::Some("ultrabold"@),
        spec_u64_digits(m.total as int / 1024),
    ) + spec_span(
        Option::Some(t.white@),
        Option::None,
        Option::None,
        Option::None,
        "MiB"@,
    )
}

/// Renders the memory snippet.
pub fn memory_line(info: &MemoryInfo, theme: &Theme) -> (r: String)
    ensures
        r@ == spec_memory_line(*info, *theme),
{
    let used = u64_to_string(info.used_mib());
    let total = u64_to_string(info.total_mib());
    let mut s = value_span_sized(theme.foreground(), "110%", used.as_str());
    let div = colored_span(theme.white(), "/");
    s.append(div.as_str());
    let tot = value_span_sized(theme.foreground(), "110%", total.as_str());
    s.append(tot.as_str());
    let mib = colored_span(theme.white(), "MiB");
    s.append(mib.as_str());
    proof {
        assert(s@ =~= spec_memory_line(*info, *theme));
    }
    s
}

} // verus!

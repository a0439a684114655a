//! The virtualization guest listing.
//!
//! The listing tool prints two header lines, then one guest per line: an
//! identifier field, the guest's name, and a state keyword.  Guests whose
//! state is `running` are active and those whose state is `shut` are
//! inactive; any other state is silently dropped.  Names containing
//! whitespace are not supported — a known limitation of the fixed-field
//! scan, preserved rather than fixed.

use vstd::prelude::*;

verus! {

use crate::errors::{ParseError, SpecError};
use crate::text::{
    chars_eq_str, chars_to_string, spec_fields, spec_lines, spec_trim, split_fields, split_lines,
    subvec, to_chars, trim_bounds, views_of, views_of_strings,
};

/// The guests by activity, each list in the order the tool printed them.
#[derive(Debug)]
pub struct State {
    pub active: Vec<String>,
    pub inactive: Vec<String>,
}

/// Classifies listing lines in order: a line with no fields is skipped, a
/// line missing its name or state fields fails, and otherwise the second
/// field is the name, routed by the third field's keyword.  The first
/// failing line decides the failure.
pub open spec fn spec_classify(lines: Seq<Seq<char>>) -> Result<
    (Seq<Seq<char>>, Seq<Seq<char>>),
    SpecError,
>
    decreases lines.len(),
{
    if lines.len() == 0 {
        Result::Ok((Seq::empty(), Seq::empty()))
    } else {
        let fs = spec_fields(lines[0]);
        if fs.len() == 0 {
            spec_classify(lines.drop_first())
        } else if fs.len() == 1 {
            Result::Err(SpecError::MissingField("guest name"@))
        } else if fs.len() == 2 {
            Result::Err(SpecError::MissingField("guest state"@))
        } else {
            match spec_classify(lines.drop_first()) {
                Result::Err(e) => Result::Err(e),
                Result::Ok(p) => {
                    if fs[2] == "running"@ {
                        Result::Ok((seq![fs[1]] + p.0, p.1))
                    } else if fs[2] == "shut"@ {
                        Result::Ok((p.0, seq![fs[1]] + p.1))
                    } else {
                        Result::Ok(p)
                    }
                },
            }
        }
    }
}

/// What parsing the listing yields: the text is trimmed, its first two
/// lines are headers, and the rest are classified in order.
pub open spec fn spec_parse_guests(text: Seq<char>) -> Result<
    (Seq<Seq<char>>, Seq<Seq<char>>),
    SpecError,
> {
    let lines = spec_lines(spec_trim(text));
    if lines.len() <= 2 {
        Result::Ok((Seq::empty(), Seq::empty()))
    } else {
        spec_classify(lines.skip(2))
    }
}

/// Parses the guest listing, exactly as the model says.
#[verifier::loop_isolation(false)]
pub fn parse_guest_listing(text: &str) -> (r: Result<State, ParseError>)
    ensures
        match (r, spec_parse_guests(text@)) {
            (Result::Ok(st), Result::Ok(p)) => views_of_strings(st.active@) == p.0
                && views_of_strings(st.inactive@) == p.1,
            (Result::Err(e), Result::Err(se)) => e.model() == se,
            _ => false,
        },
{
    let chars = to_chars(text);
    let bounds = trim_bounds(&chars);
    let trimmed = subvec(&chars, bounds.0, bounds.1);
    let lines = split_lines(&trimmed);
    let mut active: Vec<String> = Vec::new();
    let mut inactive: Vec<String> = Vec::new();
    let n = lines.len();
    if n <= 2 {
        proof {
            assert(views_of_strings(active@) =~~= Seq::<Seq<char>>::empty());
            assert(views_of_strings(inactive@) =~~= Seq::<Seq<char>>::empty());
        }
        return Ok(State { active, inactive });
    }
    let ghost whole = views_of(lines@);
    let mut k: usize = 2;
    proof {
        assert(whole.skip(2).len() > 0);
    }
    while k < n
        invariant
            2 <= k <= n,
            ({
                let full = spec_classify(whole.skip(2));
                match spec_classify(whole.skip(k as int)) {
                    Result::Ok(p) => full == Result::<(Seq<Seq<char>>, Seq<Seq<char>>),
                        SpecError,
                    >::Ok(
                        (
                            views_of_strings(active@) + p.0,
                            views_of_strings(inactive@) + p.1,
                        ),
                    ),
                    Result::Err(e) => full == Result::<(Seq<Seq<char>>, Seq<Seq<char>>),
                        SpecError,
                    >::Err(e),
                }
            }),
        decreases n - k,
    {
        let ghost sk = whole.skip(k as int);
        proof {
            assert(sk.len() > 0);
            assert(sk[0] == whole[k as int]);
            assert(sk.drop_first() =~= whole.skip(k as int + 1));
        }
        let fs = split_fields(&lines[k]);
        if fs.len() == 0 {
        } else if fs.len() == 1 {
            return Err(ParseError::missing_field("guest name"));
        } else if fs.len() == 2 {
            return Err(ParseError::missing_field("guest state"));
        } else {
            let name = chars_to_string(&fs[1]);
            if chars_eq_str(&fs[2], "running") {
                let ghost before = active@;
                active.push(name);
                proof {
                    assert(views_of_strings(active@) =~~= views_of_strings(before).push(
                        views_of(fs@)[1],
                    ));
                    if let Result::Ok(p) = spec_classify(whole.skip(k as int + 1)) {
                        assert(views_of_strings(before) + (seq![views_of(fs@)[1]] + p.0)
                            =~~= views_of_strings(active@) + p.0);
                    }
                }
            } else if chars_eq_str(&fs[2], "shut") {
                let ghost before = inactive@;
                inactive.push(name);
                proof {
                    assert(views_of_strings(inactive@) =~~= views_of_strings(before).push(
                        views_of(fs@)[1],
                    ));
                    if let Result::Ok(p) = spec_classify(whole.skip(k as int + 1)) {
                        assert(views_of_strings(before) + (seq![views_of(fs@)[1]] + p.1)
                            =~~= views_of_strings(inactive@) + p.1);
                    }
                }
            }
        }
        k = k + 1;
    }
    proof {
        assert(whole.skip(n as int) =~= Seq::<Seq<char>>::empty());
        assert(spec_classify(whole.skip(n as int)) == Result::<
            (Seq<Seq<char>>, Seq<Seq<char>>),
            SpecError,
        >::Ok((Seq::<Seq<char>>::empty(), Seq::<Seq<char>>::empty())));
        assert(views_of_strings(active@) + Seq::<Seq<char>>::empty() =~~= views_of_strings(
            active@,
        ));
        assert(views_of_strings(inactive@) + Seq::<Seq<char>>::empty() =~~= views_of_strings(
            inactive@,
        ));
    }
    Ok(State { active, inactive })
}

} // verus!

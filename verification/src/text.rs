//! Line and field scanning over character sequences.
//!
//! The system tools whose output this crate reads print ASCII-structured
//! text: lines separated by `'\n'` (optionally ending in `'\r'`), with
//! whitespace-delimited fields inside a line.  The spec functions here give
//! the mathematical model of that structure; the executable functions are
//! proved against it.

use vstd::prelude::*;

verus! {

/// ASCII whitespace, the delimiters the scanned tools emit between fields.
pub open spec fn is_space(c: char) -> bool {
    c == ' ' || c == '\t' || c == '\n' || c == '\r' || c == '\u{b}' || c == '\u{c}'
}

/// Index of the first occurrence of `c` in `s`, or `s.len()` if absent.
pub open spec fn first_char(s: Seq<char>, c: char) -> int
    decreases s.len(),
{
    if s.len() == 0 {
        0
    } else if s[0] == c {
        0
    } else {
        1 + first_char(s.drop_first(), c)
    }
}

pub proof fn lemma_first_char(s: Seq<char>, c: char)
    ensures
        0 <= first_char(s, c) <= s.len(),
        forall|k: int| 0 <= k < first_char(s, c) ==> s[k] != c,
        first_char(s, c) < s.len() ==> s[first_char(s, c)] == c,
    decreases s.len(),
{
    if s.len() == 0 {
    } else if s[0] == c {
    } else {
        lemma_first_char(s.drop_first(), c);
        assert forall|k: int| 0 <= k < first_char(s, c) implies s[k] != c by {
            if k > 0 {
                assert(s.drop_first()[k - 1] == s[k]);
            }
        }
        if first_char(s, c) < s.len() {
            assert(s.drop_first()[first_char(s, c) - 1] == s[first_char(s, c)]);
        }
    }
}

pub proof fn lemma_first_char_unique(s: Seq<char>, c: char, k: int)
    requires
        0 <= k <= s.len(),
        forall|j: int| 0 <= j < k ==> s[j] != c,
        k < s.len() ==> s[k] == c,
    ensures
        first_char(s, c) == k,
    decreases s.len(),
{
    if s.len() == 0 {
    } else if s[0] == c {
        assert(k == 0);
    } else {
        assert(s[0] != c);
        assert(k >= 1);
        assert forall|j: int| 0 <= j < k - 1 implies s.drop_first()[j] != c by {
            assert(s.drop_first()[j] == s[j + 1]);
        }
        if k - 1 < s.drop_first().len() {
            assert(s.drop_first()[k - 1] == s[k]);
        }
        lemma_first_char_unique(s.drop_first(), c, k - 1);
    }
}

/// Index of the first whitespace character in `s`, or `s.len()` if absent.
pub open spec fn first_space(s: Seq<char>) -> int
    decreases s.len(),
{
    if s.len() == 0 {
        0
    } else if is_space(s[0]) {
        0
    } else {
        1 + first_space(s.drop_first())
    }
}

pub proof fn lemma_first_space(s: Seq<char>)
    ensures
        0 <= first_space(s) <= s.len(),
        forall|k: int| 0 <= k < first_space(s) ==> !is_space(s[k]),
        first_space(s) < s.len() ==> is_space(s[first_space(s)]),
    decreases s.len(),
{
    if s.len() == 0 {
    } else if is_space(s[0]) {
    } else {
        lemma_first_space(s.drop_first());
        assert forall|k: int| 0 <= k < first_space(s) implies !is_space(s[k]) by {
            if k > 0 {
                assert(s.drop_first()[k - 1] == s[k]);
            }
        }
        if first_space(s) < s.len() {
            assert(s.drop_first()[first_space(s) - 1] == s[first_space(s)]);
        }
    }
}

pub proof fn lemma_first_space_unique(s: Seq<char>, k: int)
    requires
        0 <= k <= s.len(),
        forall|j: int| 0 <= j < k ==> !is_space(s[j]),
        k < s.len() ==> is_space(s[k]),
    ensures
        first_space(s) == k,
    decreases s.len(),
{
    if s.len() == 0 {
    } else if is_space(s[0]) {
        assert(k == 0);
    } else {
        assert(k >= 1);
        assert forall|j: int| 0 <= j < k - 1 implies !is_space(s.drop_first()[j]) by {
            assert(s.drop_first()[j] == s[j + 1]);
        }
        if k - 1 < s.drop_first().len() {
            assert(s.drop_first()[k - 1] == s[k]);
        }
        lemma_first_space_unique(s.drop_first(), k - 1);
    }
}

/// A line as `str::lines` yields it: a trailing carriage return is dropped.
pub open spec fn strip_cr(s: Seq<char>) -> Seq<char> {
    if s.len() > 0 && s.last() == '\r' {
        s.drop_last()
    } else {
        s
    }
}

/// The lines of `s`, split at `'\n'`; a trailing newline does not produce a
/// final empty line, matching `str::lines`.
pub open spec fn spec_lines(s: Seq<char>) -> Seq<Seq<char>>
    decreases s.len(),
    via spec_lines_decreases
{
    if s.len() == 0 {
        Seq::empty()
    } else {
        let i = first_char(s, '\n');
        if i == s.len() {
            seq![strip_cr(s)]
        } else {
            seq![strip_cr(s.take(i))] + spec_lines(s.skip(i + 1))
        }
    }
}

#[via_fn]
proof fn spec_lines_decreases(s: Seq<char>) {
    if s.len() != 0 {
        lemma_first_char(s, '\n');
    }
}

/// The whitespace-delimited fields of `s`, in order.
pub open spec fn spec_fields(s: Seq<char>) -> Seq<Seq<char>>
    decreases s.len(),
    via spec_fields_decreases
{
    if s.len() == 0 {
        Seq::empty()
    } else if is_space(s[0]) {
        spec_fields(s.drop_first())
    } else {
        let i = first_space(s);
        seq![s.take(i)] + spec_fields(s.skip(i))
    }
}

#[via_fn]
proof fn spec_fields_decreases(s: Seq<char>) {
    if s.len() != 0 && !is_space(s[0]) {
        lemma_first_space(s);
    }
}

/// `s` with leading whitespace removed.
pub open spec fn spec_trim_start(s: Seq<char>) -> Seq<char>
    decreases s.len(),
{
    if s.len() > 0 && is_space(s[0]) {
        spec_trim_start(s.drop_first())
    } else {
        s
    }
}

/// `s` with trailing whitespace removed.
pub open spec fn spec_trim_end(s: Seq<char>) -> Seq<char>
    decreases s.len(),
{
    if s.len() > 0 && is_space(s.last()) {
        spec_trim_end(s.drop_last())
    } else {
        s
    }
}

/// `s` with whitespace removed from both ends.
pub open spec fn spec_trim(s: Seq<char>) -> Seq<char> {
    spec_trim_end(spec_trim_start(s))
}

/// `pat` occurs somewhere in `s` as a contiguous subsequence.
pub open spec fn spec_contains_seq(s: Seq<char>, pat: Seq<char>) -> bool {
    exists|i: int| 0 <= i <= s.len() - pat.len() && pat.is_prefix_of(s.skip(i))
}

/// The views of a sequence of character vectors.
pub open spec fn views_of(lines: Seq<Vec<char>>) -> Seq<Seq<char>> {
    Seq::new(lines.len(), |i: int| lines[i]@)
}

/// The views of a sequence of strings.
pub open spec fn views_of_strings(items: Seq<String>) -> Seq<Seq<char>> {
    Seq::new(items.len(), |i: int| items[i]@)
}

/// Relies on `String::push`: appends the given character to the end of the
/// string.
pub assume_specification[ String::push ](s: &mut String, ch: char)
    ensures
        final(s)@ == old(s)@.push(ch),
;

/// The characters of `s`, collected into a vector.
#[verifier::loop_isolation(false)]
pub fn to_chars(s: &str) -> (r: Vec<char>)
    ensures
        r@ == s@,
{
    let n = s.unicode_len();
    let mut v: Vec<char> = Vec::new();
    let mut i: usize = 0;
    while i < n
        invariant
            i <= n,
            v@ == s@.take(i as int),
        decreases n - i,
    {
        let c = s.get_char(i);
        v.push(c);
        proof {
            assert(s@.take(i as int).push(s@[i as int]) =~= s@.take(i as int + 1));
        }
        i = i + 1;
    }
    proof {
        assert(s@.take(n as int) =~= s@);
    }
    v
}

/// The characters of `v`, collected into a string.
#[verifier::loop_isolation(false)]
pub fn chars_to_string(v: &Vec<char>) -> (r: String)
    ensures
        r@ == v@,
{
    let mut s = String::new();
    let mut i: usize = 0;
    while i < v.len()
        invariant
            i <= v@.len(),
            s@ == v@.take(i as int),
        decreases v@.len() - i,
    {
        s.push(v[i]);
        proof {
            assert(v@.take(i as int).push(v@[i as int]) =~= v@.take(i as int + 1));
        }
        i = i + 1;
    }
    proof {
        assert(v@.take(v@.len() as int) =~= v@);
    }
    s
}

/// The characters of `v` between `a` (inclusive) and `b` (exclusive).
#[verifier::loop_isolation(false)]
pub fn subvec(v: &Vec<char>, a: usize, b: usize) -> (r: Vec<char>)
    requires
        a <= b <= v@.len(),
    ensures
        r@ == v@.subrange(a as int, b as int),
{
    let mut r: Vec<char> = Vec::new();
    let mut i: usize = a;
    while i < b
        invariant
            a <= i <= b,
            r@ == v@.subrange(a as int, i as int),
        decreases b - i,
    {
        r.push(v[i]);
        proof {
            assert(v@.subrange(a as int, i as int).push(v@[i as int]) =~= v@.subrange(
                a as int,
                i as int + 1,
            ));
        }
        i = i + 1;
    }
    r
}

fn is_space_char(c: char) -> (r: bool)
    ensures
        r == is_space(c),
{
    c == ' ' || c == '\t' || c == '\n' || c == '\r' || c == '\u{b}' || c == '\u{c}'
}

fn space_at(v: &Vec<char>, i: usize) -> (r: bool)
    requires
        i < v@.len(),
    ensures
        r == is_space(v@[i as int]),
{
    is_space_char(v[i])
}

/// The position of the first occurrence of `c` in `v` at or after `from`,
/// or `v.len()` if there is none.
#[verifier::loop_isolation(false)]
pub fn find_char_from(v: &Vec<char>, from: usize, c: char) -> (r: usize)
    requires
        from <= v@.len(),
    ensures
        from <= r <= v@.len(),
        r - from == first_char(v@.skip(from as int), c),
{
    let n = v.len();
    let mut i: usize = from;
    while i < n
        invariant
            from <= i <= n,
            forall|j: int| from <= j < i ==> v@[j] != c,
        decreases n - i,
    {
        if v[i] == c {
            proof {
                let s = v@.skip(from as int);
                assert forall|j: int| 0 <= j < i - from implies s[j] != c by {
                    assert(s[j] == v@[from + j]);
                }
                assert(s[i - from] == v@[i as int]);
                lemma_first_char_unique(s, c, i - from);
            }
            return i;
        }
        i = i + 1;
    }
    proof {
        let s = v@.skip(from as int);
        assert forall|j: int| 0 <= j < n - from implies s[j] != c by {
            assert(s[j] == v@[from + j]);
        }
        lemma_first_char_unique(s, c, n - from);
    }
    n
}

/// The position of the first whitespace character in `v` at or after `from`,
/// or `v.len()` if there is none.
#[verifier::loop_isolation(false)]
pub fn find_space_from(v: &Vec<char>, from: usize) -> (r: usize)
    requires
        from <= v@.len(),
    ensures
        from <= r <= v@.len(),
        r - from == first_space(v@.skip(from as int)),
{
    let n = v.len();
    let mut i: usize = from;
    while i < n
        invariant
            from <= i <= n,
            forall|j: int| from <= j < i ==> !is_space(v@[j]),
        decreases n - i,
    {
        if is_space_char(v[i]) {
            proof {
                let s = v@.skip(from as int);
                assert forall|j: int| 0 <= j < i - from implies !is_space(s[j]) by {
                    assert(s[j] == v@[from + j]);
                }
                assert(s[i - from] == v@[i as int]);
                lemma_first_space_unique(s, i - from);
            }
            return i;
        }
        i = i + 1;
    }
    proof {
        let s = v@.skip(from as int);
        assert forall|j: int| 0 <= j < n - from implies !is_space(s[j]) by {
            assert(s[j] == v@[from + j]);
        }
        lemma_first_space_unique(s, n - from);
    }
    n
}

/// Splits `v` into its lines.
#[verifier::loop_isolation(false)]
pub fn split_lines(v: &Vec<char>) -> (r: Vec<Vec<char>>)
    ensures
        views_of(r@) == spec_lines(v@),
{
    let n = v.len();
    let mut r: Vec<Vec<char>> = Vec::new();
    let mut pos: usize = 0;
    proof {
        assert(v@.skip(0) =~= v@);
        assert(views_of(r@) + spec_lines(v@.skip(pos as int)) =~~= spec_lines(v@));
    }
    while pos < n
        invariant
            pos <= n,
            views_of(r@) + spec_lines(v@.skip(pos as int)) =~~= spec_lines(v@),
        decreases n - pos,
    {
        let e = find_char_from(v, pos, '\n');
        let mut line = subvec(v, pos, e);
        if line.len() > 0 && line[line.len() - 1] == '\r' {
            let _ = line.pop();
        }
        proof {
            let rest = v@.skip(pos as int);
            let i = first_char(rest, '\n');
            assert(i == e - pos);
            assert(rest.take(i) =~= v@.subrange(pos as int, e as int));
            assert(rest.len() > 0);
            if e == n {
                assert(i == rest.len());
                assert(spec_lines(rest) == seq![strip_cr(rest)]);
                assert(rest =~= v@.subrange(pos as int, e as int));
                assert(line@ == strip_cr(rest));
            } else {
                assert(spec_lines(rest) == seq![strip_cr(rest.take(i))] + spec_lines(
                    rest.skip(i + 1),
                ));
                assert(rest.skip(i + 1) =~= v@.skip(e + 1));
                assert(line@ == strip_cr(rest.take(i)));
            }
        }
        let ghost old_r = r@;
        r.push(line);
        proof {
            assert(views_of(r@) =~~= views_of(old_r).push(line@));
        }
        if e == n {
            pos = n;
            proof {
                assert(spec_lines(v@.skip(pos as int)) =~~= Seq::<Seq<char>>::empty());
                assert(views_of(r@) + spec_lines(v@.skip(pos as int)) =~~= spec_lines(v@));
            }
        } else {
            pos = e + 1;
            proof {
                assert(views_of(r@) + spec_lines(v@.skip(pos as int)) =~~= spec_lines(v@));
            }
        }
    }
    proof {
        assert(v@.skip(pos as int) =~= Seq::<char>::empty());
        assert(views_of(r@) =~~= spec_lines(v@));
    }
    r
}

/// Splits `v` into its whitespace-delimited fields.
#[verifier::loop_isolation(false)]
pub fn split_fields(v: &Vec<char>) -> (r: Vec<Vec<char>>)
    ensures
        views_of(r@) == spec_fields(v@),
{
    let n = v.len();
    let mut r: Vec<Vec<char>> = Vec::new();
    let mut pos: usize = 0;
    proof {
        assert(v@.skip(0) =~= v@);
        assert(views_of(r@) + spec_fields(v@.skip(pos as int)) =~~= spec_fields(v@));
    }
    while pos < n
        invariant
            pos <= n,
            views_of(r@) + spec_fields(v@.skip(pos as int)) =~~= spec_fields(v@),
        decreases n - pos,
    {
        if is_space_char(v[pos]) {
            proof {
                let rest = v@.skip(pos as int);
                assert(rest[0] == v@[pos as int]);
                assert(rest.drop_first() =~= v@.skip(pos as int + 1));
                assert(spec_fields(rest) == spec_fields(v@.skip(pos as int + 1)));
            }
            pos = pos + 1;
        } else {
            let e = find_space_from(v, pos);
            let tok = subvec(v, pos, e);
            proof {
                let rest = v@.skip(pos as int);
                let i = first_space(rest);
                assert(i == e - pos);
                assert(rest[0] == v@[pos as int]);
                assert(i >= 1) by {
                    lemma_first_space(rest);
                }
                assert(rest.take(i) =~= v@.subrange(pos as int, e as int));
                assert(rest.skip(i) =~= v@.skip(e as int));
                assert(spec_fields(rest) == seq![rest.take(i)] + spec_fields(v@.skip(e as int)));
                assert(tok@ == rest.take(i));
            }
            let ghost old_r = r@;
            r.push(tok);
            proof {
                assert(views_of(r@) =~~= views_of(old_r).push(tok@));
                assert(views_of(r@) + spec_fields(v@.skip(e as int)) =~~= spec_fields(v@));
            }
            pos = e;
        }
    }
    proof {
        assert(v@.skip(pos as int) =~= Seq::<char>::empty());
        assert(views_of(r@) =~~= spec_fields(v@));
    }
    r
}

/// Whether `pat` occurs in `v` starting at position `at`.
#[verifier::loop_isolation(false)]
fn matches_at(v: &Vec<char>, pat: &str, at: usize) -> (r: bool)
    requires
        at <= v@.len(),
    ensures
        r == pat@.is_prefix_of(v@.skip(at as int)),
{
    let plen = pat.unicode_len();
    if plen > v.len() - at {
        proof {
            assert(v@.skip(at as int).len() < pat@.len());
        }
        return false;
    }
    let mut j: usize = 0;
    while j < plen
        invariant
            j <= plen,
            plen <= v@.len() - at,
            forall|k: int| 0 <= k < j ==> pat@[k] == v@[at + k],
        decreases plen - j,
    {
        if pat.get_char(j) != v[at + j] {
            proof {
                assert(v@.skip(at as int)[j as int] == v@[at + j]);
                assert(pat@ != v@.skip(at as int).subrange(0, pat@.len() as int)) by {
                    assert(v@.skip(at as int).subrange(0, pat@.len() as int)[j as int] == v@[at
                        + j]);
                }
            }
            return false;
        }
        j = j + 1;
    }
    proof {
        assert(pat@ =~= v@.skip(at as int).subrange(0, pat@.len() as int)) by {
            assert(forall|k: int|
                0 <= k < plen ==> v@.skip(at as int).subrange(0, pat@.len() as int)[k] == v@[at
                    + k]);
        }
    }
    true
}

/// Whether `line`, with leading whitespace removed, starts with `prefix`.
#[verifier::loop_isolation(false)]
pub fn starts_with_trimmed(line: &Vec<char>, prefix: &str) -> (r: bool)
    ensures
        r == prefix@.is_prefix_of(spec_trim_start(line@)),
{
    let n = line.len();
    let mut i: usize = 0;
    proof {
        assert(line@.skip(0) =~= line@);
    }
    while i < n && space_at(line, i)
        invariant
            i <= n,
            spec_trim_start(line@) == spec_trim_start(line@.skip(i as int)),
        decreases n - i,
    {
        proof {
            let rest = line@.skip(i as int);
            assert(rest[0] == line@[i as int]);
            assert(rest.drop_first() =~= line@.skip(i as int + 1));
        }
        i = i + 1;
    }
    proof {
        let rest = line@.skip(i as int);
        if i < n {
            assert(rest[0] == line@[i as int]);
            assert(!is_space(rest[0]));
        }
        assert(spec_trim_start(rest) == rest);
    }
    matches_at(line, prefix, i)
}

/// Whether `pat` occurs anywhere in `v`.
#[verifier::loop_isolation(false)]
pub fn contains_str(v: &Vec<char>, pat: &str) -> (r: bool)
    ensures
        r == spec_contains_seq(v@, pat@),
{
    let plen = pat.unicode_len();
    let n = v.len();
    if plen > n {
        proof {
            assert forall|i: int| !(0 <= i <= v@.len() - pat@.len() && pat@.is_prefix_of(
                v@.skip(i),
            )) by {}
        }
        return false;
    }
    let mut i: usize = 0;
    while i <= n - plen
        invariant
            plen <= n,
            i <= n - plen + 1,
            forall|j: int| 0 <= j < i ==> !pat@.is_prefix_of(v@.skip(j)),
        decreases n - plen - i + 1,
    {
        if matches_at(v, pat, i) {
            return true;
        }
        i = i + 1;
    }
    proof {
        assert forall|j: int| 0 <= j <= v@.len() - pat@.len() implies !pat@.is_prefix_of(
            v@.skip(j),
        ) by {}
    }
    false
}

/// Whether the characters of `v` are exactly the characters of `s`.
#[verifier::loop_isolation(false)]
pub fn chars_eq_str(v: &Vec<char>, s: &str) -> (r: bool)
    ensures
        r == (v@ == s@),
{
    let n = s.unicode_len();
    if v.len() != n {
        return false;
    }
    let mut i: usize = 0;
    while i < n
        invariant
            i <= n,
            n == v@.len(),
            forall|k: int| 0 <= k < i ==> v@[k] == s@[k],
        decreases n - i,
    {
        if v[i] != s.get_char(i) {
            return false;
        }
        i = i + 1;
    }
    proof {
        assert(v@ =~= s@);
    }
    true
}

/// The first line whose content, after leading whitespace, starts with
/// `prefix`; `None` if no line matches.
pub open spec fn find_prefixed(lines: Seq<Seq<char>>, prefix: Seq<char>) -> Option<Seq<char>>
    decreases lines.len(),
{
    if lines.len() == 0 {
        Option::None
    } else if prefix.is_prefix_of(spec_trim_start(lines[0])) {
        Option::Some(lines[0])
    } else {
        find_prefixed(lines.drop_first(), prefix)
    }
}

pub proof fn lemma_find_prefixed_some(lines: Seq<Seq<char>>, prefix: Seq<char>, i: int)
    requires
        0 <= i < lines.len(),
        prefix.is_prefix_of(spec_trim_start(lines[i])),
        forall|j: int| 0 <= j < i ==> !prefix.is_prefix_of(spec_trim_start(lines[j])),
    ensures
        find_prefixed(lines, prefix) == Option::Some(lines[i]),
    decreases lines.len(),
{
    if i == 0 {
    } else {
        assert(!prefix.is_prefix_of(spec_trim_start(lines[0])));
        assert forall|j: int| 0 <= j < i - 1 implies !prefix.is_prefix_of(
            spec_trim_start(lines.drop_first()[j]),
        ) by {
            assert(lines.drop_first()[j] == lines[j + 1]);
        }
        assert(lines.drop_first()[i - 1] == lines[i]);
        lemma_find_prefixed_some(lines.drop_first(), prefix, i - 1);
    }
}

pub proof fn lemma_find_prefixed_none(lines: Seq<Seq<char>>, prefix: Seq<char>)
    requires
        forall|j: int| 0 <= j < lines.len() ==> !prefix.is_prefix_of(spec_trim_start(lines[j])),
    ensures
        find_prefixed(lines, prefix) is None,
    decreases lines.len(),
{
    if lines.len() > 0 {
        assert forall|j: int| 0 <= j < lines.len() - 1 implies !prefix.is_prefix_of(
            spec_trim_start(lines.drop_first()[j]),
        ) by {
            assert(lines.drop_first()[j] == lines[j + 1]);
        }
        lemma_find_prefixed_none(lines.drop_first(), prefix);
    }
}

/// The first line of `lines` that, after leading whitespace, starts with
/// `prefix`.
#[verifier::loop_isolation(false)]
pub fn find_line_with_prefix<'a>(lines: &'a Vec<Vec<char>>, prefix: &str) -> (r: Option<
    &'a Vec<char>,
>)
    ensures
        match r {
            Option::Some(l) => find_prefixed(views_of(lines@), prefix@) == Option::Some(l@),
            Option::None => find_prefixed(views_of(lines@), prefix@) is None,
        },
{
    let n = lines.len();
    let mut i: usize = 0;
    while i < n
        invariant
            i <= n,
            forall|j: int|
                0 <= j < i ==> !prefix@.is_prefix_of(spec_trim_start(views_of(lines@)[j])),
        decreases n - i,
    {
        if starts_with_trimmed(&lines[i], prefix) {
            proof {
                lemma_find_prefixed_some(views_of(lines@), prefix@, i as int);
            }
            return Some(&lines[i]);
        }
        i = i + 1;
    }
    proof {
        lemma_find_prefixed_none(views_of(lines@), prefix@);
    }
    None
}

/// The field of `line` at position `i`, if the line has that many fields.
pub open spec fn spec_nth_field(line: Seq<char>, i: int) -> Option<Seq<char>> {
    let fs = spec_fields(line);
    if 0 <= i < fs.len() {
        Option::Some(fs[i])
    } else {
        Option::None
    }
}

/// The bounds of `v` with whitespace trimmed from both ends: the trimmed
/// content is `v[start..end]`.
#[verifier::loop_isolation(false)]
pub fn trim_bounds(v: &Vec<char>) -> (r: (usize, usize))
    ensures
        r.0 <= r.1 <= v@.len(),
        v@.subrange(r.0 as int, r.1 as int) == spec_trim(v@),
{
    let n = v.len();
    let mut a: usize = 0;
    proof {
        assert(v@.skip(0) =~= v@);
    }
    while a < n && space_at(v, a)
        invariant
            a <= n,
            spec_trim_start(v@) == spec_trim_start(v@.skip(a as int)),
        decreases n - a,
    {
        proof {
            let rest = v@.skip(a as int);
            assert(rest[0] == v@[a as int]);
            assert(rest.drop_first() =~= v@.skip(a as int + 1));
        }
        a = a + 1;
    }
    proof {
        let rest = v@.skip(a as int);
        if a < n {
            assert(rest[0] == v@[a as int]);
        }
        assert(spec_trim_start(v@) == rest);
    }
    let mut b: usize = n;
    proof {
        assert(v@.skip(a as int).take(b - a) =~= v@.skip(a as int));
    }
    while b > a && space_at(v, b - 1)
        invariant
            a <= b <= n,
            spec_trim_end(spec_trim_start(v@)) == spec_trim_end(
                v@.skip(a as int).take(b - a as int),
            ),
        decreases b,
    {
        proof {
            let cur = v@.skip(a as int).take(b - a as int);
            assert(cur.last() == v@[b - 1]);
            assert(cur.drop_last() =~= v@.skip(a as int).take(b - 1 - a as int));
        }
        b = b - 1;
    }
    proof {
        let cur = v@.skip(a as int).take(b - a as int);
        if b > a {
            assert(cur.last() == v@[b - 1]);
        }
        assert(spec_trim_end(cur) == cur);
        assert(v@.subrange(a as int, b as int) =~= cur);
    }
    (a, b)
}

} // verus!

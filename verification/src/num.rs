//! Decimal tokens: parsing whole numbers and fixed-point decimals, and
//! rendering numbers back as digit strings.
//!
//! The tools this crate reads print non-negative decimals such as `45` or
//! `50.5`.  Fractional values are held in fixed point with six fractional
//! digits (micro-units), which keeps every quantity an unsigned integer.

use vstd::prelude::*;

verus! {

use crate::text::first_char;

/// One micro-unit per unit: the fixed-point scale of parsed decimals.
pub const MICRO: u64 = 1000000;

/// Largest whole part a decimal token may carry.
pub const MAX_WHOLE: u64 = 999999;

/// Largest fixed-point value a decimal token can parse to.
pub const MAX_DECIMAL_MICRO: u64 = 999999999999;

pub open spec fn is_digit(c: char) -> bool {
    48 <= c as u32 <= 57
}

pub open spec fn digit_val(c: char) -> int {
    c as u32 - 48
}

pub open spec fn all_digits(s: Seq<char>) -> bool {
    forall|i: int| 0 <= i < s.len() ==> is_digit(#[trigger] s[i])
}

/// The number a digit string denotes, most significant digit first.
pub open spec fn digits_val(s: Seq<char>) -> int
    decreases s.len(),
{
    if s.len() == 0 {
        0
    } else {
        digits_val(s.drop_last()) * 10 + digit_val(s.last())
    }
}

pub proof fn lemma_digits_val_nonneg(s: Seq<char>)
    requires
        all_digits(s),
    ensures
        digits_val(s) >= 0,
    decreases s.len(),
{
    if s.len() > 0 {
        assert(all_digits(s.drop_last())) by {
            assert(forall|i: int| 0 <= i < s.len() - 1 ==> s.drop_last()[i] == s[i]);
        }
        lemma_digits_val_nonneg(s.drop_last());
    }
}

/// Extending a digit string on the right can only increase its value.
pub proof fn lemma_digits_val_take_le(s: Seq<char>, i: int)
    requires
        all_digits(s),
        0 <= i <= s.len(),
    ensures
        digits_val(s.take(i)) <= digits_val(s),
    decreases s.len() - i,
{
    if i < s.len() {
        assert(all_digits(s.take(i))) by {
            assert(forall|k: int| 0 <= k < i ==> s.take(i)[k] == s[k]);
        }
        lemma_digits_val_nonneg(s.take(i));
        assert(s.take(i + 1).drop_last() =~= s.take(i));
        assert(s.take(i + 1).last() == s[i]);
        assert(digits_val(s.take(i + 1)) == digits_val(s.take(i)) * 10 + digit_val(s[i]));
        lemma_digits_val_take_le(s, i + 1);
    } else {
        assert(s.take(i) =~= s);
    }
}

pub open spec fn spec_pow10(n: nat) -> int
    decreases n,
{
    if n == 0 {
        1
    } else {
        10 * spec_pow10((n - 1) as nat)
    }
}

/// A digit string of length `n` denotes a value below `10^n`.
pub proof fn lemma_digits_val_bound(s: Seq<char>)
    requires
        all_digits(s),
    ensures
        digits_val(s) < spec_pow10(s.len()),
    decreases s.len(),
{
    if s.len() > 0 {
        assert(all_digits(s.drop_last())) by {
            assert(forall|i: int| 0 <= i < s.len() - 1 ==> s.drop_last()[i] == s[i]);
        }
        lemma_digits_val_bound(s.drop_last());
        assert(digit_val(s.last()) <= 9);
    }
}

/// Whether `s` parses as a whole number that fits in `u64`, and its value.
pub open spec fn spec_parse_u64(s: Seq<char>) -> Option<u64> {
    if s.len() > 0 && all_digits(s) && digits_val(s) <= u64::MAX {
        Some(digits_val(s) as u64)
    } else {
        None
    }
}

#[verifier::loop_isolation(false)]
fn check_all_digits(v: &Vec<char>, a: usize, b: usize) -> (r: bool)
    requires
        a <= b <= v@.len(),
    ensures
        r == all_digits(v@.subrange(a as int, b as int)),
{
    let mut i: usize = a;
    while i < b
        invariant
            a <= i <= b,
            forall|k: int| a <= k < i ==> is_digit(#[trigger] v@[k]),
        decreases b - i,
    {
        let c = v[i] as u32;
        if c < 48 || c > 57 {
            proof {
                assert(v@.subrange(a as int, b as int)[i - a] == v@[i as int]);
            }
            return false;
        }
        i = i + 1;
    }
    proof {
        assert forall|k: int| 0 <= k < b - a implies is_digit(
            #[trigger] v@.subrange(a as int, b as int)[k],
        ) by {
            assert(v@.subrange(a as int, b as int)[k] == v@[a + k]);
        }
    }
    true
}

/// The value of the digit run `v[a..b]`, unless it exceeds `cap`.
#[verifier::loop_isolation(false)]
fn digits_value_capped(v: &Vec<char>, a: usize, b: usize, cap: u64) -> (r: Option<u64>)
    requires
        a <= b <= v@.len(),
        all_digits(v@.subrange(a as int, b as int)),
        cap <= 0xffff_ffff,
    ensures
        match r {
            Some(x) => x == digits_val(v@.subrange(a as int, b as int)) && x <= cap,
            None => digits_val(v@.subrange(a as int, b as int)) > cap,
        },
{
    let ghost s = v@.subrange(a as int, b as int);
    let mut acc: u64 = 0;
    let mut i: usize = a;
    while i < b
        invariant
            a <= i <= b,
            acc == digits_val(s.take(i - a as int)),
            acc <= cap,
        decreases b - i,
    {
        proof {
            assert(s[i - a] == v@[i as int]);
            assert(s.take(i + 1 - a as int).drop_last() =~= s.take(i - a as int));
            assert(s.take(i + 1 - a as int).last() == s[i - a]);
        }
        let d = (v[i] as u32 - 48) as u64;
        let next = acc * 10 + d;
        if next > cap {
            proof {
                lemma_digits_val_take_le(s, i + 1 - a as int);
            }
            return None;
        }
        acc = next;
        i = i + 1;
    }
    proof {
        assert(s.take(b - a as int) =~= s);
    }
    Some(acc)
}

/// Parses `v` as a whole `u64`, exactly as the digit model says.
#[verifier::loop_isolation(false)]
pub fn parse_u64(v: &Vec<char>) -> (r: Option<u64>)
    ensures
        r == spec_parse_u64(v@),
{
    let n = v.len();
    if n == 0 {
        return None;
    }
    if !check_all_digits(v, 0, n) {
        proof {
            assert(v@.subrange(0, n as int) =~= v@);
        }
        return None;
    }
    proof {
        assert(v@.subrange(0, n as int) =~= v@);
    }
    let mut acc: u64 = 0;
    let mut i: usize = 0;
    while i < n
        invariant
            i <= n,
            acc == digits_val(v@.take(i as int)),
        decreases n - i,
    {
        proof {
            assert(v@.take(i as int + 1).drop_last() =~= v@.take(i as int));
            assert(v@.take(i as int + 1).last() == v@[i as int]);
        }
        let d = (v[i] as u32 - 48) as u64;
        if acc > (u64::MAX - d) / 10 {
            proof {
                assert(acc * 10 <= ((u64::MAX - d) / 10) * 10 + (u64::MAX - d) % 10 || acc * 10
                    > u64::MAX - d);
                assert(digits_val(v@.take(i as int + 1)) > u64::MAX);
                lemma_digits_val_take_le(v@, i as int + 1);
            }
            return None;
        }
        acc = acc * 10 + d;
        i = i + 1;
    }
    proof {
        assert(v@.take(n as int) =~= v@);
    }
    Some(acc)
}

/// The first `k` fractional digits of `f`, right-padded with zeros: the
/// fraction read to `k` digit precision.
pub open spec fn frac_digits(f: Seq<char>, k: int) -> Seq<char> {
    if f.len() >= k {
        f.take(k)
    } else {
        f + Seq::new((k - f.len()) as nat, |i: int| '0')
    }
}

/// Whether `s` parses as a non-negative decimal token (`45`, `50.5`) and its
/// fixed-point value in micro-units.  The whole part may not exceed
/// `MAX_WHOLE`; fractional digits beyond the sixth are ignored.
pub open spec fn spec_parse_decimal_micro(s: Seq<char>) -> Option<u64> {
    let d = first_char(s, '.');
    if d == s.len() {
        if s.len() > 0 && all_digits(s) && digits_val(s) <= MAX_WHOLE {
            Some((digits_val(s) * MICRO) as u64)
        } else {
            None
        }
    } else {
        let whole = s.take(d);
        let frac = s.skip(d + 1);
        if whole.len() > 0 && frac.len() > 0 && all_digits(whole) && all_digits(frac)
            && digits_val(whole) <= MAX_WHOLE {
            Some((digits_val(whole) * MICRO + digits_val(frac_digits(frac, 6))) as u64)
        } else {
            None
        }
    }
}

/// The fractional digits scaled to micro-units, as a `u64`.
#[verifier::loop_isolation(false)]
fn frac_micro_value(v: &Vec<char>, a: usize, b: usize) -> (r: u64)
    requires
        a <= b <= v@.len(),
        all_digits(v@.subrange(a as int, b as int)),
    ensures
        r == digits_val(frac_digits(v@.subrange(a as int, b as int), 6)),
        r <= 999999,
{
    let ghost f = v@.subrange(a as int, b as int);
    let ghost f6 = frac_digits(f, 6);
    proof {
        assert(all_digits(f6)) by {
            assert(forall|i: int| 0 <= i < f6.len() && i < f.len() ==> f6[i] == f[i]);
            assert(forall|i: int|
                f.len() <= i < f6.len() ==> f6[i] == '0' && is_digit('0'));
        }
        assert(f6.len() == 6);
        lemma_digits_val_bound(f6);
        assert(spec_pow10(6) == 1000000) by {
            reveal_with_fuel(spec_pow10, 7);
        }
        lemma_digits_val_nonneg(f6);
    }
    let mut acc: u64 = 0;
    let mut i: usize = 0;
    while i < 6
        invariant
            i <= 6,
            acc == digits_val(f6.take(i as int)),
            acc <= 999999,
        decreases 6 - i,
    {
        proof {
            assert(f6.take(i + 1).drop_last() =~= f6.take(i as int));
            assert(f6.take(i + 1).last() == f6[i as int]);
            assert(all_digits(f6.take(i as int))) by {
                assert(forall|k: int| 0 <= k < i ==> f6.take(i as int)[k] == f6[k]);
            }
            lemma_digits_val_bound(f6.take(i as int));
            assert(spec_pow10(i as nat) <= spec_pow10(5)) by {
                lemma_pow10_le(i as nat, 5);
            }
            assert(spec_pow10(5) == 100000) by {
                reveal_with_fuel(spec_pow10, 7);
            }
        }
        let d: u64 = if i < b - a {
            proof {
                assert(f6[i as int] == f[i as int]);
                assert(f[i as int] == v@[a + i]);
            }
            (v[a + i] as u32 - 48) as u64
        } else {
            proof {
                assert(f6[i as int] == '0');
            }
            0
        };
        acc = acc * 10 + d;
        i = i + 1;
    }
    proof {
        assert(f6.take(6) =~= f6);
    }
    acc
}

proof fn lemma_pow10_le(a: nat, b: nat)
    requires
        a <= b,
    ensures
        spec_pow10(a) <= spec_pow10(b),
        spec_pow10(a) >= 1,
    decreases b,
{
    if a == b {
        lemma_pow10_pos(a);
    } else {
        lemma_pow10_le(a, (b - 1) as nat);
    }
}

proof fn lemma_pow10_pos(a: nat)
    ensures
        spec_pow10(a) >= 1,
    decreases a,
{
    if a > 0 {
        lemma_pow10_pos((a - 1) as nat);
    }
}

/// Parses `v` as a fixed-point decimal in micro-units, exactly as the
/// decimal model says.
#[verifier::loop_isolation(false)]
pub fn parse_decimal_micro(v: &Vec<char>) -> (r: Option<u64>)
    ensures
        r == spec_parse_decimal_micro(v@),
        r is Some ==> r->0 <= MAX_DECIMAL_MICRO,
{
    let n = v.len();
    let d = crate::text::find_char_from(v, 0, '.');
    proof {
        assert(v@.skip(0) =~= v@);
    }
    if d == n {
        if n == 0 {
            return None;
        }
        if !check_all_digits(v, 0, n) {
            proof {
                assert(v@.subrange(0, n as int) =~= v@);
            }
            return None;
        }
        proof {
            assert(v@.subrange(0, n as int) =~= v@);
        }
        match digits_value_capped(v, 0, n, MAX_WHOLE) {
            None => None,
            Some(w) => Some(w * MICRO),
        }
    } else {
        proof {
            crate::text::lemma_first_char(v@, '.');
        }
        if d == 0 || d + 1 >= n {
            return None;
        }
        if !check_all_digits(v, 0, d) {
            proof {
                assert(v@.take(d as int) =~= v@.subrange(0, d as int));
            }
            return None;
        }
        if !check_all_digits(v, d + 1, n) {
            proof {
                assert(v@.skip(d as int + 1) =~= v@.subrange(d as int + 1, n as int));
            }
            return None;
        }
        proof {
            assert(v@.take(d as int) =~= v@.subrange(0, d as int));
            assert(v@.skip(d as int + 1) =~= v@.subrange(d as int + 1, n as int));
        }
        match digits_value_capped(v, 0, d, MAX_WHOLE) {
            None => None,
            Some(w) => {
                let f = frac_micro_value(v, d + 1, n);
                Some(w * MICRO + f)
            },
        }
    }
}

/// The digit character for `d`.
pub open spec fn char_of_digit(d: int) -> char {
    if d == 0 {
        '0'
    } else if d == 1 {
        '1'
    } else if d == 2 {
        '2'
    } else if d == 3 {
        '3'
    } else if d == 4 {
        '4'
    } else if d == 5 {
        '5'
    } else if d == 6 {
        '6'
    } else if d == 7 {
        '7'
    } else if d == 8 {
        '8'
    } else {
        '9'
    }
}

fn digit_char(d: u64) -> (c: char)
    requires
        d < 10,
    ensures
        c == char_of_digit(d as int),
{
    match d {
        0 => '0',
        1 => '1',
        2 => '2',
        3 => '3',
        4 => '4',
        5 => '5',
        6 => '6',
        7 => '7',
        8 => '8',
        _ => '9',
    }
}

/// The decimal digit string of `n`, most significant digit first, no
/// leading zeros.
pub open spec fn spec_u64_digits(n: int) -> Seq<char>
    decreases n,
{
    if n <= 9 {
        seq![char_of_digit(n)]
    } else {
        spec_u64_digits(n / 10).push(char_of_digit(n % 10))
    }
}

/// `n` zero-padded to two digits, as `{:02}` formatting renders it.
pub open spec fn spec_pad2(n: int) -> Seq<char> {
    if 0 <= n <= 9 {
        seq!['0', char_of_digit(n)]
    } else {
        spec_u64_digits(n)
    }
}

/// `n` zero-padded to four digits, for values up to 9999.
pub open spec fn spec_pad4(n: int) -> Seq<char> {
    seq![
        char_of_digit(n / 1000 % 10),
        char_of_digit(n / 100 % 10),
        char_of_digit(n / 10 % 10),
        char_of_digit(n % 10),
    ]
}

/// Renders `n` in decimal.
#[verifier::loop_isolation(false)]
pub fn u64_to_string(n: u64) -> (r: String)
    ensures
        r@ == spec_u64_digits(n as int),
{
    let mut digits: Vec<char> = Vec::new();
    let mut m: u64 = n;
    while m >= 10
        invariant
            spec_u64_digits(n as int) =~= spec_u64_digits(m as int) + digits@.reverse(),
        decreases m,
    {
        let c = digit_char(m % 10);
        proof {
            assert(spec_u64_digits(m as int) == spec_u64_digits(m as int / 10).push(c));
            assert((digits@.push(c)).reverse() =~= seq![c] + digits@.reverse());
            assert(spec_u64_digits(m as int / 10) + (seq![c] + digits@.reverse())
                =~= spec_u64_digits(m as int) + digits@.reverse());
        }
        digits.push(c);
        m = m / 10;
    }
    let c = digit_char(m);
    proof {
        assert((digits@.push(c)).reverse() =~= seq![c] + digits@.reverse());
        assert(spec_u64_digits(m as int) =~= seq![c]);
        assert(seq![c] + digits@.reverse() =~= spec_u64_digits(n as int));
    }
    digits.push(c);
    let ghost rev = digits@.reverse();
    let mut s = String::new();
    let len = digits.len();
    let mut i: usize = 0;
    while i < len
        invariant
            i <= len,
            len == digits@.len(),
            s@ == rev.take(i as int),
        decreases len - i,
    {
        proof {
            assert(rev[i as int] == digits@[len - 1 - i as int]);
            assert(rev.take(i as int).push(rev[i as int]) =~= rev.take(i as int + 1));
        }
        s.push(digits[len - 1 - i]);
        i = i + 1;
    }
    proof {
        assert(rev.take(len as int) =~= rev);
    }
    s
}

/// Renders `n` as `{:02}` would: zero-padded to at least two digits.
pub fn u64_to_string_pad2(n: u64) -> (r: String)
    ensures
        r@ == spec_pad2(n as int),
{
    if n <= 9 {
        let mut s = String::new();
        s.push('0');
        s.push(digit_char(n));
        proof {
            assert(s@ =~= seq!['0', char_of_digit(n as int)]);
        }
        s
    } else {
        u64_to_string(n)
    }
}

/// Renders `n` as `{:04}` would, for values up to 9999.
pub fn u64_to_string_pad4(n: u64) -> (r: String)
    requires
        n <= 9999,
    ensures
        r@ == spec_pad4(n as int),
{
    let mut s = String::new();
    s.push(digit_char(n / 1000 % 10));
    s.push(digit_char(n / 100 % 10));
    s.push(digit_char(n / 10 % 10));
    s.push(digit_char(n % 10));
    proof {
        assert(s@ =~= spec_pad4(n as int));
    }
    s
}

} // verus!

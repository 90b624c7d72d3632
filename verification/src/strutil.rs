//! Character-level string helpers: splitting a path on `/`, parsing an
//! unsigned decimal identifier, and formatting an integer in decimal.
use vstd::prelude::*;
use vstd::string::StrSliceExecFns;
use vstd::string::StringExecFns;

verus! {

/// Appends one character to a string.
///
/// Relies on String::push: appends the given character to the end of the
/// string.
#[verifier::external_body]
pub fn push_char(s: &mut String, c: char)
    ensures
        final(s)@ == old(s)@.push(c),
{
    s.push(c)
}

/// Index of the first `/` in `s`, or `s.len()` if there is none.
pub open spec fn first_slash(s: Seq<char>) -> int
    decreases s.len(),
{
    if s.len() == 0 {
        0
    } else if s[0] == '/' {
        0
    } else {
        1 + first_slash(s.drop_first())
    }
}

pub proof fn lemma_first_slash_bounds(s: Seq<char>)
    ensures
        0 <= first_slash(s) <= s.len(),
        forall|j: int| 0 <= j < first_slash(s) ==> s[j] != '/',
        first_slash(s) < s.len() ==> s[first_slash(s)] == '/',
    decreases s.len(),
{
    if s.len() > 0 && s[0] != '/' {
        lemma_first_slash_bounds(s.drop_first());
        assert forall|j: int| 0 <= j < first_slash(s) implies s[j] != '/' by {
            if j > 0 {
                assert(s.drop_first()[j - 1] != '/');
            }
        }
    }
}

/// A position `k` with no `/` before it and a `/` at it (if within bounds)
/// is exactly `first_slash`.
pub proof fn lemma_first_slash_at(s: Seq<char>, k: int)
    requires
        0 <= k <= s.len(),
        forall|j: int| 0 <= j < k ==> s[j] != '/',
        k < s.len() ==> s[k] == '/',
    ensures
        first_slash(s) == k,
    decreases s.len(),
{
    if s.len() > 0 && s[0] != '/' {
        assert(k != 0);
        assert forall|j: int| 0 <= j < k - 1 implies s.drop_first()[j] != '/' by {
            assert(s[j + 1] != '/');
        }
        lemma_first_slash_at(s.drop_first(), k - 1);
    }
}

/// The segments of `s` split on `/`: always at least one segment, and one
/// more segment for every `/`.
pub open spec fn spec_split_slash(s: Seq<char>) -> Seq<Seq<char>>
    decreases s.len(),
{
    let i = first_slash(s);
    if 0 <= i < s.len() {
        seq![s.subrange(0, i)] + spec_split_slash(s.subrange(i + 1, s.len() as int))
    } else {
        seq![s]
    }
}

pub proof fn lemma_split_slash_len(s: Seq<char>)
    ensures
        spec_split_slash(s).len() >= 1,
    decreases s.len(),
{
    lemma_first_slash_bounds(s);
    let i = first_slash(s);
    if i != s.len() {
        lemma_split_slash_len(s.subrange(i + 1, s.len() as int));
    }
}

/// Splits a string on `/`, keeping empty segments, as `str::split('/')` does.
pub fn split_slash(s: &str) -> (parts: Vec<String>)
    ensures
        parts.deep_view() == spec_split_slash(s@),
        parts.len() >= 1,
{
    let n = s.unicode_len();
    let mut parts: Vec<String> = Vec::new();
    let mut start: usize = 0;
    let mut i: usize = 0;
    proof {
        assert(s@.subrange(0, n as int) =~= s@);
    }
    while i < n
        invariant
            0 <= start <= i <= n == s@.len(),
            parts.deep_view() + spec_split_slash(s@.subrange(start as int, n as int))
                =~= spec_split_slash(s@),
            forall|j: int| start <= j < i ==> s@[j] != '/',
        decreases n - i,
    {
        let c = s.get_char(i);
        if c == '/' {
            let seg = s.substring_char(start, i).to_owned();
            proof {
                let rest = s@.subrange(start as int, n as int);
                assert forall|j: int| 0 <= j < i - start implies rest[j] != '/' by {
                    assert(s@[start + j] != '/');
                }
                assert(rest[i - start] == '/');
                lemma_first_slash_at(rest, i - start);
                assert(rest.subrange(0, i - start) =~= s@.subrange(start as int, i as int));
                assert(rest.subrange(i - start + 1, rest.len() as int) =~= s@.subrange(
                    i as int + 1,
                    n as int,
                ));
                assert(spec_split_slash(rest) == seq![s@.subrange(start as int, i as int)]
                    + spec_split_slash(s@.subrange(i as int + 1, n as int)));
            }
            parts.push(seg);
            start = i + 1;
        }
        i += 1;
    }
    let last = s.substring_char(start, n).to_owned();
    proof {
        let rest = s@.subrange(start as int, n as int);
        assert forall|j: int| 0 <= j < rest.len() implies rest[j] != '/' by {
            assert(s@[start + j] != '/');
        }
        lemma_first_slash_at(rest, rest.len() as int);
        assert(spec_split_slash(rest) == seq![rest]);
    }
    parts.push(last);
    proof {
        assert(parts.deep_view() =~= spec_split_slash(s@));
        lemma_split_slash_len(s@);
    }
    parts
}

/// The value of a decimal digit character, or 10 if it is not a digit.
pub open spec fn digit_value(c: char) -> nat {
    if c == '0' {
        0
    } else if c == '1' {
        1
    } else if c == '2' {
        2
    } else if c == '3' {
        3
    } else if c == '4' {
        4
    } else if c == '5' {
        5
    } else if c == '6' {
        6
    } else if c == '7' {
        7
    } else if c == '8' {
        8
    } else if c == '9' {
        9
    } else {
        10
    }
}

pub open spec fn is_digit(c: char) -> bool {
    digit_value(c) < 10
}

/// The number denoted by a sequence of digit characters, most significant
/// first.
pub open spec fn digits_value(s: Seq<char>) -> nat
    decreases s.len(),
{
    if s.len() == 0 {
        0
    } else {
        digits_value(s.drop_last()) * 10 + digit_value(s.last())
    }
}

pub open spec fn all_digits(s: Seq<char>) -> bool {
    forall|j: int| 0 <= j < s.len() ==> is_digit(#[trigger] s[j])
}

pub open spec fn parse_digits(digits: Seq<char>) -> Option<u32> {
    if digits.len() > 0 && all_digits(digits) && digits_value(digits) <= u32::MAX {
        Some(digits_value(digits) as u32)
    } else {
        None
    }
}

/// What `str::parse::<u32>` accepts: an optional leading `+`, then one or
/// more digits, denoting a value that fits in a `u32`.
pub open spec fn spec_parse_u32(s: Seq<char>) -> Option<u32> {
    if s.len() > 0 && s[0] == '+' {
        parse_digits(s.drop_first())
    } else {
        parse_digits(s)
    }
}

/// Parses an unsigned 32-bit decimal integer the way `str::parse::<u32>`
/// does: an optional leading `+`, then digits; anything else, or overflow,
/// is rejected.
pub fn parse_u32(s: &str) -> (r: Option<u32>)
    ensures
        r == spec_parse_u32(s@),
{
    let n = s.unicode_len();
    let has_sign = n > 0 && s.get_char(0) == '+';
    let start: usize = if has_sign {
        1
    } else {
        0
    };
    let ghost digits = if has_sign {
        s@.drop_first()
    } else {
        s@
    };
    proof {
        assert(digits =~= s@.subrange(start as int, n as int));
        assert(spec_parse_u32(s@) == parse_digits(digits));
    }
    if start == n {
        return None;
    }
    let mut value: u32 = 0;
    let mut i: usize = start;
    while i < n
        invariant
            start <= i <= n == s@.len(),
            start < n,
            digits =~= s@.subrange(start as int, n as int),
            spec_parse_u32(s@) == parse_digits(digits),
            forall|j: int| start <= j < i ==> is_digit(s@[j]),
            value == digits_value(s@.subrange(start as int, i as int)),
            digits_value(s@.subrange(start as int, i as int)) <= u32::MAX,
        decreases n - i,
    {
        let c = s.get_char(i);
        let d: u32 = match c {
            '0' => 0,
            '1' => 1,
            '2' => 2,
            '3' => 3,
            '4' => 4,
            '5' => 5,
            '6' => 6,
            '7' => 7,
            '8' => 8,
            '9' => 9,
            _ => 10,
        };
        assert(d == digit_value(s@[i as int]));
        if d == 10 {
            proof {
                assert(digits[i - start] == s@[i as int]);
                assert(!is_digit(digits[i - start]));
                assert(!all_digits(digits));
                assert(spec_parse_u32(s@) is None);
            }
            return None;
        }
        let next: Option<u32> = match value.checked_mul(10) {
            Some(v) => v.checked_add(d),
            None => None,
        };
        proof {
            assert(s@.subrange(start as int, i + 1).drop_last() =~= s@.subrange(
                start as int,
                i as int,
            ));
        }
        match next {
            Some(v) => {
                value = v;
            },
            None => {
                proof {
                    let pre = s@.subrange(start as int, i + 1);
                    assert(pre.last() == s@[i as int]);
                    assert(digits_value(pre) == value * 10 + d);
                    assert(pre =~= digits.subrange(0, pre.len() as int));
                    lemma_digits_value_monotone(digits, pre);
                    assert(digits_value(digits) > u32::MAX);
                    assert(spec_parse_u32(s@) is None);
                }
                return None;
            },
        }
        i += 1;
    }
    proof {
        assert(s@.subrange(start as int, n as int) =~= digits);
        assert forall|j: int| 0 <= j < digits.len() implies is_digit(#[trigger] digits[j]) by {
            assert(is_digit(s@[start + j]));
        }
        assert(parse_digits(digits) == Some(value));
    }
    Some(value)
}

/// A prefix of a digit sequence never denotes more than the whole sequence.
proof fn lemma_digits_value_monotone(s: Seq<char>, pre: Seq<char>)
    requires
        pre.len() <= s.len(),
        pre =~= s.subrange(0, pre.len() as int),
    ensures
        digits_value(pre) <= digits_value(s),
    decreases s.len() - pre.len(),
{
    if pre.len() < s.len() {
        let pre1 = s.subrange(0, pre.len() as int + 1);
        assert(pre1.drop_last() =~= pre);
        lemma_digits_value_monotone(s, pre1);
    } else {
        assert(pre =~= s);
    }
}

/// The decimal digits of `n`, most significant first.
pub open spec fn spec_dec(n: nat) -> Seq<char>
    decreases n,
{
    if n < 10 {
        seq![digit_char(n)]
    } else {
        spec_dec(n / 10) + seq![digit_char(n % 10)]
    }
}

pub open spec fn digit_char(d: nat) -> char {
    if d == 0 {
        '0'
    } else if d == 1 {
        '1'
    } else if d == 2 {
        '2'
    } else if d == 3 {
        '3'
    } else if d == 4 {
        '4'
    } else if d == 5 {
        '5'
    } else if d == 6 {
        '6'
    } else if d == 7 {
        '7'
    } else if d == 8 {
        '8'
    } else {
        '9'
    }
}

fn digit_str(d: u64) -> (r: &'static str)
    requires
        d < 10,
    ensures
        r@ =~= seq![digit_char(d as nat)],
{
    proof {
        reveal_strlit("0");
        reveal_strlit("1");
        reveal_strlit("2");
        reveal_strlit("3");
        reveal_strlit("4");
        reveal_strlit("5");
        reveal_strlit("6");
        reveal_strlit("7");
        reveal_strlit("8");
        reveal_strlit("9");
    }
    match d {
        0 => "0",
        1 => "1",
        2 => "2",
        3 => "3",
        4 => "4",
        5 => "5",
        6 => "6",
        7 => "7",
        8 => "8",
        _ => "9",
    }
}

/// Formats `n` in decimal, most significant digit first.
pub fn u64_to_dec(n: u64) -> (r: String)
    ensures
        r@ == spec_dec(n as nat),
    decreases n,
{
    if n < 10 {
        String::from_str(digit_str(n))
    } else {
        let high = u64_to_dec(n / 10);
        let r = high.concat(digit_str(n % 10));
        proof {
            assert(r@ =~= spec_dec(n as nat));
        }
        r
    }
}

} // verus!

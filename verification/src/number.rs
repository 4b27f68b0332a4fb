//! Decimal parsing of file-descriptor numbers, as `i32`'s `FromStr` does it.

use vstd::prelude::*;
use vstd::string::*;

verus! {

/// An ASCII decimal digit.
pub open spec fn is_digit(c: char) -> bool {
    '0' <= c && c <= '9'
}

/// The numeric value of a decimal digit.
pub open spec fn digit_value(c: char) -> int {
    (c as int) - ('0' as int)
}

/// Every character of `s` is a decimal digit.
pub open spec fn all_digits(s: Seq<char>) -> bool {
    forall|i: int| 0 <= i < s.len() ==> is_digit(#[trigger] s[i])
}

/// The value of a string of decimal digits, most significant first.
pub open spec fn digits_value(s: Seq<char>) -> int
    decreases s.len(),
{
    if s.len() == 0 {
        0
    } else {
        digits_value(s.drop_last()) * 10 + digit_value(s.last())
    }
}

/// What `s.parse::<i32>()` gives: an optional `+` or `-`, then one or more
/// decimal digits whose signed value fits in an `i32`.
pub open spec fn spec_parse_i32(s: Seq<char>) -> Option<i32> {
    let neg = s.len() > 0 && s[0] == '-';
    let signed = s.len() > 0 && (s[0] == '-' || s[0] == '+');
    let body = if signed { s.skip(1) } else { s };
    let magnitude = digits_value(body);
    let value = if neg { -magnitude } else { magnitude };
    if body.len() == 0 || !all_digits(body) {
        None
    } else if i32::MIN <= value <= i32::MAX {
        Some(value as i32)
    } else {
        None
    }
}

proof fn lemma_digits_value_nonneg(s: Seq<char>)
    requires
        all_digits(s),
    ensures
        digits_value(s) >= 0,
    decreases s.len(),
{
    if s.len() > 0 {
        lemma_digits_value_nonneg(s.drop_last());
    }
}

/// A prefix of a digit string never has a larger value than the whole string.
proof fn lemma_digits_prefix_le(s: Seq<char>, k: int)
    requires
        all_digits(s),
        0 <= k <= s.len(),
    ensures
        digits_value(s.take(k)) <= digits_value(s),
    decreases s.len(),
{
    if k < s.len() {
        let t = s.drop_last();
        assert(t.take(k) =~= s.take(k));
        lemma_digits_prefix_le(t, k);
        lemma_digits_value_nonneg(t);
    } else {
        assert(s.take(k) =~= s);
    }
}

/// Parses a file-descriptor number as `str::parse::<i32>` does.
pub fn parse_fd(s: &str) -> (r: Option<i32>)
    ensures
        r == spec_parse_i32(s@),
{
    let n = s.unicode_len();
    let mut start: usize = 0;
    let mut neg = false;
    if n > 0 {
        let c0 = s.get_char(0);
        if c0 == '-' {
            neg = true;
            start = 1;
        } else if c0 == '+' {
            start = 1;
        }
    }
    let ghost body = s@.skip(start as int);
    assert(neg == (s@.len() > 0 && s@[0] == '-'));
    assert((start == 1) == (s@.len() > 0 && (s@[0] == '-' || s@[0] == '+')));
    assert(start == 0 ==> body =~= s@);
    if start == n {
        return None;
    }
    let mut acc: u64 = 0;
    let mut i: usize = start;
    while i < n
        invariant
            n == s@.len(),
            start <= i <= n,
            start <= 1,
            body == s@.skip(start as int),
            body.len() == n - start,
            neg == (s@.len() > 0 && s@[0] == '-'),
            (start == 1) == (s@.len() > 0 && (s@[0] == '-' || s@[0] == '+')),
            start == 0 ==> body == s@,
            all_digits(body.take(i - start)),
            acc == digits_value(body.take(i - start)),
            acc <= 2147483648,
        decreases n - i,
    {
        let c = s.get_char(i);
        proof {
            assert(body[i - start] == c);
        }
        if !('0' <= c && c <= '9') {
            assert(!all_digits(body));
            return None;
        }
        let d = (c as u32 - '0' as u32) as u64;
        proof {
            let p = body.take(i - start + 1);
            assert(p.drop_last() =~= body.take(i - start));
            assert(p.last() == c);
        }
        acc = acc * 10 + d;
        i = i + 1;
        if acc > 2147483648 {
            proof {
                if all_digits(body) {
                    lemma_digits_prefix_le(body, i - start);
                }
            }
            return None;
        }
    }
    proof {
        assert(body.take(i - start) =~= body);
    }
    if neg {
        Some((0 - (acc as i64)) as i32)
    } else if acc <= 2147483647 {
        Some(acc as i32)
    } else {
        None
    }
}

/// The character that writes the digit `d` (0 to 9).
pub open spec fn digit_char(d: int) -> char {
    if d == 0 {
        '0'
    } else if d == 1 {
        '1'
    } else if d == 2 {
        '2'
    } else if d == 3 {
        '3'
    } else if d == 4 {
        '4'
    } else if d == 5 {
        '5'
    } else if d == 6 {
        '6'
    } else if d == 7 {
        '7'
    } else if d == 8 {
        '8'
    } else {
        '9'
    }
}

/// Each entry is a digit from 0 to 9.
pub open spec fn are_digits(ds: Seq<int>) -> bool {
    forall|i: int| 0 <= i < ds.len() ==> 0 <= #[trigger] ds[i] <= 9
}

/// The number whose decimal digits, most significant first, are `ds`.
pub open spec fn number_of(ds: Seq<int>) -> int
    decreases ds.len(),
{
    if ds.len() == 0 {
        0
    } else {
        number_of(ds.drop_last()) * 10 + ds.last()
    }
}

/// The text that writes the digits `ds`.
pub open spec fn written(ds: Seq<int>) -> Seq<char> {
    ds.map_values(|d: int| digit_char(d))
}

proof fn lemma_digit_char(d: int)
    requires
        0 <= d <= 9,
    ensures
        is_digit(digit_char(d)),
        digit_value(digit_char(d)) == d,
{
}

proof fn lemma_written(ds: Seq<int>)
    requires
        are_digits(ds),
    ensures
        all_digits(written(ds)),
        digits_value(written(ds)) == number_of(ds),
        number_of(ds) >= 0,
    decreases ds.len(),
{
    let w = written(ds);
    assert forall|i: int| 0 <= i < w.len() implies is_digit(#[trigger] w[i]) by {
        lemma_digit_char(ds[i]);
    }
    if ds.len() > 0 {
        let init = ds.drop_last();
        assert(are_digits(init));
        lemma_written(init);
        assert(w.drop_last() =~= written(init));
        lemma_digit_char(ds.last());
    }
}

/// Digit law: every text of one or more decimal digits `0`..`9` (leading
/// zeros allowed) reads as the number it writes when that fits in an `i32`,
/// as does the same text after `+`, and after `-` it reads as its negation.
pub proof fn law_parse_digits(ds: Seq<int>)
    requires
        ds.len() >= 1,
        are_digits(ds),
    ensures
        number_of(ds) <= i32::MAX ==> spec_parse_i32(written(ds)) == Some(number_of(ds) as i32),
        number_of(ds) <= i32::MAX ==> spec_parse_i32(seq!['+'] + written(ds)) == Some(
            number_of(ds) as i32,
        ),
        number_of(ds) <= 2147483648 ==> spec_parse_i32(seq!['-'] + written(ds)) == Some(
            (-number_of(ds)) as i32,
        ),
        number_of(ds) > i32::MAX ==> spec_parse_i32(written(ds)) is None && spec_parse_i32(
            seq!['+'] + written(ds),
        ) is None,
        number_of(ds) > 2147483648 ==> spec_parse_i32(seq!['-'] + written(ds)) is None,
{
    lemma_written(ds);
    let w = written(ds);
    lemma_digit_char(ds[0]);
    assert(w[0] == digit_char(ds[0]));
    assert((seq!['+'] + w).skip(1) =~= w);
    assert((seq!['-'] + w).skip(1) =~= w);
}

/// Single-digit law: each of `"0"` to `"9"` reads as its digit.
pub proof fn law_parse_single_digit(d: int)
    requires
        0 <= d <= 9,
    ensures
        spec_parse_i32(seq![digit_char(d)]) == Some(d as i32),
{
    let ds = seq![d];
    assert(are_digits(ds));
    assert(written(ds) =~= seq![digit_char(d)]);
    assert(ds.drop_last() =~= Seq::<int>::empty());
    assert(number_of(Seq::<int>::empty()) == 0);
    assert(ds.last() == d);
    assert(number_of(ds) == number_of(ds.drop_last()) * 10 + ds.last());
    assert(number_of(ds) == d);
    law_parse_digits(ds);
}

/// Whether `c` is one of the ten decimal digit characters.
pub open spec fn is_decimal_char(c: char) -> bool {
    c == '0' || c == '1' || c == '2' || c == '3' || c == '4' || c == '5' || c == '6' || c == '7'
        || c == '8' || c == '9'
}

/// Rejection law: a text is refused when it is empty, is a sign alone, or
/// holds any character other than the ten digits, a single leading sign
/// aside.
pub proof fn law_parse_rejects(s: Seq<char>, i: int)
    ensures
        s.len() == 0 ==> spec_parse_i32(s) is None,
        s =~= seq!['+'] || s =~= seq!['-'] ==> spec_parse_i32(s) is None,
        (0 <= i < s.len() && !is_decimal_char(s[i]) && !(i == 0 && (s[0] == '+' || s[0]
            == '-'))) ==> spec_parse_i32(s) is None,
{
    if 0 <= i < s.len() && !is_decimal_char(s[i]) && !(i == 0 && (s[0] == '+' || s[0] == '-')) {
        let signed = s.len() > 0 && (s[0] == '-' || s[0] == '+');
        let body = if signed {
            s.skip(1)
        } else {
            s
        };
        let j = if signed {
            i - 1
        } else {
            i
        };
        assert(body[j] == s[i]);
        assert(!is_digit(body[j]));
    }
}

} // verus!

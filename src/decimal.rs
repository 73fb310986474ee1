//! Decimal text for the integer `id` column: parsing a field of a CSV row
//! and printing an id in a display line.

use vstd::prelude::*;

verus! {

/// Relies on `String::push`, which appends one character at the end.
pub assume_specification[ String::push ](s: &mut String, ch: char)
    ensures
        final(s)@ == old(s)@.push(ch),
;

pub open spec fn is_digit(c: char) -> bool {
    '0' <= c && c <= '9'
}

pub open spec fn digit_value(c: char) -> int {
    (c as int) - ('0' as int)
}

/// The character that writes the digit `d` (`0 <= d < 10`).
pub open spec fn digit_char(d: int) -> char {
    ((d + 48) as u8) as char
}

/// The value of a string of decimal digits, most significant first.
pub open spec fn digits_value(s: Seq<char>) -> int
    decreases s.len(),
{
    if s.len() == 0 {
        0
    } else {
        10 * digits_value(s.drop_last()) + digit_value(s.last())
    }
}

pub open spec fn all_digits(s: Seq<char>) -> bool {
    s.len() > 0 && forall|i: int| 0 <= i < s.len() ==> is_digit(#[trigger] s[i])
}

/// The integer that `s` writes: an optional `+` or `-` and at least one
/// decimal digit, nothing else.
pub open spec fn integer_value(s: Seq<char>) -> Option<int> {
    if s.len() > 0 && s[0] == '-' && all_digits(s.drop_first()) {
        Some(-digits_value(s.drop_first()))
    } else if s.len() > 0 && s[0] == '+' && all_digits(s.drop_first()) {
        Some(digits_value(s.drop_first()))
    } else if all_digits(s) {
        Some(digits_value(s))
    } else {
        None
    }
}

/// The `i64` that `s` writes, if it writes one in range.
pub open spec fn parse_i64(s: Seq<char>) -> Option<i64> {
    match integer_value(s) {
        Some(v) => if i64::MIN <= v <= i64::MAX {
            Some(v as i64)
        } else {
            None
        },
        None => None,
    }
}

/// The shortest decimal digits of `n`.
pub open spec fn nat_digits(n: nat) -> Seq<char>
    decreases n,
{
    if n < 10 {
        seq![digit_char(n as int)]
    } else {
        nat_digits(n / 10).push(digit_char((n % 10) as int))
    }
}

/// The decimal text of `v`: a `-` for a negative value, then its digits.
pub open spec fn decimal_text(v: int) -> Seq<char> {
    if v < 0 {
        seq!['-'] + nat_digits((-v) as nat)
    } else {
        nat_digits(v as nat)
    }
}

proof fn lemma_digits_value_nonneg(s: Seq<char>)
    requires
        forall|i: int| 0 <= i < s.len() ==> is_digit(#[trigger] s[i]),
    ensures
        digits_value(s) >= 0,
    decreases s.len(),
{
    if s.len() > 0 {
        assert(is_digit(s[s.len() - 1]));
        lemma_digits_value_nonneg(s.drop_last());
    }
}

/// A prefix of a digit string never has a larger value than the string.
proof fn lemma_prefix_value_le(s: Seq<char>, j: int)
    requires
        forall|i: int| 0 <= i < s.len() ==> is_digit(#[trigger] s[i]),
        0 <= j <= s.len(),
    ensures
        digits_value(s.take(j)) <= digits_value(s),
    decreases s.len() - j,
{
    if j < s.len() {
        lemma_prefix_value_le(s, j + 1);
        let t = s.take(j + 1);
        assert(t.drop_last() =~= s.take(j));
        assert(is_digit(t.last()));
        lemma_digits_value_nonneg(s.take(j));
    } else {
        assert(s.take(j) =~= s);
    }
}

fn push_digits(s: &mut String, n: u64)
    ensures
        final(s)@ == old(s)@ + nat_digits(n as nat),
    decreases n,
{
    if n >= 10 {
        push_digits(s, n / 10);
    }
    let d: u8 = (n % 10) as u8;
    s.push((d + 48) as char);
    assert(s@ =~= old(s)@ + nat_digits(n as nat));
}


/// Reads the digits of `s` from position `start` on, as `digits_value` of
/// that suffix; `None` where one is not a digit or the value passes `2^63`.
fn digits_from(s: &str, start: usize) -> (r: Option<u64>)
    requires
        start <= s@.len(),
    ensures
        match r {
            Some(v) => all_digits(s@.skip(start as int)) && v as int == digits_value(
                s@.skip(start as int),
            ) && v <= 0x8000_0000_0000_0000u64,
            None => !all_digits(s@.skip(start as int)) || digits_value(s@.skip(start as int))
                > 0x8000_0000_0000_0000u64,
        },
{
    let len = s.unicode_len();
    let ghost t = s@.skip(start as int);
    if start == len {
        return None;
    }
    let mut acc: u128 = 0;
    let mut i: usize = start;
    while i < len
        invariant
            start <= i <= len,
            len == s@.len(),
            t == s@.skip(start as int),
            forall|k: int| 0 <= k < i - start ==> is_digit(#[trigger] t[k]),
            acc as int == digits_value(t.take(i - start)),
            acc <= 0x8000_0000_0000_0000u128,
        decreases len - i,
    {
        let c = s.get_char(i);
        if !('0' <= c && c <= '9') {
            assert(t[i - start] == c);
            return None;
        }
        let d: u128 = (c as u32 - '0' as u32) as u128;
        proof {
            let u = t.take(i - start + 1);
            assert(u.drop_last() =~= t.take(i - start));
            assert(u.last() == c);
        }
        let next: u128 = acc * 10 + d;
        if next > 0x8000_0000_0000_0000u128 {
            proof {
                if all_digits(t) {
                    lemma_prefix_value_le(t, i - start + 1);
                }
            }
            return None;
        }
        acc = next;
        i = i + 1;
    }
    assert(t.take(len - start) =~= t);
    Some(acc as u64)
}


/// Reads an `i64` written in decimal, with the grammar of `i64`'s `FromStr`:
/// an optional sign and at least one digit, nothing around them.
pub fn parse_i64_text(s: &str) -> (r: Option<i64>)
    ensures
        r == parse_i64(s@),
{
    let len = s.unicode_len();
    if len == 0 {
        return None;
    }
    let c0 = s.get_char(0);
    if c0 == '-' || c0 == '+' {
        assert(s@.skip(1) =~= s@.drop_first());
        assert(!is_digit(s@[0]));
        match digits_from(s, 1) {
            Some(m) => {
                if c0 == '-' {
                    Some((-(m as i128)) as i64)
                } else if m <= 0x7FFF_FFFF_FFFF_FFFFu64 {
                    Some(m as i64)
                } else {
                    None
                }
            },
            None => None,
        }
    } else {
        assert(s@.skip(0) =~= s@);
        match digits_from(s, 0) {
            Some(m) => {
                if m <= 0x7FFF_FFFF_FFFF_FFFFu64 {
                    Some(m as i64)
                } else {
                    None
                }
            },
            None => None,
        }
    }
}


/// Writes a count in decimal.
pub fn count_string(n: u64) -> (r: String)
    ensures
        r@ == nat_digits(n as nat),
{
    let mut s = String::new();
    push_digits(&mut s, n);
    assert(s@ =~= nat_digits(n as nat));
    s
}

/// Writes `v` in decimal, as `i64`'s `Display` does.
pub fn decimal_string(v: i64) -> (r: String)
    ensures
        r@ == decimal_text(v as int),
{
    let mut s = String::new();
    if v < 0 {
        s.push('-');
        let m: u64 = (-(v as i128)) as u64;
        push_digits(&mut s, m);
    } else {
        push_digits(&mut s, v as u64);
    }
    s
}

} // verus!

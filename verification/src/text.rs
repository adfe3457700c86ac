//! Texts: the decimal text of integers, as it appears in a window query, and
//! the comparison of texts that may be missing.

use vstd::prelude::*;
use vstd::string::StringExecFns;

verus! {

/// The characters of a text that may be missing.
pub open spec fn text_of(text: Option<String>) -> Option<Seq<char>> {
    match text {
        Some(t) => Some(t@),
        None => None,
    }
}

/// Whether two texts that may be missing are the same: both missing, or
/// both there with the same characters.
pub fn same_text(a: &Option<String>, b: &Option<String>) -> (same: bool)
    ensures
        same == (text_of(*a) == text_of(*b)),
{
    match (a, b) {
        (Some(x), Some(y)) => *x == *y,
        (None, None) => true,
        _ => false,
    }
}

/// Whether two texts have the same characters.
pub fn is_text(a: &str, b: &str) -> (same: bool)
    ensures
        same == (a@ == b@),
{
    a.to_owned() == b.to_owned()
}

/// The character of one decimal digit.
pub open spec fn digit_char(d: int) -> char
    recommends
        0 <= d < 10,
{
    if d == 0 {
        '0'
    } else if d == 1 {
        '1'
    } else if d == 2 {
        '2'
    } else if d == 3 {
        '3'
    } else if d == 4 {
        '4'
    } else if d == 5 {
        '5'
    } else if d == 6 {
        '6'
    } else if d == 7 {
        '7'
    } else if d == 8 {
        '8'
    } else {
        '9'
    }
}

/// The decimal digits of a natural number, most significant first, without
/// leading zeros; zero is the single digit `0`.
pub open spec fn decimal_digits(n: nat) -> Seq<char>
    decreases n,
{
    if n < 10 {
        seq![digit_char(n as int)]
    } else {
        decimal_digits(n / 10).push(digit_char((n % 10) as int))
    }
}

/// The decimal text of an integer: a minus sign before the digits of a
/// negative number.
pub open spec fn decimal_text(v: int) -> Seq<char> {
    if v < 0 {
        seq!['-'] + decimal_digits((-v) as nat)
    } else {
        decimal_digits(v as nat)
    }
}

/// The digits `low`, given least significant first, read most significant
/// first.
spec fn high_first(low: Seq<u8>) -> Seq<char> {
    Seq::new(low.len(), |i: int| digit_char(low[low.len() - 1 - i] as int))
}

/// The text of one decimal digit.
fn digit_text(d: u8) -> (text: &'static str)
    requires
        d < 10,
    ensures
        text@ == seq![digit_char(d as int)],
{
    proof {
        reveal_strlit("0");
        reveal_strlit("1");
        reveal_strlit("2");
        reveal_strlit("3");
        reveal_strlit("4");
        reveal_strlit("5");
        reveal_strlit("6");
        reveal_strlit("7");
        reveal_strlit("8");
        reveal_strlit("9");
    }
    let text = if d == 0 {
        "0"
    } else if d == 1 {
        "1"
    } else if d == 2 {
        "2"
    } else if d == 3 {
        "3"
    } else if d == 4 {
        "4"
    } else if d == 5 {
        "5"
    } else if d == 6 {
        "6"
    } else if d == 7 {
        "7"
    } else if d == 8 {
        "8"
    } else {
        "9"
    };
    assert(text@ =~= seq![digit_char(d as int)]);
    text
}

/// Appends the decimal digits of `n` to `out`.
pub fn push_decimal(out: &mut String, n: u64)
    ensures
        final(out)@ == old(out)@ + decimal_digits(n as nat),
{
    let mut low: Vec<u8> = Vec::new();
    low.push((n % 10) as u8);
    let mut rest: u64 = n / 10;
    proof {
        assert(high_first(low@) =~= seq![digit_char((n % 10) as int)]);
        if n >= 10 {
            assert(decimal_digits(n as nat) =~= decimal_digits(rest as nat) + high_first(low@));
        }
    }
    while rest > 0
        invariant
            low.len() > 0,
            forall|k: int| 0 <= k < low.len() ==> low[k] < 10,
            rest > 0 ==> decimal_digits(n as nat) == decimal_digits(rest as nat) + high_first(
                low@,
            ),
            rest == 0 ==> decimal_digits(n as nat) == high_first(low@),
        decreases rest,
    {
        let d: u8 = (rest % 10) as u8;
        let ghost before = low@;
        let ghost prior = rest;
        low.push(d);
        rest = rest / 10;
        proof {
            assert(high_first(low@) =~= seq![digit_char(d as int)] + high_first(before));
            if prior < 10 {
                assert(decimal_digits(prior as nat) =~= seq![digit_char(d as int)]);
                assert(decimal_digits(n as nat) =~= high_first(low@));
            } else {
                assert(decimal_digits(prior as nat) =~= decimal_digits(rest as nat) + seq![
                    digit_char(d as int),
                ]);
                assert(decimal_digits(n as nat) =~= decimal_digits(rest as nat) + high_first(
                    low@,
                ));
            }
        }
    }
    let count: usize = low.len();
    let mut done: usize = 0;
    while done < count
        invariant
            0 <= done <= count,
            count == low.len(),
            forall|k: int| 0 <= k < low.len() ==> low[k] < 10,
            out@ == old(out)@ + high_first(low@).subrange(0, done as int),
        decreases count - done,
    {
        out.append(digit_text(low[count - 1 - done]));
        done = done + 1;
        proof {
            assert(high_first(low@).subrange(0, done as int) =~= high_first(low@).subrange(
                0,
                done - 1,
            ).push(high_first(low@)[done - 1]));
            assert(out@ =~= old(out)@ + high_first(low@).subrange(0, done as int));
        }
    }
    proof {
        assert(high_first(low@).subrange(0, count as int) =~= high_first(low@));
    }
}

/// Appends the decimal text of `v` to `out`.
pub fn push_signed_decimal(out: &mut String, v: i64)
    ensures
        final(out)@ == old(out)@ + decimal_text(v as int),
{
    if v < 0 {
        proof {
            reveal_strlit("-");
        }
        let ghost start = out@;
        out.append("-");
        assert(out@ =~= start + seq!['-']);
        let magnitude: u64 = (-(v as i128)) as u64;
        push_decimal(out, magnitude);
        assert(out@ =~= start + decimal_text(v as int));
    } else {
        push_decimal(out, v as u64);
    }
}

/// The decimal text of a natural number.
pub fn decimal(n: u64) -> (text: String)
    ensures
        text@ == decimal_digits(n as nat),
{
    let mut text = String::new();
    push_decimal(&mut text, n);
    assert(text@ =~= decimal_digits(n as nat));
    text
}

} // verus!

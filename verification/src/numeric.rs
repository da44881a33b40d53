//! Reading decimal numbers out of text, and writing them back.

use vstd::prelude::*;

use crate::text::{digit_char, string_push};

verus! {

/// Why a text is not an unsigned integer of the wanted type, as the
/// standard library's integer parser reports it.
#[derive(Clone, Copy, Debug, PartialEq, Eq)]
pub enum IntErrorKind {
    /// The text is empty.
    Empty,
    /// A character is not a decimal digit.
    InvalidDigit,
    /// The value does not fit.
    PosOverflow,
}

/// Whether `c` is an ASCII decimal digit.
pub open spec fn is_digit(c: char) -> bool {
    '0' <= c <= '9'
}

/// The value of the ASCII digit `c`.
pub open spec fn digit_value(c: char) -> int {
    c as int - '0' as int
}

/// Reads `s` left to right as decimal digits, stopping at the first
/// character that is not a digit or at which the value exceeds `max`.
pub open spec fn digits_value(s: Seq<char>, max: nat) -> Result<nat, IntErrorKind>
    decreases s.len(),
{
    if s.len() == 0 {
        Ok(0)
    } else {
        match digits_value(s.drop_last(), max) {
            Err(e) => Err(e),
            Ok(v) => if !is_digit(s.last()) {
                Err(IntErrorKind::InvalidDigit)
            } else if 10 * v + digit_value(s.last()) > max {
                Err(IntErrorKind::PosOverflow)
            } else {
                Ok((10 * v + digit_value(s.last())) as nat)
            },
        }
    }
}

/// The standard library's reading of `s` as an unsigned integer no greater
/// than `max`: an optional leading `+`, then decimal digits.
pub open spec fn unsigned_value(s: Seq<char>, max: nat) -> Result<nat, IntErrorKind> {
    if s.len() == 0 {
        Err(IntErrorKind::Empty)
    } else if s.len() == 1 && (s[0] == '+' || s[0] == '-') {
        Err(IntErrorKind::InvalidDigit)
    } else if s[0] == '+' {
        digits_value(s.drop_first(), max)
    } else {
        digits_value(s, max)
    }
}

proof fn lemma_step_fits(v: int, d: int, max: int)
    requires
        0 <= v,
        0 <= d <= 9,
        d <= max,
    ensures
        (10 * v + d <= max) <==> (v <= (max - d) / 10),
{
    assert((10 * v + d <= max) <==> (v <= (max - d) / 10)) by (nonlinear_arith)
        requires
            0 <= v,
            0 <= d <= 9,
            d <= max,
    ;
}

/// Reads `s[a..b]` as decimal digits no greater than `max`.
fn digits_exec(s: &Vec<char>, a: usize, b: usize, max: u64) -> (r: Result<u64, IntErrorKind>)
    requires
        a <= b <= s.len(),
        max >= 9,
    ensures
        match digits_value(s@.subrange(a as int, b as int), max as nat) {
            Ok(v) => r == Ok::<u64, IntErrorKind>(v as u64),
            Err(e) => r == Err::<u64, IntErrorKind>(e),
        },
{
    let mut v: u64 = 0;
    let mut i = a;
    while i < b
        invariant
            a <= i <= b <= s.len(),
            max >= 9,
            digits_value(s@.subrange(a as int, i as int), max as nat) == Ok::<nat, IntErrorKind>(
                v as nat,
            ),
            v <= max,
        decreases b - i,
    {
        let c = s[i];
        let ghost pre = s@.subrange(a as int, i as int);
        let ghost cur = s@.subrange(a as int, i + 1);
        assert(cur.drop_last() =~= pre);
        assert(cur.last() == c);
        if !('0' <= c && c <= '9') {
            proof {
                lemma_digits_err_extends(s@, a as int, i + 1, b as int, max as nat);
            }
            return Err(IntErrorKind::InvalidDigit);
        }
        let d = (c as u64) - ('0' as u64);
        proof {
            lemma_step_fits(v as int, d as int, max as int);
        }
        if v > (max - d) / 10 {
            proof {
                lemma_digits_err_extends(s@, a as int, i + 1, b as int, max as nat);
            }
            return Err(IntErrorKind::PosOverflow);
        }
        v = 10 * v + d;
        i = i + 1;
    }
    Ok(v)
}

proof fn lemma_digits_err_extends(s: Seq<char>, a: int, i: int, b: int, max: nat)
    requires
        0 <= a <= i <= b <= s.len(),
        digits_value(s.subrange(a, i), max) is Err,
    ensures
        digits_value(s.subrange(a, b), max) == digits_value(s.subrange(a, i), max),
    decreases b - i,
{
    if i < b {
        lemma_digits_err_extends(s, a, i, b - 1, max);
        if i < b - 1 {
        }
        assert(s.subrange(a, b).drop_last() =~= s.subrange(a, b - 1));
        if i == b - 1 {
        }
    }
}

/// Reads `s` as an unsigned integer no greater than `max`, as the standard
/// library's parser does.
pub fn parse_unsigned(s: &Vec<char>, max: u64) -> (r: Result<u64, IntErrorKind>)
    requires
        max >= 9,
    ensures
        match unsigned_value(s@, max as nat) {
            Ok(v) => r == Ok::<u64, IntErrorKind>(v as u64),
            Err(e) => r == Err::<u64, IntErrorKind>(e),
        },
{
    if s.len() == 0 {
        return Err(IntErrorKind::Empty);
    }
    if s.len() == 1 && (s[0] == '+' || s[0] == '-') {
        return Err(IntErrorKind::InvalidDigit);
    }
    if s[0] == '+' {
        assert(s@.subrange(1, s@.len() as int) =~= s@.drop_first());
        digits_exec(s, 1, s.len(), max)
    } else {
        assert(s@.subrange(0, s@.len() as int) =~= s@);
        digits_exec(s, 0, s.len(), max)
    }
}

/// Decimal rendering of a natural number, without leading zeros.
pub open spec fn decimal(n: nat) -> Seq<char>
    decreases n,
{
    if n < 10 {
        seq![digit_char(n as int)]
    } else {
        decimal(n / 10).push(digit_char((n % 10) as int))
    }
}

/// `n` in decimal, padded with leading zeros to at least `width` digits.
pub open spec fn zero_padded(n: nat, width: nat) -> Seq<char> {
    let d = decimal(n);
    if d.len() >= width {
        d
    } else {
        Seq::new((width - d.len()) as nat, |i: int| '0') + d
    }
}

/// The digit character of `d`.
fn digit_char_exec(d: u64) -> (c: char)
    requires
        d < 10,
    ensures
        c == digit_char(d as int),
{
    if d == 0 { '0' }
    else if d == 1 { '1' }
    else if d == 2 { '2' }
    else if d == 3 { '3' }
    else if d == 4 { '4' }
    else if d == 5 { '5' }
    else if d == 6 { '6' }
    else if d == 7 { '7' }
    else if d == 8 { '8' }
    else { '9' }
}

/// Appends the decimal rendering of `n` to `s`.
pub fn push_decimal(s: &mut String, n: u64)
    ensures
        final(s)@ == old(s)@ + decimal(n as nat),
    decreases n,
{
    if n < 10 {
        string_push(s, digit_char_exec(n));
        assert(decimal(n as nat) =~= seq![digit_char(n as int)]);
    } else {
        push_decimal(s, n / 10);
        string_push(s, digit_char_exec(n % 10));
        assert(old(s)@ + decimal(n as nat) =~= old(s)@ + decimal((n / 10) as nat) + seq![
            digit_char((n % 10) as int),
        ]);
    }
}

proof fn lemma_decimal_len(n: nat)
    ensures
        decimal(n).len() >= 1,
        n < 10 ==> decimal(n).len() == 1,
        10 <= n < 100 ==> decimal(n).len() == 2,
        n >= 10 ==> decimal(n).len() >= 2,
    decreases n,
{
    if n >= 10 {
        lemma_decimal_len(n / 10);
    }
}

/// Appends `n` in decimal, padded with zeros to two digits.
pub fn push_two_digits(s: &mut String, n: u64)
    ensures
        final(s)@ == old(s)@ + zero_padded(n as nat, 2),
{
    proof {
        lemma_decimal_len(n as nat);
    }
    if n < 10 {
        string_push(s, '0');
        push_decimal(s, n);
        assert(zero_padded(n as nat, 2) =~= seq!['0'] + decimal(n as nat));
        assert(old(s)@ + zero_padded(n as nat, 2) =~= old(s)@.push('0') + decimal(n as nat));
    } else {
        push_decimal(s, n);
    }
}

} // verus!

//! Rendering of numbers as text: decimal for ports and positional field
//! names, fixed-width lowercase hexadecimal for trace identifiers.

use vstd::prelude::*;
use vstd::arithmetic::div_mod::lemma_mod_breakdown;
use vstd::arithmetic::power::pow;

verus! {

/// The character for digit `d` in base sixteen, lowercase (`0 <= d < 16`);
/// the first ten are also the decimal digits.
pub open spec fn digit_char(d: nat) -> char {
    if d == 0 { '0' } else if d == 1 { '1' } else if d == 2 { '2' } else if d == 3 { '3' }
    else if d == 4 { '4' } else if d == 5 { '5' } else if d == 6 { '6' } else if d == 7 { '7' }
    else if d == 8 { '8' } else if d == 9 { '9' } else if d == 10 { 'a' } else if d == 11 { 'b' }
    else if d == 12 { 'c' } else if d == 13 { 'd' } else if d == 14 { 'e' } else { 'f' }
}

/// The value of a digit character in base sixteen (lowercase letters).
pub open spec fn digit_value(c: char) -> nat {
    if c == '0' { 0 } else if c == '1' { 1 } else if c == '2' { 2 } else if c == '3' { 3 }
    else if c == '4' { 4 } else if c == '5' { 5 } else if c == '6' { 6 } else if c == '7' { 7 }
    else if c == '8' { 8 } else if c == '9' { 9 } else if c == 'a' { 10 } else if c == 'b' { 11 }
    else if c == 'c' { 12 } else if c == 'd' { 13 } else if c == 'e' { 14 } else { 15 }
}

/// Whether `c` is a decimal digit.
pub open spec fn is_decimal_digit(c: char) -> bool {
    '0' <= c && c <= '9'
}

/// Whether `c` is a lowercase hexadecimal digit.
pub open spec fn is_lower_hex_digit(c: char) -> bool {
    ('0' <= c && c <= '9') || ('a' <= c && c <= 'f')
}

/// The decimal representation of `n`, without leading zeros (`0` is `"0"`).
pub open spec fn decimal(n: nat) -> Seq<char>
    decreases n,
{
    if n < 10 {
        seq![digit_char(n)]
    } else {
        decimal(n / 10).push(digit_char(n % 10))
    }
}

/// The number that a string of digits denotes in base `b`.
pub open spec fn digits_value(s: Seq<char>, b: nat) -> nat
    decreases s.len(),
{
    if s.len() == 0 {
        0
    } else {
        digits_value(s.drop_last(), b) * b + digit_value(s.last())
    }
}

/// The last `width` lowercase hexadecimal digits of `n`, padded with zeros.
pub open spec fn hex_digits(n: nat, width: nat) -> Seq<char>
    decreases width,
{
    if width == 0 {
        Seq::empty()
    } else {
        hex_digits(n / 16, (width - 1) as nat).push(digit_char(n % 16))
    }
}

/// The digit string for `d`.
fn digit_str(d: u8) -> (s: &'static str)
    requires
        d < 16,
    ensures
        s@ == seq![digit_char(d as nat)],
{
    if d == 0 { proof { reveal_strlit("0"); } "0" }
    else if d == 1 { proof { reveal_strlit("1"); } "1" }
    else if d == 2 { proof { reveal_strlit("2"); } "2" }
    else if d == 3 { proof { reveal_strlit("3"); } "3" }
    else if d == 4 { proof { reveal_strlit("4"); } "4" }
    else if d == 5 { proof { reveal_strlit("5"); } "5" }
    else if d == 6 { proof { reveal_strlit("6"); } "6" }
    else if d == 7 { proof { reveal_strlit("7"); } "7" }
    else if d == 8 { proof { reveal_strlit("8"); } "8" }
    else if d == 9 { proof { reveal_strlit("9"); } "9" }
    else if d == 10 { proof { reveal_strlit("a"); } "a" }
    else if d == 11 { proof { reveal_strlit("b"); } "b" }
    else if d == 12 { proof { reveal_strlit("c"); } "c" }
    else if d == 13 { proof { reveal_strlit("d"); } "d" }
    else if d == 14 { proof { reveal_strlit("e"); } "e" }
    else { proof { reveal_strlit("f"); } "f" }
}

/// Renders `n` in decimal, as `format!("{}", n)` does.
pub fn decimal_string(n: u64) -> (s: String)
    ensures
        s@ == decimal(n as nat),
    decreases n,
{
    if n < 10 {
        String::from_str(digit_str(n as u8))
    } else {
        let mut s = decimal_string(n / 10);
        s.append(digit_str((n % 10) as u8));
        s
    }
}

/// Renders the last `width` hexadecimal digits of `n`, lowercase and padded
/// with zeros, as `format!("{:0width$x}", n)` does for values below
/// sixteen to the power `width`.
pub fn hex_string(n: u128, width: usize) -> (s: String)
    ensures
        s@ == hex_digits(n as nat, width as nat),
    decreases width,
{
    if width == 0 {
        String::new()
    } else {
        let mut s = hex_string(n / 16, width - 1);
        s.append(digit_str((n % 16) as u8));
        s
    }
}

/// Law: the decimal rendering of `n` consists of decimal digits and
/// denotes `n`.
pub proof fn lemma_decimal_round_trip(n: nat)
    ensures
        digits_value(decimal(n), 10) == n,
        forall|i: int| 0 <= i < decimal(n).len() ==> is_decimal_digit(#[trigger] decimal(n)[i]),
        decimal(n).len() >= 1,
    decreases n,
{
    if n < 10 {
        assert(decimal(n).drop_last() =~= Seq::<char>::empty());
        assert(digits_value(Seq::<char>::empty(), 10) == 0);
        assert(digit_value(digit_char(n)) == n);
        assert(decimal(n).last() == digit_char(n));
    } else {
        lemma_decimal_round_trip(n / 10);
        let s = decimal(n);
        assert(s.drop_last() == decimal(n / 10));
        assert(s.last() == digit_char(n % 10));
        assert(digit_value(digit_char(n % 10)) == n % 10);
        assert(n == (n / 10) * 10 + n % 10);
    }
}

/// Law: the fixed-width hexadecimal rendering of `n` has exactly `width`
/// lowercase hexadecimal digits and denotes `n` modulo sixteen to the power
/// `width`.
pub proof fn lemma_hex_round_trip(n: nat, width: nat)
    ensures
        hex_digits(n, width).len() == width,
        forall|i: int| 0 <= i < width ==> is_lower_hex_digit(#[trigger] hex_digits(n, width)[i]),
        digits_value(hex_digits(n, width), 16) == n % (pow(16, width) as nat),
    decreases width,
{
    reveal(pow);
    if width == 0 {
        assert(pow(16, 0) == 1);
    } else {
        let w1 = (width - 1) as nat;
        lemma_hex_round_trip(n / 16, w1);
        vstd::arithmetic::power::lemma_pow_positive(16, w1);
        let s = hex_digits(n, width);
        assert(s.drop_last() == hex_digits(n / 16, w1));
        assert(digit_value(digit_char(n % 16)) == n % 16);
        lemma_mod_breakdown(n as int, 16, pow(16, w1));
        assert(pow(16, width) == 16 * pow(16, w1));
    }
}

} // verus!

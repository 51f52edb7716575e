//! Decimal and hexadecimal text of unsigned numbers.

use vstd::prelude::*;

verus! {

/// The character that stands for a digit below sixteen, letters in upper case.
pub open spec fn digit_char(d: nat) -> char {
    seq!['0', '1', '2', '3', '4', '5', '6', '7', '8', '9', 'A', 'B', 'C', 'D', 'E', 'F'][d as int]
}

/// The decimal digits of `n`, most significant first, without leading zeros.
pub open spec fn decimal_text(n: nat) -> Seq<char>
    decreases n,
{
    if n < 10 {
        seq![digit_char(n)]
    } else {
        decimal_text(n / 10).push(digit_char(n % 10))
    }
}

/// The upper-case hexadecimal digits of `n`, most significant first, without leading zeros.
pub open spec fn hex_text(n: nat) -> Seq<char>
    decreases n,
{
    if n < 16 {
        seq![digit_char(n)]
    } else {
        hex_text(n / 16).push(digit_char(n % 16))
    }
}

/// `digits` with as many `'0'` in front as it takes to reach `width` characters.
pub open spec fn zero_padded(digits: Seq<char>, width: nat) -> Seq<char> {
    if digits.len() >= width {
        digits
    } else {
        Seq::new((width - digits.len()) as nat, |i: int| '0') + digits
    }
}

/// How many hexadecimal digits `n` has; zero has one.
pub open spec fn hex_digit_count(n: nat) -> nat
    decreases n,
{
    if n < 16 {
        1
    } else {
        1 + hex_digit_count(n / 16)
    }
}

/// The column width for addresses up to `max_num`: its digit count, and never under four.
pub open spec fn hex_width(max_num: nat) -> nat {
    if hex_digit_count(max_num) < 4 {
        4
    } else {
        hex_digit_count(max_num)
    }
}

/// Sixteen to the power of `k`.
pub open spec fn pow16(k: nat) -> nat
    decreases k,
{
    if k == 0 {
        1
    } else {
        16 * pow16((k - 1) as nat)
    }
}

/// The digit count is the least number of hexadecimal digits that hold `n`: `n`
/// lies below sixteen to that power, and a number above zero not below sixteen to
/// one less. It is a quarter of the bit length, rounded up.
pub proof fn lemma_hex_digit_count_is_least(n: nat)
    ensures
        n < pow16(hex_digit_count(n)),
        n > 0 ==> pow16((hex_digit_count(n) - 1) as nat) <= n,
    decreases n,
{
    reveal_with_fuel(pow16, 2);
    if n >= 16 {
        lemma_hex_digit_count_is_least(n / 16);
    }
}

/// `hex_text` has exactly `hex_digit_count` characters.
pub proof fn lemma_hex_text_len(n: nat)
    ensures
        hex_text(n).len() == hex_digit_count(n),
    decreases n,
{
    if n >= 16 {
        lemma_hex_text_len(n / 16);
    }
}

/// A 64-bit number has at most sixteen hexadecimal digits.
pub proof fn lemma_hex_digit_count_u64(n: u64)
    ensures
        1 <= hex_digit_count(n as nat) <= 16,
{
    reveal_with_fuel(hex_digit_count, 17);
}

/// An address padded to `hex_width` of the largest address is exactly that wide
/// whenever it does not exceed that largest address.
pub proof fn lemma_padded_width(addr: nat, max_num: nat)
    requires
        addr <= max_num,
    ensures
        zero_padded(hex_text(addr), hex_width(max_num)).len() == hex_width(max_num),
{
    lemma_hex_text_len(addr);
    lemma_hex_digit_count_monotone(addr, max_num);
}

/// A larger number has no fewer hexadecimal digits.
pub proof fn lemma_hex_digit_count_monotone(a: nat, b: nat)
    requires
        a <= b,
    ensures
        hex_digit_count(a) <= hex_digit_count(b),
    decreases b,
{
    if a >= 16 {
        lemma_hex_digit_count_monotone(a / 16, b / 16);
    }
}

/// The number of hexadecimal digits of `n`.
pub fn hex_digits(n: u64) -> (digits: usize)
    ensures
        digits == hex_digit_count(n as nat),
        1 <= digits <= 16,
{
    let mut digits: usize = 1;
    let mut rest: u64 = n;
    proof {
        lemma_hex_digit_count_u64(n);
        lemma_hex_digit_count_u64(rest);
    }
    while rest >= 16
        invariant
            digits + hex_digit_count(rest as nat) == 1 + hex_digit_count(n as nat),
            1 <= hex_digit_count(rest as nat),
            hex_digit_count(n as nat) <= 16,
            digits >= 1,
        decreases rest,
    {
        rest = rest / 16;
        digits = digits + 1;
        proof {
            lemma_hex_digit_count_u64(rest);
        }
    }
    digits
}

/// Calls `format!` with `{}` on a `u128`, that is the `Display` of std's unsigned
/// integers: the number in decimal, most significant digit first, no sign, no
/// padding, a single `0` for zero.
#[verifier::external_body]
pub(crate) fn decimal_string(n: u128) -> (s: String)
    ensures
        s@ == decimal_text(n as nat),
{
    format!("{}", n)
}

/// Calls `format!` with `{:0width$X}` on a `u64`, that is std's `UpperHex` with a
/// zero flag and a minimum width: the hexadecimal digits in upper case, without
/// prefix, zeros in front up to `width` characters, never cut.
#[verifier::external_body]
pub(crate) fn padded_hex_string(n: u64, width: usize) -> (s: String)
    requires
        width <= 16,
    ensures
        s@ == zero_padded(hex_text(n as nat), width as nat),
{
    format!("{:0width$X}", n, width = width)
}

} // verus!

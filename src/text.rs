//! Rendering of numbers as text.

use vstd::prelude::*;

verus! {

/// The lower-case hexadecimal digits.
pub open spec fn hex_digits() -> Seq<char> {
    seq!['0', '1', '2', '3', '4', '5', '6', '7', '8', '9', 'a', 'b', 'c', 'd', 'e', 'f']
}

/// `n` in lower-case hexadecimal, without leading zeros.
pub open spec fn hex_spec(n: nat) -> Seq<char>
    decreases n,
{
    if n < 16 {
        seq![hex_digits()[n as int]]
    } else {
        hex_spec(n / 16).push(hex_digits()[(n % 16) as int])
    }
}

fn hex_digit(d: u64) -> (r: &'static str)
    requires
        d < 16,
    ensures
        r@ == seq![hex_digits()[d as int]],
{
    let digits = "0123456789abcdef";
    proof {
        reveal_strlit("0123456789abcdef");
    }
    let r = digits.substring_ascii(d as usize, d as usize + 1);
    assert(r@ =~= seq![hex_digits()[d as int]]);
    r
}

/// Renders `n` in lower-case hexadecimal, as `format!("{:x}", n)` does.
pub fn to_hex(n: u64) -> (r: String)
    ensures
        r@ == hex_spec(n as nat),
    decreases n,
{
    if n < 16 {
        String::from_str(hex_digit(n))
    } else {
        let mut r = to_hex(n / 16);
        r.append(hex_digit(n % 16));
        r
    }
}

/// The decimal digits.
pub open spec fn decimal_digits() -> Seq<char> {
    seq!['0', '1', '2', '3', '4', '5', '6', '7', '8', '9']
}

/// `n` in decimal, without leading zeros.
pub open spec fn decimal_spec(n: nat) -> Seq<char>
    decreases n,
{
    if n < 10 {
        seq![decimal_digits()[n as int]]
    } else {
        decimal_spec(n / 10).push(decimal_digits()[(n % 10) as int])
    }
}

/// `n` in decimal, with a leading `-` when it is negative.
pub open spec fn signed_decimal_spec(n: int) -> Seq<char> {
    if n < 0 {
        seq!['-'] + decimal_spec((-n) as nat)
    } else {
        decimal_spec(n as nat)
    }
}

fn decimal_digit(d: u64) -> (r: &'static str)
    requires
        d < 10,
    ensures
        r@ == seq![decimal_digits()[d as int]],
{
    let digits = "0123456789";
    proof {
        reveal_strlit("0123456789");
    }
    let r = digits.substring_ascii(d as usize, d as usize + 1);
    assert(r@ =~= seq![decimal_digits()[d as int]]);
    r
}

/// Renders `n` in decimal.
pub fn to_decimal(n: u64) -> (r: String)
    ensures
        r@ == decimal_spec(n as nat),
    decreases n,
{
    if n < 10 {
        String::from_str(decimal_digit(n))
    } else {
        let mut r = to_decimal(n / 10);
        r.append(decimal_digit(n % 10));
        r
    }
}

/// Renders `n` in decimal, with a leading `-` when it is negative.
pub fn to_signed_decimal(n: i64) -> (r: String)
    ensures
        r@ == signed_decimal_spec(n as int),
{
    if n < 0 {
        let magnitude: u64 = if n == i64::MIN {
            9_223_372_036_854_775_808u64
        } else {
            (-n) as u64
        };
        let digits = to_decimal(magnitude);
        let mut r = String::from_str("-");
        proof {
            reveal_strlit("-");
        }
        r.append(digits.as_str());
        r
    } else {
        to_decimal(n as u64)
    }
}

} // verus!

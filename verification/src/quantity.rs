//! Stock quantities. Every quantity the ledger accepts has at most two
//! decimals, so quantities and balances are held exactly as integer
//! hundredths of a unit.
use vstd::prelude::*;
use crate::text::{decimal_digits, digit, digit_char, magnitude, push_char, push_decimal};

verus! {

/// A quantity as the user entered it, already classified.
#[derive(Clone, Copy, Debug, PartialEq, Eq, Structural)]
pub enum QuantityInput {
    /// Not a finite number greater than zero.
    NotPositive,
    /// More than two decimals (the ledger never rounds).
    TooPrecise,
    /// An exact amount in hundredths of a unit.
    Hundredths(i64),
}

/// The decimal text of `h` hundredths: the sign, the whole units, and the
/// fractional digits without trailing zeros (`250` is "2.5", `500` is "5",
/// `-5` is "-0.05"), which is how the amount prints as a decimal number.
pub open spec fn hundredths_text(h: int) -> Seq<char> {
    let m: nat = if h < 0 { (-h) as nat } else { h as nat };
    let sign = if h < 0 { seq!['-'] } else { Seq::<char>::empty() };
    let frac: nat = m % 100;
    let tail = if frac == 0 {
        Seq::<char>::empty()
    } else if frac % 10 == 0 {
        seq!['.', digit_char(frac / 10)]
    } else {
        seq!['.', digit_char(frac / 10), digit_char(frac % 10)]
    };
    sign + decimal_digits(m / 100) + tail
}

/// Appends the decimal text of `h` hundredths to `out`.
pub fn push_hundredths(out: &mut String, h: i128)
    ensures
        final(out)@ == old(out)@ + hundredths_text(h as int),
{
    let m: u128 = magnitude(h);
    if h < 0 {
        push_char(out, '-');
    }
    let ghost before = out@;
    push_decimal(out, m / 100);
    let frac = m % 100;
    if frac != 0 {
        push_char(out, '.');
        push_char(out, digit(frac / 10));
        if frac % 10 != 0 {
            push_char(out, digit(frac % 10));
        }
    }
    assert(out@ =~= old(out)@ + hundredths_text(h as int));
}

/// The decimal text of `h` hundredths as a new string.
pub fn hundredths_string(h: i128) -> (r: String)
    ensures
        r@ == hundredths_text(h as int),
{
    let mut r = String::new();
    push_hundredths(&mut r, h);
    assert(r@ =~= hundredths_text(h as int));
    r
}

} // verus!

use vstd::prelude::*;
use crate::text::{digit, digit_char, digits_of, push_digits, string_from_chars};

verus! {

/// Number of micro-units in one whole unit of a [`Fixed`] scalar.
pub const MICROS_PER_UNIT: i64 = 1_000_000;

/// Number of decimal places that a [`Fixed`] scalar holds.
pub const FRACTION_DIGITS: u64 = 6;

/// A signed decimal scalar held exactly as a whole number of millionths.
///
/// Sampling parameters (temperature, top_p, penalties) are carried in this form,
/// so that range checks and rescaling are exact integer arithmetic.
#[derive(Clone, Copy, Debug, PartialEq, Eq, Structural)]
pub struct Fixed {
    pub micros: i64,
}

/// Strips trailing zero digits of a fraction of `places` decimal places.
pub open spec fn trim_zeros(f: nat, places: nat) -> (nat, nat)
    decreases places,
{
    if places > 0 && f % 10 == 0 {
        trim_zeros(f / 10, (places - 1) as nat)
    } else {
        (f, places)
    }
}

/// The last `places` decimal digits of `f`, with leading zeros.
pub open spec fn padded_digits(f: nat, places: nat) -> Seq<char>
    decreases places,
{
    if places == 0 {
        seq![]
    } else {
        padded_digits(f / 10, (places - 1) as nat).push(digit_char((f % 10) as int))
    }
}

/// The digits after the decimal point of a nonzero count of millionths, with no
/// trailing zeros.
pub open spec fn fraction_text(f: nat) -> Seq<char> {
    let t = trim_zeros(f, FRACTION_DIGITS as nat);
    padded_digits(t.0, t.1)
}

/// The text of a nonnegative count of millionths: the whole part, then a point and
/// the fraction when the fraction is not zero.
pub open spec fn magnitude_text(m: nat) -> Seq<char> {
    let whole = m / (MICROS_PER_UNIT as nat);
    let frac = m % (MICROS_PER_UNIT as nat);
    if frac == 0 {
        digits_of(whole)
    } else {
        digits_of(whole) + seq!['.'] + fraction_text(frac)
    }
}

/// The shortest decimal text of `micros` millionths (`1.1`, `-0.25`, `2`).
pub open spec fn fixed_text(micros: int) -> Seq<char> {
    if micros < 0 {
        seq!['-'] + magnitude_text((-micros) as nat)
    } else {
        magnitude_text(micros as nat)
    }
}

fn trim_fraction(f: u64, places: u64) -> (r: (u64, u64))
    ensures
        r.0 as nat == trim_zeros(f as nat, places as nat).0,
        r.1 as nat == trim_zeros(f as nat, places as nat).1,
        r.1 <= places,
    decreases places,
{
    if places > 0 && f % 10 == 0 {
        trim_fraction(f / 10, places - 1)
    } else {
        (f, places)
    }
}

fn push_padded(f: u64, places: u64, out: &mut Vec<char>)
    ensures
        final(out)@ == old(out)@ + padded_digits(f as nat, places as nat),
    decreases places,
{
    if places > 0 {
        push_padded(f / 10, places - 1, out);
        out.push(digit(f % 10));
        assert(final(out)@ =~= old(out)@ + padded_digits(f as nat, places as nat));
    }
}

impl Fixed {
    /// The scalar of `micros` millionths.
    pub fn from_micros(micros: i64) -> (r: Fixed)
        ensures
            r.micros == micros,
    {
        Fixed { micros }
    }

    /// The scalar `whole` units exactly.
    pub fn from_units(whole: i32) -> (r: Fixed)
        ensures
            r.micros == whole as int * MICROS_PER_UNIT,
    {
        Fixed { micros: whole as i64 * MICROS_PER_UNIT }
    }

    /// The shortest decimal text of the value, as `Display` gives it for a float of
    /// the same value.
    pub fn text(&self) -> (r: String)
        ensures
            r@ == fixed_text(self.micros as int),
    {
        let mut out: Vec<char> = Vec::new();
        let m: u64 = if self.micros < 0 {
            out.push('-');
            (-(self.micros as i128)) as u64
        } else {
            self.micros as u64
        };
        let whole = m / (MICROS_PER_UNIT as u64);
        let frac = m % (MICROS_PER_UNIT as u64);
        push_digits(whole, &mut out);
        if frac != 0 {
            out.push('.');
            let t = trim_fraction(frac, FRACTION_DIGITS);
            push_padded(t.0, t.1, &mut out);
        }
        proof {
            let start: Seq<char> = if self.micros < 0 { seq!['-'] } else { seq![] };
            assert(m as int == if self.micros < 0 { -self.micros } else { self.micros as int });
            assert(out@ =~= start + magnitude_text(m as nat));
            assert(start + magnitude_text(m as nat) =~= fixed_text(self.micros as int));
        }
        string_from_chars(&out)
    }
}

} // verus!

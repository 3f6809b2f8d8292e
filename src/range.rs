use vstd::prelude::*;
use crate::error::{ProtocolError, RangeAxis};
use crate::fixed::{fixed_text, Fixed};
use crate::text::{int_text, push_int, string_from_chars};

verus! {

/// An ordered scalar with a decimal text, as range checks need it.
pub trait RangeValue: Sized {
    /// The value, as an integer in the type's own unit.
    spec fn spec_value(&self) -> int;

    /// The text that reports the value to a client.
    spec fn spec_text(&self) -> Seq<char>;

    fn is_less_than(&self, other: &Self) -> (r: bool)
        ensures
            r == (self.spec_value() < other.spec_value()),
    ;

    fn render(&self) -> (r: String)
        ensures
            r@ == self.spec_text(),
    ;
}

impl RangeValue for Fixed {
    open spec fn spec_value(&self) -> int {
        self.micros as int
    }

    open spec fn spec_text(&self) -> Seq<char> {
        fixed_text(self.micros as int)
    }

    fn is_less_than(&self, other: &Self) -> (r: bool) {
        self.micros < other.micros
    }

    fn render(&self) -> (r: String) {
        self.text()
    }
}

impl RangeValue for i64 {
    open spec fn spec_value(&self) -> int {
        *self as int
    }

    open spec fn spec_text(&self) -> Seq<char> {
        int_text(*self as int)
    }

    fn is_less_than(&self, other: &Self) -> (r: bool) {
        *self < *other
    }

    fn render(&self) -> (r: String) {
        let mut out: Vec<char> = Vec::new();
        push_int(*self, &mut out);
        string_from_chars(&out)
    }
}

impl RangeValue for i32 {
    open spec fn spec_value(&self) -> int {
        *self as int
    }

    open spec fn spec_text(&self) -> Seq<char> {
        int_text(*self as int)
    }

    fn is_less_than(&self, other: &Self) -> (r: bool) {
        *self < *other
    }

    fn render(&self) -> (r: String) {
        let mut out: Vec<char> = Vec::new();
        push_int(*self as i64, &mut out);
        string_from_chars(&out)
    }
}

impl RangeValue for u32 {
    open spec fn spec_value(&self) -> int {
        *self as int
    }

    open spec fn spec_text(&self) -> Seq<char> {
        int_text(*self as int)
    }

    fn is_less_than(&self, other: &Self) -> (r: bool) {
        *self < *other
    }

    fn render(&self) -> (r: String) {
        let mut out: Vec<char> = Vec::new();
        push_int(*self as i64, &mut out);
        string_from_chars(&out)
    }
}

/// Whether `v` lies in the inclusive range `[lo, hi]`.
pub open spec fn in_range<T: RangeValue>(v: T, lo: T, hi: T) -> bool {
    lo.spec_value() <= v.spec_value() && v.spec_value() <= hi.spec_value()
}

/// The message that reports a value outside its range.
pub open spec fn out_of_range_message(value: Seq<char>, min: Seq<char>, max: Seq<char>) -> Seq<
    char,
> {
    "Value "@ + value + " is out of range ["@ + min + ", "@ + max + "]"@
}

/// A value that lies outside its inclusive range, with the value and the bounds as
/// text.
#[derive(Debug)]
pub struct RangeError {
    pub value: String,
    pub min: String,
    pub max: String,
}

impl RangeError {
    /// The human-readable message: `Value 1.1 is out of range [0, 1]`.
    pub fn to_string(&self) -> (r: String)
        ensures
            r@ == out_of_range_message(self.value@, self.min@, self.max@),
    {
        let mut s = String::from_str("Value ");
        s.append(self.value.as_str());
        s.append(" is out of range [");
        s.append(self.min.as_str());
        s.append(", ");
        s.append(self.max.as_str());
        s.append("]");
        s
    }
}

/// Checks an optional value against the inclusive range `range.0 ..= range.1`.
///
/// An absent value passes as absent; a present one passes unchanged when it lies in
/// the range, and is reported with both bounds otherwise.
pub fn validate_range<T: RangeValue>(value: Option<T>, range: &(T, T)) -> (r: Result<
    Option<T>,
    RangeError,
>)
    ensures
        value is None ==> r is Ok && r->Ok_0 is None,
        value is Some ==> (r is Ok <==> in_range(value->Some_0, range.0, range.1)),
        r is Ok ==> r->Ok_0 == value,
        r is Err ==> value is Some && r->Err_0.value@ == value->Some_0.spec_text()
            && r->Err_0.min@ == range.0.spec_text() && r->Err_0.max@ == range.1.spec_text(),
{
    match value {
        None => Ok(None),
        Some(v) => {
            if v.is_less_than(&range.0) || range.1.is_less_than(&v) {
                Err(RangeError { value: v.render(), min: range.0.render(), max: range.1.render() })
            } else {
                Ok(Some(v))
            }
        },
    }
}

} // verus!

verus! {

/// The rescaled value, in millionths: `d0 + (v - s0) * (d1 - d0) / (s1 - s0)`, the
/// exact quotient rounded down to a whole millionth.
pub open spec fn scaled_micros(v: int, s0: int, s1: int, d0: int, d1: int) -> int {
    let num = (v - s0) * (d1 - d0);
    let den = s1 - s0;
    if den > 0 {
        d0 + num / den
    } else {
        d0 + (-num) / (-den)
    }
}

/// Whether `x` can be held in an `i64`.
pub open spec fn fits_i64(x: int) -> bool {
    i64::MIN <= x <= i64::MAX
}

fn magnitude(x: i128) -> (r: u128)
    requires
        x > i128::MIN,
    ensures
        r as int == if x < 0 { -x } else { x as int },
{
    if x < 0 {
        (-x) as u128
    } else {
        x as u128
    }
}

proof fn lemma_signed_product(x: int, y: int, a: int, b: int)
    requires
        a == if x < 0 { -x } else { x },
        b == if y < 0 { -y } else { y },
    ensures
        x * y == if (x < 0) != (y < 0) { -(a * b) } else { a * b },
{
    if x < 0 && y < 0 {
        assert(x * y == (-x) * (-y)) by (nonlinear_arith);
    } else if x < 0 {
        assert(x * y == -((-x) * y)) by (nonlinear_arith);
    } else if y < 0 {
        assert(x * y == -(x * (-y))) by (nonlinear_arith);
    }
}

/// Maps `value` linearly from the range `src` onto the range `dst`.
///
/// Values outside `src` extrapolate; nothing is clamped. A range of zero width is
/// refused, the destination range being checked first.
pub fn scale_value(value: &Fixed, src: &(Fixed, Fixed), dst: &(Fixed, Fixed)) -> (r: Result<
    Fixed,
    ProtocolError,
>)
    requires
        src.1.micros != src.0.micros && dst.1.micros != dst.0.micros ==> fits_i64(
            scaled_micros(
                value.micros as int,
                src.0.micros as int,
                src.1.micros as int,
                dst.0.micros as int,
                dst.1.micros as int,
            ),
        ),
    ensures
        dst.1.micros == dst.0.micros ==> r matches Err(
            ProtocolError::DegenerateRange { axis: RangeAxis::Destination },
        ),
        dst.1.micros != dst.0.micros && src.1.micros == src.0.micros ==> r matches Err(
            ProtocolError::DegenerateRange { axis: RangeAxis::Source },
        ),
        dst.1.micros != dst.0.micros && src.1.micros != src.0.micros ==> r is Ok
            && r->Ok_0.micros == scaled_micros(
            value.micros as int,
            src.0.micros as int,
            src.1.micros as int,
            dst.0.micros as int,
            dst.1.micros as int,
        ),
{
    let dst_range: i128 = dst.1.micros as i128 - dst.0.micros as i128;
    let src_range: i128 = src.1.micros as i128 - src.0.micros as i128;
    if dst_range == 0 {
        return Err(ProtocolError::DegenerateRange { axis: RangeAxis::Destination });
    }
    if src_range == 0 {
        return Err(ProtocolError::DegenerateRange { axis: RangeAxis::Source });
    }
    let offset: i128 = value.micros as i128 - src.0.micros as i128;
    let a: u128 = magnitude(offset);
    let b: u128 = magnitude(dst_range);
    let d: u128 = magnitude(src_range);
    let negative: bool = ((offset < 0) != (dst_range < 0)) != (src_range < 0);
    assert(a < 0x1_0000_0000_0000_0000 && b < 0x1_0000_0000_0000_0000);
    assert(a * b < 0x1_0000_0000_0000_0000 * 0x1_0000_0000_0000_0000) by (nonlinear_arith)
        requires
            a < 0x1_0000_0000_0000_0000,
            b < 0x1_0000_0000_0000_0000,
    ;
    let prod: u128 = a * b;
    let q: u128 = prod / d;
    let rem: u128 = prod % d;
    let ghost num: int = if src_range > 0 {
        offset * dst_range
    } else {
        -(offset * dst_range)
    };
    let ghost floor: int = if !negative {
        q as int
    } else if rem == 0 {
        -(q as int)
    } else {
        -(q as int) - 1
    };
    proof {
        lemma_signed_product(offset as int, dst_range as int, a as int, b as int);
        assert(num == if negative { -(prod as int) } else { prod as int });
        vstd::arithmetic::div_mod::lemma_fundamental_div_mod(prod as int, d as int);
        assert(prod as int == q * d + rem) by (nonlinear_arith)
            requires
                prod as int == d * (prod as int / d as int) + (prod as int % d as int),
                q as int == prod as int / d as int,
                rem as int == prod as int % d as int,
        ;
        if !negative {
            vstd::arithmetic::div_mod::lemma_fundamental_div_mod_converse(
                num,
                d as int,
                q as int,
                rem as int,
            );
        } else if rem == 0 {
            assert(num == (-(q as int)) * d + 0) by (nonlinear_arith)
                requires
                    num == -(prod as int),
                    prod as int == q * d + rem,
                    rem == 0,
            ;
            vstd::arithmetic::div_mod::lemma_fundamental_div_mod_converse(
                num,
                d as int,
                -(q as int),
                0,
            );
        } else {
            assert(num == (-(q as int) - 1) * d + (d - rem)) by (nonlinear_arith)
                requires
                    num == -(prod as int),
                    prod as int == q * d + rem,
            ;
            vstd::arithmetic::div_mod::lemma_fundamental_div_mod_converse(
                num,
                d as int,
                -(q as int) - 1,
                d - rem,
            );
        }
        assert(floor == num / (d as int));
        assert(dst.0.micros + floor == scaled_micros(
            value.micros as int,
            src.0.micros as int,
            src.1.micros as int,
            dst.0.micros as int,
            dst.1.micros as int,
        ));
    }
    let step: i128 = if !negative {
        q as i128
    } else if rem == 0 {
        -(q as i128)
    } else {
        -(q as i128) - 1
    };
    Ok(Fixed { micros: (dst.0.micros as i128 + step) as i64 })
}

} // verus!

verus! {

proof fn lemma_floor_div(num: int, den: int)
    requires
        den > 0,
    ensures
        den * (num / den) <= num < den * (num / den) + den,
        num % den == 0 ==> num == den * (num / den),
{
    vstd::arithmetic::div_mod::lemma_fundamental_div_mod(num, den);
    vstd::arithmetic::div_mod::lemma_mod_bound(num, den);
}

/// Rescaling is affine: the source bounds map onto the destination bounds exactly,
/// every value maps onto `d0 + (v - s0) * (d1 - d0) / (s1 - s0)` rounded down to a
/// whole millionth, and exactly onto it wherever that quotient is whole.
pub proof fn lemma_scale_affine(v: int, s0: int, s1: int, d0: int, d1: int)
    requires
        s1 != s0,
        d1 != d0,
    ensures
        scaled_micros(s0, s0, s1, d0, d1) == d0,
        scaled_micros(s1, s0, s1, d0, d1) == d1,
        ({
            let num = if s1 > s0 { (v - s0) * (d1 - d0) } else { -((v - s0) * (d1 - d0)) };
            let den = if s1 > s0 { s1 - s0 } else { s0 - s1 };
            let step = scaled_micros(v, s0, s1, d0, d1) - d0;
            den * step <= num < den * step + den
        }),
        ((v - s0) * (d1 - d0)) % (s1 - s0) == 0 ==> (scaled_micros(v, s0, s1, d0, d1) - d0) * (
        s1 - s0) == (v - s0) * (d1 - d0),
{
    let num = if s1 > s0 { (v - s0) * (d1 - d0) } else { -((v - s0) * (d1 - d0)) };
    let den = if s1 > s0 { s1 - s0 } else { s0 - s1 };
    lemma_floor_div(num, den);
    assert(scaled_micros(v, s0, s1, d0, d1) - d0 == num / den);
    assert((s0 - s0) * (d1 - d0) == 0) by (nonlinear_arith);
    vstd::arithmetic::div_mod::lemma_fundamental_div_mod_converse(0, den, 0, 0);
    assert(scaled_micros(s0, s0, s1, d0, d1) == d0);
    let top = if s1 > s0 { (s1 - s0) * (d1 - d0) } else { -((s1 - s0) * (d1 - d0)) };
    assert(top == (d1 - d0) * den + 0) by (nonlinear_arith)
        requires
            top == if s1 > s0 { (s1 - s0) * (d1 - d0) } else { -((s1 - s0) * (d1 - d0)) },
            den == if s1 > s0 { s1 - s0 } else { s0 - s1 },
    ;
    vstd::arithmetic::div_mod::lemma_fundamental_div_mod_converse(top, den, d1 - d0, 0);
    assert(scaled_micros(s1, s0, s1, d0, d1) == d1);
    if ((v - s0) * (d1 - d0)) % (s1 - s0) == 0 {
        let x = (v - s0) * (d1 - d0);
        let k = x / (s1 - s0);
        vstd::arithmetic::div_mod::lemma_fundamental_div_mod(x, s1 - s0);
        assert(x == (s1 - s0) * k);
        assert(num == k * den + 0) by (nonlinear_arith)
            requires
                x == (s1 - s0) * k,
                num == if s1 > s0 { x } else { -x },
                den == if s1 > s0 { s1 - s0 } else { s0 - s1 },
        ;
        vstd::arithmetic::div_mod::lemma_fundamental_div_mod_converse(num, den, k, 0);
        assert((num / den) * (s1 - s0) == x) by (nonlinear_arith)
            requires
                num / den == k,
                x == (s1 - s0) * k,
        ;
    }
}

} // verus!

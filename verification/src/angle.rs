use crate::arith::{
    lemma_cast_product, lemma_product_bound, lemma_quotient_times, lemma_real_div_cancel,
    lemma_real_div_ge, lemma_real_div_le, lemma_real_mul_distrib, lemma_triple_bound, ratio,
};
use vstd::prelude::*;

verus! {

/// The decimal value, in degrees, of an angle given as degrees, minutes and seconds.
pub open spec fn dms_degrees(degrees: real, minutes: real, seconds: real) -> real {
    degrees + minutes / 60real + seconds / 3600real
}

/// An unsigned rational number as photo metadata stores it: two 32-bit integers.
#[derive(Clone, Copy, Debug, PartialEq, Eq)]
pub struct Rational {
    pub num: u32,
    pub denom: u32,
}

impl Rational {
    /// The number that the pair stands for. Meaningful where `denom` is not zero.
    pub open spec fn value(self) -> real {
        ratio(self.num as int, self.denom as int)
    }
}

/// An exact non-negative quantity, kept as a fraction of two integers.
#[derive(Clone, Copy, Debug)]
pub struct Magnitude {
    pub numerator: u128,
    /// Not zero in a well-formed magnitude.
    pub denominator: u128,
}

impl Magnitude {
    /// A magnitude is well formed when its denominator is not zero.
    pub open spec fn wf(self) -> bool {
        self.denominator > 0
    }

    /// The number that the fraction stands for.
    pub open spec fn value(self) -> real {
        ratio(self.numerator as int, self.denominator as int)
    }

    /// The exact value of `degrees + minutes / 60 + seconds / 3600`, or nothing where one of
    /// the three has a zero denominator and so stands for no number.
    pub fn from_dms(degrees: Rational, minutes: Rational, seconds: Rational) -> (out: Option<Magnitude>)
        ensures
            out is Some <==> degrees.denom != 0 && minutes.denom != 0 && seconds.denom != 0,
            out matches Some(m) ==> m.wf() && m.value() == dms_degrees(
                degrees.value(),
                minutes.value(),
                seconds.value(),
            ),
    {
        if degrees.denom == 0 || minutes.denom == 0 || seconds.denom == 0 {
            return None;
        }
        let n0: u128 = degrees.num as u128;
        let d0: u128 = degrees.denom as u128;
        let n1: u128 = minutes.num as u128;
        let d1: u128 = minutes.denom as u128;
        let n2: u128 = seconds.num as u128;
        let d2: u128 = seconds.denom as u128;
        proof {
            lemma_product_bound(d1 as int, d2 as int);
            lemma_product_bound(d0 as int, d2 as int);
            lemma_product_bound(d0 as int, d1 as int);
        }
        let u0: u128 = d1 * d2;
        let u1: u128 = d0 * d2;
        let u2: u128 = d0 * d1;
        proof {
            lemma_triple_bound(d0 as int, u0 as int);
            lemma_triple_bound(n0 as int, u0 as int);
            lemma_triple_bound(n1 as int, u1 as int);
            lemma_triple_bound(n2 as int, u2 as int);
            lemma_dms_fraction(n0 as int, d0 as int, n1 as int, d1 as int, n2 as int, d2 as int);
        }
        let numerator: u128 = 3600 * (n0 * u0) + 60 * (n1 * u1) + n2 * u2;
        let denominator: u128 = 3600 * (d0 * u0);
        Some(Magnitude { numerator, denominator })
    }

    /// Whether the magnitude is at most `bound`.
    pub fn at_most(&self, bound: u32) -> (within: bool)
        ensures
            self.wf() ==> within == (self.value() <= bound as real),
    {
        proof {
            if self.wf() {
                lemma_cast_product(bound as int, self.denominator as nat);
                lemma_real_div_le(
                    self.numerator as real,
                    self.denominator as real,
                    bound as real,
                );
            }
        }
        match (bound as u128).checked_mul(self.denominator) {
            Some(limit) => self.numerator <= limit,
            None => true,
        }
    }
}

/// A signed angle in decimal degrees: an exact magnitude and a direction.
#[derive(Clone, Copy, Debug)]
pub struct Angle {
    /// True where the angle lies south of the equator or west of the prime meridian.
    pub negative: bool,
    /// How far the angle lies from the equator or from the prime meridian.
    pub magnitude: Magnitude,
}

/// A signed angle as a real number of degrees and a direction.
pub struct AngleView {
    pub negative: bool,
    pub magnitude: real,
}

impl AngleView {
    /// The angle in decimal degrees.
    pub open spec fn value(self) -> real {
        if self.negative {
            -self.magnitude
        } else {
            self.magnitude
        }
    }
}

impl View for Angle {
    type V = AngleView;

    open spec fn view(&self) -> AngleView {
        AngleView { negative: self.negative, magnitude: self.magnitude.value() }
    }
}

impl Angle {
    /// An angle is well formed when its magnitude is.
    pub open spec fn wf(self) -> bool {
        self.magnitude.wf()
    }
}

/// The decimal value grows strictly with the degrees, the minutes and seconds being equal.
pub proof fn lemma_increasing_in_degrees(d1: real, d2: real, minutes: real, seconds: real)
    requires
        d1 < d2,
    ensures
        dms_degrees(d1, minutes, seconds) < dms_degrees(d2, minutes, seconds),
{
}

/// The decimal value grows strictly with the minutes, the degrees and seconds being equal.
pub proof fn lemma_increasing_in_minutes(degrees: real, m1: real, m2: real, seconds: real)
    requires
        m1 < m2,
    ensures
        dms_degrees(degrees, m1, seconds) < dms_degrees(degrees, m2, seconds),
{
}

/// The decimal value grows strictly with the seconds, the degrees and minutes being equal.
pub proof fn lemma_increasing_in_seconds(degrees: real, minutes: real, s1: real, s2: real)
    requires
        s1 < s2,
    ensures
        dms_degrees(degrees, minutes, s1) < dms_degrees(degrees, minutes, s2),
{
}

/// A rational with a denominator other than zero is not negative.
pub proof fn lemma_rational_not_negative(number: Rational)
    requires
        number.denom != 0,
    ensures
        number.value() >= 0real,
{
    lemma_real_div_ge(number.num as real, number.denom as real, 0real);
}

/// A well-formed magnitude is not negative.
pub proof fn lemma_magnitude_not_negative(magnitude: Magnitude)
    requires
        magnitude.wf(),
    ensures
        magnitude.value() >= 0real,
{
    lemma_real_div_ge(magnitude.numerator as real, magnitude.denominator as real, 0real);
}

/// How the three terms of the sexagesimal formula scale with a common denominator.
proof fn lemma_real_scale(x: real, t: real) by (nonlinear_arith)
    ensures
        x * (3600real * t) == 3600real * (x * t),
        (x / 60real) * (3600real * t) == 60real * (x * t),
        (x / 3600real) * (3600real * t) == x * t,
{
}

/// The fraction that `from_dms` builds has the value of the sexagesimal formula.
proof fn lemma_dms_fraction(n0: int, d0: int, n1: int, d1: int, n2: int, d2: int)
    requires
        d0 > 0,
        d1 > 0,
        d2 > 0,
    ensures
        3600 * (d0 * (d1 * d2)) > 0,
        ratio(
            3600 * (n0 * (d1 * d2)) + 60 * (n1 * (d0 * d2)) + n2 * (d0 * d1),
            3600 * (d0 * (d1 * d2)),
        ) == dms_degrees(ratio(n0, d0), ratio(n1, d1), ratio(n2, d2)),
{
    let u0: int = d1 * d2;
    let u1: int = d0 * d2;
    let u2: int = d0 * d1;
    let t: int = d0 * u0;
    assert(t == d1 * u1 && t == d2 * u2 && t > 0 && u0 > 0 && u1 > 0 && u2 > 0) by (nonlinear_arith)
        requires
            d0 > 0,
            d1 > 0,
            d2 > 0,
            u0 == d1 * d2,
            u1 == d0 * d2,
            u2 == d0 * d1,
            t == d0 * u0,
    ;
    let q0 = ratio(n0, d0);
    let q1 = ratio(n1, d1);
    let q2 = ratio(n2, d2);
    let tr = t as real;
    lemma_quotient_times(n0, d0, u0 as nat);
    lemma_quotient_times(n1, d1, u1 as nat);
    lemma_quotient_times(n2, d2, u2 as nat);
    assert(q0 * tr == (n0 * u0) as real);
    assert(q1 * tr == (n1 * u1) as real);
    assert(q2 * tr == (n2 * u2) as real);
    let x = dms_degrees(q0, q1, q2);
    let p = 3600real * tr;
    lemma_real_mul_distrib(q0 + q1 / 60real, q2 / 3600real, p);
    lemma_real_mul_distrib(q0, q1 / 60real, p);
    lemma_real_scale(q0, tr);
    lemma_real_scale(q1, tr);
    lemma_real_scale(q2, tr);
    assert(x * p == 3600real * (q0 * tr) + 60real * (q1 * tr) + q2 * tr);
    let num: int = 3600 * (n0 * u0) + 60 * (n1 * u1) + n2 * u2;
    assert(num as real == x * p);
    assert((3600 * t) as real == p);
    lemma_real_div_cancel(x, p);
}

} // verus!

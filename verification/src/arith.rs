use vstd::prelude::*;

verus! {

/// The quotient of two integers as a real number. Meaningful where `den` is not zero.
pub open spec fn ratio(num: int, den: int) -> real {
    num as real / den as real
}

/// The quotient of `num` by `den` is the number that, times `den`, gives `num`. With this
/// a quotient of given integers is told without a division.
pub proof fn lemma_ratio_is(num: int, den: int, quotient: real)
    requires
        den != 0,
        quotient * (den as real) == num as real,
    ensures
        ratio(num, den) == quotient,
{
    lemma_real_div_cancel(quotient, den as real);
}

/// The product of two 32-bit numbers.
pub(crate) proof fn lemma_product_bound(a: int, b: int) by (nonlinear_arith)
    requires
        0 <= a <= 0xffff_ffff,
        0 <= b <= 0xffff_ffff,
    ensures
        0 <= a * b <= 0xffff_fffe_0000_0001,
{
}

/// The product of three 32-bit numbers, two of them multiplied already.
pub(crate) proof fn lemma_triple_bound(a: int, b: int) by (nonlinear_arith)
    requires
        0 <= a <= 0xffff_ffff,
        0 <= b <= 0xffff_fffe_0000_0001,
    ensures
        0 <= a * b <= 0xffff_fffd_0000_0002_ffff_ffff,
{
}

pub(crate) proof fn lemma_real_mul_comm(x: real, y: real) by (nonlinear_arith)
    ensures
        x * y == y * x,
{
}

pub(crate) proof fn lemma_real_mul_assoc(x: real, y: real, z: real) by (nonlinear_arith)
    ensures
        (x * y) * z == x * (y * z),
{
}

pub(crate) proof fn lemma_real_mul_distrib(x: real, y: real, z: real) by (nonlinear_arith)
    ensures
        (x + y) * z == x * z + y * z,
{
}

pub(crate) proof fn lemma_real_div_cancel(x: real, y: real) by (nonlinear_arith)
    requires
        y != 0real,
    ensures
        (x * y) / y == x,
        (x / y) * y == x,
{
}

pub(crate) proof fn lemma_real_div_le(x: real, y: real, k: real) by (nonlinear_arith)
    requires
        y > 0real,
    ensures
        (x / y <= k) == (x <= k * y),
{
}

pub(crate) proof fn lemma_real_div_ge(x: real, y: real, k: real) by (nonlinear_arith)
    requires
        y > 0real,
    ensures
        (x / y >= k) == (x >= k * y),
{
}

/// Casting to a real number commutes with a product.
pub(crate) proof fn lemma_cast_product(a: int, b: nat)
    ensures
        (a * b) as real == (a as real) * (b as real),
    decreases b,
{
    if b == 0 {
        assert(a * 0 == 0);
    } else {
        let c = (b - 1) as nat;
        lemma_cast_product(a, c);
        assert(a * b == a * c + a) by (nonlinear_arith)
            requires
                b == c + 1,
        ;
        lemma_real_mul_distrib(c as real, 1real, a as real);
        lemma_real_mul_comm(a as real, c as real);
        lemma_real_mul_comm(a as real, b as real);
    }
}

/// Multiplying the quotient `n / d` by a multiple of `d` gives an integer again.
pub(crate) proof fn lemma_quotient_times(n: int, d: int, u: nat)
    requires
        d > 0,
    ensures
        ratio(n, d) * ((d * u) as real) == (n * u) as real,
{
    let q = ratio(n, d);
    lemma_cast_product(d, u);
    lemma_cast_product(n, u);
    lemma_real_mul_assoc(q, d as real, u as real);
    lemma_real_div_cancel(n as real, d as real);
}

} // verus!

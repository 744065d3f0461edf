//! Laws of the arithmetic the gadgets compute: Montgomery forms round-trip,
//! Montgomery products and inverses in `Fq`, `Fq2` and `Fq6` represent the
//! fields' products and inverses, every nonzero element of `Fq` and `Fq2` has
//! an inverse (from the primality of `p`), Fermat's little theorem, Euler's
//! criterion behind the non-residue test and the square root, the
//! non-residue gadgets multiply by `9 + u` and by `v`, conjugation respects
//! products, and the halving, division by six, negation and subtraction
//! gadgets undo doubling, multiplication by six and addition.
use crate::bits::bits_to_nat;
use crate::field::{
    fadd, fdiv6, fhalf, finv, fmul, fneg, fred, from_mont, fsub, is_inverse, is_square, lemma_cancel,
    lemma_cong_add, lemma_cong_mul, lemma_cong_sub, lemma_constants, lemma_finv_is,
    lemma_finv_zero, lemma_fred_range, lemma_red_idem, mexp, minv, mmul, mont_r, mont_rr, p, r_inv,
    to_mont,
};
use crate::tower::{
    f2_canonical, f2add, f2frobenius, f2minv, f2mmul, f2mnorm, f2mont_one, f2mul, f6frobenius,
    f2nonres, f2red, f2sub, f2to_mont, f6_canonical, f6minv, f6mmul, f6mnorm, f6mont_one,
    f6mont_v, f6mul, f6nonres, f6to_mont, frob6_c1, frob6_c2, lemma_f2red_canonical,
    lemma_f6_inverse_raw, lemma_r2_add, lemma_r2_mmul, lemma_r2_nonres, lemma_r2mul_scale_l,
    lemma_r2mul_scale_r, r2mul, r2scale,
};
use vstd::arithmetic::mul::lemma_mul_is_commutative;
use crate::certificate::lemma_modulus_prime;
use crate::prime::{is_power_of, lemma_euclid};
use vstd::arithmetic::div_mod::{
    lemma_fundamental_div_mod, lemma_fundamental_div_mod_converse, lemma_mod_bound,
    lemma_mod_multiples_basic, lemma_mod_twice, lemma_mul_mod_noop_general, lemma_small_mod,
};
use vstd::arithmetic::power::{
    lemma0_pow, lemma1_pow, lemma_pow1, lemma_pow_adds, lemma_pow_mod_noop, lemma_pow_multiplies,
    lemma_square_is_pow2, pow,
};
use vstd::prelude::*;

verus! {

/// Leaving Montgomery form undoes entering it, and the other way round.
pub proof fn law_montgomery_roundtrip(x: int)
    requires
        0 <= x < p(),
    ensures
        from_mont(to_mont(x)) == x,
        to_mont(from_mont(x)) == x,
{
    lemma_constants();
    lemma_red_idem(x);
    // from_mont(to_mont(x)) == x R R^-1
    lemma_fred_range(x * mont_r());
    lemma_cong_mul(fred(x * mont_r()), x * mont_r(), r_inv(), r_inv());
    lemma_cancel(x, mont_r(), r_inv());
    // to_mont(from_mont(x)) == x R^-1 R
    lemma_fred_range(x * r_inv());
    lemma_cong_mul(fred(x * r_inv()), x * r_inv(), mont_r(), mont_r());
    lemma_mul_is_commutative(mont_r(), r_inv());
    lemma_cancel(x, r_inv(), mont_r());
}

/// The Montgomery product of Montgomery forms is the Montgomery form of the
/// product.
pub proof fn law_mmul_represents_mul(x: int, y: int)
    ensures
        mmul(to_mont(x), to_mont(y)) == to_mont(fmul(x, y)),
{
    lemma_constants();
    let r = mont_r();
    let k = r_inv();
    lemma_fred_range(x * r);
    lemma_fred_range(y * r);
    lemma_cong_mul(fred(x * r), x * r, fred(y * r), y * r);
    lemma_cong_mul(fred(x * r) * fred(y * r), (x * r) * (y * r), k, k);
    assert((x * r) * (y * r) * k == ((x * y) * r) * (r * k)) by (nonlinear_arith);
    lemma_fred_range(r * k);
    lemma_cong_mul((x * y) * r, (x * y) * r, r * k, 1);
    lemma_fred_range(x * y);
    lemma_cong_mul(fred(x * y), x * y, r, r);
}

/// The Montgomery inverse of a Montgomery form is the Montgomery form of the
/// inverse (zero for zero), and its Montgomery product with the element is
/// the Montgomery form of one.
pub proof fn law_minv_represents_inverse(x: int)
    requires
        0 <= x < p(),
    ensures
        minv(to_mont(x)) == to_mont(finv(x)),
        x != 0 ==> mmul(to_mont(x), minv(to_mont(x))) == to_mont(1),
{
    lemma_constants();
    let r = mont_r();
    let k = r_inv();
    if x == 0 {
        assert(to_mont(x) == 0);
        lemma_finv_zero(0);
    } else {
        law_inverse_exists(x);
        let y = choose|y: int| is_inverse(x, y);
        lemma_finv_is(x, y);
        let m = to_mont(x);
        // the inverse of x R is y R^-1
        let z = fred(y * k);
        lemma_fred_range(y * k);
        lemma_fred_range(x * r);
        lemma_cong_mul(m, x * r, z, y * k);
        assert((x * r) * (y * k) == (x * y) * (r * k)) by (nonlinear_arith);
        lemma_fred_range(x * y);
        lemma_fred_range(r * k);
        lemma_cong_mul(x * y, 1, r * k, 1);
        assert(is_inverse(m, z));
        lemma_finv_is(m, z);
        // R^2 y R^-1 == y R
        lemma_fred_range(r * r);
        lemma_cong_mul(mont_rr(), r * r, z, y * k);
        assert((r * r) * (y * k) == (y * r) * (r * k)) by (nonlinear_arith);
        lemma_cong_mul(y * r, y * r, r * k, 1);
        lemma_fred_range(y * r);
        // and its product with x R is R
        law_mmul_represents_mul(x, y);
        lemma_red_idem(1);
    }
}

/// Halving undoes doubling, and doubling undoes halving.
pub proof fn law_half_double(x: int)
    requires
        0 <= x < p(),
    ensures
        fhalf(fred(2 * x)) == x,
        fred(2 * fhalf(x)) == x,
        fadd(fhalf(x), fhalf(x)) == x,
{
    lemma_constants();
    crate::field::lemma_half_red(2 * x);
    lemma_mul_is_commutative(2, x);
    lemma_cancel(x, 2, crate::field::inv2());
    lemma_red_idem(x);
    crate::field::lemma_scale_red(2, x * crate::field::inv2());
    assert(2 * (x * crate::field::inv2()) == x * 2 * crate::field::inv2()) by (nonlinear_arith);
    crate::field::lemma_add_red(x * crate::field::inv2(), x * crate::field::inv2());
}

/// Division by six undoes multiplication by six, and the other way round.
pub proof fn law_div6_times6(x: int)
    requires
        0 <= x < p(),
    ensures
        fdiv6(fred(6 * x)) == x,
        fred(6 * fdiv6(x)) == x,
{
    lemma_constants();
    crate::field::lemma_div6_red(6 * x);
    lemma_mul_is_commutative(6, x);
    lemma_cancel(x, 6, crate::field::inv6());
    lemma_red_idem(x);
    crate::field::lemma_scale_red(6, x * crate::field::inv6());
    assert(6 * (x * crate::field::inv6()) == x * 6 * crate::field::inv6()) by (nonlinear_arith);
}

/// Negation gives the additive inverse, and subtraction undoes addition.
pub proof fn law_neg_sub(x: int, y: int)
    requires
        0 <= x < p(),
        0 <= y < p(),
    ensures
        fadd(x, fneg(x)) == 0,
        fadd(fsub(x, y), y) == x,
        fsub(fadd(x, y), y) == x,
{
    lemma_constants();
    lemma_red_idem(x);
    lemma_red_idem(y);
    lemma_red_idem(0);
    crate::field::lemma_add_red(x, -x);
    crate::field::lemma_add_red(x - y, y);
    crate::field::lemma_sub_red(x + y, y);
}

/// Reading back the bits of a canonical element gives the element.
pub proof fn law_bits_roundtrip(u: int, bits: Seq<bool>)
    requires
        0 <= u < p(),
        bits_to_nat(bits) == u,
    ensures
        fred(bits_to_nat(bits) as int) == u,
{
    lemma_red_idem(u);
}

/// Sums and the product by `9 + u` commute with entering Montgomery form.
pub proof fn law_f2_linear_mont(x: (int, int), y: (int, int))
    ensures
        f2add(f2to_mont(x), f2to_mont(y)) == f2to_mont(f2add(x, y)),
        f2nonres(f2to_mont(x)) == f2to_mont(f2nonres(x)),
{
    let r = mont_r();
    let mx = (x.0 * r, x.1 * r);
    let my = (y.0 * r, y.1 * r);
    lemma_r2_add(mx, my);
    lemma_r2_nonres(mx);
    lemma_fred_range(x.0 + y.0);
    lemma_fred_range(x.1 + y.1);
    lemma_cong_mul(fred(x.0 + y.0), x.0 + y.0, r, r);
    lemma_cong_mul(fred(x.1 + y.1), x.1 + y.1, r, r);
    assert((x.0 + y.0) * r == x.0 * r + y.0 * r) by (nonlinear_arith);
    assert((x.1 + y.1) * r == x.1 * r + y.1 * r) by (nonlinear_arith);
    lemma_fred_range(9 * x.0 - x.1);
    lemma_fred_range(x.0 + 9 * x.1);
    lemma_cong_mul(fred(9 * x.0 - x.1), 9 * x.0 - x.1, r, r);
    lemma_cong_mul(fred(x.0 + 9 * x.1), x.0 + 9 * x.1, r, r);
    assert((9 * x.0 - x.1) * r == 9 * (x.0 * r) - x.1 * r) by (nonlinear_arith);
    assert((x.0 + 9 * x.1) * r == x.0 * r + 9 * (x.1 * r)) by (nonlinear_arith);
}

/// The `Fq2` Montgomery product of Montgomery forms is the Montgomery form of
/// the product.
pub proof fn law_f2_mmul_represents_mul(x: (int, int), y: (int, int))
    ensures
        f2mmul(f2to_mont(x), f2to_mont(y)) == f2to_mont(f2mul(x, y)),
{
    lemma_constants();
    let r = mont_r();
    let k = r_inv();
    let mx = r2scale(r, x);
    let my = r2scale(r, y);
    lemma_mul_is_commutative(x.0, r);
    lemma_mul_is_commutative(x.1, r);
    lemma_mul_is_commutative(y.0, r);
    lemma_mul_is_commutative(y.1, r);
    lemma_r2_mmul(mx, my);
    lemma_r2mul_scale_l(r, x, my, k);
    lemma_r2mul_scale_r(r, x, y, k);
    let a = x.0 * y.0 - x.1 * y.1;
    let b = x.0 * y.1 + x.1 * y.0;
    assert(r * (r * (a * k)) == (a * r) * (r * k)) by (nonlinear_arith);
    assert(r * (r * (b * k)) == (b * r) * (r * k)) by (nonlinear_arith);
    lemma_fred_range(r * k);
    lemma_cong_mul(a * r, a * r, r * k, 1);
    lemma_cong_mul(b * r, b * r, r * k, 1);
    lemma_fred_range(a);
    lemma_fred_range(b);
    lemma_cong_mul(fred(a), a, r, r);
    lemma_cong_mul(fred(b), b, r, r);
}

/// Multiplying by the sextic non-residue is the product by `9 + u`.
pub proof fn law_f2_nonres_is_mul(x: (int, int))
    ensures
        f2nonres(x) == f2mul(x, (9int, 1int)),
{
}

/// Conjugation, the odd powers of the Frobenius map, is an involution and
/// respects Montgomery products.
pub proof fn law_f2_frobenius(x: (int, int), y: (int, int))
    requires
        f2_canonical(x),
        f2_canonical(y),
    ensures
        f2frobenius(f2frobenius(x, 1), 1) == x,
        f2frobenius(x, 0) == x,
        f2frobenius(f2mmul(x, y), 1) == f2mmul(f2frobenius(x, 1), f2frobenius(y, 1)),
{
    let k = r_inv();
    lemma_red_idem(x.1);
    crate::field::lemma_neg_red(-x.1);
    lemma_f2red_canonical(x);
    lemma_f2red_canonical(y);
    let cx = (x.0, -x.1);
    let cy = (y.0, -y.1);
    lemma_r2_mmul(cx, cy);
    crate::field::lemma_neg_red(x.1);
    crate::field::lemma_neg_red(y.1);
    assert(f2red(cx) == f2frobenius(x, 1));
    assert(f2red(cy) == f2frobenius(y, 1));
    assert(r2mul(cx, cy, k).0 == (x.0 * y.0 - x.1 * y.1) * k) by (nonlinear_arith)
        requires
            cx == (x.0, -x.1),
            cy == (y.0, -y.1),
    ;
    assert(r2mul(cx, cy, k).1 == -((x.0 * y.1 + x.1 * y.0) * k)) by (nonlinear_arith)
        requires
            cx == (x.0, -x.1),
            cy == (y.0, -y.1),
    ;
    crate::field::lemma_neg_red((x.0 * y.1 + x.1 * y.0) * k);
}

/// An `Fq2` element whose norm is invertible has the Montgomery inverse the
/// inverse gadget computes: their Montgomery product is one.
proof fn lemma_f2_inverse_invertible_norm(x: (int, int))
    requires
        f2_canonical(x),
        exists|y: int| is_inverse(f2mnorm(x), y),
    ensures
        f2mmul(x, f2minv(x)) == f2mont_one(),
{
    lemma_constants();
    let r = mont_r();
    let k = r_inv();
    let n = f2mnorm(x);
    let y = choose|y: int| is_inverse(n, y);
    lemma_finv_is(n, y);
    let i = minv(n);
    let nn = x.0 * x.0 + x.1 * x.1;
    // n == (x0^2 + x1^2) R^-1
    crate::field::lemma_add_red(x.0 * x.0 * k, x.1 * x.1 * k);
    assert(x.0 * x.0 * k + x.1 * x.1 * k == nn * k) by (nonlinear_arith)
        requires
            nn == x.0 * x.0 + x.1 * x.1,
    ;
    lemma_fred_range(nn * k);
    // the coordinates of the inverse
    let a = mmul(x.0, i);
    let b = mmul(fneg(x.1), i);
    lemma_fred_range(x.0 * i * k);
    lemma_fred_range(fneg(x.1) * i * k);
    lemma_fred_range(-x.1);
    lemma_cong_mul(fneg(x.1), -x.1, i, i);
    lemma_cong_mul(fneg(x.1) * i, (-x.1) * i, k, k);
    // first coordinate: (x0 a - x1 b) R^-1 == n i R^-1
    lemma_cong_mul(x.0, x.0, a, x.0 * i * k);
    lemma_cong_mul(x.1, x.1, b, (-x.1) * i * k);
    lemma_cong_sub(x.0 * a, x.0 * (x.0 * i * k), x.1 * b, x.1 * ((-x.1) * i * k));
    lemma_cong_mul(x.0 * a - x.1 * b, x.0 * (x.0 * i * k) - x.1 * ((-x.1) * i * k), k, k);
    assert(x.0 * (x.0 * i * k) == (x.0 * x.0) * (i * k)) by (nonlinear_arith);
    assert(x.1 * ((-x.1) * i * k) == -((x.1 * x.1) * (i * k))) by (nonlinear_arith);
    vstd::arithmetic::mul::lemma_mul_is_distributive_add_other_way(i * k, x.0 * x.0, x.1 * x.1);
    assert((nn * (i * k)) * k == (nn * k) * (i * k)) by (nonlinear_arith);
    lemma_cong_mul(nn * k, n, i * k, i * k);
    // n i R^-1 == n y R^2 R^-1 == R
    lemma_fred_range(mont_rr() * y);
    lemma_cong_mul(i, mont_rr() * y, k, k);
    lemma_cong_mul(n, n, i * k, mont_rr() * y * k);
    assert(n * (mont_rr() * y * k) == (n * y) * (mont_rr() * k)) by (nonlinear_arith);
    lemma_red_idem(1);
    lemma_cong_mul(n * y, 1, mont_rr() * k, mont_rr() * k);
    lemma_fred_range(r * r);
    lemma_cong_mul(mont_rr(), r * r, k, k);
    assert(r * r * k == r * (r * k)) by (nonlinear_arith);
    lemma_fred_range(r * k);
    lemma_cong_mul(r, r, r * k, 1);
    lemma_red_idem(r);
    // second coordinate: (x0 b + x1 a) R^-1 == 0
    lemma_cong_mul(x.0, x.0, b, (-x.1) * i * k);
    lemma_cong_mul(x.1, x.1, a, x.0 * i * k);
    lemma_cong_add(x.0 * b, x.0 * ((-x.1) * i * k), x.1 * a, x.1 * (x.0 * i * k));
    lemma_cong_mul(x.0 * b + x.1 * a, x.0 * ((-x.1) * i * k) + x.1 * (x.0 * i * k), k, k);
    assert(x.0 * ((-x.1) * i * k) == -((x.0 * x.1) * (i * k))) by (nonlinear_arith);
    assert(x.1 * (x.0 * i * k) == (x.1 * x.0) * (i * k)) by (nonlinear_arith);
    lemma_mul_is_commutative(x.0, x.1);
    lemma_red_idem(0);
}

/// The `Fq6` Montgomery product of Montgomery forms is the Montgomery form of
/// the product.
pub proof fn law_f6_mmul_represents_mul(x: ((int, int), (int, int), (int, int)), y: ((int, int), (int, int), (int, int)))
    ensures
        f6mmul(f6to_mont(x), f6to_mont(y)) == f6to_mont(f6mul(x, y)),
{
    let (x0, x1, x2) = x;
    let (y0, y1, y2) = y;
    law_f2_mmul_represents_mul(x0, y0);
    law_f2_mmul_represents_mul(x0, y1);
    law_f2_mmul_represents_mul(x0, y2);
    law_f2_mmul_represents_mul(x1, y0);
    law_f2_mmul_represents_mul(x1, y1);
    law_f2_mmul_represents_mul(x1, y2);
    law_f2_mmul_represents_mul(x2, y0);
    law_f2_mmul_represents_mul(x2, y1);
    law_f2_mmul_represents_mul(x2, y2);
    law_f2_linear_mont(f2mul(x1, y2), f2mul(x2, y1));
    law_f2_linear_mont(f2add(f2mul(x1, y2), f2mul(x2, y1)), f2mul(x0, y0));
    law_f2_linear_mont(f2mul(x0, y0), f2nonres(f2add(f2mul(x1, y2), f2mul(x2, y1))));
    law_f2_linear_mont(f2mul(x0, y1), f2mul(x1, y0));
    law_f2_linear_mont(f2mul(x2, y2), f2mul(x0, y0));
    law_f2_linear_mont(f2add(f2mul(x0, y1), f2mul(x1, y0)), f2nonres(f2mul(x2, y2)));
    law_f2_linear_mont(f2mul(x0, y2), f2mul(x1, y1));
    law_f2_linear_mont(f2add(f2mul(x0, y2), f2mul(x1, y1)), f2mul(x2, y0));
}

/// Montgomery products with one and zero in `Fq2`.
proof fn lemma_f2_unit(z: (int, int))
    requires
        f2_canonical(z),
    ensures
        f2mmul(z, f2mont_one()) == z,
        f2mmul(z, (0int, 0int)) == (0int, 0int),
        f2add((0int, 0int), z) == z,
        f2add(z, (0int, 0int)) == z,
        f2nonres((0int, 0int)) == (0int, 0int),
{
    lemma_constants();
    let r = mont_r();
    let k = r_inv();
    assert((z.0 * r - z.1 * 0) * k == z.0 * r * k) by (nonlinear_arith);
    assert((z.0 * 0 + z.1 * r) * k == z.1 * r * k) by (nonlinear_arith);
    lemma_cancel(z.0, r, k);
    lemma_cancel(z.1, r, k);
    lemma_red_idem(z.0);
    lemma_red_idem(z.1);
    lemma_red_idem(0);
    assert((z.0 * 0 - z.1 * 0) * k == 0) by (nonlinear_arith);
    assert((z.0 * 0 + z.1 * 0) * k == 0) by (nonlinear_arith);
}

/// The `Fq6` non-residue gadget multiplies by `v`.
pub proof fn law_f6_nonres_is_mul_by_v(x: ((int, int), (int, int), (int, int)))
    requires
        f6_canonical(x),
    ensures
        f6nonres(x) == f6mmul(x, f6mont_v()),
{
    let (x0, x1, x2) = x;
    lemma_f2_unit(x0);
    lemma_f2_unit(x1);
    lemma_f2_unit(x2);
    crate::tower::lemma_f2red_canonical(f2nonres(x2));
    lemma_fred_range(9 * x2.0 - x2.1);
    lemma_fred_range(x2.0 + 9 * x2.1);
    lemma_f2_unit(f2nonres(x2));
}

/// An `Fq6` element whose norm to `Fq2` is not zero has the Montgomery
/// inverse the inverse gadget computes: their Montgomery product is one.
pub proof fn law_f6_inverse(x: ((int, int), (int, int), (int, int)))
    requires
        f6_canonical(x),
        f6mnorm(x) != (0int, 0int),
    ensures
        f6mmul(x, f6minv(x)) == f6mont_one(),
{
    lemma_f6_inverse_raw(x);
    let n = f6mnorm(x);
    let i = f2minv(n);
    // the norm is canonical
    assert(f2_canonical(n)) by {
        let t0 = f2sub(f2mmul(x.0, x.0), f2nonres(f2mmul(x.1, x.2)));
        let t1 = f2sub(f2nonres(f2mmul(x.2, x.2)), f2mmul(x.0, x.1));
        let t2 = f2sub(f2mmul(x.1, x.1), f2mmul(x.0, x.2));
        let u = f2mmul(x.0, t0);
        let w = f2nonres(f2add(f2mmul(t1, x.2), f2mmul(t2, x.1)));
        lemma_fred_range(u.0 + w.0);
        lemma_fred_range(u.1 + w.1);
    }
    lemma_f2_norm_nonzero(n);
    law_inverse_exists(f2mnorm(n));
    lemma_f2_inverse_invertible_norm(n);
    assert((0 * i.0 - 0 * i.1) * r_inv() == 0) by (nonlinear_arith);
    assert((0 * i.1 + 0 * i.0) * r_inv() == 0) by (nonlinear_arith);
    lemma_red_idem(0);
}

/// The coordinate-wise product by an `Fq2` element is the `Fq6` product by
/// that element embedded as `b + 0 v + 0 v^2`.
pub proof fn law_f6_mul_by_fq2(x: ((int, int), (int, int), (int, int)), b: (int, int))
    requires
        f6_canonical(x),
        f2_canonical(b),
    ensures
        (f2mmul(x.0, b), f2mmul(x.1, b), f2mmul(x.2, b)) == f6mmul(x, (b, (0int, 0int), (0int, 0int))),
{
    let (x0, x1, x2) = x;
    lemma_f2_unit(x0);
    lemma_f2_unit(x1);
    lemma_f2_unit(x2);
    let z = (0int, 0int);
    lemma_red_idem(0);
    assert(f2add(z, z) == z);
    lemma_f2_mmul_canonical(x0, b);
    lemma_f2_mmul_canonical(x1, b);
    lemma_f2_mmul_canonical(x2, b);
    lemma_f2_unit(f2mmul(x0, b));
    lemma_f2_unit(f2mmul(x1, b));
    lemma_f2_unit(f2mmul(x2, b));
}

/// Montgomery products are canonical.
proof fn lemma_f2_mmul_canonical(x: (int, int), y: (int, int))
    ensures
        f2_canonical(f2mmul(x, y)),
{
    lemma_fred_range((x.0 * y.0 - x.1 * y.1) * r_inv());
    lemma_fred_range((x.0 * y.1 + x.1 * y.0) * r_inv());
}

/// The zeroth power of the `Fq6` Frobenius map, with the coefficients the
/// gadget uses, is the identity.
pub proof fn law_f6_frobenius_zero(x: ((int, int), (int, int), (int, int)))
    requires
        f6_canonical(x),
    ensures
        f6frobenius(x, 0) == x,
{
    reveal(frob6_c1);
    reveal(frob6_c2);
    lemma_constants();
    lemma_red_idem(mont_r());
    lemma_red_idem(0);
    assert(to_mont(1) == mont_r());
    assert(to_mont(0) == 0);
    lemma_f2_unit(x.1);
    lemma_f2_unit(x.2);
}


/// `(p - 1) / 2`, the exponent of Euler's criterion.
pub open spec fn half_order() -> nat {
    10944121435919637611123202872628637544348155578648911831344518947322613104291nat
}

proof fn lemma_half_order()
    ensures
        half_order() + half_order() == p() - 1,
        half_order() == 2 * 5472060717959818805561601436314318772174077789324455915672259473661306552145nat + 1,
        (p() + 1) / 4 == 5472060717959818805561601436314318772174077789324455915672259473661306552146nat,
        ((p() - 1) / 2) as nat == half_order(),
{
    vstd::arithmetic::div_mod::lemma_fundamental_div_mod_converse(p() + 1, 4, 5472060717959818805561601436314318772174077789324455915672259473661306552146int, 0);
    vstd::arithmetic::div_mod::lemma_fundamental_div_mod_converse(p() - 1, 2, half_order() as int, 0);
}

/// Every nonzero residue is `3^k mod p` for some `k`.
proof fn lemma_power_of_three(x: int) -> (k: nat)
    requires
        0 < x < p(),
    ensures
        k < p() - 1,
        pow(3, k) % p() == x,
{
    lemma_modulus_prime();
    assert(is_power_of(3, p(), x));
    choose|k: nat| k < p() - 1 && #[trigger] (pow(3, k) % p()) == x
}

/// `(b^i mod p)^j mod p` is `b^(i j) mod p`.
proof fn lemma_pow_pow(b: int, i: nat, j: nat)
    ensures
        pow(pow(b, i) % p(), j) % p() == pow(b, i * j) % p(),
{
    lemma_constants();
    lemma_pow_mod_noop(pow(b, i), j, p());
    lemma_pow_multiplies(b, i, j);
}

/// Fermat's little theorem: every nonzero residue raised to `p - 1` is one.
pub proof fn law_fermat(x: int)
    requires
        0 < x < p(),
    ensures
        pow(x, (p() - 1) as nat) % p() == 1,
{
    lemma_constants();
    lemma_modulus_prime();
    let k = lemma_power_of_three(x);
    let n = (p() - 1) as nat;
    lemma_pow_pow(3, k, n);
    lemma_pow_pow(3, n, k);
    assert(k * n == n * k) by (nonlinear_arith);
    lemma1_pow(k);
    lemma_small_mod(1, p() as nat);
}

/// Every nonzero residue has a multiplicative inverse: its power `p - 2`.
pub proof fn law_inverse_exists(x: int)
    requires
        0 < x < p(),
    ensures
        is_inverse(x, pow(x, (p() - 2) as nat) % p()),
        exists|y: int| is_inverse(x, y),
{
    lemma_constants();
    law_fermat(x);
    let y = pow(x, (p() - 2) as nat);
    lemma_pow_adds(x, (p() - 2) as nat, 1);
    lemma_pow1(x);
    lemma_mul_mod_noop_general(y, x, p());
    assert(y * x == x * y) by (nonlinear_arith);
    assert(x * (y % p()) == (y % p()) * x) by (nonlinear_arith);
    assert(is_inverse(x, y % p()));
}

/// `3^((p-1)/2)` is `-1` modulo `p`.
proof fn lemma_three_half_order()
    ensures
        pow(3, half_order()) % p() == p() - 1,
{
    lemma_constants();
    lemma_modulus_prime();
    lemma_half_order();
    let e = half_order();
    let h = pow(3, e) % p();
    lemma_pow_adds(3, e, e);
    lemma_mul_mod_noop_general(pow(3, e), pow(3, e), p());
    assert((h * h) % p() == 1);
    lemma_fundamental_div_mod(h * h, p());
    let t = (h * h) / p();
    lemma_mod_bound(pow(3, e), p());
    assert(h >= 1) by {
        if h == 0 {
            assert(h * h == 0) by (nonlinear_arith)
                requires
                    h == 0,
            ;
            lemma_small_mod(0, p() as nat);
        }
    }
    assert((h - 1) * (h + 1) == t * p()) by (nonlinear_arith)
        requires
            h * h == p() * t + 1,
    ;
    lemma_mod_multiples_basic(t, p());
    lemma_euclid(p(), h - 1, h + 1);
    if (h - 1) % p() == 0 {
        lemma_small_mod((h - 1) as nat, p() as nat);
    } else {
        lemma_fundamental_div_mod(h + 1, p());
        assert((h + 1) / p() == 1) by (nonlinear_arith)
            requires
                h + 1 == p() * ((h + 1) / p()),
                2 <= h + 1 <= p(),
                p() > 6,
        ;
    }
}

/// Euler's criterion: a nonzero residue raised to `(p - 1) / 2` is one when
/// it is a square and `p - 1`, that is `-1`, when it is not.
pub proof fn law_euler_criterion(x: int)
    requires
        0 < x < p(),
    ensures
        pow(x, half_order()) % p() == 1 || pow(x, half_order()) % p() == p() - 1,
        (pow(x, half_order()) % p() == 1) == is_square(x),
{
    lemma_constants();
    lemma_modulus_prime();
    lemma_half_order();
    lemma_three_half_order();
    let e = half_order();
    let k = lemma_power_of_three(x);
    let h = pow(3, e) % p();
    // x^e == h^k
    lemma_pow_pow(3, k, e);
    lemma_pow_pow(3, e, k);
    assert(k * e == e * k) by (nonlinear_arith);
    assert(pow(x, e) % p() == pow(h, k) % p());
    let j = k / 2;
    lemma_fundamental_div_mod(k as int, 2);
    // h^(2j) == 1
    lemma_square_is_pow2(h);
    lemma_pow_multiplies(h, 2, j);
    lemma_pow_mod_noop(h * h, j, p());
    lemma_pow_adds(3, e, e);
    lemma_mul_mod_noop_general(pow(3, e), pow(3, e), p());
    lemma1_pow(j);
    lemma_small_mod(1, p() as nat);
    assert(pow(h, 2 * j) % p() == 1);
    if k % 2 == 0 {
        assert(k == 2 * j);
        // x is the square of 3^j
        let y = pow(3, j) % p();
        lemma_pow_adds(3, j, j);
        lemma_mul_mod_noop_general(pow(3, j), pow(3, j), p());
        assert(j + j == k);
        assert(fmul(y, y) == x);
        lemma_mod_bound(pow(3, j), p());
    } else {
        assert(k == 2 * j + 1);
        lemma_pow_adds(h, 2 * j, 1);
        lemma_pow1(h);
        lemma_mul_mod_noop_general(pow(h, 2 * j), h, p());
        lemma_mod_twice(pow(3, e), p());
        assert(pow(x, e) % p() == p() - 1);
        if is_square(x) {
            let y = choose|y: int| 0 <= y < p() && #[trigger] fmul(y, y) == x;
            assert(y != 0) by {
                if y == 0 {
                    lemma_small_mod(0, p() as nat);
                }
            }
            law_fermat(y);
            lemma_square_is_pow2(y);
            lemma_pow_pow(y, 2, e);
            assert(2 * e == p() - 1);
        }
    }
}

/// The non-residue test: `x^((p-1)/2)` is `p - 1` exactly for the nonzero
/// residues that are not squares; this is what `Fq::is_qnr_montgomery`
/// tests of the element its input stands for.
pub proof fn law_qnr_test(x: int)
    requires
        0 <= x < p(),
    ensures
        (fred(pow(x, ((p() - 1) / 2) as nat)) == p() - 1) == (x != 0 && !is_square(x)),
{
    lemma_constants();
    lemma_half_order();
    if x == 0 {
        lemma0_pow(half_order());
        lemma_small_mod(0, p() as nat);
    } else {
        law_euler_criterion(x);
    }
}

/// The square root of `Fq::sqrt_montgomery`: for a square `x`, the power
/// `x^((p+1)/4)` squares back to `x`.
pub proof fn law_sqrt_squares_back(x: int)
    requires
        0 <= x < p(),
        is_square(x),
    ensures
        fmul(fred(pow(x, ((p() + 1) / 4) as nat)), fred(pow(x, ((p() + 1) / 4) as nat))) == x,
{
    lemma_constants();
    lemma_half_order();
    let q = ((p() + 1) / 4) as nat;
    let s = pow(x, q);
    lemma_mul_mod_noop_general(s, s, p());
    lemma_pow_adds(x, q, q);
    assert(q + q == half_order() + 1);
    lemma_pow_adds(x, half_order(), 1);
    lemma_pow1(x);
    if x == 0 {
        lemma0_pow(half_order());
        lemma_small_mod(0, p() as nat);
    } else {
        law_euler_criterion(x);
        lemma_mul_mod_noop_general(pow(x, half_order()), x, p());
        lemma_small_mod(x as nat, p() as nat);
    }
}

/// The same in Montgomery form: the Montgomery square of the output of
/// `Fq::sqrt_montgomery` is its input, when the input stands for a square.
pub proof fn law_sqrt_montgomery(a: int)
    requires
        0 <= a < p(),
        is_square(from_mont(a)),
    ensures
        mmul(mexp(a, ((p() + 1) / 4) as nat), mexp(a, ((p() + 1) / 4) as nat)) == a,
{
    lemma_constants();
    let x = from_mont(a);
    lemma_fred_range(a * r_inv());
    law_sqrt_squares_back(x);
    let s = fred(pow(x, ((p() + 1) / 4) as nat));
    law_mmul_represents_mul(s, s);
    law_montgomery_roundtrip(a);
}

/// `-1` is not a square modulo `p`.
proof fn lemma_minus_one_not_square()
    ensures
        !is_square(p() - 1),
{
    lemma_constants();
    lemma_half_order();
    law_euler_criterion(p() - 1);
    let j = 5472060717959818805561601436314318772174077789324455915672259473661306552145nat;
    // (-1)^e == -1 for the odd e
    lemma_pow_mod_noop(-1, half_order(), p());
    lemma_fundamental_div_mod_converse(-1, p(), -1, p() - 1);
    lemma_square_is_pow2(-1);
    lemma_pow_multiplies(-1, 2, j);
    lemma1_pow(j);
    lemma_pow_adds(-1, 2 * j, 1);
    lemma_pow1(-1);
    assert(pow(-1, half_order()) == -1);
}

/// With `x0^2 + x1^2 == P c`, `a == x0 y`, `b == x1 y` and `b^2 == P d + 1`,
/// `a^2` is `-1` modulo `P`.
proof fn lemma_square_sum_identity(
    pp: int,
    nn: int,
    c: int,
    x0: int,
    x1: int,
    y: int,
    a: int,
    b: int,
    d: int,
)
    requires
        nn == pp * c,
        nn == x0 * x0 + x1 * x1,
        a == x0 * y,
        b == x1 * y,
        b * b == pp * d + 1,
    ensures
        a * a == (c * y * y - d - 1) * pp + (pp - 1),
{
    assert(a * a == x0 * x0 * (y * y)) by (nonlinear_arith)
        requires
            a == x0 * y,
    ;
    assert(b * b == x1 * x1 * (y * y)) by (nonlinear_arith)
        requires
            b == x1 * y,
    ;
    assert(a * a + b * b == nn * (y * y)) by (nonlinear_arith)
        requires
            a * a == x0 * x0 * (y * y),
            b * b == x1 * x1 * (y * y),
            nn == x0 * x0 + x1 * x1,
    ;
    assert(nn * (y * y) == (c * y * y) * pp) by (nonlinear_arith)
        requires
            nn == pp * c,
    ;
    assert(a * a == (c * y * y - d - 1) * pp + (pp - 1)) by (nonlinear_arith)
        requires
            a * a + b * b == (c * y * y) * pp,
            b * b == pp * d + 1,
    ;
}

/// An `Fq2` element other than zero has a nonzero norm.
proof fn lemma_f2_norm_nonzero(x: (int, int))
    requires
        f2_canonical(x),
        x != (0int, 0int),
    ensures
        0 < f2mnorm(x) < p(),
{
    lemma_constants();
    lemma_modulus_prime();
    let k = r_inv();
    let nn = x.0 * x.0 + x.1 * x.1;
    crate::field::lemma_add_red(x.0 * x.0 * k, x.1 * x.1 * k);
    assert(x.0 * x.0 * k + x.1 * x.1 * k == nn * k) by (nonlinear_arith)
        requires
            nn == x.0 * x.0 + x.1 * x.1,
    ;
    lemma_fred_range(nn * k);
    if f2mnorm(x) == 0 {
        // then p divides x0^2 + x1^2
        assert(nn >= 0) by (nonlinear_arith)
            requires
                nn == x.0 * x.0 + x.1 * x.1,
        ;
        lemma_euclid(p(), nn, k);
        assert(k % p() != 0);
        assert(nn % p() == 0);
        if x.1 == 0 {
            assert(x.0 * x.0 == nn);
            lemma_euclid(p(), x.0, x.0);
            lemma_small_mod(x.0 as nat, p() as nat);
        } else {
            law_inverse_exists(x.1);
            let y1 = pow(x.1, (p() - 2) as nat) % p();
            let a = x.0 * y1;
            let b = x.1 * y1;
            lemma_fundamental_div_mod(nn, p());
            let c = nn / p();
            lemma_fundamental_div_mod(b, p());
            let db = b / p();
            assert(b * b == p() * (db * db * p() + 2 * db) + 1) by (nonlinear_arith)
                requires
                    b == p() * db + 1,
            ;
            let d = db * db * p() + 2 * db;
            lemma_square_sum_identity(p(), nn, c, x.0, x.1, y1, a, b, d);
            lemma_fundamental_div_mod_converse(a * a, p(), c * y1 * y1 - d - 1, p() - 1);
            let t = a % p();
            lemma_mod_bound(a, p());
            lemma_mul_mod_noop_general(a, a, p());
            assert(fmul(t, t) == p() - 1);
            lemma_minus_one_not_square();
        }
    }
}

/// Every nonzero `Fq2` element has the Montgomery inverse that the inverse
/// gadget computes: their Montgomery product is one.
pub proof fn law_f2_inverse(x: (int, int))
    requires
        f2_canonical(x),
        x != (0int, 0int),
    ensures
        f2mmul(x, f2minv(x)) == f2mont_one(),
{
    lemma_f2_norm_nonzero(x);
    law_inverse_exists(f2mnorm(x));
    lemma_f2_inverse_invertible_norm(x);
}


/// The negation of a nonzero non-square is a square, as `(-1)^((p-1)/2)`
/// and `x^((p-1)/2)` are both `-1`.
pub proof fn law_negated_non_square(x: int)
    requires
        0 < x < p(),
        !is_square(x),
    ensures
        is_square(fneg(x)),
{
    lemma_constants();
    lemma_half_order();
    let e = half_order();
    let j = 5472060717959818805561601436314318772174077789324455915672259473661306552145nat;
    law_euler_criterion(x);
    assert(pow(x, e) % p() == p() - 1);
    // (-1)^e == -1
    lemma_square_is_pow2(-1);
    lemma_pow_multiplies(-1, 2, j);
    lemma1_pow(j);
    lemma_pow_adds(-1, 2 * j, 1);
    lemma_pow1(-1);
    assert(pow(-1, e) == -1);
    // (-x)^e == (-1)^e x^e
    vstd::arithmetic::power::lemma_pow_distributes(-1, x, e);
    assert(-1 * x == -x);
    lemma_fundamental_div_mod_converse(-x, p(), -1, p() - x);
    assert(fneg(x) == p() - x);
    lemma_pow_mod_noop(-x, e, p());
    lemma_mul_mod_noop_general(-1, pow(x, e), p());
    lemma_fundamental_div_mod_converse(-1, p(), -1, p() - 1);
    lemma_fundamental_div_mod_converse((p() - 1) * (p() - 1), p(), p() - 2, 1);
    assert(pow(-x, e) % p() == 1);
    law_euler_criterion(p() - x);
}

/// The square root of an element `c0 + 0 u` that `Fq2::sqrt_c1_zero_montgomery`
/// computes squares back to it: `(sqrt(c0), 0)` when `c0` stands for a
/// square, and `(0, sqrt(-c0))` when it does not.
pub proof fn law_sqrt_c1_zero(a: int)
    requires
        0 <= a < p(),
    ensures
        is_square(from_mont(a)) ==> f2mmul(
            (mexp(a, ((p() + 1) / 4) as nat), 0int),
            (mexp(a, ((p() + 1) / 4) as nat), 0int),
        ) == (a, 0int),
        !is_square(from_mont(a)) ==> f2mmul(
            (0int, mexp(fneg(a), ((p() + 1) / 4) as nat)),
            (0int, mexp(fneg(a), ((p() + 1) / 4) as nat)),
        ) == (a, 0int),
{
    lemma_constants();
    let q = ((p() + 1) / 4) as nat;
    let k = r_inv();
    lemma_red_idem(0);
    if is_square(from_mont(a)) {
        let m = mexp(a, q);
        law_sqrt_montgomery(a);
        assert((m * m - 0int * 0int) * k == m * m * k) by (nonlinear_arith);
        assert((m * 0int + 0int * m) * k == 0) by (nonlinear_arith);
    } else {
        let c = from_mont(a);
        lemma_fred_range(a * k);
        assert(c != 0) by {
            if c == 0 {
                assert(fmul(0, 0) == 0) by {
                    lemma_small_mod(0, p() as nat);
                }
            }
        }
        law_negated_non_square(c);
        // the element -a stands for -c
        let na = fneg(a);
        lemma_fred_range(0 - a);
        lemma_cong_mul(na, 0 - a, k, k);
        assert((0 - a) * k == -(a * k)) by (nonlinear_arith);
        crate::field::lemma_neg_red(a * k);
        assert(from_mont(na) == fneg(c));
        let m = mexp(na, q);
        law_sqrt_montgomery(na);
        assert((0int * 0int - m * m) * k == -(m * m * k)) by (nonlinear_arith);
        assert((0int * m + m * 0int) * k == 0) by (nonlinear_arith);
        crate::field::lemma_neg_red(m * m * k);
        // -(-a) == a
        crate::field::lemma_neg_red(0 - a);
        lemma_red_idem(a);
    }
}


/// The powers of the `Fq2` Frobenius map `x -> x^p`: the zeroth is the
/// identity, the first is conjugation `x0 + x1 u -> x0 - x1 u`, and each
/// next power is the map applied once more; so the `i`-th power depends only
/// on the parity of `i`.
pub proof fn law_f2_frobenius_powers(x: (int, int), i: int)
    requires
        f2_canonical(x),
        i >= 0,
    ensures
        f2frobenius(x, 0) == x,
        f2frobenius(x, 1) == (x.0, fneg(x.1)),
        f2_canonical(f2frobenius(x, i)),
        f2frobenius(x, i + 1) == f2frobenius(f2frobenius(x, i), 1),
        f2frobenius(x, i) == f2frobenius(x, i % 2),
{
    lemma_fred_range(0 - x.1);
    law_f2_frobenius(x, x);
}


/// `Fq2` Montgomery products of canonical elements associate.
proof fn lemma_f2mmul_assoc(a: (int, int), b: (int, int), c: (int, int))
    requires
        f2_canonical(a),
        f2_canonical(b),
        f2_canonical(c),
    ensures
        f2mmul(f2mmul(a, b), c) == f2mmul(a, f2mmul(b, c)),
{
    let k = r_inv();
    lemma_f2red_canonical(a);
    lemma_f2red_canonical(b);
    lemma_f2red_canonical(c);
    lemma_r2_mmul(a, b);
    lemma_r2_mmul(b, c);
    lemma_r2_mmul(r2mul(a, b, k), c);
    lemma_r2_mmul(a, r2mul(b, c, k));
    crate::tower::lemma_r2mul_assoc(a, b, c, k);
}

/// Conjugation commutes with entering Montgomery form.
proof fn lemma_frobenius_mont(y: (int, int))
    ensures
        f2frobenius(f2to_mont(y), 1) == f2to_mont(f2frobenius(y, 1)),
{
    let r = mont_r();
    lemma_fred_range(0 - y.1);
    lemma_cong_mul(fneg(y.1), 0 - y.1, r, r);
    assert((0 - y.1) * r == -(y.1 * r)) by (nonlinear_arith);
    crate::field::lemma_neg_red(y.1 * r);
}

/// One product of a conjugated table entry by a table entry, from its
/// quotients and remainders modulo `p`.
proof fn lemma_conj_table(
    a: int,
    b: int,
    nb: int,
    y0: int,
    y1: int,
    q0: int,
    r0: int,
    q1: int,
    r1: int,
)
    requires
        0 <= b < p(),
        nb == if b == 0 {
            0
        } else {
            p() - b
        },
        a * y0 - nb * y1 == q0 * p() + r0,
        0 <= r0 < p(),
        a * y1 + nb * y0 == q1 * p() + r1,
        0 <= r1 < p(),
    ensures
        f2mul(f2frobenius((a, b), 1), (y0, y1)) == (r0, r1),
{
    if b == 0 {
        lemma_small_mod(0, p() as nat);
    } else {
        lemma_fundamental_div_mod_converse(0 - b, p(), -1, p() - b);
    }
    lemma_fundamental_div_mod_converse(a * y0 - nb * y1, p(), q0, r0);
    lemma_fundamental_div_mod_converse(a * y1 + nb * y0, p(), q1, r1);
}

/// The Frobenius coefficients chain: the conjugate of the `r`-th times the
/// first is the next one, for both tables (so the `r`-th is
/// `gamma^(1 + p + ... + p^(r-1))` for the first entry `gamma`).
proof fn lemma_frob6_tables(r: int)
    requires
        0 <= r < 6,
    ensures
        f2mul(f2frobenius(frob6_c1(r), 1), frob6_c1(1)) == frob6_c1((r + 1) % 6),
        f2mul(f2frobenius(frob6_c2(r), 1), frob6_c2(1)) == frob6_c2((r + 1) % 6),
        f2_canonical(frob6_c1(r)),
        f2_canonical(frob6_c2(r)),
{
    reveal(frob6_c1);
    reveal(frob6_c2);
    if r == 0 {
        lemma_conj_table(1int, 0int, 0int, 21575463638280843010398324269430826099269044274347216827212613867836435027261int, 10307601595873709700152284273816112264069230130616436755625194854815875713954int, 0int, 21575463638280843010398324269430826099269044274347216827212613867836435027261int, 0int, 10307601595873709700152284273816112264069230130616436755625194854815875713954int);
    }
    if r == 1 {
        lemma_conj_table(21575463638280843010398324269430826099269044274347216827212613867836435027261int, 10307601595873709700152284273816112264069230130616436755625194854815875713954int, 11580641275965565522094121471441162824627081026681386907063843039829350494629int, 21575463638280843010398324269430826099269044274347216827212613867836435027261int, 10307601595873709700152284273816112264069230130616436755625194854815875713954int, 15813603528436617957723650447615439841317538235717238959282618459110613192433int, 21888242871839275220042445260109153167277707414472061641714758635765020556616int, 21575463638280843010398324269430826099269044274347216827212613867836435027261int, 0int);
    }
    if r == 2 {
        lemma_conj_table(21888242871839275220042445260109153167277707414472061641714758635765020556616int, 0int, 0int, 21575463638280843010398324269430826099269044274347216827212613867836435027261int, 10307601595873709700152284273816112264069230130616436755625194854815875713954int, 21575463638280843008225858001309352761519855379755575835721302432936005588205int, 3772000881919853776433695186713858239009073593817195771773381919316419345261int, 10307601595873709699114396182617021181730193242066180121617968793661483332286int, 2236595495967245188281701248203181795121068902605861227855261137820944008926int);
    }
    if r == 3 {
        lemma_conj_table(3772000881919853776433695186713858239009073593817195771773381919316419345261int, 2236595495967245188281701248203181795121068902605861227855261137820944008926int, 19651647375872030033964704497054093293575242254691962434833776756824282199657int, 21575463638280843010398324269430826099269044274347216827212613867836435027261int, 10307601595873709700152284273816112264069230130616436755625194854815875713954int, -5536245403123041112773828448409238505366457252844184184042961484999125068881int, 2203960485148121921418603742825762020974279258880205651966int, 21147137685322241181298637834151771972113696949698758061845258136485870163337int, 0int);
    }
    if r == 4 {
        lemma_conj_table(2203960485148121921418603742825762020974279258880205651966int, 0int, 0int, 21575463638280843010398324269430826099269044274347216827212613867836435027261int, 10307601595873709700152284273816112264069230130616436755625194854815875713954int, 2172466268121473337749188894591640991491311434900429439054int, 18429021223477853657660792034369865839114504446431234726392080002137598044644int, 1037888091199091082339036888550256634007226061154392381667int, 9344045779998320333812420223237981029506012124075525679208581902008406485703int);
    }
    if r == 5 {
        lemma_conj_table(18429021223477853657660792034369865839114504446431234726392080002137598044644int, 9344045779998320333812420223237981029506012124075525679208581902008406485703int, 12544197091840954888433985522019294059190299033222297983480455992636819722880int, 21575463638280843010398324269430826099269044274347216827212613867836435027261int, 10307601595873709700152284273816112264069230130616436755625194854815875713954int, 12258365959500689775542257992023226334448547304588505367935181051929630503061int, 1int, 21043529144706021229404254982911278655293807585881332276617745440982316291832int, 0int);
    }
    if r == 0 {
        lemma_conj_table(1int, 0int, 0int, 2581911344467009335267311115468803099551665605076196740867805258568234346338int, 19937756971775647987995932169929341994314640652964949448313374472400716661030int, 0int, 2581911344467009335267311115468803099551665605076196740867805258568234346338int, 0int, 19937756971775647987995932169929341994314640652964949448313374472400716661030int);
    }
    if r == 1 {
        lemma_conj_table(2581911344467009335267311115468803099551665605076196740867805258568234346338int, 19937756971775647987995932169929341994314640652964949448313374472400716661030int, 1950485900063627234250473575327933094381670504332874214375663422244509547553int, 2581911344467009335267311115468803099551665605076196740867805258568234346338int, 19937756971775647987995932169929341994314640652964949448313374472400716661030int, -1472116690696634992454681343037448839024634745338134382631741283404149244064int, 2203960485148121921418603742825762020974279258880205651966int, 2581911344467009335267311115468803099551665605076196740867805258568234346338int, 0int);
    }
    if r == 2 {
        lemma_conj_table(2203960485148121921418603742825762020974279258880205651966int, 0int, 0int, 2581911344467009335267311115468803099551665605076196740867805258568234346338int, 19937756971775647987995932169929341994314640652964949448313374472400716661030int, 259976582527877494431438186233494516971420368633736203130int, 5324479202449903542726783395506214481928257762400643279780343368557297135718int, 2007563091545116169065700583191891229126646800409274559427int, 16208900380737693084919495127334387981393726419856888799917914180988844123039int);
    }
    if r == 3 {
        lemma_conj_table(5324479202449903542726783395506214481928257762400643279780343368557297135718int, 16208900380737693084919495127334387981393726419856888799917914180988844123039int, 5679342491101582137326910617922887107302584737440934862771123713656382085544int, 2581911344467009335267311115468803099551665605076196740867805258568234346338int, 19937756971775647987995932169929341994314640652964949448313374472400716661030int, -4545180610129000601019169168297856649434613118198997467570254645774544464244int, 21888242871839275220042445260109153167277707414472061641714758635765020556616int, 5519937431891992799748773852330589721782968594018356267024140881259080150764int, 0int);
    }
    if r == 4 {
        lemma_conj_table(21888242871839275220042445260109153167277707414472061641714758635765020556616int, 0int, 0int, 2581911344467009335267311115468803099551665605076196740867805258568234346338int, 19937756971775647987995932169929341994314640652964949448313374472400716661030int, 2581911344467009335007334532940925605120227418842702223896384889934498143207int, 13981852324922362344252311234282257507216387789820983642040889267519694726527int, 19937756971775647985988369078384225825248940069773058219186727671991442101601int, 7629828391165209371577384193250820201684255241773809077146787135900891633097int);
    }
    if r == 5 {
        lemma_conj_table(13981852324922362344252311234282257507216387789820983642040889267519694726527int, 7629828391165209371577384193250820201684255241773809077146787135900891633097int, 14258414480674065850669021552006454887012055915524014585542250758744334575486int, 2581911344467009335267311115468803099551665605076196740867805258568234346338int, 19937756971775647987995932169929341994314640652964949448313374472400716661030int, -11338548326483003059254770543125233406303727184351620857243573284653788606385int, 1int, 14417819539883655188247158317598752272531672058946593181289233591141636510266int, 0int);
    }
}

/// The same in Montgomery form.
proof fn lemma_frob6_tables_mont(r: int)
    requires
        0 <= r < 6,
    ensures
        f2mmul(f2frobenius(f2to_mont(frob6_c1(r)), 1), f2to_mont(frob6_c1(1))) == f2to_mont(
            frob6_c1((r + 1) % 6),
        ),
        f2mmul(f2frobenius(f2to_mont(frob6_c2(r)), 1), f2to_mont(frob6_c2(1))) == f2to_mont(
            frob6_c2((r + 1) % 6),
        ),
{
    lemma_frob6_tables(r);
    lemma_frobenius_mont(frob6_c1(r));
    lemma_frobenius_mont(frob6_c2(r));
    law_f2_mmul_represents_mul(f2frobenius(frob6_c1(r), 1), frob6_c1(1));
    law_f2_mmul_represents_mul(f2frobenius(frob6_c2(r), 1), frob6_c2(1));
}

/// Montgomery forms are canonical.
proof fn lemma_f2to_mont_canonical(y: (int, int))
    ensures
        f2_canonical(f2to_mont(y)),
{
    lemma_fred_range(y.0 * mont_r());
    lemma_fred_range(y.1 * mont_r());
}

/// The powers of the `Fq6` Frobenius map that `Fq6::frobenius_montgomery`
/// computes: each next power is the map applied once more to the previous
/// one, and the `i`-th power depends only on `i mod 6`.
pub proof fn law_f6_frobenius_powers(x: ((int, int), (int, int), (int, int)), i: int)
    requires
        f6_canonical(x),
        i >= 0,
    ensures
        f6_canonical(f6frobenius(x, i)),
        f6frobenius(x, i + 1) == f6frobenius(f6frobenius(x, i), 1),
        f6frobenius(x, i) == f6frobenius(x, i % 6),
{
    let r = i % 6;
    assert((i + 1) % 6 == (r + 1) % 6);
    assert(r % 6 == r && r % 2 == i % 2 && 1int % 6 == 1);
    lemma_frob6_tables(r);
    lemma_frob6_tables(1);
    let ca = f2to_mont(frob6_c1(r));
    let cb = f2to_mont(frob6_c2(r));
    let c1 = f2to_mont(frob6_c1(1));
    let c2 = f2to_mont(frob6_c2(1));
    lemma_f2to_mont_canonical(frob6_c1(r));
    lemma_f2to_mont_canonical(frob6_c2(r));
    lemma_f2to_mont_canonical(frob6_c1(1));
    lemma_f2to_mont_canonical(frob6_c2(1));
    law_f2_frobenius_powers(x.0, i);
    law_f2_frobenius_powers(x.1, i);
    law_f2_frobenius_powers(x.2, i);
    let y1 = f2frobenius(x.1, i);
    let y2 = f2frobenius(x.2, i);
    lemma_f2_mmul_canonical(y1, ca);
    lemma_f2_mmul_canonical(y2, cb);
    law_f2_frobenius(y1, ca);
    law_f2_frobenius(y2, cb);
    law_f2_frobenius_powers(y1, 0);
    law_f2_frobenius_powers(y2, 0);
    law_f2_frobenius_powers(ca, 0);
    law_f2_frobenius_powers(cb, 0);
    lemma_f2mmul_assoc(f2frobenius(y1, 1), f2frobenius(ca, 1), c1);
    lemma_f2mmul_assoc(f2frobenius(y2, 1), f2frobenius(cb, 1), c2);
    lemma_frob6_tables_mont(r);
    law_f2_frobenius_powers(f2frobenius(x.0, i), 0);
}

} // verus!

//! Arithmetic of the extension tower `Fq2 = Fq[u]/(u^2 + 1)` and
//! `Fq6 = Fq2[v]/(v^3 - (9 + u))` on canonical representatives, in the
//! Montgomery form that the gadgets use, together with the algebraic
//! identities behind the gadgets' formulas.
use crate::field::{
    fadd, fdiv6, fhalf, fneg, fred, fsub, inv2, inv6, lemma_add_red, lemma_cancel,
    lemma_cong_add, lemma_cong_mul, lemma_cong_sub, lemma_constants, lemma_div6_red,
    lemma_fred_range, lemma_half_red, lemma_mmul_red, lemma_red_idem, lemma_scale_red,
    lemma_sub_red, from_mont, minv, mmul, mont_r, p, r_inv, to_mont,
};
use vstd::arithmetic::mul::{
    lemma_mul_is_associative, lemma_mul_is_commutative, lemma_mul_is_distributive_add,
    lemma_mul_is_distributive_sub,
};
use vstd::prelude::*;

verus! {

/// An `Fq2` element `x.0 + x.1 * u` with both coordinates canonical.
pub open spec fn f2_canonical(x: (int, int)) -> bool {
    0 <= x.0 < p() && 0 <= x.1 < p()
}

pub open spec fn f2add(x: (int, int), y: (int, int)) -> (int, int) {
    (fadd(x.0, y.0), fadd(x.1, y.1))
}

pub open spec fn f2sub(x: (int, int), y: (int, int)) -> (int, int) {
    (fsub(x.0, y.0), fsub(x.1, y.1))
}

pub open spec fn f2neg(x: (int, int)) -> (int, int) {
    (fneg(x.0), fneg(x.1))
}

pub open spec fn f2double(x: (int, int)) -> (int, int) {
    (fred(2 * x.0), fred(2 * x.1))
}

pub open spec fn f2triple(x: (int, int)) -> (int, int) {
    (fred(3 * x.0), fred(3 * x.1))
}

pub open spec fn f2half(x: (int, int)) -> (int, int) {
    (fhalf(x.0), fhalf(x.1))
}

pub open spec fn f2div6(x: (int, int)) -> (int, int) {
    (fdiv6(x.0), fdiv6(x.1))
}

/// Product in `Fq2` (with `u^2 = -1`), reduced.
pub open spec fn f2mul(x: (int, int), y: (int, int)) -> (int, int) {
    (fred(x.0 * y.0 - x.1 * y.1), fred(x.0 * y.1 + x.1 * y.0))
}

/// Montgomery product in `Fq2`: the product times `R^-1`.
pub open spec fn f2mmul(x: (int, int), y: (int, int)) -> (int, int) {
    (fred((x.0 * y.0 - x.1 * y.1) * r_inv()), fred((x.0 * y.1 + x.1 * y.0) * r_inv()))
}

/// Product by the sextic non-residue `9 + u`.
pub open spec fn f2nonres(x: (int, int)) -> (int, int) {
    (fred(9 * x.0 - x.1), fred(x.0 + 9 * x.1))
}

/// Montgomery norm `x0^2 + x1^2` (each square a Montgomery square).
pub open spec fn f2mnorm(x: (int, int)) -> int {
    fadd(mmul(x.0, x.0), mmul(x.1, x.1))
}

/// Montgomery inverse in `Fq2`: the conjugate times the Montgomery inverse of
/// the norm (zero for zero).
pub open spec fn f2minv(x: (int, int)) -> (int, int) {
    (mmul(x.0, minv(f2mnorm(x))), mmul(fneg(x.1), minv(f2mnorm(x))))
}

/// The `i`-th power of the Frobenius map on `Fq2`: conjugation for odd `i`.
pub open spec fn f2frobenius(x: (int, int), i: int) -> (int, int) {
    if i % 2 == 0 {
        x
    } else {
        (x.0, fneg(x.1))
    }
}

/// The `i`-th power of the Frobenius map on `Fq6`, in Montgomery form: the
/// map on each coordinate, the second and third then multiplied by the
/// Montgomery forms of `frob6_c1(i mod 6)` and `frob6_c2(i mod 6)`.
pub open spec fn f6frobenius(x: ((int, int), (int, int), (int, int)), i: int) -> ((int, int), (int, int), (int, int)) {
    (
        f2frobenius(x.0, i),
        f2mmul(f2frobenius(x.1, i), f2to_mont(frob6_c1(i % 6))),
        f2mmul(f2frobenius(x.2, i), f2to_mont(frob6_c2(i % 6))),
    )
}

pub open spec fn f2to_mont(x: (int, int)) -> (int, int) {
    (to_mont(x.0), to_mont(x.1))
}

pub open spec fn f2from_mont(x: (int, int)) -> (int, int) {
    (from_mont(x.0), from_mont(x.1))
}

/// One in Montgomery form.
pub open spec fn f2mont_one() -> (int, int) {
    (mont_r(), 0)
}

/// The Karatsuba formula the product gadgets evaluate.
pub open spec fn f2karatsuba(x: (int, int), y: (int, int), s: int) -> (int, int) {
    (
        fsub(mmul(x.0, y.0), mmul(x.1, y.1)),
        fsub(mmul(fadd(x.0, x.1), s), fadd(mmul(x.0, y.0), mmul(x.1, y.1))),
    )
}

/// Karatsuba multiplication gives the Montgomery product.
pub proof fn lemma_f2_karatsuba(x: (int, int), y: (int, int))
    ensures
        f2karatsuba(x, y, fadd(y.0, y.1)) == f2mmul(x, y),
{
    let k = r_inv();
    let a = x.0 * y.0 * k;
    let b = x.1 * y.1 * k;
    let s = (x.0 + x.1) * (y.0 + y.1) * k;
    lemma_sub_red(a, b);
    assert(a - b == (x.0 * y.0 - x.1 * y.1) * k) by (nonlinear_arith)
        requires
            a == x.0 * y.0 * k,
            b == x.1 * y.1 * k,
    ;
    lemma_mmul_red(x.0 + x.1, y.0 + y.1);
    lemma_add_red(a, b);
    lemma_sub_red(s, a + b);
    assert(s - (a + b) == (x.0 * y.1 + x.1 * y.0) * k) by (nonlinear_arith)
        requires
            a == x.0 * y.0 * k,
            b == x.1 * y.1 * k,
            s == (x.0 + x.1) * (y.0 + y.1) * k,
    ;
}

/// The squaring formula `((x0 + x1)(x0 - x1), 2 x0 x1)` gives the Montgomery square.
pub proof fn lemma_f2_square(x: (int, int))
    ensures
        (mmul(fadd(x.0, x.1), fsub(x.0, x.1)), fred(2 * mmul(x.0, x.1))) == f2mmul(x, x),
{
    let k = r_inv();
    lemma_mmul_red(x.0 + x.1, x.0 - x.1);
    assert((x.0 + x.1) * (x.0 - x.1) * k == (x.0 * x.0 - x.1 * x.1) * k) by (nonlinear_arith);
    lemma_scale_red(2, x.0 * x.1 * k);
    assert(2 * (x.0 * x.1 * k) == (x.0 * x.1 + x.1 * x.0) * k) by (nonlinear_arith);
}

/// `x + 2x` is `3x`.
pub proof fn lemma_triple(x: int)
    requires
        0 <= x < p(),
    ensures
        fadd(x, fred(2 * x)) == fred(3 * x),
{
    lemma_red_idem(x);
    lemma_add_red(x, 2 * x);
}

/// Tripling twice is multiplying by nine.
pub proof fn lemma_nine(x: int)
    ensures
        fred(3 * fred(3 * x)) == fred(9 * x),
{
    lemma_scale_red(3, 3 * x);
}

/// The non-residue gadget's formula `(9 x0 - x1, 9 x1 + x0)`.
pub proof fn lemma_f2_nonres(x: (int, int))
    requires
        f2_canonical(x),
    ensures
        (fsub(fred(3 * fred(3 * x.0)), x.1), fadd(fred(3 * fred(3 * x.1)), x.0)) == f2nonres(x),
{
    lemma_nine(x.0);
    lemma_nine(x.1);
    lemma_red_idem(x.0);
    lemma_red_idem(x.1);
    lemma_sub_red(9 * x.0, x.1);
    lemma_add_red(9 * x.1, x.0);
}

/// Montgomery product by the Montgomery forms of one and minus one.
pub proof fn lemma_mmul_unit(x: int)
    requires
        0 <= x < p(),
    ensures
        mmul(x, to_mont(1)) == x,
        mmul(x, to_mont(p() - 1)) == fneg(x),
{
    lemma_constants();
    lemma_red_idem(mont_r());
    lemma_cancel(x, mont_r(), r_inv());
    lemma_red_idem(x);
    // (p - 1) R == -R (mod p)
    lemma_scale_red(p() - 1, mont_r());
    lemma_mmul_red(x, (p() - 1) * mont_r());
    assert(x * ((p() - 1) * mont_r()) * r_inv() == (-x) * mont_r() * r_inv() + p() * (x
        * mont_r() * r_inv())) by (nonlinear_arith);
    vstd::arithmetic::div_mod::lemma_mod_multiples_vanish(
        x * mont_r() * r_inv(),
        (-x) * mont_r() * r_inv(),
        p(),
    );
    lemma_cancel(-x, mont_r(), r_inv());
}

/// Montgomery product by an embedded base-field element `y + 0 * u`.
pub proof fn lemma_f2_embed(x: (int, int), y: int)
    ensures
        f2mmul(x, (y, 0int)) == (mmul(x.0, y), mmul(x.1, y)),
{
    assert((x.0 * y - x.1 * 0) * r_inv() == x.0 * y * r_inv()) by (nonlinear_arith);
    assert((x.0 * 0 + x.1 * y) * r_inv() == x.1 * y * r_inv()) by (nonlinear_arith);
}

/// Unreduced `Fq2` sum.
pub open spec fn r2add(x: (int, int), y: (int, int)) -> (int, int) {
    (x.0 + y.0, x.1 + y.1)
}

pub open spec fn r2sub(x: (int, int), y: (int, int)) -> (int, int) {
    (x.0 - y.0, x.1 - y.1)
}

pub open spec fn r2scale(c: int, x: (int, int)) -> (int, int) {
    (c * x.0, c * x.1)
}

/// Unreduced `Fq2` product, times `k`.
pub open spec fn r2mul(x: (int, int), y: (int, int), k: int) -> (int, int) {
    ((x.0 * y.0 - x.1 * y.1) * k, (x.0 * y.1 + x.1 * y.0) * k)
}

pub open spec fn r2nonres(x: (int, int)) -> (int, int) {
    (9 * x.0 - x.1, x.0 + 9 * x.1)
}

/// Values at `1`, `-1` and `2` of `x0 + x1 t + x2 t^2`, unreduced.
pub open spec fn r6points(x0: (int, int), x1: (int, int), x2: (int, int)) -> ((int, int), (int, int), (int, int)) {
    (
        r2add(r2add(x0, x2), x1),
        r2sub(r2add(x0, x2), x1),
        r2add(r2add(x0, r2scale(2, x1)), r2scale(2, r2scale(2, x2))),
    )
}

/// The unreduced product distributes over a sum on the left.
pub proof fn lemma_r2mul_add_l(x: (int, int), y: (int, int), z: (int, int), k: int)
    ensures
        r2mul(r2add(x, y), z, k) == r2add(r2mul(x, z, k), r2mul(y, z, k)),
{
    broadcast use vstd::arithmetic::mul::group_mul_is_distributive;

    assert(((x.0 + y.0) * z.0 - (x.1 + y.1) * z.1) == (x.0 * z.0 - x.1 * z.1) + (y.0 * z.0 - y.1
        * z.1));
    assert(((x.0 + y.0) * z.1 + (x.1 + y.1) * z.0) == (x.0 * z.1 + x.1 * z.0) + (y.0 * z.1 + y.1
        * z.0));
}

/// The unreduced product distributes over a sum on the right.
pub proof fn lemma_r2mul_add_r(x: (int, int), y: (int, int), z: (int, int), k: int)
    ensures
        r2mul(x, r2add(y, z), k) == r2add(r2mul(x, y, k), r2mul(x, z, k)),
{
    broadcast use vstd::arithmetic::mul::group_mul_is_distributive;

    assert((x.0 * (y.0 + z.0) - x.1 * (y.1 + z.1)) == (x.0 * y.0 - x.1 * y.1) + (x.0 * z.0 - x.1
        * z.1));
    assert((x.0 * (y.1 + z.1) + x.1 * (y.0 + z.0)) == (x.0 * y.1 + x.1 * y.0) + (x.0 * z.1 + x.1
        * z.0));
}

/// The unreduced product distributes over a difference on the left.
pub proof fn lemma_r2mul_sub_l(x: (int, int), y: (int, int), z: (int, int), k: int)
    ensures
        r2mul(r2sub(x, y), z, k) == r2sub(r2mul(x, z, k), r2mul(y, z, k)),
{
    broadcast use vstd::arithmetic::mul::group_mul_is_distributive;

    assert(((x.0 - y.0) * z.0 - (x.1 - y.1) * z.1) == (x.0 * z.0 - x.1 * z.1) - (y.0 * z.0 - y.1
        * z.1));
    assert(((x.0 - y.0) * z.1 + (x.1 - y.1) * z.0) == (x.0 * z.1 + x.1 * z.0) - (y.0 * z.1 + y.1
        * z.0));
}

/// The unreduced product distributes over a difference on the right.
pub proof fn lemma_r2mul_sub_r(x: (int, int), y: (int, int), z: (int, int), k: int)
    ensures
        r2mul(x, r2sub(y, z), k) == r2sub(r2mul(x, y, k), r2mul(x, z, k)),
{
    broadcast use vstd::arithmetic::mul::group_mul_is_distributive;

    assert((x.0 * (y.0 - z.0) - x.1 * (y.1 - z.1)) == (x.0 * y.0 - x.1 * y.1) - (x.0 * z.0 - x.1
        * z.1));
    assert((x.0 * (y.1 - z.1) + x.1 * (y.0 - z.0)) == (x.0 * y.1 + x.1 * y.0) - (x.0 * z.1 + x.1
        * z.0));
}

/// Scalars pull out of the unreduced product on the left.
pub proof fn lemma_r2mul_scale_l(c: int, x: (int, int), z: (int, int), k: int)
    ensures
        r2mul(r2scale(c, x), z, k) == r2scale(c, r2mul(x, z, k)),
{
    lemma_mul_is_associative(c, x.0, z.0);
    lemma_mul_is_associative(c, x.1, z.1);
    lemma_mul_is_associative(c, x.0, z.1);
    lemma_mul_is_associative(c, x.1, z.0);
    lemma_mul_is_distributive_sub(c, x.0 * z.0, x.1 * z.1);
    lemma_mul_is_distributive_add(c, x.0 * z.1, x.1 * z.0);
    lemma_mul_is_associative(c, x.0 * z.0 - x.1 * z.1, k);
    lemma_mul_is_associative(c, x.0 * z.1 + x.1 * z.0, k);
}

/// Scalars pull out of the unreduced product on the right.
pub proof fn lemma_r2mul_scale_r(c: int, x: (int, int), z: (int, int), k: int)
    ensures
        r2mul(x, r2scale(c, z), k) == r2scale(c, r2mul(x, z, k)),
{
    lemma_mul_is_associative(x.0, c, z.0);
    lemma_mul_is_associative(x.1, c, z.1);
    lemma_mul_is_associative(x.0, c, z.1);
    lemma_mul_is_associative(x.1, c, z.0);
    lemma_mul_is_commutative(x.0, c);
    lemma_mul_is_commutative(x.1, c);
    lemma_mul_is_associative(c, x.0, z.0);
    lemma_mul_is_associative(c, x.1, z.1);
    lemma_mul_is_associative(c, x.0, z.1);
    lemma_mul_is_associative(c, x.1, z.0);
    lemma_mul_is_distributive_sub(c, x.0 * z.0, x.1 * z.1);
    lemma_mul_is_distributive_add(c, x.0 * z.1, x.1 * z.0);
    lemma_mul_is_associative(c, x.0 * z.0 - x.1 * z.1, k);
    lemma_mul_is_associative(c, x.0 * z.1 + x.1 * z.0, k);
}

/// Both coordinates reduced.
pub open spec fn f2red(x: (int, int)) -> (int, int) {
    (fred(x.0), fred(x.1))
}

pub proof fn lemma_f2red_canonical(x: (int, int))
    requires
        f2_canonical(x),
    ensures
        f2red(x) == x,
{
    lemma_red_idem(x.0);
    lemma_red_idem(x.1);
}

pub proof fn lemma_r2_add(x: (int, int), y: (int, int))
    ensures
        f2add(f2red(x), f2red(y)) == f2red(r2add(x, y)),
{
    lemma_add_red(x.0, y.0);
    lemma_add_red(x.1, y.1);
}

pub proof fn lemma_r2_sub(x: (int, int), y: (int, int))
    ensures
        f2sub(f2red(x), f2red(y)) == f2red(r2sub(x, y)),
{
    lemma_sub_red(x.0, y.0);
    lemma_sub_red(x.1, y.1);
}

pub proof fn lemma_r2_double(x: (int, int))
    ensures
        f2double(f2red(x)) == f2red(r2scale(2, x)),
{
    lemma_scale_red(2, x.0);
    lemma_scale_red(2, x.1);
}

pub proof fn lemma_r2_triple(x: (int, int))
    ensures
        f2triple(f2red(x)) == f2red(r2scale(3, x)),
{
    lemma_scale_red(3, x.0);
    lemma_scale_red(3, x.1);
}

pub proof fn lemma_r2_nonres(x: (int, int))
    ensures
        f2nonres(f2red(x)) == f2red(r2nonres(x)),
{
    lemma_fred_range(x.0);
    lemma_fred_range(x.1);
    lemma_cong_mul(9, 9, fred(x.0), x.0);
    lemma_cong_mul(9, 9, fred(x.1), x.1);
    lemma_cong_sub(9 * fred(x.0), 9 * x.0, fred(x.1), x.1);
    lemma_cong_add(fred(x.0), x.0, 9 * fred(x.1), 9 * x.1);
}

pub proof fn lemma_r2_mmul(x: (int, int), y: (int, int))
    ensures
        f2mmul(f2red(x), f2red(y)) == f2red(r2mul(x, y, r_inv())),
{
    let k = r_inv();
    lemma_fred_range(x.0);
    lemma_fred_range(x.1);
    lemma_fred_range(y.0);
    lemma_fred_range(y.1);
    lemma_cong_mul(fred(x.0), x.0, fred(y.0), y.0);
    lemma_cong_mul(fred(x.1), x.1, fred(y.1), y.1);
    lemma_cong_mul(fred(x.0), x.0, fred(y.1), y.1);
    lemma_cong_mul(fred(x.1), x.1, fred(y.0), y.0);
    lemma_cong_sub(fred(x.0) * fred(y.0), x.0 * y.0, fred(x.1) * fred(y.1), x.1 * y.1);
    lemma_cong_add(fred(x.0) * fred(y.1), x.0 * y.1, fred(x.1) * fred(y.0), x.1 * y.0);
    lemma_cong_mul(fred(x.0) * fred(y.0) - fred(x.1) * fred(y.1), x.0 * y.0 - x.1 * y.1, k, k);
    lemma_cong_mul(fred(x.0) * fred(y.1) + fred(x.1) * fred(y.0), x.0 * y.1 + x.1 * y.0, k, k);
}

/// Dividing six times `t` by six gives `t`.
pub proof fn lemma_r2_div6_six(r: (int, int), t: (int, int))
    requires
        r == r2scale(6, t),
    ensures
        f2div6(f2red(r)) == f2red(t),
{
    lemma_constants();
    lemma_div6_red(r.0);
    lemma_div6_red(r.1);
    lemma_mul_is_commutative(6, t.0);
    lemma_mul_is_commutative(6, t.1);
    lemma_cancel(t.0, 6, inv6());
    lemma_cancel(t.1, 6, inv6());
}

/// Halving two times `t` gives `t`.
pub proof fn lemma_r2_half_two(r: (int, int), t: (int, int))
    requires
        r == r2scale(2, t),
    ensures
        f2half(f2red(r)) == f2red(t),
{
    lemma_constants();
    lemma_half_red(r.0);
    lemma_half_red(r.1);
    lemma_mul_is_commutative(2, t.0);
    lemma_mul_is_commutative(2, t.1);
    lemma_cancel(t.0, 2, inv2());
    lemma_cancel(t.1, 2, inv2());
}

/// An `Fq6` element `x.0 + x.1 * v + x.2 * v^2`, each coordinate in `Fq2`.
pub open spec fn f6_canonical(x: ((int, int), (int, int), (int, int))) -> bool {
    f2_canonical(x.0) && f2_canonical(x.1) && f2_canonical(x.2)
}

pub open spec fn f6add(x: ((int, int), (int, int), (int, int)), y: ((int, int), (int, int), (int, int))) -> ((int, int), (int, int), (int, int)) {
    (f2add(x.0, y.0), f2add(x.1, y.1), f2add(x.2, y.2))
}

pub open spec fn f6sub(x: ((int, int), (int, int), (int, int)), y: ((int, int), (int, int), (int, int))) -> ((int, int), (int, int), (int, int)) {
    (f2sub(x.0, y.0), f2sub(x.1, y.1), f2sub(x.2, y.2))
}

pub open spec fn f6neg(x: ((int, int), (int, int), (int, int))) -> ((int, int), (int, int), (int, int)) {
    (f2neg(x.0), f2neg(x.1), f2neg(x.2))
}

pub open spec fn f6double(x: ((int, int), (int, int), (int, int))) -> ((int, int), (int, int), (int, int)) {
    (f2double(x.0), f2double(x.1), f2double(x.2))
}

pub open spec fn f6triple(x: ((int, int), (int, int), (int, int))) -> ((int, int), (int, int), (int, int)) {
    (f2triple(x.0), f2triple(x.1), f2triple(x.2))
}

pub open spec fn f6div6(x: ((int, int), (int, int), (int, int))) -> ((int, int), (int, int), (int, int)) {
    (f2div6(x.0), f2div6(x.1), f2div6(x.2))
}

/// Montgomery product in `Fq6`, with `v^3 = 9 + u`.
pub open spec fn f6mmul(x: ((int, int), (int, int), (int, int)), y: ((int, int), (int, int), (int, int))) -> ((int, int), (int, int), (int, int)) {
    (
        f2add(f2mmul(x.0, y.0), f2nonres(f2add(f2mmul(x.1, y.2), f2mmul(x.2, y.1)))),
        f2add(f2add(f2mmul(x.0, y.1), f2mmul(x.1, y.0)), f2nonres(f2mmul(x.2, y.2))),
        f2add(f2add(f2mmul(x.0, y.2), f2mmul(x.1, y.1)), f2mmul(x.2, y.0)),
    )
}

/// Product by `v`.
pub open spec fn f6nonres(x: ((int, int), (int, int), (int, int))) -> ((int, int), (int, int), (int, int)) {
    (f2nonres(x.2), x.0, x.1)
}

/// Values at `1`, `-1` and `2` of `x0 + x1 t + x2 t^2`.
pub open spec fn f6points(x0: (int, int), x1: (int, int), x2: (int, int)) -> ((int, int), (int, int), (int, int)) {
    (
        f2add(f2add(x0, x2), x1),
        f2sub(f2add(x0, x2), x1),
        f2add(f2add(x0, f2double(x1)), f2double(f2double(x2))),
    )
}

/// Six times the coefficients of the product, interpolated from its values
/// `v0 .. v4` at `0, 1, -1, 2` and infinity, with the terms of degree three
/// and four folded back by `v^3 = 9 + u`.
pub open spec fn f6interp(v0: (int, int), v1: (int, int), v2: (int, int), v3: (int, int), v4: (int, int)) -> ((int, int), (int, int), (int, int)) {
    let v0_3 = f2triple(v0);
    let v1_3 = f2triple(v1);
    let v2_3 = f2triple(v2);
    let v4_3 = f2triple(v4);
    let v0_6 = f2double(v0_3);
    let v1_6 = f2double(v1_3);
    let v4_6 = f2double(v4_3);
    let v4_12 = f2double(v4_6);
    let v2_2 = f2double(v2);
    (
        f2add(f2nonres(f2sub(f2add(f2sub(f2sub(v0_3, v1_3), v2), v3), v4_12)), v0_6),
        f2add(f2add(f2sub(f2sub(f2sub(v1_6, v0_3), v2_2), v3), v4_12), f2nonres(v4_6)),
        f2sub(f2add(f2sub(v1_3, v0_6), v2_3), v4_6),
    )
}

pub open spec fn r6interp(v0: (int, int), v1: (int, int), v2: (int, int), v3: (int, int), v4: (int, int)) -> ((int, int), (int, int), (int, int)) {
    let v0_3 = r2scale(3, v0);
    let v1_3 = r2scale(3, v1);
    let v2_3 = r2scale(3, v2);
    let v4_3 = r2scale(3, v4);
    let v0_6 = r2scale(2, v0_3);
    let v1_6 = r2scale(2, v1_3);
    let v4_6 = r2scale(2, v4_3);
    let v4_12 = r2scale(2, v4_6);
    let v2_2 = r2scale(2, v2);
    (
        r2add(r2nonres(r2sub(r2add(r2sub(r2sub(v0_3, v1_3), v2), v3), v4_12)), v0_6),
        r2add(r2add(r2sub(r2sub(r2sub(v1_6, v0_3), v2_2), v3), v4_12), r2nonres(v4_6)),
        r2sub(r2add(r2sub(v1_3, v0_6), v2_3), v4_6),
    )
}

pub proof fn lemma_points_collapse(x0: (int, int), x1: (int, int), x2: (int, int))
    requires
        f2_canonical(x0),
        f2_canonical(x1),
        f2_canonical(x2),
    ensures
        f6points(x0, x1, x2).0 == f2red(r6points(x0, x1, x2).0),
        f6points(x0, x1, x2).1 == f2red(r6points(x0, x1, x2).1),
        f6points(x0, x1, x2).2 == f2red(r6points(x0, x1, x2).2),
{
    lemma_f2red_canonical(x0);
    lemma_f2red_canonical(x1);
    lemma_f2red_canonical(x2);
    let w2 = r2add(x0, x2);
    lemma_r2_add(x0, x2);
    lemma_r2_add(w2, x1);
    lemma_r2_sub(w2, x1);
    lemma_r2_double(x1);
    lemma_r2_double(x2);
    lemma_r2_double(r2scale(2, x2));
    lemma_r2_add(x0, r2scale(2, x1));
    lemma_r2_add(r2add(x0, r2scale(2, x1)), r2scale(2, r2scale(2, x2)));
}

pub proof fn lemma_interp_collapse(
    v0: (int, int),
    v1: (int, int),
    v2: (int, int),
    v3: (int, int),
    v4: (int, int),
    w0: (int, int),
    w1: (int, int),
    w2: (int, int),
    w3: (int, int),
    w4: (int, int),
)
    requires
        v0 == f2red(w0),
        v1 == f2red(w1),
        v2 == f2red(w2),
        v3 == f2red(w3),
        v4 == f2red(w4),
    ensures
        f6interp(v0, v1, v2, v3, v4).0 == f2red(r6interp(w0, w1, w2, w3, w4).0),
        f6interp(v0, v1, v2, v3, v4).1 == f2red(r6interp(w0, w1, w2, w3, w4).1),
        f6interp(v0, v1, v2, v3, v4).2 == f2red(r6interp(w0, w1, w2, w3, w4).2),
{
    let v0_3 = r2scale(3, w0);
    let v1_3 = r2scale(3, w1);
    let v2_3 = r2scale(3, w2);
    let v4_3 = r2scale(3, w4);
    let v0_6 = r2scale(2, v0_3);
    let v1_6 = r2scale(2, v1_3);
    let v4_6 = r2scale(2, v4_3);
    let v4_12 = r2scale(2, v4_6);
    let v2_2 = r2scale(2, w2);
    lemma_r2_triple(w0);
    lemma_r2_triple(w1);
    lemma_r2_triple(w2);
    lemma_r2_triple(w4);
    lemma_r2_double(v0_3);
    lemma_r2_double(v1_3);
    lemma_r2_double(v4_3);
    lemma_r2_double(v4_6);
    lemma_r2_double(w2);
    let a = r2sub(v0_3, v1_3);
    let b = r2sub(a, w2);
    let c = r2add(b, w3);
    let d = r2sub(c, v4_12);
    lemma_r2_sub(v0_3, v1_3);
    lemma_r2_sub(a, w2);
    lemma_r2_add(b, w3);
    lemma_r2_sub(c, v4_12);
    lemma_r2_nonres(d);
    lemma_r2_add(r2nonres(d), v0_6);
    let e = r2sub(v1_6, v0_3);
    let f = r2sub(e, v2_2);
    let g = r2sub(f, w3);
    let h = r2add(g, v4_12);
    lemma_r2_sub(v1_6, v0_3);
    lemma_r2_sub(e, v2_2);
    lemma_r2_sub(f, w3);
    lemma_r2_add(g, v4_12);
    lemma_r2_nonres(v4_6);
    lemma_r2_add(h, r2nonres(v4_6));
    let i = r2sub(v1_3, v0_6);
    let j = r2add(i, v2_3);
    lemma_r2_sub(v1_3, v0_6);
    lemma_r2_add(i, v2_3);
    lemma_r2_sub(j, v4_6);
}

/// `r2mul(x, y0 + y2 + y1)` expanded.
proof fn lemma_expand_r_p1(x: (int, int), y0: (int, int), y1: (int, int), y2: (int, int), k: int)
    ensures
        r2mul(x, r6points(y0, y1, y2).0, k) == r2add(
            r2add(r2mul(x, y0, k), r2mul(x, y2, k)),
            r2mul(x, y1, k),
        ),
{
    lemma_r2mul_add_r(x, r2add(y0, y2), y1, k);
    lemma_r2mul_add_r(x, y0, y2, k);
}

/// `r2mul(x, y0 + y2 - y1)` expanded.
proof fn lemma_expand_r_m1(x: (int, int), y0: (int, int), y1: (int, int), y2: (int, int), k: int)
    ensures
        r2mul(x, r6points(y0, y1, y2).1, k) == r2sub(
            r2add(r2mul(x, y0, k), r2mul(x, y2, k)),
            r2mul(x, y1, k),
        ),
{
    lemma_r2mul_sub_r(x, r2add(y0, y2), y1, k);
    lemma_r2mul_add_r(x, y0, y2, k);
}

/// `r2mul(x, y0 + 2 y1 + 4 y2)` expanded.
proof fn lemma_expand_r_p2(x: (int, int), y0: (int, int), y1: (int, int), y2: (int, int), k: int)
    ensures
        r2mul(x, r6points(y0, y1, y2).2, k) == r2add(
            r2add(r2mul(x, y0, k), r2scale(2, r2mul(x, y1, k))),
            r2scale(2, r2scale(2, r2mul(x, y2, k))),
        ),
{
    lemma_r2mul_add_r(x, r2add(y0, r2scale(2, y1)), r2scale(2, r2scale(2, y2)), k);
    lemma_r2mul_add_r(x, y0, r2scale(2, y1), k);
    lemma_r2mul_scale_r(2, x, y1, k);
    lemma_r2mul_scale_r(2, x, r2scale(2, y2), k);
    lemma_r2mul_scale_r(2, x, y2, k);
}

/// The product at `1` expanded into the basic products.
proof fn lemma_expand_p1(x0: (int, int), x1: (int, int), x2: (int, int), y0: (int, int), y1: (int, int), y2: (int, int), k: int)
    ensures
        r2mul(r6points(x0, x1, x2).0, r6points(y0, y1, y2).0, k) == r2add(
            r2add(r2mul(x0, r6points(y0, y1, y2).0, k), r2mul(x2, r6points(y0, y1, y2).0, k)),
            r2mul(x1, r6points(y0, y1, y2).0, k),
        ),
        r2mul(x0, r6points(y0, y1, y2).0, k) == r2add(
            r2add(r2mul(x0, y0, k), r2mul(x0, y2, k)),
            r2mul(x0, y1, k),
        ),
        r2mul(x1, r6points(y0, y1, y2).0, k) == r2add(
            r2add(r2mul(x1, y0, k), r2mul(x1, y2, k)),
            r2mul(x1, y1, k),
        ),
        r2mul(x2, r6points(y0, y1, y2).0, k) == r2add(
            r2add(r2mul(x2, y0, k), r2mul(x2, y2, k)),
            r2mul(x2, y1, k),
        ),
{
    let q = r6points(y0, y1, y2).0;
    lemma_r2mul_add_l(r2add(x0, x2), x1, q, k);
    lemma_r2mul_add_l(x0, x2, q, k);
    lemma_expand_r_p1(x0, y0, y1, y2, k);
    lemma_expand_r_p1(x1, y0, y1, y2, k);
    lemma_expand_r_p1(x2, y0, y1, y2, k);
}

/// The product at `-1` expanded into the basic products.
proof fn lemma_expand_m1(x0: (int, int), x1: (int, int), x2: (int, int), y0: (int, int), y1: (int, int), y2: (int, int), k: int)
    ensures
        r2mul(r6points(x0, x1, x2).1, r6points(y0, y1, y2).1, k) == r2sub(
            r2add(r2mul(x0, r6points(y0, y1, y2).1, k), r2mul(x2, r6points(y0, y1, y2).1, k)),
            r2mul(x1, r6points(y0, y1, y2).1, k),
        ),
        r2mul(x0, r6points(y0, y1, y2).1, k) == r2sub(
            r2add(r2mul(x0, y0, k), r2mul(x0, y2, k)),
            r2mul(x0, y1, k),
        ),
        r2mul(x1, r6points(y0, y1, y2).1, k) == r2sub(
            r2add(r2mul(x1, y0, k), r2mul(x1, y2, k)),
            r2mul(x1, y1, k),
        ),
        r2mul(x2, r6points(y0, y1, y2).1, k) == r2sub(
            r2add(r2mul(x2, y0, k), r2mul(x2, y2, k)),
            r2mul(x2, y1, k),
        ),
{
    let q = r6points(y0, y1, y2).1;
    lemma_r2mul_sub_l(r2add(x0, x2), x1, q, k);
    lemma_r2mul_add_l(x0, x2, q, k);
    lemma_expand_r_m1(x0, y0, y1, y2, k);
    lemma_expand_r_m1(x1, y0, y1, y2, k);
    lemma_expand_r_m1(x2, y0, y1, y2, k);
}

/// The product at `2` expanded into the basic products.
proof fn lemma_expand_p2(x0: (int, int), x1: (int, int), x2: (int, int), y0: (int, int), y1: (int, int), y2: (int, int), k: int)
    ensures
        r2mul(r6points(x0, x1, x2).2, r6points(y0, y1, y2).2, k) == r2add(
            r2add(r2mul(x0, r6points(y0, y1, y2).2, k), r2scale(2, r2mul(x1, r6points(y0, y1, y2).2, k))),
            r2scale(2, r2scale(2, r2mul(x2, r6points(y0, y1, y2).2, k))),
        ),
        r2mul(x0, r6points(y0, y1, y2).2, k) == r2add(
            r2add(r2mul(x0, y0, k), r2scale(2, r2mul(x0, y1, k))),
            r2scale(2, r2scale(2, r2mul(x0, y2, k))),
        ),
        r2mul(x1, r6points(y0, y1, y2).2, k) == r2add(
            r2add(r2mul(x1, y0, k), r2scale(2, r2mul(x1, y1, k))),
            r2scale(2, r2scale(2, r2mul(x1, y2, k))),
        ),
        r2mul(x2, r6points(y0, y1, y2).2, k) == r2add(
            r2add(r2mul(x2, y0, k), r2scale(2, r2mul(x2, y1, k))),
            r2scale(2, r2scale(2, r2mul(x2, y2, k))),
        ),
{
    let q = r6points(y0, y1, y2).2;
    lemma_r2mul_add_l(r2add(x0, r2scale(2, x1)), r2scale(2, r2scale(2, x2)), q, k);
    lemma_r2mul_add_l(x0, r2scale(2, x1), q, k);
    lemma_r2mul_scale_l(2, x1, q, k);
    lemma_r2mul_scale_l(2, r2scale(2, x2), q, k);
    lemma_r2mul_scale_l(2, x2, q, k);
    lemma_expand_r_p2(x0, y0, y1, y2, k);
    lemma_expand_r_p2(x1, y0, y1, y2, k);
    lemma_expand_r_p2(x2, y0, y1, y2, k);
}

/// The interpolation is six times the product of `x0 + x1 v + x2 v^2` and
/// `y0 + y1 v + y2 v^2`, unreduced.
proof fn lemma_interp_raw(x0: (int, int), x1: (int, int), x2: (int, int), y0: (int, int), y1: (int, int), y2: (int, int), k: int)
    ensures
        ({
            let px = r6points(x0, x1, x2);
            let py = r6points(y0, y1, y2);
            let r = r6interp(r2mul(x0, y0, k), r2mul(px.0, py.0, k), r2mul(px.1, py.1, k), r2mul(px.2, py.2, k), r2mul(x2, y2, k));
            &&& r.0 == r2scale(6, r2add(r2mul(x0, y0, k), r2nonres(r2add(r2mul(x1, y2, k), r2mul(x2, y1, k)))))
            &&& r.1 == r2scale(6, r2add(r2add(r2mul(x0, y1, k), r2mul(x1, y0, k)), r2nonres(r2mul(x2, y2, k))))
            &&& r.2 == r2scale(6, r2add(r2add(r2mul(x0, y2, k), r2mul(x1, y1, k)), r2mul(x2, y0, k)))
        }),
{
    lemma_expand_p1(x0, x1, x2, y0, y1, y2, k);
    lemma_expand_m1(x0, x1, x2, y0, y1, y2, k);
    lemma_expand_p2(x0, x1, x2, y0, y1, y2, k);
}

/// The Toom-Cook evaluation and interpolation the `Fq6` product gadget
/// performs gives the Montgomery product.
pub proof fn lemma_f6_toom(a: ((int, int), (int, int), (int, int)), b: ((int, int), (int, int), (int, int)))
    requires
        f6_canonical(a),
        f6_canonical(b),
    ensures
        ({
            let pa = f6points(a.0, a.1, a.2);
            let pb = f6points(b.0, b.1, b.2);
            f6div6(
                f6interp(
                    f2mmul(a.0, b.0),
                    f2mmul(pa.0, pb.0),
                    f2mmul(pa.1, pb.1),
                    f2mmul(pa.2, pb.2),
                    f2mmul(a.2, b.2),
                ),
            ) == f6mmul(a, b)
        }),
{
    let k = r_inv();
    let (a0, a1, a2) = a;
    let (b0, b1, b2) = b;
    lemma_f2red_canonical(a0);
    lemma_f2red_canonical(a1);
    lemma_f2red_canonical(a2);
    lemma_f2red_canonical(b0);
    lemma_f2red_canonical(b1);
    lemma_f2red_canonical(b2);
    let pa = r6points(a0, a1, a2);
    let pb = r6points(b0, b1, b2);
    lemma_points_collapse(a0, a1, a2);
    lemma_points_collapse(b0, b1, b2);
    let w0 = r2mul(a0, b0, k);
    let w1 = r2mul(pa.0, pb.0, k);
    let w2 = r2mul(pa.1, pb.1, k);
    let w3 = r2mul(pa.2, pb.2, k);
    let w4 = r2mul(a2, b2, k);
    lemma_r2_mmul(a0, b0);
    lemma_r2_mmul(pa.0, pb.0);
    lemma_r2_mmul(pa.1, pb.1);
    lemma_r2_mmul(pa.2, pb.2);
    lemma_r2_mmul(a2, b2);
    let v0 = f2mmul(a0, b0);
    let v1 = f2mmul(f6points(a0, a1, a2).0, f6points(b0, b1, b2).0);
    let v2 = f2mmul(f6points(a0, a1, a2).1, f6points(b0, b1, b2).1);
    let v3 = f2mmul(f6points(a0, a1, a2).2, f6points(b0, b1, b2).2);
    let v4 = f2mmul(a2, b2);
    lemma_interp_collapse(v0, v1, v2, v3, v4, w0, w1, w2, w3, w4);
    lemma_interp_raw(a0, a1, a2, b0, b1, b2, k);
    let r = r6interp(w0, w1, w2, w3, w4);
    let t0 = r2add(r2mul(a0, b0, k), r2nonres(r2add(r2mul(a1, b2, k), r2mul(a2, b1, k))));
    let t1 = r2add(r2add(r2mul(a0, b1, k), r2mul(a1, b0, k)), r2nonres(r2mul(a2, b2, k)));
    let t2 = r2add(r2add(r2mul(a0, b2, k), r2mul(a1, b1, k)), r2mul(a2, b0, k));
    lemma_r2_div6_six(r.0, t0);
    lemma_r2_div6_six(r.1, t1);
    lemma_r2_div6_six(r.2, t2);
    lemma_r2_mmul(a0, b1);
    lemma_r2_mmul(a0, b2);
    lemma_r2_mmul(a1, b0);
    lemma_r2_mmul(a1, b1);
    lemma_r2_mmul(a1, b2);
    lemma_r2_mmul(a2, b0);
    lemma_r2_mmul(a2, b1);
    lemma_r2_add(r2mul(a1, b2, k), r2mul(a2, b1, k));
    lemma_r2_nonres(r2add(r2mul(a1, b2, k), r2mul(a2, b1, k)));
    lemma_r2_add(r2mul(a0, b0, k), r2nonres(r2add(r2mul(a1, b2, k), r2mul(a2, b1, k))));
    lemma_r2_add(r2mul(a0, b1, k), r2mul(a1, b0, k));
    lemma_r2_nonres(r2mul(a2, b2, k));
    lemma_r2_add(r2add(r2mul(a0, b1, k), r2mul(a1, b0, k)), r2nonres(r2mul(a2, b2, k)));
    lemma_r2_add(r2mul(a0, b2, k), r2mul(a1, b1, k));
    lemma_r2_add(r2add(r2mul(a0, b2, k), r2mul(a1, b1, k)), r2mul(a2, b0, k));
}

/// The unreduced product is commutative.
pub proof fn lemma_r2mul_comm(x: (int, int), y: (int, int), k: int)
    ensures
        r2mul(x, y, k) == r2mul(y, x, k),
{
    lemma_mul_is_commutative(x.0, y.0);
    lemma_mul_is_commutative(x.1, y.1);
    lemma_mul_is_commutative(x.0, y.1);
    lemma_mul_is_commutative(x.1, y.0);
}

/// The squaring formula (Chung-Hasan, with a halving) the `Fq6` square
/// gadget evaluates.
pub open spec fn f6sqr_formula(x: ((int, int), (int, int), (int, int))) -> ((int, int), (int, int), (int, int)) {
    let s0 = f2mmul(x.0, x.0);
    let w1 = f2add(x.0, x.2);
    let s1 = f2mmul(f2add(w1, x.1), f2add(w1, x.1));
    let s2 = f2mmul(f2sub(w1, x.1), f2sub(w1, x.1));
    let s3 = f2double(f2mmul(x.1, x.2));
    let s4 = f2mmul(x.2, x.2);
    let t1 = f2half(f2add(s1, s2));
    (
        f2add(s0, f2nonres(s3)),
        f2add(f2sub(f2sub(s1, s3), t1), f2nonres(s4)),
        f2sub(f2sub(t1, s0), s4),
    )
}

/// The squaring formula gives the Montgomery square.
#[verifier::spinoff_prover]
#[verifier::rlimit(50)]
pub proof fn lemma_f6_square(a: ((int, int), (int, int), (int, int)))
    requires
        f6_canonical(a),
    ensures
        f6sqr_formula(a) == f6mmul(a, a),
{
    let k = r_inv();
    let (a0, a1, a2) = a;
    lemma_f2red_canonical(a0);
    lemma_f2red_canonical(a1);
    lemma_f2red_canonical(a2);
    let p = r6points(a0, a1, a2);
    // the circuit values, as reductions of unreduced values
    lemma_r2_add(a0, a2);
    lemma_r2_add(r2add(a0, a2), a1);
    lemma_r2_sub(r2add(a0, a2), a1);
    lemma_r2_mmul(a0, a0);
    lemma_r2_mmul(p.0, p.0);
    lemma_r2_mmul(p.1, p.1);
    lemma_r2_mmul(a1, a2);
    lemma_r2_double(r2mul(a1, a2, k));
    lemma_r2_mmul(a2, a2);
    let s0 = r2mul(a0, a0, k);
    let s1 = r2mul(p.0, p.0, k);
    let s2 = r2mul(p.1, p.1, k);
    let s3 = r2scale(2, r2mul(a1, a2, k));
    let s4 = r2mul(a2, a2, k);
    lemma_r2_add(s1, s2);
    lemma_expand_p1(a0, a1, a2, a0, a1, a2, k);
    lemma_expand_m1(a0, a1, a2, a0, a1, a2, k);
    lemma_r2mul_comm(a0, a1, k);
    lemma_r2mul_comm(a0, a2, k);
    lemma_r2mul_comm(a1, a2, k);
    let t1 = r2add(
        r2add(r2add(r2add(r2mul(a0, a0, k), r2mul(a1, a1, k)), r2mul(a2, a2, k)), r2mul(a0, a2, k)),
        r2mul(a2, a0, k),
    );
    assert(r2add(s1, s2) == r2scale(2, t1));
    lemma_r2_half_two(r2add(s1, s2), t1);
    lemma_r2_nonres(s3);
    lemma_r2_add(s0, r2nonres(s3));
    lemma_r2_sub(s1, s3);
    lemma_r2_sub(r2sub(s1, s3), t1);
    lemma_r2_nonres(s4);
    lemma_r2_add(r2sub(r2sub(s1, s3), t1), r2nonres(s4));
    lemma_r2_sub(t1, s0);
    lemma_r2_sub(r2sub(t1, s0), s4);
    // the Montgomery square, likewise
    lemma_r2_mmul(a0, a1);
    lemma_r2_mmul(a0, a2);
    lemma_r2_mmul(a1, a0);
    lemma_r2_mmul(a1, a1);
    lemma_r2_mmul(a2, a0);
    lemma_r2_mmul(a2, a1);
    lemma_r2_add(r2mul(a1, a2, k), r2mul(a2, a1, k));
    lemma_r2_nonres(r2add(r2mul(a1, a2, k), r2mul(a2, a1, k)));
    lemma_r2_add(r2mul(a0, a0, k), r2nonres(r2add(r2mul(a1, a2, k), r2mul(a2, a1, k))));
    lemma_r2_add(r2mul(a0, a1, k), r2mul(a1, a0, k));
    lemma_r2_add(r2add(r2mul(a0, a1, k), r2mul(a1, a0, k)), r2nonres(r2mul(a2, a2, k)));
    lemma_r2_add(r2mul(a0, a2, k), r2mul(a1, a1, k));
    lemma_r2_add(r2add(r2mul(a0, a2, k), r2mul(a1, a1, k)), r2mul(a2, a0, k));
    assert(r2add(s0, r2nonres(s3)) == r2add(
        r2mul(a0, a0, k),
        r2nonres(r2add(r2mul(a1, a2, k), r2mul(a2, a1, k))),
    ));
    assert(r2add(r2sub(r2sub(s1, s3), t1), r2nonres(s4)) == r2add(
        r2add(r2mul(a0, a1, k), r2mul(a1, a0, k)),
        r2nonres(r2mul(a2, a2, k)),
    ));
    assert(r2sub(r2sub(t1, s0), s4) == r2add(
        r2add(r2mul(a0, a2, k), r2mul(a1, a1, k)),
        r2mul(a2, a0, k),
    ));
}

/// The formula the sparse product gadgets evaluate for `a * (c0 + c1 v)`,
/// given `w2 = a1 * c1` and `w4 = (a1 + a2) * c1`.
pub open spec fn f6by01_formula(
    a: ((int, int), (int, int), (int, int)),
    c0: (int, int),
    c1: (int, int),
    w2: (int, int),
    w4: (int, int),
) -> ((int, int), (int, int), (int, int)) {
    let w1 = f2mmul(a.0, c0);
    (
        f2add(f2nonres(f2sub(w4, w2)), w1),
        f2sub(f2sub(f2mmul(f2add(a.0, a.1), f2add(c0, c1)), w1), w2),
        f2add(f2sub(f2mmul(f2add(a.0, a.2), c0), w1), w2),
    )
}

/// The sparse product formula gives the Montgomery product by `c0 + c1 v`.
#[verifier::spinoff_prover]
#[verifier::rlimit(50)]
pub proof fn lemma_f6_by01(a: ((int, int), (int, int), (int, int)), c0: (int, int), c1: (int, int))
    requires
        f6_canonical(a),
        f2_canonical(c0),
        f2_canonical(c1),
    ensures
        f6by01_formula(a, c0, c1, f2mmul(a.1, c1), f2mmul(f2add(a.1, a.2), c1)) == f6mmul(
            a,
            (c0, c1, (0int, 0int)),
        ),
{
    let k = r_inv();
    let (a0, a1, a2) = a;
    let z = (0int, 0int);
    lemma_f2red_canonical(a0);
    lemma_f2red_canonical(a1);
    lemma_f2red_canonical(a2);
    lemma_f2red_canonical(c0);
    lemma_f2red_canonical(c1);
    lemma_red_idem(0);
    lemma_f2red_canonical(z);
    lemma_r2_mmul(a0, c0);
    lemma_r2_mmul(a1, c1);
    lemma_r2_add(a1, a2);
    lemma_r2_mmul(r2add(a1, a2), c1);
    lemma_r2mul_add_l(a1, a2, c1, k);
    lemma_r2_sub(r2mul(r2add(a1, a2), c1, k), r2mul(a1, c1, k));
    lemma_r2_nonres(r2sub(r2mul(r2add(a1, a2), c1, k), r2mul(a1, c1, k)));
    lemma_r2_add(r2nonres(r2sub(r2mul(r2add(a1, a2), c1, k), r2mul(a1, c1, k))), r2mul(a0, c0, k));
    lemma_r2_add(a0, a1);
    lemma_r2_add(c0, c1);
    lemma_r2_mmul(r2add(a0, a1), r2add(c0, c1));
    lemma_r2mul_add_l(a0, a1, r2add(c0, c1), k);
    lemma_r2mul_add_r(a0, c0, c1, k);
    lemma_r2mul_add_r(a1, c0, c1, k);
    lemma_r2_sub(r2mul(r2add(a0, a1), r2add(c0, c1), k), r2mul(a0, c0, k));
    lemma_r2_sub(r2sub(r2mul(r2add(a0, a1), r2add(c0, c1), k), r2mul(a0, c0, k)), r2mul(a1, c1, k));
    lemma_r2_add(a0, a2);
    lemma_r2_mmul(r2add(a0, a2), c0);
    lemma_r2mul_add_l(a0, a2, c0, k);
    lemma_r2_sub(r2mul(r2add(a0, a2), c0, k), r2mul(a0, c0, k));
    lemma_r2_add(r2sub(r2mul(r2add(a0, a2), c0, k), r2mul(a0, c0, k)), r2mul(a1, c1, k));
    // the product by c0 + c1 v
    lemma_r2_mmul(a1, z);
    lemma_r2_mmul(a2, c1);
    lemma_r2_mmul(a0, c1);
    lemma_r2_mmul(a1, c0);
    lemma_r2_mmul(a2, z);
    lemma_r2_mmul(a0, z);
    lemma_r2_mmul(a2, c0);
    lemma_r2_add(r2mul(a1, z, k), r2mul(a2, c1, k));
    lemma_r2_nonres(r2add(r2mul(a1, z, k), r2mul(a2, c1, k)));
    lemma_r2_add(r2mul(a0, c0, k), r2nonres(r2add(r2mul(a1, z, k), r2mul(a2, c1, k))));
    lemma_r2_add(r2mul(a0, c1, k), r2mul(a1, c0, k));
    lemma_r2_nonres(r2mul(a2, z, k));
    lemma_r2_add(r2add(r2mul(a0, c1, k), r2mul(a1, c0, k)), r2nonres(r2mul(a2, z, k)));
    lemma_r2_add(r2mul(a0, z, k), r2mul(a1, c1, k));
    lemma_r2_add(r2add(r2mul(a0, z, k), r2mul(a1, c1, k)), r2mul(a2, c0, k));
    lemma_r2mul_zero(a0, k);
    lemma_r2mul_zero(a1, k);
    lemma_r2mul_zero(a2, k);
    assert(r2add(r2nonres(r2sub(r2mul(r2add(a1, a2), c1, k), r2mul(a1, c1, k))), r2mul(a0, c0, k))
        == r2add(r2mul(a0, c0, k), r2nonres(r2add(r2mul(a1, z, k), r2mul(a2, c1, k)))));
    assert(r2sub(r2sub(r2mul(r2add(a0, a1), r2add(c0, c1), k), r2mul(a0, c0, k)), r2mul(a1, c1, k))
        == r2add(r2add(r2mul(a0, c1, k), r2mul(a1, c0, k)), r2nonres(r2mul(a2, z, k))));
    assert(r2add(r2sub(r2mul(r2add(a0, a2), c0, k), r2mul(a0, c0, k)), r2mul(a1, c1, k)) == r2add(
        r2add(r2mul(a0, z, k), r2mul(a1, c1, k)),
        r2mul(a2, c0, k),
    ));
}

/// The unreduced product by zero is zero.
pub proof fn lemma_r2mul_zero(x: (int, int), k: int)
    ensures
        r2mul(x, (0int, 0int), k) == (0int, 0int),
{
    assert((x.0 * 0 - x.1 * 0) * k == 0) by (nonlinear_arith);
    assert((x.0 * 0 + x.1 * 0) * k == 0) by (nonlinear_arith);
}

/// The norm of an `Fq6` element to `Fq2` in Montgomery form: with
/// `t0 = a^2 - (9 + u) b c`, `t1 = (9 + u) c^2 - a b` and `t2 = b^2 - a c`,
/// it is `a t0 + (9 + u)(t1 c + t2 b)`.
pub open spec fn f6mnorm(x: ((int, int), (int, int), (int, int))) -> (int, int) {
    let t0 = f2sub(f2mmul(x.0, x.0), f2nonres(f2mmul(x.1, x.2)));
    let t1 = f2sub(f2nonres(f2mmul(x.2, x.2)), f2mmul(x.0, x.1));
    let t2 = f2sub(f2mmul(x.1, x.1), f2mmul(x.0, x.2));
    f2add(f2mmul(x.0, t0), f2nonres(f2add(f2mmul(t1, x.2), f2mmul(t2, x.1))))
}

/// Montgomery inverse in `Fq6` through the norm to `Fq2`: `(t0, t1, t2)`
/// times the `Fq2` Montgomery inverse of the norm.
pub open spec fn f6minv(x: ((int, int), (int, int), (int, int))) -> ((int, int), (int, int), (int, int)) {
    let t0 = f2sub(f2mmul(x.0, x.0), f2nonres(f2mmul(x.1, x.2)));
    let t1 = f2sub(f2nonres(f2mmul(x.2, x.2)), f2mmul(x.0, x.1));
    let t2 = f2sub(f2mmul(x.1, x.1), f2mmul(x.0, x.2));
    let i = f2minv(f6mnorm(x));
    (f2mmul(t0, i), f2mmul(t1, i), f2mmul(t2, i))
}

/// Sums of three canonical `Fq2` elements do not depend on the order.
pub proof fn lemma_f2_sum3(x: (int, int), y: (int, int), z: (int, int))
    requires
        f2_canonical(x),
        f2_canonical(y),
        f2_canonical(z),
    ensures
        f2add(f2add(x, y), z) == f2add(f2add(x, z), y),
        f2add(f2sub(x, y), z) == f2sub(f2add(x, z), y),
{
    lemma_f2red_canonical(x);
    lemma_f2red_canonical(y);
    lemma_f2red_canonical(z);
    lemma_r2_add(x, y);
    lemma_r2_add(r2add(x, y), z);
    lemma_r2_add(x, z);
    lemma_r2_add(r2add(x, z), y);
    lemma_r2_sub(x, y);
    lemma_r2_add(r2sub(x, y), z);
    lemma_r2_sub(r2add(x, z), y);
    assert(r2add(r2add(x, y), z) == r2add(r2add(x, z), y));
    assert(r2add(r2sub(x, y), z) == r2sub(r2add(x, z), y));
}

/// First Frobenius coefficients of `Fq6`, `(9 + u)^((q^i - 1) / 3)`.
#[verifier::opaque]
pub open spec fn frob6_c1(i: int) -> (int, int) {
    if i == 0 {
        (1, 0)
    } else if i == 1 {
        (
            21575463638280843010398324269430826099269044274347216827212613867836435027261int,
            10307601595873709700152284273816112264069230130616436755625194854815875713954int,
        )
    } else if i == 2 {
        (21888242871839275220042445260109153167277707414472061641714758635765020556616int, 0)
    } else if i == 3 {
        (
            3772000881919853776433695186713858239009073593817195771773381919316419345261int,
            2236595495967245188281701248203181795121068902605861227855261137820944008926int,
        )
    } else if i == 4 {
        (2203960485148121921418603742825762020974279258880205651966int, 0)
    } else {
        (
            18429021223477853657660792034369865839114504446431234726392080002137598044644int,
            9344045779998320333812420223237981029506012124075525679208581902008406485703int,
        )
    }
}

/// Second Frobenius coefficients of `Fq6`, `(9 + u)^((2 q^i - 2) / 3)`.
#[verifier::opaque]
pub open spec fn frob6_c2(i: int) -> (int, int) {
    if i == 0 {
        (1, 0)
    } else if i == 1 {
        (
            2581911344467009335267311115468803099551665605076196740867805258568234346338int,
            19937756971775647987995932169929341994314640652964949448313374472400716661030int,
        )
    } else if i == 2 {
        (2203960485148121921418603742825762020974279258880205651966int, 0)
    } else if i == 3 {
        (
            5324479202449903542726783395506214481928257762400643279780343368557297135718int,
            16208900380737693084919495127334387981393726419856888799917914180988844123039int,
        )
    } else if i == 4 {
        (21888242871839275220042445260109153167277707414472061641714758635765020556616int, 0)
    } else {
        (
            13981852324922362344252311234282257507216387789820983642040889267519694726527int,
            7629828391165209371577384193250820201684255241773809077146787135900891633097int,
        )
    }
}

/// Product in `Fq6`, with `v^3 = 9 + u`, reduced.
pub open spec fn f6mul(x: ((int, int), (int, int), (int, int)), y: ((int, int), (int, int), (int, int))) -> ((int, int), (int, int), (int, int)) {
    (
        f2add(f2mul(x.0, y.0), f2nonres(f2add(f2mul(x.1, y.2), f2mul(x.2, y.1)))),
        f2add(f2add(f2mul(x.0, y.1), f2mul(x.1, y.0)), f2nonres(f2mul(x.2, y.2))),
        f2add(f2add(f2mul(x.0, y.2), f2mul(x.1, y.1)), f2mul(x.2, y.0)),
    )
}

pub open spec fn f6to_mont(x: ((int, int), (int, int), (int, int))) -> ((int, int), (int, int), (int, int)) {
    (f2to_mont(x.0), f2to_mont(x.1), f2to_mont(x.2))
}

/// `v` in Montgomery form.
pub open spec fn f6mont_v() -> ((int, int), (int, int), (int, int)) {
    ((0, 0), f2mont_one(), (0, 0))
}

/// One in Montgomery form.
pub open spec fn f6mont_one() -> ((int, int), (int, int), (int, int)) {
    (f2mont_one(), (0, 0), (0, 0))
}

/// The unreduced product is associative.
pub proof fn lemma_r2mul_assoc(x: (int, int), y: (int, int), z: (int, int), k: int)
    ensures
        r2mul(x, r2mul(y, z, k), k) == r2mul(r2mul(x, y, k), z, k),
{
    broadcast use vstd::arithmetic::mul::group_mul_is_distributive;

    let (x0, x1) = x;
    let (y0, y1) = y;
    let (z0, z1) = z;
    let u = y0 * z0 - y1 * z1;
    let v = y0 * z1 + y1 * z0;
    let s = x0 * y0 - x1 * y1;
    let t = x0 * y1 + x1 * y0;
    lemma_mul_is_associative(x0, y0, z0);
    lemma_mul_is_associative(x0, y1, z1);
    lemma_mul_is_associative(x1, y0, z1);
    lemma_mul_is_associative(x1, y1, z0);
    lemma_mul_is_associative(x0, y0, z1);
    lemma_mul_is_associative(x0, y1, z0);
    lemma_mul_is_associative(x1, y0, z0);
    lemma_mul_is_associative(x1, y1, z1);
    assert(x0 * u - x1 * v == s * z0 - t * z1);
    assert(x0 * v + x1 * u == s * z1 + t * z0);
    lemma_mul_is_associative(x0, u, k);
    lemma_mul_is_associative(x1, v, k);
    lemma_mul_is_associative(x0, v, k);
    lemma_mul_is_associative(x1, u, k);
    lemma_mul_is_commutative(s * k, z0);
    lemma_mul_is_commutative(t * k, z1);
    lemma_mul_is_commutative(s * k, z1);
    lemma_mul_is_commutative(t * k, z0);
    lemma_mul_is_associative(z0, s, k);
    lemma_mul_is_associative(z1, t, k);
    lemma_mul_is_associative(z1, s, k);
    lemma_mul_is_associative(z0, t, k);
    lemma_mul_is_commutative(z0, s);
    lemma_mul_is_commutative(z1, t);
    lemma_mul_is_commutative(z1, s);
    lemma_mul_is_commutative(z0, t);
}

/// The non-residue factor moves out of the unreduced product.
pub proof fn lemma_r2mul_nonres(x: (int, int), y: (int, int), k: int)
    ensures
        r2mul(r2nonres(x), y, k) == r2nonres(r2mul(x, y, k)),
        r2mul(y, r2nonres(x), k) == r2nonres(r2mul(y, x, k)),
{
    broadcast use vstd::arithmetic::mul::group_mul_is_distributive;

    let (x0, x1) = x;
    let (y0, y1) = y;
    lemma_mul_is_associative(9, x0, y0);
    lemma_mul_is_associative(9, x1, y1);
    lemma_mul_is_associative(9, x0, y1);
    lemma_mul_is_associative(9, x1, y0);
    lemma_mul_is_associative(y0, 9, x0);
    lemma_mul_is_associative(y1, 9, x1);
    lemma_mul_is_associative(y0, 9, x1);
    lemma_mul_is_associative(y1, 9, x0);
    lemma_mul_is_commutative(y0, 9);
    lemma_mul_is_commutative(y1, 9);
    let a = x0 * y0 - x1 * y1;
    let b = x0 * y1 + x1 * y0;
    let c = y0 * x0 - y1 * x1;
    let d = y0 * x1 + y1 * x0;
    assert((9 * x0 - x1) * y0 - (x0 + 9 * x1) * y1 == 9 * a - b);
    assert((9 * x0 - x1) * y1 + (x0 + 9 * x1) * y0 == a + 9 * b);
    assert(y0 * (9 * x0 - x1) - y1 * (x0 + 9 * x1) == 9 * c - d);
    assert(y0 * (x0 + 9 * x1) + y1 * (9 * x0 - x1) == c + 9 * d);
    lemma_mul_is_associative(9, a, k);
    lemma_mul_is_associative(9, b, k);
    lemma_mul_is_associative(9, c, k);
    lemma_mul_is_associative(9, d, k);
}

/// `x (y z) == y (x z)` for the unreduced product.
pub proof fn lemma_r2mul_left_comm(x: (int, int), y: (int, int), z: (int, int), k: int)
    ensures
        r2mul(x, r2mul(y, z, k), k) == r2mul(y, r2mul(x, z, k), k),
{
    lemma_r2mul_assoc(x, y, z, k);
    lemma_r2mul_assoc(y, x, z, k);
    lemma_r2mul_comm(x, y, k);
}

/// An `Fq6` element times the three cofactors of its inverse gives its
/// norm, then zero, then zero, unreduced.
proof fn lemma_f6_cofactors_raw(a: (int, int), b: (int, int), c: (int, int), k: int)
    ensures
        ({
            let t0 = r2sub(r2mul(a, a, k), r2nonres(r2mul(b, c, k)));
            let t1 = r2sub(r2nonres(r2mul(c, c, k)), r2mul(a, b, k));
            let t2 = r2sub(r2mul(b, b, k), r2mul(a, c, k));
            &&& r2add(r2add(r2mul(a, t1, k), r2mul(b, t0, k)), r2nonres(r2mul(c, t2, k))) == (0int, 0int)
            &&& r2add(r2add(r2mul(a, t2, k), r2mul(b, t1, k)), r2mul(c, t0, k)) == (0int, 0int)
        }),
{
    let t0 = r2sub(r2mul(a, a, k), r2nonres(r2mul(b, c, k)));
    let t1 = r2sub(r2nonres(r2mul(c, c, k)), r2mul(a, b, k));
    let t2 = r2sub(r2mul(b, b, k), r2mul(a, c, k));
    lemma_r2mul_sub_r(a, r2nonres(r2mul(c, c, k)), r2mul(a, b, k), k);
    lemma_r2mul_nonres(r2mul(c, c, k), a, k);
    lemma_r2mul_sub_r(b, r2mul(a, a, k), r2nonres(r2mul(b, c, k)), k);
    lemma_r2mul_nonres(r2mul(b, c, k), b, k);
    lemma_r2mul_sub_r(c, r2mul(b, b, k), r2mul(a, c, k), k);
    lemma_r2mul_sub_r(a, r2mul(b, b, k), r2mul(a, c, k), k);
    lemma_r2mul_sub_r(b, r2nonres(r2mul(c, c, k)), r2mul(a, b, k), k);
    lemma_r2mul_nonres(r2mul(c, c, k), b, k);
    lemma_r2mul_sub_r(c, r2mul(a, a, k), r2nonres(r2mul(b, c, k)), k);
    lemma_r2mul_nonres(r2mul(b, c, k), c, k);
    // the six triple products, each with its two spellings
    lemma_r2mul_left_comm(a, c, c, k);
    lemma_r2mul_left_comm(b, a, a, k);
    lemma_r2mul_comm(b, a, k);
    lemma_r2mul_left_comm(c, b, b, k);
    lemma_r2mul_comm(c, b, k);
    lemma_r2mul_left_comm(a, b, b, k);
    lemma_r2mul_left_comm(c, a, a, k);
    lemma_r2mul_comm(c, a, k);
    lemma_r2mul_left_comm(b, c, c, k);
}

/// `f6mmul(x, f6minv(x))` unreduced: the norm times the inverse of the
/// norm, then zero, then zero.
pub proof fn lemma_f6_inverse_raw(x: ((int, int), (int, int), (int, int)))
    requires
        f6_canonical(x),
    ensures
        f6mmul(x, f6minv(x)) == (
            f2mmul(f6mnorm(x), f2minv(f6mnorm(x))),
            f2mmul((0int, 0int), f2minv(f6mnorm(x))),
            f2mmul((0int, 0int), f2minv(f6mnorm(x))),
        ),
{
    let k = r_inv();
    let (a, b, c) = x;
    lemma_f2red_canonical(a);
    lemma_f2red_canonical(b);
    lemma_f2red_canonical(c);
    // the cofactors and the norm as reductions
    let t0 = r2sub(r2mul(a, a, k), r2nonres(r2mul(b, c, k)));
    let t1 = r2sub(r2nonres(r2mul(c, c, k)), r2mul(a, b, k));
    let t2 = r2sub(r2mul(b, b, k), r2mul(a, c, k));
    lemma_r2_mmul(a, a);
    lemma_r2_mmul(b, c);
    lemma_r2_mmul(c, c);
    lemma_r2_mmul(a, b);
    lemma_r2_mmul(b, b);
    lemma_r2_mmul(a, c);
    lemma_r2_nonres(r2mul(b, c, k));
    lemma_r2_nonres(r2mul(c, c, k));
    lemma_r2_sub(r2mul(a, a, k), r2nonres(r2mul(b, c, k)));
    lemma_r2_sub(r2nonres(r2mul(c, c, k)), r2mul(a, b, k));
    lemma_r2_sub(r2mul(b, b, k), r2mul(a, c, k));
    let n = r2add(r2mul(a, t0, k), r2nonres(r2add(r2mul(t1, c, k), r2mul(t2, b, k))));
    lemma_r2_mmul(a, t0);
    lemma_r2_mmul(t1, c);
    lemma_r2_mmul(t2, b);
    lemma_r2_add(r2mul(t1, c, k), r2mul(t2, b, k));
    lemma_r2_nonres(r2add(r2mul(t1, c, k), r2mul(t2, b, k)));
    lemma_r2_add(r2mul(a, t0, k), r2nonres(r2add(r2mul(t1, c, k), r2mul(t2, b, k))));
    assert(f6mnorm(x) == f2red(n));
    // the inverse of the norm is canonical
    let i = f2minv(f6mnorm(x));
    crate::field::lemma_fred_range(f6mnorm(x).0 * minv(f2mnorm(f6mnorm(x))) * r_inv());
    crate::field::lemma_fred_range(fneg(f6mnorm(x).1) * minv(f2mnorm(f6mnorm(x))) * r_inv());
    lemma_f2red_canonical(i);
    let r0 = r2mul(t0, i, k);
    let r1 = r2mul(t1, i, k);
    let r2 = r2mul(t2, i, k);
    lemma_r2_mmul(t0, i);
    lemma_r2_mmul(t1, i);
    lemma_r2_mmul(t2, i);
    // the product's coordinates as reductions
    lemma_r2_mmul(a, r0);
    lemma_r2_mmul(a, r1);
    lemma_r2_mmul(a, r2);
    lemma_r2_mmul(b, r0);
    lemma_r2_mmul(b, r1);
    lemma_r2_mmul(b, r2);
    lemma_r2_mmul(c, r0);
    lemma_r2_mmul(c, r1);
    lemma_r2_mmul(c, r2);
    lemma_r2_add(r2mul(b, r2, k), r2mul(c, r1, k));
    lemma_r2_nonres(r2add(r2mul(b, r2, k), r2mul(c, r1, k)));
    lemma_r2_add(r2mul(a, r0, k), r2nonres(r2add(r2mul(b, r2, k), r2mul(c, r1, k))));
    lemma_r2_add(r2mul(a, r1, k), r2mul(b, r0, k));
    lemma_r2_nonres(r2mul(c, r2, k));
    lemma_r2_add(r2add(r2mul(a, r1, k), r2mul(b, r0, k)), r2nonres(r2mul(c, r2, k)));
    lemma_r2_add(r2mul(a, r2, k), r2mul(b, r1, k));
    lemma_r2_add(r2add(r2mul(a, r2, k), r2mul(b, r1, k)), r2mul(c, r0, k));
    // each is a product by the inverse of the norm
    lemma_r2mul_assoc(a, t0, i, k);
    lemma_r2mul_assoc(a, t1, i, k);
    lemma_r2mul_assoc(a, t2, i, k);
    lemma_r2mul_assoc(b, t0, i, k);
    lemma_r2mul_assoc(b, t1, i, k);
    lemma_r2mul_assoc(b, t2, i, k);
    lemma_r2mul_assoc(c, t0, i, k);
    lemma_r2mul_assoc(c, t1, i, k);
    lemma_r2mul_assoc(c, t2, i, k);
    lemma_r2mul_comm(b, t2, k);
    lemma_r2mul_comm(c, t1, k);
    lemma_r2mul_add_l(r2mul(b, t2, k), r2mul(c, t1, k), i, k);
    lemma_r2mul_nonres(r2add(r2mul(b, t2, k), r2mul(c, t1, k)), i, k);
    lemma_r2mul_add_l(r2mul(a, t0, k), r2nonres(r2add(r2mul(b, t2, k), r2mul(c, t1, k))), i, k);
    assert(r2add(r2mul(b, t2, k), r2mul(c, t1, k)) == r2add(r2mul(t1, c, k), r2mul(t2, b, k)));
    lemma_r2mul_add_l(r2mul(a, t1, k), r2mul(b, t0, k), i, k);
    lemma_r2mul_nonres(r2mul(c, t2, k), i, k);
    lemma_r2mul_add_l(r2add(r2mul(a, t1, k), r2mul(b, t0, k)), r2nonres(r2mul(c, t2, k)), i, k);
    lemma_r2mul_add_l(r2mul(a, t2, k), r2mul(b, t1, k), i, k);
    lemma_r2mul_add_l(r2add(r2mul(a, t2, k), r2mul(b, t1, k)), r2mul(c, t0, k), i, k);
    lemma_f6_cofactors_raw(a, b, c, k);
    lemma_r2_mmul(n, i);
    lemma_red_idem(0);
    lemma_r2_mmul((0int, 0int), i);
}

} // verus!

//! Arithmetic modulo the BN254 base-field prime, as used by the gadgets.
//!
//! Field elements are represented by their canonical integer in `[0, p)`.
//! Gadgets that work "in Montgomery form" hold `x * R mod p` for a value `x`,
//! where `R = 2^254`.
use vstd::arithmetic::div_mod::*;
use vstd::arithmetic::power::pow;
use vstd::prelude::*;

verus! {

/// The BN254 base-field prime.
pub open spec fn p() -> int {
    21888242871839275222246405745257275088696311157297823662689037894645226208583int
}

/// `R mod p`, with Montgomery radix `R = 2^254`.
pub open spec fn mont_r() -> int {
    7059779437489773633646340506914701874621185009112317347175358107333056201401int
}

/// `R^2 mod p`.
pub open spec fn mont_rr() -> int {
    1561553710926436196630623355130915596276990757857306261966263005754792378237int
}

/// `R^-1 mod p`.
pub open spec fn r_inv() -> int {
    18289368484950178621272022062020525048389989670507786348948026221581485535495int
}

/// `2^-1 mod p`.
pub open spec fn inv2() -> int {
    10944121435919637611123202872628637544348155578648911831344518947322613104292int
}

/// `6^-1 mod p`.
pub open spec fn inv6() -> int {
    18240202393199396018538671454381062573913592631081519718907531578871021840486int
}

/// `x` and `y` are equal modulo `p`.
pub open spec fn cong(x: int, y: int) -> bool {
    x % p() == y % p()
}

/// The canonical representative of `x`.
pub open spec fn fred(x: int) -> int {
    x % p()
}

pub open spec fn fadd(x: int, y: int) -> int {
    (x + y) % p()
}

pub open spec fn fsub(x: int, y: int) -> int {
    (x - y) % p()
}

pub open spec fn fneg(x: int) -> int {
    (0 - x) % p()
}

pub open spec fn fmul(x: int, y: int) -> int {
    (x * y) % p()
}

/// Montgomery multiplication: `x * y * R^-1 mod p`.
pub open spec fn mmul(x: int, y: int) -> int {
    (x * y * r_inv()) % p()
}

/// Field halving: `x * 2^-1 mod p`.
pub open spec fn fhalf(x: int) -> int {
    (x * inv2()) % p()
}

/// Division by six: `x * 6^-1 mod p`.
pub open spec fn fdiv6(x: int) -> int {
    (x * inv6()) % p()
}

/// `x` is a square modulo `p`.
pub open spec fn is_square(x: int) -> bool {
    exists|y: int| 0 <= y < p() && #[trigger] fmul(y, y) == x
}

/// `y` is a multiplicative inverse of `x` modulo `p`.
pub open spec fn is_inverse(x: int, y: int) -> bool {
    0 <= y < p() && (x * y) % p() == 1
}

/// The multiplicative inverse of `x` modulo `p` where one exists, and 0 otherwise.
pub open spec fn finv(x: int) -> int {
    if exists|y: int| is_inverse(x, y) {
        choose|y: int| is_inverse(x, y)
    } else {
        0
    }
}

/// Montgomery inversion: the Montgomery form of `x^-1` for `x` in Montgomery form,
/// that is `R^2 * x^-1 mod p`.
pub open spec fn minv(x: int) -> int {
    (mont_rr() * finv(x)) % p()
}

/// Montgomery exponentiation: the Montgomery form of `y^e` for the element
/// `y` whose Montgomery form is `x`.
pub open spec fn mexp(x: int, e: nat) -> int {
    to_mont(fred(pow(from_mont(x), e)))
}

/// The Montgomery form `x * R mod p` of `x`.
pub open spec fn to_mont(x: int) -> int {
    (x * mont_r()) % p()
}

/// The value `x * R^-1 mod p` whose Montgomery form is `x`.
pub open spec fn from_mont(x: int) -> int {
    (x * r_inv()) % p()
}

/// Facts about the constants.
pub proof fn lemma_constants()
    ensures
        p() > 6,
        (mont_r() * r_inv()) % p() == 1,
        (mont_r() * mont_r()) % p() == mont_rr(),
        (2 * inv2()) % p() == 1,
        (6 * inv6()) % p() == 1,
        0 <= mont_r() < p(),
        0 <= mont_rr() < p(),
        0 <= r_inv() < p(),
        0 <= inv2() < p(),
        0 <= inv6() < p(),
{
}

pub proof fn lemma_fred_range(x: int)
    ensures
        0 <= fred(x) < p(),
        cong(fred(x), x),
{
    lemma_mod_bound(x, p());
    lemma_mod_twice(x, p());
}

pub proof fn lemma_cong_add(a: int, b: int, c: int, d: int)
    requires
        cong(a, b),
        cong(c, d),
    ensures
        cong(a + c, b + d),
{
    lemma_add_mod_noop(a, c, p());
    lemma_add_mod_noop(b, d, p());
}

pub proof fn lemma_cong_sub(a: int, b: int, c: int, d: int)
    requires
        cong(a, b),
        cong(c, d),
    ensures
        cong(a - c, b - d),
{
    lemma_sub_mod_noop(a, c, p());
    lemma_sub_mod_noop(b, d, p());
}

pub proof fn lemma_cong_mul(a: int, b: int, c: int, d: int)
    requires
        cong(a, b),
        cong(c, d),
    ensures
        cong(a * c, b * d),
{
    lemma_mul_mod_noop(a, c, p());
    lemma_mul_mod_noop(b, d, p());
}

/// Montgomery multiplication is multiplication followed by multiplication by `R^-1`.
pub proof fn lemma_mmul_split(x: int, y: int)
    ensures
        fmul(fmul(x, y), r_inv()) == mmul(x, y),
{
    lemma_mul_mod_noop_left(x * y, r_inv(), p());
}

/// Zero has no inverse.
pub proof fn lemma_finv_zero(x: int)
    requires
        x == 0,
    ensures
        finv(x) == 0,
        minv(x) == 0,
{
    assert forall|y: int| !is_inverse(x, y) by {
        assert(x * y == 0);
    }
}

/// Inverses modulo `p` are unique: `finv` gives the one there is.
pub proof fn lemma_finv_is(x: int, y: int)
    requires
        is_inverse(x, y),
    ensures
        finv(x) == y,
        minv(x) == (mont_rr() * y) % p(),
{
    let z = finv(x);
    assert(is_inverse(x, z));
    // z == z * (x * y) == (z * x) * y == y  (mod p)
    lemma_cong_mul(z, z, x * y, 1);
    lemma_cong_mul(z * x, 1, y, y);
    assert(z * (x * y) == (z * x) * y) by (nonlinear_arith);
    assert(cong(z, y));
    lemma_small_mod(z as nat, p() as nat);
    lemma_small_mod(y as nat, p() as nat);
}

/// Reducing before or after an addition gives the same field element.
pub proof fn lemma_add_red(a: int, b: int)
    ensures
        fadd(fred(a), fred(b)) == fred(a + b),
{
    lemma_fred_range(a);
    lemma_fred_range(b);
    lemma_cong_add(fred(a), a, fred(b), b);
}

pub proof fn lemma_sub_red(a: int, b: int)
    ensures
        fsub(fred(a), fred(b)) == fred(a - b),
{
    lemma_fred_range(a);
    lemma_fred_range(b);
    lemma_cong_sub(fred(a), a, fred(b), b);
}

pub proof fn lemma_neg_red(a: int)
    ensures
        fneg(fred(a)) == fred(-a),
{
    lemma_fred_range(a);
    lemma_cong_sub(0, 0, fred(a), a);
}

/// Scaling by an integer commutes with reduction.
pub proof fn lemma_scale_red(c: int, a: int)
    ensures
        fred(c * fred(a)) == fred(c * a),
{
    lemma_fred_range(a);
    lemma_cong_mul(c, c, fred(a), a);
}

pub proof fn lemma_mmul_red(a: int, b: int)
    ensures
        mmul(fred(a), fred(b)) == fred(a * b * r_inv()),
{
    lemma_fred_range(a);
    lemma_fred_range(b);
    lemma_cong_mul(fred(a), a, fred(b), b);
    lemma_cong_mul(fred(a) * fred(b), a * b, r_inv(), r_inv());
}

pub proof fn lemma_half_red(a: int)
    ensures
        fhalf(fred(a)) == fred(a * inv2()),
{
    lemma_fred_range(a);
    lemma_cong_mul(fred(a), a, inv2(), inv2());
}

pub proof fn lemma_div6_red(a: int)
    ensures
        fdiv6(fred(a)) == fred(a * inv6()),
{
    lemma_fred_range(a);
    lemma_cong_mul(fred(a), a, inv6(), inv6());
}

/// A canonical representative is its own reduction.
pub proof fn lemma_red_idem(x: int)
    requires
        0 <= x < p(),
    ensures
        fred(x) == x,
{
    lemma_small_mod(x as nat, p() as nat);
}

/// `x * c * c^-1` reduces to `x` when `c * c^-1` is one modulo `p`.
pub proof fn lemma_cancel(x: int, c: int, ci: int)
    requires
        (c * ci) % p() == 1,
    ensures
        fred(x * c * ci) == fred(x),
{
    lemma_constants();
    assert(x * c * ci == x * (c * ci)) by (nonlinear_arith);
    lemma_fred_range(c * ci);
    lemma_cong_mul(x, x, c * ci, 1);
}

} // verus!

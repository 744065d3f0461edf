//! Concrete field values: BN254 base-field elements as four 64-bit limbs, and
//! the quadratic and sextic extension elements built from them.
//!
//! The arithmetic on concrete values is that of `ark_bn254::Fq`; each call into
//! it is a small trusted wrapper whose contract states the result modulo `p`.
use crate::bits::bytes_to_nat;
use crate::field::{fadd, fmul, fneg, fred, fsub, inv2, inv6, is_inverse, mont_r, mont_rr, p, r_inv};
use vstd::arithmetic::power::pow;
use crate::tower::{f2add, f2double, f2sub};
use ark_ff::Field;
use ark_ff::PrimeField;
use vstd::prelude::*;

verus! {

/// A BN254 base-field element, as the little-endian 64-bit limbs of its
/// canonical integer representative.
#[derive(Clone, Copy, Debug)]
pub struct FqValue {
    pub limbs: [u64; 4],
}

/// An element `c0 + c1 * u` of the quadratic extension (`u^2 = -1`).
#[derive(Clone, Copy, Debug)]
pub struct Fq2Value {
    pub c0: FqValue,
    pub c1: FqValue,
}

/// An element `c0 + c1 * v + c2 * v^2` of the sextic extension (`v^3 = 9 + u`).
#[derive(Clone, Copy, Debug)]
pub struct Fq6Value {
    pub c0: Fq2Value,
    pub c1: Fq2Value,
    pub c2: Fq2Value,
}

impl FqValue {
    /// The integer whose limbs these are.
    pub open spec fn value(&self) -> int {
        self.limbs[0] as int + self.limbs[1] as int * 18446744073709551616int
            + self.limbs[2] as int * 340282366920938463463374607431768211456int
            + self.limbs[3] as int
            * 6277101735386680763835789423207666416102355444464034512896int
    }

    /// The limbs hold a canonical representative, below `p`.
    pub open spec fn wf(&self) -> bool {
        self.value() < p()
    }

    pub fn zero() -> (r: FqValue)
        ensures
            r.wf(),
            r.value() == 0,
    {
        FqValue { limbs: [0, 0, 0, 0] }
    }

    pub fn one() -> (r: FqValue)
        ensures
            r.wf(),
            r.value() == 1,
    {
        FqValue { limbs: [1, 0, 0, 0] }
    }

    /// A small constant.
    pub fn from_u64(x: u64) -> (r: FqValue)
        ensures
            r.wf(),
            r.value() == x,
    {
        FqValue { limbs: [x, 0, 0, 0] }
    }

    /// The Montgomery radix `R = 2^254` reduced modulo `p`.
    pub fn montgomery_r() -> (r: FqValue)
        ensures
            r.wf(),
            r.value() == mont_r(),
    {
        FqValue {
            limbs: [0xc3df73e9278302b9, 0x687e956e978e3572, 0x47afba497e7ea7a2, 0x0f9bb18d1ece5fd6],
        }
    }

    /// `R^-1 mod p`.
    pub fn montgomery_r_inverse() -> (r: FqValue)
        ensures
            r.wf(),
            r.value() == r_inv(),
    {
        FqValue {
            limbs: [0x01b07ce37bb4f107, 0xe5fc4a5fd08e583c, 0x149ed61b588e424e, 0x286f6a6cc402386a],
        }
    }

    /// `R^2 mod p`.
    pub fn montgomery_rr() -> (r: FqValue)
        ensures
            r.wf(),
            r.value() == mont_rr(),
    {
        FqValue {
            limbs: [0x92f4d88722c07f7d, 0x44d6883a33cb6cc8, 0x8fffb64b58bc2d85, 0x0373cede4abe9d54],
        }
    }

    /// The value is one.
    pub fn value_is_one(&self) -> (r: bool)
        ensures
            r == (self.value() == 1),
    {
        self.equals(&FqValue::one())
    }

    /// `2^-1 mod p`.
    pub fn half_constant() -> (r: FqValue)
        ensures
            r.wf(),
            r.value() == inv2(),
    {
        FqValue {
            limbs: [0x9e10460b6c3e7ea4, 0xcbc0b548b438e546, 0xdc2822db40c0ac2e, 0x183227397098d014],
        }
    }

    /// `6^-1 mod p`.
    pub fn sixth_constant() -> (r: FqValue)
        ensures
            r.wf(),
            r.value() == inv6(),
    {
        FqValue {
            limbs: [0x077074bdb4682866, 0xa8ebd8ce81b428cb, 0xc442e4c2c1411ef8, 0x285396b510feb022],
        }
    }

    /// Whether the limbs hold a canonical representative, below `p`: the
    /// limbs compared with those of `p`, most significant first.
    pub fn is_canonical(&self) -> (r: bool)
        ensures
            r == self.wf(),
    {
        let m: [u64; 4] = [0x3c208c16d87cfd47, 0x97816a916871ca8d, 0xb85045b68181585d, 0x30644e72e131a029];
        let l = self.limbs;
        if l[3] != m[3] {
            l[3] < m[3]
        } else if l[2] != m[2] {
            l[2] < m[2]
        } else if l[1] != m[1] {
            l[1] < m[1]
        } else {
            l[0] < m[0]
        }
    }

    /// Equality of the represented integers.
    pub fn equals(&self, other: &FqValue) -> (r: bool)
        ensures
            r == (self.value() == other.value()),
    {
        let r = self.limbs[0] == other.limbs[0] && self.limbs[1] == other.limbs[1]
            && self.limbs[2] == other.limbs[2] && self.limbs[3] == other.limbs[3];
        proof {
            if self.value() == other.value() {
                lemma_limbs_unique(*self, *other);
            }
        }
        r
    }
}


impl Fq2Value {
    /// Both coordinates are canonical.
    pub open spec fn wf(&self) -> bool {
        self.c0.wf() && self.c1.wf()
    }

    /// One, `1 + 0 * u`.
    pub fn one() -> (r: Fq2Value)
        ensures
            r.wf(),
            r@ == (1int, 0int),
    {
        Fq2Value { c0: FqValue::one(), c1: FqValue::zero() }
    }

    /// Sum, with the field addition of `ark_bn254`.
    pub fn add(&self, other: &Fq2Value) -> (r: Fq2Value)
        requires
            self.wf(),
            other.wf(),
        ensures
            r.wf(),
            r@ == f2add(self@, other@),
    {
        Fq2Value { c0: fq_add(&self.c0, &other.c0), c1: fq_add(&self.c1, &other.c1) }
    }

    /// Difference, with the field subtraction of `ark_bn254`.
    pub fn sub(&self, other: &Fq2Value) -> (r: Fq2Value)
        requires
            self.wf(),
            other.wf(),
        ensures
            r.wf(),
            r@ == f2sub(self@, other@),
    {
        Fq2Value { c0: fq_sub(&self.c0, &other.c0), c1: fq_sub(&self.c1, &other.c1) }
    }

    /// Double, as the sum with itself.
    pub fn double(&self) -> (r: Fq2Value)
        requires
            self.wf(),
        ensures
            r.wf(),
            r@ == f2double(self@),
    {
        self.add(self)
    }
}

impl View for Fq2Value {
    type V = (int, int);

    open spec fn view(&self) -> (int, int) {
        (self.c0.value(), self.c1.value())
    }
}

impl Fq6Value {
    /// Every coordinate is canonical.
    pub open spec fn wf(&self) -> bool {
        self.c0.wf() && self.c1.wf() && self.c2.wf()
    }
}

impl View for Fq6Value {
    type V = ((int, int), (int, int), (int, int));

    open spec fn view(&self) -> ((int, int), (int, int), (int, int)) {
        (self.c0@, self.c1@, self.c2@)
    }
}

/// Two limb arrays that differ represent different integers.
pub proof fn lemma_limbs_unique(a: FqValue, b: FqValue)
    requires
        a.value() == b.value(),
    ensures
        a.limbs[0] == b.limbs[0],
        a.limbs[1] == b.limbs[1],
        a.limbs[2] == b.limbs[2],
        a.limbs[3] == b.limbs[3],
{
    let w: int = 18446744073709551616;
    let a0 = a.limbs[0] as int;
    let a1 = a.limbs[1] as int;
    let a2 = a.limbs[2] as int;
    let a3 = a.limbs[3] as int;
    let b0 = b.limbs[0] as int;
    let b1 = b.limbs[1] as int;
    let b2 = b.limbs[2] as int;
    let b3 = b.limbs[3] as int;
    assert(a0 + w * (a1 + w * (a2 + w * a3)) == a.value()) by (nonlinear_arith)
        requires
            w == 18446744073709551616int,
            a0 == a.limbs[0] as int,
            a1 == a.limbs[1] as int,
            a2 == a.limbs[2] as int,
            a3 == a.limbs[3] as int,
    ;
    assert(b0 + w * (b1 + w * (b2 + w * b3)) == b.value()) by (nonlinear_arith)
        requires
            w == 18446744073709551616int,
            b0 == b.limbs[0] as int,
            b1 == b.limbs[1] as int,
            b2 == b.limbs[2] as int,
            b3 == b.limbs[3] as int,
    ;
    lemma_digit_unique(a0, a1 + w * (a2 + w * a3), b0, b1 + w * (b2 + w * b3), w);
    lemma_digit_unique(a1, a2 + w * a3, b1, b2 + w * b3, w);
    lemma_digit_unique(a2, a3, b2, b3, w);
}

proof fn lemma_digit_unique(x0: int, x1: int, y0: int, y1: int, w: int)
    requires
        0 <= x0 < w,
        0 <= y0 < w,
        x0 + w * x1 == y0 + w * y1,
    ensures
        x0 == y0,
        x1 == y1,
{
    assert(x0 == y0 && x1 == y1) by (nonlinear_arith)
        requires
            0 <= x0 < w,
            0 <= y0 < w,
            x0 + w * x1 == y0 + w * y1,
    ;
}

/// Field addition of `ark_bn254::Fq`: the sum modulo `p`.
#[verifier::external_body]
pub(crate) fn fq_add(a: &FqValue, b: &FqValue) -> (r: FqValue)
    requires
        a.wf(),
        b.wf(),
    ensures
        r.wf(),
        r.value() == fadd(a.value(), b.value()),
{
    let x = ark_bn254::Fq::new(ark_ff::BigInt::new(a.limbs)) + ark_bn254::Fq::new(
        ark_ff::BigInt::new(b.limbs),
    );
    FqValue { limbs: x.into_bigint().0 }
}

/// Field subtraction of `ark_bn254::Fq`: the difference modulo `p`.
#[verifier::external_body]
pub(crate) fn fq_sub(a: &FqValue, b: &FqValue) -> (r: FqValue)
    requires
        a.wf(),
        b.wf(),
    ensures
        r.wf(),
        r.value() == fsub(a.value(), b.value()),
{
    let x = ark_bn254::Fq::new(ark_ff::BigInt::new(a.limbs)) - ark_bn254::Fq::new(
        ark_ff::BigInt::new(b.limbs),
    );
    FqValue { limbs: x.into_bigint().0 }
}

/// Field negation of `ark_bn254::Fq`: `-a` modulo `p`.
#[verifier::external_body]
pub(crate) fn fq_neg(a: &FqValue) -> (r: FqValue)
    requires
        a.wf(),
    ensures
        r.wf(),
        r.value() == fneg(a.value()),
{
    let x = -ark_bn254::Fq::new(ark_ff::BigInt::new(a.limbs));
    FqValue { limbs: x.into_bigint().0 }
}

/// Field multiplication of `ark_bn254::Fq`: the product modulo `p`.
#[verifier::external_body]
pub(crate) fn fq_mul(a: &FqValue, b: &FqValue) -> (r: FqValue)
    requires
        a.wf(),
        b.wf(),
    ensures
        r.wf(),
        r.value() == fmul(a.value(), b.value()),
{
    let x = ark_bn254::Fq::new(ark_ff::BigInt::new(a.limbs)) * ark_bn254::Fq::new(
        ark_ff::BigInt::new(b.limbs),
    );
    FqValue { limbs: x.into_bigint().0 }
}

/// `Field::pow` of `ark_bn254::Fq`: `a` to the power of the integer whose
/// 64-bit limbs, least significant first, are `e.limbs`, modulo `p`.
#[verifier::external_body]
pub(crate) fn fq_pow(a: &FqValue, e: &FqValue) -> (r: FqValue)
    requires
        a.wf(),
    ensures
        r.wf(),
        r.value() == fred(pow(a.value(), e.value() as nat)),
{
    let x = ark_bn254::Fq::new(ark_ff::BigInt::new(a.limbs)).pow(e.limbs);
    FqValue { limbs: x.into_bigint().0 }
}

/// `PrimeField::MODULUS_MINUS_ONE_DIV_TWO` of `ark_bn254::Fq`: `(p - 1) / 2`.
#[verifier::external_body]
pub(crate) fn fq_modulus_minus_one_div_two() -> (r: FqValue)
    ensures
        r.wf(),
        r.value() == (p() - 1) / 2,
{
    FqValue { limbs: ark_bn254::Fq::MODULUS_MINUS_ONE_DIV_TWO.0 }
}

/// `Field::inverse` of `ark_bn254::Fq`: `None` for zero, and otherwise the
/// multiplicative inverse modulo `p`.
#[verifier::external_body]
pub(crate) fn fq_inverse(a: &FqValue) -> (r: Option<FqValue>)
    requires
        a.wf(),
    ensures
        r is None <==> a.value() == 0,
        r matches Some(y) ==> y.wf() && is_inverse(a.value(), y.value()),
{
    match ark_bn254::Fq::new(ark_ff::BigInt::new(a.limbs)).inverse() {
        Some(y) => Some(FqValue { limbs: y.into_bigint().0 }),
        None => None,
    }
}

/// `BigUint::to_bytes_le` of the integer of an `ark_bn254::Fq` (through
/// `BigUint::from`): its minimal little-endian bytes, `[0]` for zero.
#[verifier::external_body]
pub(crate) fn fq_to_bytes_le(a: &FqValue) -> (r: Vec<u8>)
    requires
        a.wf(),
    ensures
        r.len() >= 1,
        bytes_to_nat(r@) == a.value(),
        r.len() == 1 || r@.last() != 0,
{
    num_bigint::BigUint::from(ark_bn254::Fq::new(ark_ff::BigInt::new(a.limbs))).to_bytes_le()
}

} // verus!

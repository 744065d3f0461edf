//! The BN254 base field `Fq`: conversions of concrete values and the
//! single-element gadgets of the circuit.
use crate::bits::{
    bits_to_nat, bytes_to_nat, exp2, lemma_bits_push, lemma_byte_bit, lemma_bytes_last_nonzero,
    lemma_bits_unique, lemma_bytes_push, lemma_exp2_254, lemma_exp2_adds, lemma_exp2_monotonic,
    nat_to_bits,
};
use crate::field::{
    fadd, fdiv6, fhalf, finv, fneg, fred, from_mont, fsub, lemma_cong_add, lemma_constants,
    lemma_fred_range, mexp, minv, mmul, p, r_inv, to_mont,
};
use crate::circuit::{
    canonical, env_of, fq_val, grows, read, wire, BigIntWires, Circuit, Gate, GateKind, State, WireId,
};
use crate::value::{
    fq_add, fq_inverse, fq_modulus_minus_one_div_two, fq_mul, fq_neg, fq_to_bytes_le, FqValue,
};
use vstd::arithmetic::power::pow;
use vstd::prelude::*;

verus! {

/// BN254 base field `Fq`.
pub struct Fq;

/// Why a value cannot be assigned to a bundle.
#[derive(Clone, Copy, Debug, PartialEq, Eq)]
pub enum WireBitsError {
    /// The bundle does not have the width of a base-field element.
    WrongWidth { expected: usize, actual: usize },
    /// The limbs are not a canonical field element.
    NotCanonical,
}

impl Fq {
    /// Number of bits of a base-field element.
    pub const N_BITS: usize = 254;

    /// Sum of two field elements.
    pub fn add(circuit: &mut Circuit, a: &BigIntWires, b: &BigIntWires) -> (c: BigIntWires)
        requires
            old(circuit).wf(),
            old(circuit).has_room(1),
            old(circuit).is_fq(*a),
            old(circuit).is_fq(*b),
        ensures
            grows(*old(circuit), *final(circuit)),
            final(circuit).is_fq(c),
            c.start == old(circuit).num_wires,
            final(circuit).num_wires == old(circuit).num_wires + 254,
            final(circuit).gates@ == old(circuit).gates@.push(
                Gate { kind: GateKind::Add, a: *a, b: *b, out: c },
            ),
            forall|c2: Circuit, env: State| #![trigger fq_val(c2.eval(env), c)] #![trigger canonical(c2.eval(env), c)]
                c2.extends(*final(circuit)) ==> canonical(c2.eval(env), c) && fq_val(c2.eval(env), c) == fadd(fq_val(c2.eval(env), *a), fq_val(c2.eval(env), *b)),
    {
        circuit.add_gate(GateKind::Add, *a, *b)
    }

    /// Difference of two field elements.
    pub fn sub(circuit: &mut Circuit, a: &BigIntWires, b: &BigIntWires) -> (c: BigIntWires)
        requires
            old(circuit).wf(),
            old(circuit).has_room(1),
            old(circuit).is_fq(*a),
            old(circuit).is_fq(*b),
        ensures
            grows(*old(circuit), *final(circuit)),
            final(circuit).is_fq(c),
            c.start == old(circuit).num_wires,
            final(circuit).num_wires == old(circuit).num_wires + 254,
            final(circuit).gates@ == old(circuit).gates@.push(
                Gate { kind: GateKind::Sub, a: *a, b: *b, out: c },
            ),
            forall|c2: Circuit, env: State| #![trigger fq_val(c2.eval(env), c)] #![trigger canonical(c2.eval(env), c)]
                c2.extends(*final(circuit)) ==> canonical(c2.eval(env), c) && fq_val(c2.eval(env), c) == fsub(fq_val(c2.eval(env), *a), fq_val(c2.eval(env), *b)),
    {
        circuit.add_gate(GateKind::Sub, *a, *b)
    }

    /// Negation of a field element.
    pub fn neg(circuit: &mut Circuit, a: &BigIntWires) -> (c: BigIntWires)
        requires
            old(circuit).wf(),
            old(circuit).has_room(1),
            old(circuit).is_fq(*a),
        ensures
            grows(*old(circuit), *final(circuit)),
            final(circuit).is_fq(c),
            c.start == old(circuit).num_wires,
            final(circuit).num_wires == old(circuit).num_wires + 254,
            final(circuit).gates@ == old(circuit).gates@.push(
                Gate { kind: GateKind::Neg, a: *a, b: *a, out: c },
            ),
            forall|c2: Circuit, env: State| #![trigger fq_val(c2.eval(env), c)] #![trigger canonical(c2.eval(env), c)]
                c2.extends(*final(circuit)) ==> canonical(c2.eval(env), c) && fq_val(c2.eval(env), c) == fneg(fq_val(c2.eval(env), *a)),
    {
        circuit.add_gate(GateKind::Neg, *a, *a)
    }

    /// Double of a field element.
    pub fn double(circuit: &mut Circuit, a: &BigIntWires) -> (c: BigIntWires)
        requires
            old(circuit).wf(),
            old(circuit).has_room(1),
            old(circuit).is_fq(*a),
        ensures
            grows(*old(circuit), *final(circuit)),
            final(circuit).is_fq(c),
            c.start == old(circuit).num_wires,
            final(circuit).num_wires == old(circuit).num_wires + 254,
            final(circuit).gates@ == old(circuit).gates@.push(
                Gate { kind: GateKind::Double, a: *a, b: *a, out: c },
            ),
            forall|c2: Circuit, env: State| #![trigger fq_val(c2.eval(env), c)] #![trigger canonical(c2.eval(env), c)]
                c2.extends(*final(circuit)) ==> canonical(c2.eval(env), c) && fq_val(c2.eval(env), c) == fred(2 * fq_val(c2.eval(env), *a)),
    {
        circuit.add_gate(GateKind::Double, *a, *a)
    }

    /// Triple of a field element.
    pub fn triple(circuit: &mut Circuit, a: &BigIntWires) -> (c: BigIntWires)
        requires
            old(circuit).wf(),
            old(circuit).has_room(1),
            old(circuit).is_fq(*a),
        ensures
            grows(*old(circuit), *final(circuit)),
            final(circuit).is_fq(c),
            c.start == old(circuit).num_wires,
            final(circuit).num_wires == old(circuit).num_wires + 254,
            final(circuit).gates@ == old(circuit).gates@.push(
                Gate { kind: GateKind::Triple, a: *a, b: *a, out: c },
            ),
            forall|c2: Circuit, env: State| #![trigger fq_val(c2.eval(env), c)] #![trigger canonical(c2.eval(env), c)]
                c2.extends(*final(circuit)) ==> canonical(c2.eval(env), c) && fq_val(c2.eval(env), c) == fred(3 * fq_val(c2.eval(env), *a)),
    {
        circuit.add_gate(GateKind::Triple, *a, *a)
    }

    /// Half of a field element: `x * 2^-1 mod p`.
    pub fn half(circuit: &mut Circuit, a: &BigIntWires) -> (c: BigIntWires)
        requires
            old(circuit).wf(),
            old(circuit).has_room(1),
            old(circuit).is_fq(*a),
        ensures
            grows(*old(circuit), *final(circuit)),
            final(circuit).is_fq(c),
            c.start == old(circuit).num_wires,
            final(circuit).num_wires == old(circuit).num_wires + 254,
            final(circuit).gates@ == old(circuit).gates@.push(
                Gate { kind: GateKind::Half, a: *a, b: *a, out: c },
            ),
            forall|c2: Circuit, env: State| #![trigger fq_val(c2.eval(env), c)] #![trigger canonical(c2.eval(env), c)]
                c2.extends(*final(circuit)) ==> canonical(c2.eval(env), c) && fq_val(c2.eval(env), c) == fhalf(fq_val(c2.eval(env), *a)),
    {
        circuit.add_gate(GateKind::Half, *a, *a)
    }

    /// A field element divided by six.
    pub fn div6(circuit: &mut Circuit, a: &BigIntWires) -> (c: BigIntWires)
        requires
            old(circuit).wf(),
            old(circuit).has_room(1),
            old(circuit).is_fq(*a),
        ensures
            grows(*old(circuit), *final(circuit)),
            final(circuit).is_fq(c),
            c.start == old(circuit).num_wires,
            final(circuit).num_wires == old(circuit).num_wires + 254,
            final(circuit).gates@ == old(circuit).gates@.push(
                Gate { kind: GateKind::Div6, a: *a, b: *a, out: c },
            ),
            forall|c2: Circuit, env: State| #![trigger fq_val(c2.eval(env), c)] #![trigger canonical(c2.eval(env), c)]
                c2.extends(*final(circuit)) ==> canonical(c2.eval(env), c) && fq_val(c2.eval(env), c) == fdiv6(fq_val(c2.eval(env), *a)),
    {
        circuit.add_gate(GateKind::Div6, *a, *a)
    }

    /// Montgomery product of two elements in Montgomery form.
    pub fn mul_montgomery(circuit: &mut Circuit, a: &BigIntWires, b: &BigIntWires) -> (c: BigIntWires)
        requires
            old(circuit).wf(),
            old(circuit).has_room(1),
            old(circuit).is_fq(*a),
            old(circuit).is_fq(*b),
        ensures
            grows(*old(circuit), *final(circuit)),
            final(circuit).is_fq(c),
            c.start == old(circuit).num_wires,
            final(circuit).num_wires == old(circuit).num_wires + 254,
            final(circuit).gates@ == old(circuit).gates@.push(
                Gate { kind: GateKind::MulMontgomery, a: *a, b: *b, out: c },
            ),
            forall|c2: Circuit, env: State| #![trigger fq_val(c2.eval(env), c)] #![trigger canonical(c2.eval(env), c)]
                c2.extends(*final(circuit)) ==> canonical(c2.eval(env), c) && fq_val(c2.eval(env), c) == mmul(fq_val(c2.eval(env), *a), fq_val(c2.eval(env), *b)),
    {
        circuit.add_gate(GateKind::MulMontgomery, *a, *b)
    }

    /// Montgomery square of an element in Montgomery form.
    pub fn square_montgomery(circuit: &mut Circuit, a: &BigIntWires) -> (c: BigIntWires)
        requires
            old(circuit).wf(),
            old(circuit).has_room(1),
            old(circuit).is_fq(*a),
        ensures
            grows(*old(circuit), *final(circuit)),
            final(circuit).is_fq(c),
            c.start == old(circuit).num_wires,
            final(circuit).num_wires == old(circuit).num_wires + 254,
            final(circuit).gates@ == old(circuit).gates@.push(
                Gate { kind: GateKind::SquareMontgomery, a: *a, b: *a, out: c },
            ),
            forall|c2: Circuit, env: State| #![trigger fq_val(c2.eval(env), c)] #![trigger canonical(c2.eval(env), c)]
                c2.extends(*final(circuit)) ==> canonical(c2.eval(env), c) && fq_val(c2.eval(env), c) == mmul(fq_val(c2.eval(env), *a), fq_val(c2.eval(env), *a)),
    {
        circuit.add_gate(GateKind::SquareMontgomery, *a, *a)
    }

    /// Montgomery inverse of an element in Montgomery form (zero for zero).
    pub fn inverse_montgomery(circuit: &mut Circuit, a: &BigIntWires) -> (c: BigIntWires)
        requires
            old(circuit).wf(),
            old(circuit).has_room(1),
            old(circuit).is_fq(*a),
        ensures
            grows(*old(circuit), *final(circuit)),
            final(circuit).is_fq(c),
            c.start == old(circuit).num_wires,
            final(circuit).num_wires == old(circuit).num_wires + 254,
            final(circuit).gates@ == old(circuit).gates@.push(
                Gate { kind: GateKind::InverseMontgomery, a: *a, b: *a, out: c },
            ),
            forall|c2: Circuit, env: State| #![trigger fq_val(c2.eval(env), c)] #![trigger canonical(c2.eval(env), c)]
                c2.extends(*final(circuit)) ==> canonical(c2.eval(env), c) && fq_val(c2.eval(env), c) == minv(fq_val(c2.eval(env), *a)),
    {
        circuit.add_gate(GateKind::InverseMontgomery, *a, *a)
    }

    /// Inverse of a field element (zero for zero).
    pub fn inverse(circuit: &mut Circuit, a: &BigIntWires) -> (c: BigIntWires)
        requires
            old(circuit).wf(),
            old(circuit).has_room(1),
            old(circuit).is_fq(*a),
        ensures
            grows(*old(circuit), *final(circuit)),
            final(circuit).is_fq(c),
            c.start == old(circuit).num_wires,
            final(circuit).num_wires == old(circuit).num_wires + 254,
            final(circuit).gates@ == old(circuit).gates@.push(
                Gate { kind: GateKind::Inverse, a: *a, b: *a, out: c },
            ),
            forall|c2: Circuit, env: State| #![trigger fq_val(c2.eval(env), c)] #![trigger canonical(c2.eval(env), c)]
                c2.extends(*final(circuit)) ==> canonical(c2.eval(env), c) && fq_val(c2.eval(env), c) == finv(fq_val(c2.eval(env), *a)),
    {
        circuit.add_gate(GateKind::Inverse, *a, *a)
    }

    /// Sum of a field element and a constant.
    pub fn add_constant(circuit: &mut Circuit, a: &BigIntWires, b: &FqValue) -> (c: BigIntWires)
        requires
            old(circuit).wf(),
            old(circuit).has_room(1),
            old(circuit).is_fq(*a),
            b.wf(),
        ensures
            grows(*old(circuit), *final(circuit)),
            final(circuit).is_fq(c),
            c.start == old(circuit).num_wires,
            final(circuit).num_wires == old(circuit).num_wires + 254,
            final(circuit).gates@ == old(circuit).gates@.push(
                Gate { kind: GateKind::AddConstant(*b), a: *a, b: *a, out: c },
            ),
            forall|c2: Circuit, env: State| #![trigger fq_val(c2.eval(env), c)] #![trigger canonical(c2.eval(env), c)]
                c2.extends(*final(circuit)) ==> canonical(c2.eval(env), c) && fq_val(c2.eval(env), c) == fadd(
                    fq_val(c2.eval(env), *a),
                    b.value(),
                ),
    {
        circuit.add_gate(GateKind::AddConstant(*b), *a, *a)
    }

    /// Montgomery product of a field element and a constant, both in Montgomery form.
    pub fn mul_by_constant_montgomery(circuit: &mut Circuit, a: &BigIntWires, b: &FqValue) -> (c:
        BigIntWires)
        requires
            old(circuit).wf(),
            old(circuit).has_room(1),
            old(circuit).is_fq(*a),
            b.wf(),
        ensures
            grows(*old(circuit), *final(circuit)),
            final(circuit).is_fq(c),
            c.start == old(circuit).num_wires,
            final(circuit).num_wires == old(circuit).num_wires + 254,
            final(circuit).gates@ == old(circuit).gates@.push(
                Gate { kind: GateKind::MulByConstantMontgomery(*b), a: *a, b: *a, out: c },
            ),
            forall|c2: Circuit, env: State| #![trigger fq_val(c2.eval(env), c)] #![trigger canonical(c2.eval(env), c)]
                c2.extends(*final(circuit)) ==> canonical(c2.eval(env), c) && fq_val(c2.eval(env), c) == mmul(
                    fq_val(c2.eval(env), *a),
                    b.value(),
                ),
    {
        circuit.add_gate(GateKind::MulByConstantMontgomery(*b), *a, *a)
    }

    /// A one-wire bundle that is set exactly when the field element on `a`
    /// equals the constant; on a canonical bundle, as every gadget writes,
    /// that is when the integer on its wires is the constant's.
    pub fn equal_constant(circuit: &mut Circuit, a: &BigIntWires, b: &FqValue) -> (c: BigIntWires)
        requires
            old(circuit).wf(),
            old(circuit).has_room(1),
            old(circuit).is_fq(*a),
            b.wf(),
        ensures
            grows(*old(circuit), *final(circuit)),
            c.len == 1,
            c.start == old(circuit).num_wires,
            final(circuit).num_wires == old(circuit).num_wires + 1,
            final(circuit).gates@ == old(circuit).gates@.push(
                Gate { kind: GateKind::EqualConstant(*b), a: *a, b: *a, out: c },
            ),
            forall|c2: Circuit, env: State| #![trigger fq_val(c2.eval(env), c)] #![trigger canonical(c2.eval(env), c)]
                c2.extends(*final(circuit)) ==> canonical(c2.eval(env), c) && fq_val(c2.eval(env), c) == if fq_val(
                    c2.eval(env),
                    *a,
                ) == b.value() {
                    1int
                } else {
                    0int
                },
            forall|c2: Circuit, env: State| #![trigger fq_val(c2.eval(env), c), read(c2.eval(env), *a)]
                c2.extends(*final(circuit)) && canonical(c2.eval(env), *a) ==> (fq_val(c2.eval(env), c)
                    == 1 <==> read(c2.eval(env), *a) == b.value()),
    {
        let c = circuit.add_gate(GateKind::EqualConstant(*b), *a, *a);
        proof {
            assert forall|c2: Circuit, env: State| #![trigger fq_val(c2.eval(env), c), read(c2.eval(env), *a)]
                c2.extends(*circuit) && canonical(c2.eval(env), *a) implies (fq_val(c2.eval(env), c)
                    == 1 <==> read(c2.eval(env), *a) == b.value()) by {
                crate::circuit::lemma_canonical_bits(c2.eval(env), *a);
            }
        }
        c
    }

    /// `1 / 2` in the field, with the division of `ark_bn254`.
    pub fn half_modulus() -> (r: FqValue)
        ensures
            r.wf(),
            (2 * r.value()) % p() == 1,
    {
        proof {
            lemma_constants();
        }
        Self::ratio(1, 2)
    }

    /// `1 / 3` in the field, with the division of `ark_bn254`.
    pub fn one_third_modulus() -> (r: FqValue)
        ensures
            r.wf(),
            (3 * r.value()) % p() == 1,
    {
        proof {
            lemma_constants();
        }
        Self::ratio(1, 3)
    }

    /// `2 / 3` in the field, with the division of `ark_bn254`.
    pub fn two_third_modulus() -> (r: FqValue)
        ensures
            r.wf(),
            (3 * r.value()) % p() == 2,
    {
        proof {
            lemma_constants();
        }
        Self::ratio(2, 3)
    }

    /// `n / d` in the field for small nonzero `n < d`.
    fn ratio(n: u64, d: u64) -> (r: FqValue)
        requires
            0 < n < d <= 3,
        ensures
            r.wf(),
            (d * r.value()) % p() == n,
    {
        proof {
            lemma_constants();
        }
        let dv = FqValue::from_u64(d);
        match fq_inverse(&dv) {
            Some(inv) => {
                let r = fq_mul(&FqValue::from_u64(n), &inv);
                proof {
                    // d (n d^-1) == n (d d^-1) == n
                    let i = inv.value();
                    crate::field::lemma_fred_range(n * i);
                    crate::field::lemma_cong_mul(d as int, d as int, r.value(), n * i);
                    assert((d as int) * (n * i) == (n as int) * (d * i)) by (nonlinear_arith);
                    crate::field::lemma_fred_range(d * i);
                    crate::field::lemma_cong_mul(n as int, n as int, d * i, 1);
                    crate::field::lemma_red_idem(n as int);
                }
                r
            },
            None => {
                proof {
                    assert(false);
                }
                FqValue::zero()
            },
        }
    }

    /// Montgomery reduction of a double-width integer: `x * R^-1 mod p` for
    /// the integer `x` on a bundle of `2 * N_BITS` wires.
    pub fn montgomery_reduce(circuit: &mut Circuit, x: &BigIntWires) -> (c: BigIntWires)
        requires
            old(circuit).wf(),
            old(circuit).has_room(1),
            x.len == 2 * Self::N_BITS,
            x.below(old(circuit).num_wires as int),
        ensures
            grows(*old(circuit), *final(circuit)),
            final(circuit).is_fq(c),
            c.start == old(circuit).num_wires,
            final(circuit).num_wires == old(circuit).num_wires + 254,
            forall|c2: Circuit, env: State| #![trigger fq_val(c2.eval(env), c)] #![trigger canonical(c2.eval(env), c)]
                c2.extends(*final(circuit)) ==> canonical(c2.eval(env), c) && fq_val(c2.eval(env), c) == fred(
                    read(c2.eval(env), *x) * r_inv(),
                ),
    {
        let c = circuit.add_gate(GateKind::MontgomeryReduce, *x, *x);
        proof {
            assert forall|c2: Circuit, env: State| #![trigger fq_val(c2.eval(env), c)] #![trigger canonical(c2.eval(env), c)] c2.extends(*circuit) implies canonical(c2.eval(env), c) && fq_val(
                c2.eval(env),
                c,
            ) == fred(read(c2.eval(env), *x) * r_inv()) by {
                let n = read(c2.eval(env), *x) as int;
                lemma_fred_range(n);
                crate::field::lemma_cong_mul(fred(n), n, r_inv(), r_inv());
            }
        }
        c
    }

    /// Montgomery exponentiation by a constant exponent, given by its limbs.
    pub fn exp_by_constant_montgomery(circuit: &mut Circuit, a: &BigIntWires, e: &FqValue) -> (c:
        BigIntWires)
        requires
            old(circuit).wf(),
            old(circuit).has_room(1),
            old(circuit).is_fq(*a),
        ensures
            grows(*old(circuit), *final(circuit)),
            final(circuit).is_fq(c),
            c.start == old(circuit).num_wires,
            final(circuit).num_wires == old(circuit).num_wires + 254,
            final(circuit).gates@ == old(circuit).gates@.push(
                Gate { kind: GateKind::ExpByConstantMontgomery(*e), a: *a, b: *a, out: c },
            ),
            forall|c2: Circuit, env: State| #![trigger fq_val(c2.eval(env), c)] #![trigger canonical(c2.eval(env), c)]
                c2.extends(*final(circuit)) ==> canonical(c2.eval(env), c) && fq_val(c2.eval(env), c) == mexp(
                    fq_val(c2.eval(env), *a),
                    e.value() as nat,
                ),
    {
        circuit.add_gate(GateKind::ExpByConstantMontgomery(*e), *a, *a)
    }

    /// `(p + 1) / 4`, the exponent of square roots modulo `p = 3 mod 4`.
    pub fn modulus_add_1_div_4() -> (r: FqValue)
        ensures
            r.wf(),
            r.value() == (p() + 1) / 4,
    {
        FqValue {
            limbs: [0x4f082305b61f3f52, 0x65e05aa45a1c72a3, 0x6e14116da0605617, 0x0c19139cb84c680a],
        }
    }

    /// Square root in Montgomery form of an element in Montgomery form that
    /// is a square: its power `(p + 1) / 4`.
    pub fn sqrt_montgomery(circuit: &mut Circuit, a: &BigIntWires) -> (c: BigIntWires)
        requires
            old(circuit).wf(),
            old(circuit).has_room(1),
            old(circuit).is_fq(*a),
        ensures
            grows(*old(circuit), *final(circuit)),
            final(circuit).is_fq(c),
            final(circuit).num_wires == old(circuit).num_wires + 254,
            forall|c2: Circuit, env: State| #![trigger fq_val(c2.eval(env), c)] #![trigger canonical(c2.eval(env), c)]
                c2.extends(*final(circuit)) ==> canonical(c2.eval(env), c) && fq_val(c2.eval(env), c) == mexp(
                    fq_val(c2.eval(env), *a),
                    ((p() + 1) / 4) as nat,
                ),
    {
        Self::exp_by_constant_montgomery(circuit, a, &Self::modulus_add_1_div_4())
    }

    /// Quadratic non-residue test of an element in Montgomery form: raises
    /// `x` to `(p - 1) / 2` and returns a wire set exactly when the result is
    /// the Montgomery form of `-1`, that is when the power of the element `x`
    /// stands for is `-1` (by Euler's criterion, when it is not a square).
    pub fn is_qnr_montgomery(circuit: &mut Circuit, x: &BigIntWires) -> (w: WireId)
        requires
            old(circuit).wf(),
            old(circuit).has_room(2),
            old(circuit).is_fq(*x),
        ensures
            grows(*old(circuit), *final(circuit)),
            w == final(circuit).num_wires - 1,
            final(circuit).num_wires == old(circuit).num_wires + 255,
            forall|c2: Circuit, env: State|
                c2.extends(*final(circuit)) ==> #[trigger] wire(c2.eval(env), w) == (fred(
                    pow(from_mont(fq_val(c2.eval(env), *x)), ((p() - 1) / 2) as nat),
                ) == p() - 1),
    {
        let ghost s0 = *circuit;
        let y = Self::exp_by_constant_montgomery(circuit, x, &fq_modulus_minus_one_div_two());
        let ghost s1 = *circuit;
        let neg_one = Self::as_montgomery(fq_neg(&FqValue::one()));
        let eq = Self::equal_constant(circuit, &y, &neg_one);
        proof {
            lemma_constants();
            crate::circuit::lemma_grows_trans(s0, s1, *circuit);
            assert forall|c2: Circuit, env: State| c2.extends(*circuit) implies #[trigger] wire(
                c2.eval(env),
                eq.start,
            ) == (fred(pow(from_mont(fq_val(c2.eval(env), *x)), ((p() - 1) / 2) as nat)) == p()
                - 1) by {
                crate::circuit::lemma_extends_trans(s1, *circuit, c2);
                crate::circuit::lemma_single_wire(c2.eval(env), eq);
                let f = fred(pow(from_mont(fq_val(c2.eval(env), *x)), ((p() - 1) / 2) as nat));
                lemma_fred_range(pow(from_mont(fq_val(c2.eval(env), *x)), ((p() - 1) / 2) as nat));
                crate::laws::law_montgomery_roundtrip(f);
                crate::laws::law_montgomery_roundtrip(p() - 1);
            }
        }
        eq.start
    }

    /// Fresh wires for a field element, registered as input and/or output as asked.
    pub fn new_bn(circuit: &mut Circuit, is_input: bool, is_output: bool) -> (w: BigIntWires)
        requires
            old(circuit).wf(),
            old(circuit).has_room(1),
        ensures
            final(circuit).is_fq(w),
            w.start == old(circuit).num_wires,
            final(circuit).num_wires == old(circuit).num_wires + 254,
            final(circuit).wf(),
            final(circuit).extends(*old(circuit)),
            final(circuit).gates@ == old(circuit).gates@,
            final(circuit).inputs@ == if is_input {
                old(circuit).inputs@.push(w)
            } else {
                old(circuit).inputs@
            },
            final(circuit).outputs@ == if is_output {
                old(circuit).outputs@.push(w)
            } else {
                old(circuit).outputs@
            },
    {
        BigIntWires::new(circuit, Self::N_BITS, is_input, is_output)
    }

    /// Fresh wires for a field element, neither input nor output.
    pub fn wires(circuit: &mut Circuit) -> (w: BigIntWires)
        requires
            old(circuit).wf(),
            old(circuit).has_room(1),
        ensures
            final(circuit).is_fq(w),
            w.start == old(circuit).num_wires,
            final(circuit).num_wires == old(circuit).num_wires + 254,
            grows(*old(circuit), *final(circuit)),
            final(circuit).gates@ == old(circuit).gates@,
    {
        BigIntWires::new(circuit, Self::N_BITS, false, false)
    }

    /// Write the bits of `value` on bundle `wires` of the wire values `values`,
    /// as an input assignment for `Circuit::simple_evaluate`.
    pub fn set_wire_value(values: &mut Vec<bool>, wires: &BigIntWires, value: &FqValue)
        requires
            wires.len == 254,
            wires.below(old(values).len() as int),
            value.wf(),
        ensures
            final(values).len() == old(values).len(),
            fq_val(env_of(final(values)@), *wires) == value.value(),
            forall|i: int|
                0 <= i < old(values).len() && !(wires.start <= i < wires.start + wires.len) ==> final(values)@[i] == old(values)@[i],
    {
        let bits = Self::to_bits(*value);
        wires.set_bits(values, &bits);
        proof {
            crate::field::lemma_red_idem(value.value());
        }
    }

    /// The bits to assign to bundle `wires` for the field element `value`:
    /// its `N_BITS` little-endian bits, provided the bundle is `N_BITS` wide
    /// and the value canonical.
    pub fn get_wire_bits(wires: &BigIntWires, value: &FqValue) -> (r: Result<Vec<bool>, WireBitsError>)
        ensures
            match r {
                Ok(bits) => wires.len == 254 && value.wf() && bits@ == nat_to_bits(
                    value.value() as nat,
                    254,
                ),
                Err(e) => if wires.len != 254 {
                    e == WireBitsError::WrongWidth { expected: 254, actual: wires.len }
                } else {
                    e == WireBitsError::NotCanonical && !value.wf()
                },
            },
    {
        if wires.len() != Self::N_BITS {
            return Err(WireBitsError::WrongWidth { expected: Self::N_BITS, actual: wires.len() });
        }
        if !value.is_canonical() {
            return Err(WireBitsError::NotCanonical);
        }
        let bits = Self::to_bits(*value);
        proof {
            lemma_bits_unique(bits@);
        }
        Ok(bits)
    }

    /// The field element on bundle `wires` of the wire values `values`.
    pub fn wire_value(values: &Vec<bool>, wires: &BigIntWires) -> (r: FqValue)
        requires
            wires.below(values.len() as int),
        ensures
            r.wf(),
            r.value() == fq_val(env_of(values@), *wires),
    {
        let bits = wires.get_bits(values);
        Self::from_bits(bits)
    }

    /// Convert a field element to Montgomery form `a * R mod p`, `R = 2^254`.
    pub fn as_montgomery(a: FqValue) -> (r: FqValue)
        requires
            a.wf(),
        ensures
            r.wf(),
            r.value() == to_mont(a.value()),
    {
        fq_mul(&a, &FqValue::montgomery_r())
    }

    /// Convert a field element from Montgomery form: `a * R^-1 mod p`.
    pub fn from_montgomery(a: FqValue) -> (r: FqValue)
        requires
            a.wf(),
        ensures
            r.wf(),
            r.value() == from_mont(a.value()),
    {
        fq_mul(&a, &FqValue::montgomery_r_inverse())
    }

    /// The 254 little-endian bits of a field element.
    pub fn to_bits(u: FqValue) -> (bits: Vec<bool>)
        requires
            u.wf(),
        ensures
            bits.len() == 254,
            bits_to_nat(bits@) == u.value(),
    {
        let mut bytes = fq_to_bytes_le(&u);
        proof {
            lemma_constants();
            lemma_exp2_254();
            if bytes.len() > 32 {
                lemma_bytes_last_nonzero(bytes@);
                lemma_exp2_monotonic(256, (8 * (bytes.len() - 1)) as nat);
                lemma_exp2_adds(254, 2);
                assert(exp2(2) == 4) by {
                    reveal_with_fuel(exp2, 3);
                }
            }
        }
        while bytes.len() < 32
            invariant
                bytes.len() <= 32,
                bytes_to_nat(bytes@) == u.value(),
            decreases 32 - bytes.len(),
        {
            proof {
                lemma_bytes_push(bytes@, 0u8);
            }
            bytes.push(0u8);
        }
        let mut bits: Vec<bool> = Vec::new();
        let mut j: usize = 0;
        while j < 32
            invariant
                j <= 32,
                bytes.len() == 32,
                bytes_to_nat(bytes@) == u.value(),
                bits.len() == 8 * j,
                bits_to_nat(bits@) == bytes_to_nat(bytes@.take(j as int)),
            decreases 32 - j,
        {
            let byte = bytes[j];
            let mut i: u8 = 0;
            let ghost base = bytes_to_nat(bytes@.take(j as int));
            let ghost scale = exp2((8 * j) as nat);
            while i < 8
                invariant
                    i <= 8,
                    j < 32,
                    bits.len() == 8 * j + i,
                    base == bytes_to_nat(bytes@.take(j as int)),
                    scale == exp2((8 * j) as nat),
                    bits_to_nat(bits@) == base + scale * ((byte as nat) % exp2(i as nat)),
                decreases 8 - i,
            {
                let bit = ((byte >> i) & 1) == 1;
                proof {
                    lemma_bits_push(bits@, bit);
                    lemma_byte_bit(byte, i);
                    lemma_exp2_adds((8 * j) as nat, i as nat);
                    let lo = (byte as nat) % exp2(i as nat);
                    let e = exp2(i as nat);
                    if bit {
                        assert(scale * (lo + e) == scale * lo + scale * e) by (nonlinear_arith);
                    }
                }
                bits.push(bit);
                i = i + 1;
            }
            proof {
                lemma_exp2_254();
                assert((byte as nat) % exp2(8) == byte as nat) by {
                    vstd::arithmetic::div_mod::lemma_small_mod(byte as nat, 256);
                }
                assert(bytes@.take(j + 1) =~= bytes@.take(j as int).push(byte));
                lemma_bytes_push(bytes@.take(j as int), byte);
            }
            j = j + 1;
        }
        let ghost s = bits@;
        proof {
            assert(bytes@.take(32) =~= bytes@);
            let s254 = s.take(254);
            let s255 = s.take(255);
            assert(s255 =~= s254.push(s[254]));
            assert(s =~= s255.push(s[255]));
            lemma_bits_push(s254, s[254]);
            lemma_bits_push(s255, s[255]);
            lemma_exp2_adds(254, 1);
            assert(exp2(1) == 2);
            if s[254] || s[255] {
                assert(false);
            }
        }
        bits.pop();
        bits.pop();
        proof {
            assert(bits@ =~= s.take(254));
        }
        bits
    }

    /// The field element whose little-endian bits are `bits`, reduced modulo `p`.
    pub fn from_bits(bits: Vec<bool>) -> (r: FqValue)
        ensures
            r.wf(),
            r.value() == fred(bits_to_nat(bits@) as int),
    {
        Self::bits_value(&bits)
    }

    /// `from_bits` on borrowed bits.
    pub(crate) fn bits_value(bits: &Vec<bool>) -> (r: FqValue)
        ensures
            r.wf(),
            r.value() == fred(bits_to_nat(bits@) as int),
    {
        let zero = FqValue::zero();
        let one = FqValue::one();
        let mut u = zero;
        let n = bits.len();
        let mut i = n;
        proof {
            lemma_constants();
            assert(bits@.subrange(n as int, n as int) =~= Seq::<bool>::empty());
        }
        while i > 0
            invariant
                i <= n,
                n == bits.len(),
                zero.wf() && zero.value() == 0,
                one.wf() && one.value() == 1,
                u.wf(),
                u.value() == fred(bits_to_nat(bits@.subrange(i as int, n as int)) as int),
            decreases i,
        {
            i = i - 1;
            let b = if bits[i] {
                one
            } else {
                zero
            };
            let d = fq_add(&u, &u);
            let ghost rest = bits_to_nat(bits@.subrange(i + 1, n as int));
            proof {
                let t = bits@.subrange(i as int, n as int);
                assert(t.drop_first() =~= bits@.subrange(i + 1, n as int));
                assert(t[0] == bits[i as int]);
                assert(bits_to_nat(t) == b.value() + 2 * rest);
                lemma_fred_range(rest as int);
                lemma_cong_add(u.value(), rest as int, u.value(), rest as int);
                lemma_fred_range(u.value() + u.value());
                lemma_cong_add(d.value(), 2 * (rest as int), b.value(), b.value());
            }
            u = fq_add(&d, &b);
        }
        proof {
            assert(bits@.subrange(0, n as int) =~= bits@);
        }
        u
    }
}

} // verus!

//! The quadratic extension `Fq2 = Fq[u]/(u^2 + 1)`: conversions of concrete
//! values and the gadgets on pairs of base-field bundles.
use crate::circuit::{
    bitmask, canonical, env_of, fq_val, grows, lemma_extends_trans, lemma_grows_trans,
    lemma_single_wire, select, string_from_chars, wire, BigIntWires, Circuit, GateKind, State,
    WireId,
};
use crate::field::{
    fadd, fneg, fred, from_mont, fsub, lemma_fred_range, mexp, mmul, p, r_inv, to_mont,
};
use crate::fq::Fq;
use crate::tower::{
    f2_canonical, f2add, f2div6, f2double, f2frobenius, f2half, f2minv, f2mmul,
    f2mnorm, f2neg, f2nonres, f2sub, f2triple, lemma_f2_embed, lemma_f2_karatsuba, lemma_f2_nonres,
    lemma_f2_square, lemma_mmul_unit, lemma_triple,
};
use ark_ff::{Fp2Config, PrimeField};
use crate::value::{fq_add, Fq2Value, FqValue};
use vstd::prelude::*;

verus! {

/// A pair of values, the coordinates `c0 + c1 * u` of an `Fq2` element.
pub type Pair<T> = (T, T);

/// The quadratic extension `Fq2`.
pub struct Fq2;

/// The `Fq2` element on a pair of bundles.
pub open spec fn fq2_val(m: State, w: Pair<BigIntWires>) -> (int, int) {
    (fq_val(m, w.0), fq_val(m, w.1))
}

/// Both bundles of the pair hold canonical integers, so their wires carry
/// the bits of the coordinates.
pub open spec fn canonical2(m: State, w: Pair<BigIntWires>) -> bool {
    canonical(m, w.0) && canonical(m, w.1)
}

/// Both bundles of the pair hold base-field elements of circuit `c`.
pub open spec fn is_fq2(c: Circuit, w: Pair<BigIntWires>) -> bool {
    c.is_fq(w.0) && c.is_fq(w.1)
}

/// Values on bundles are canonical.
pub proof fn lemma_fq2_canonical(m: State, w: Pair<BigIntWires>)
    ensures
        f2_canonical(fq2_val(m, w)),
{
    lemma_fred_range(crate::circuit::read(m, w.0) as int);
    lemma_fred_range(crate::circuit::read(m, w.1) as int);
}

impl Fq2 {
    /// Number of bits of an `Fq2` element.
    pub const N_BITS: usize = 2 * Fq::N_BITS;

    /// Montgomery form of both coordinates.
    pub fn as_montgomery(a: Fq2Value) -> (r: Fq2Value)
        requires
            a.wf(),
        ensures
            r.wf(),
            r@ == (to_mont(a@.0), to_mont(a@.1)),
    {
        Fq2Value { c0: Fq::as_montgomery(a.c0), c1: Fq::as_montgomery(a.c1) }
    }

    /// Both coordinates out of Montgomery form.
    pub fn from_montgomery(a: Fq2Value) -> (r: Fq2Value)
        requires
            a.wf(),
        ensures
            r.wf(),
            r@ == (from_mont(a@.0), from_mont(a@.1)),
    {
        Fq2Value { c0: Fq::from_montgomery(a.c0), c1: Fq::from_montgomery(a.c1) }
    }

    /// The bits of both coordinates.
    pub fn to_bits(u: Fq2Value) -> (bits: Pair<Vec<bool>>)
        requires
            u.wf(),
        ensures
            bits.0.len() == 254,
            bits.1.len() == 254,
            crate::bits::bits_to_nat(bits.0@) == u@.0,
            crate::bits::bits_to_nat(bits.1@) == u@.1,
    {
        (Fq::to_bits(u.c0), Fq::to_bits(u.c1))
    }

    /// The element whose coordinates have the given bits, each reduced modulo `p`.
    pub fn from_bits(bits: Pair<Vec<bool>>) -> (r: Fq2Value)
        ensures
            r.wf(),
            r@ == (
                fred(crate::bits::bits_to_nat(bits.0@) as int),
                fred(crate::bits::bits_to_nat(bits.1@) as int),
            ),
    {
        Fq2Value { c0: Fq::from_bits(bits.0), c1: Fq::from_bits(bits.1) }
    }

    /// Fresh wires for an `Fq2` element, both bundles registered as input
    /// and/or output as asked.
    pub fn new_bn(circuit: &mut Circuit, is_input: bool, is_output: bool) -> (w: Pair<BigIntWires>)
        requires
            old(circuit).wf(),
            old(circuit).has_room(2),
        ensures
            is_fq2(*final(circuit), w),
            w.0.start == old(circuit).num_wires,
            w.1.start == old(circuit).num_wires + 254,
            final(circuit).num_wires == old(circuit).num_wires + 2 * 254,
            final(circuit).wf(),
            final(circuit).extends(*old(circuit)),
            final(circuit).gates@ == old(circuit).gates@,
            final(circuit).inputs@ == if is_input {
                old(circuit).inputs@.push(w.0).push(w.1)
            } else {
                old(circuit).inputs@
            },
            final(circuit).outputs@ == if is_output {
                old(circuit).outputs@.push(w.0).push(w.1)
            } else {
                old(circuit).outputs@
            },
    {
        let ghost s0 = *circuit;
        let w0 = BigIntWires::new(circuit, Fq::N_BITS, is_input, is_output);
        let ghost s1 = *circuit;
        let w1 = BigIntWires::new(circuit, Fq::N_BITS, is_input, is_output);
        proof {
            lemma_extends_trans(s0, s1, *circuit);
        }
        (w0, w1)
    }

    /// Write both coordinates of `value` on the pair `wires` of the wire
    /// values `values`, as an input assignment for `Circuit::simple_evaluate`.
    pub fn set_wire_value(values: &mut Vec<bool>, wires: &Pair<BigIntWires>, value: &Fq2Value)
        requires
            wires.0.len == 254,
            wires.1.len == 254,
            wires.0.below(old(values).len() as int),
            wires.1.below(old(values).len() as int),
            wires.0.below(wires.1.start as int) || wires.1.below(wires.0.start as int),
            value.wf(),
        ensures
            final(values).len() == old(values).len(),
            fq2_val(env_of(final(values)@), *wires) == value@,
            forall|i: int|
                0 <= i < old(values).len() && !(wires.0.start <= i < wires.0.start + 254) && !(
                wires.1.start <= i < wires.1.start + 254) ==> final(values)@[i] == old(values)@[i],
    {
        let ghost v0 = values@;
        Fq::set_wire_value(values, &wires.0, &value.c0);
        let ghost v1 = values@;
        Fq::set_wire_value(values, &wires.1, &value.c1);
        proof {
            assert(wires.0.bits_in(env_of(values@)) =~= wires.0.bits_in(env_of(v1)));
        }
    }

    /// The `Fq2` element on the pair `wires` of the wire values `values`.
    pub fn wire_value(values: &Vec<bool>, wires: &Pair<BigIntWires>) -> (r: Fq2Value)
        requires
            wires.0.below(values.len() as int),
            wires.1.below(values.len() as int),
        ensures
            r.wf(),
            r@ == fq2_val(env_of(values@), *wires),
    {
        Fq2Value { c0: Fq::wire_value(values, &wires.0), c1: Fq::wire_value(values, &wires.1) }
    }

    /// Sum.
    pub fn add(circuit: &mut Circuit, a: Pair<BigIntWires>, b: Pair<BigIntWires>) -> (c: Pair<
        BigIntWires,
    >)
        requires
            old(circuit).wf(),
            old(circuit).has_room(2),
            is_fq2(*old(circuit), a),
            is_fq2(*old(circuit), b),
        ensures
            grows(*old(circuit), *final(circuit)),
            is_fq2(*final(circuit), c),
            final(circuit).num_wires == old(circuit).num_wires + 2 * 254,
            forall|c2: Circuit, env: State| #![trigger fq2_val(c2.eval(env), c)] #![trigger canonical2(c2.eval(env), c)]
                c2.extends(*final(circuit)) ==> canonical2(c2.eval(env), c) && fq2_val(c2.eval(env), c) == f2add(
                    fq2_val(c2.eval(env), a),
                    fq2_val(c2.eval(env), b),
                ),
    {
        let ghost s0 = *circuit;
        let c0 = Fq::add(circuit, &a.0, &b.0);
        let ghost s1 = *circuit;
        let c1 = Fq::add(circuit, &a.1, &b.1);
        proof {
            lemma_grows_trans(s0, s1, *circuit);
            assert forall|c2: Circuit, env: State| #![trigger fq2_val(c2.eval(env), (c0, c1))] #![trigger canonical2(c2.eval(env), (c0, c1))] c2.extends(*circuit) implies canonical2(c2.eval(env), (c0, c1)) && fq2_val(
                c2.eval(env),
                (c0, c1),
            ) == f2add(fq2_val(c2.eval(env), a), fq2_val(c2.eval(env), b)) by {
                lemma_extends_trans(s1, *circuit, c2);
            }
        }
        (c0, c1)
    }

    /// Sum with a constant.
    pub fn add_constant(circuit: &mut Circuit, a: &Pair<BigIntWires>, b: &Fq2Value) -> (c: Pair<
        BigIntWires,
    >)
        requires
            old(circuit).wf(),
            old(circuit).has_room(2),
            is_fq2(*old(circuit), *a),
            b.wf(),
        ensures
            grows(*old(circuit), *final(circuit)),
            is_fq2(*final(circuit), c),
            final(circuit).num_wires == old(circuit).num_wires + 2 * 254,
            forall|c2: Circuit, env: State| #![trigger fq2_val(c2.eval(env), c)] #![trigger canonical2(c2.eval(env), c)]
                c2.extends(*final(circuit)) ==> canonical2(c2.eval(env), c) && fq2_val(c2.eval(env), c) == f2add(
                    fq2_val(c2.eval(env), *a),
                    b@,
                ),
    {
        let ghost s0 = *circuit;
        let c0 = Fq::add_constant(circuit, &a.0, &b.c0);
        let ghost s1 = *circuit;
        let c1 = Fq::add_constant(circuit, &a.1, &b.c1);
        proof {
            lemma_grows_trans(s0, s1, *circuit);
            assert forall|c2: Circuit, env: State| #![trigger fq2_val(c2.eval(env), (c0, c1))] #![trigger canonical2(c2.eval(env), (c0, c1))] c2.extends(*circuit) implies canonical2(c2.eval(env), (c0, c1)) && fq2_val(
                c2.eval(env),
                (c0, c1),
            ) == f2add(fq2_val(c2.eval(env), *a), b@) by {
                lemma_extends_trans(s1, *circuit, c2);
            }
        }
        (c0, c1)
    }

    /// Negation.
    pub fn neg(circuit: &mut Circuit, a: Pair<BigIntWires>) -> (c: Pair<BigIntWires>)
        requires
            old(circuit).wf(),
            old(circuit).has_room(2),
            is_fq2(*old(circuit), a),
        ensures
            grows(*old(circuit), *final(circuit)),
            is_fq2(*final(circuit), c),
            final(circuit).num_wires == old(circuit).num_wires + 2 * 254,
            forall|c2: Circuit, env: State| #![trigger fq2_val(c2.eval(env), c)] #![trigger canonical2(c2.eval(env), c)]
                c2.extends(*final(circuit)) ==> canonical2(c2.eval(env), c) && fq2_val(c2.eval(env), c) == f2neg(
                    fq2_val(c2.eval(env), a),
                ),
    {
        let ghost s0 = *circuit;
        let c0 = Fq::neg(circuit, &a.0);
        let ghost s1 = *circuit;
        let c1 = Fq::neg(circuit, &a.1);
        proof {
            lemma_grows_trans(s0, s1, *circuit);
            assert forall|c2: Circuit, env: State| #![trigger fq2_val(c2.eval(env), (c0, c1))] #![trigger canonical2(c2.eval(env), (c0, c1))] c2.extends(*circuit) implies canonical2(c2.eval(env), (c0, c1)) && fq2_val(
                c2.eval(env),
                (c0, c1),
            ) == f2neg(fq2_val(c2.eval(env), a)) by {
                lemma_extends_trans(s1, *circuit, c2);
            }
        }
        (c0, c1)
    }

    /// Difference.
    pub fn sub(circuit: &mut Circuit, a: &Pair<BigIntWires>, b: &Pair<BigIntWires>) -> (c: Pair<
        BigIntWires,
    >)
        requires
            old(circuit).wf(),
            old(circuit).has_room(2),
            is_fq2(*old(circuit), *a),
            is_fq2(*old(circuit), *b),
        ensures
            grows(*old(circuit), *final(circuit)),
            is_fq2(*final(circuit), c),
            final(circuit).num_wires == old(circuit).num_wires + 2 * 254,
            forall|c2: Circuit, env: State| #![trigger fq2_val(c2.eval(env), c)] #![trigger canonical2(c2.eval(env), c)]
                c2.extends(*final(circuit)) ==> canonical2(c2.eval(env), c) && fq2_val(c2.eval(env), c) == f2sub(
                    fq2_val(c2.eval(env), *a),
                    fq2_val(c2.eval(env), *b),
                ),
    {
        let ghost s0 = *circuit;
        let c0 = Fq::sub(circuit, &a.0, &b.0);
        let ghost s1 = *circuit;
        let c1 = Fq::sub(circuit, &a.1, &b.1);
        proof {
            lemma_grows_trans(s0, s1, *circuit);
            assert forall|c2: Circuit, env: State| #![trigger fq2_val(c2.eval(env), (c0, c1))] #![trigger canonical2(c2.eval(env), (c0, c1))] c2.extends(*circuit) implies canonical2(c2.eval(env), (c0, c1)) && fq2_val(
                c2.eval(env),
                (c0, c1),
            ) == f2sub(fq2_val(c2.eval(env), *a), fq2_val(c2.eval(env), *b)) by {
                lemma_extends_trans(s1, *circuit, c2);
            }
        }
        (c0, c1)
    }

    /// Double.
    pub fn double(circuit: &mut Circuit, a: &Pair<BigIntWires>) -> (c: Pair<BigIntWires>)
        requires
            old(circuit).wf(),
            old(circuit).has_room(2),
            is_fq2(*old(circuit), *a),
        ensures
            grows(*old(circuit), *final(circuit)),
            is_fq2(*final(circuit), c),
            final(circuit).num_wires == old(circuit).num_wires + 2 * 254,
            forall|c2: Circuit, env: State| #![trigger fq2_val(c2.eval(env), c)] #![trigger canonical2(c2.eval(env), c)]
                c2.extends(*final(circuit)) ==> canonical2(c2.eval(env), c) && fq2_val(c2.eval(env), c) == f2double(
                    fq2_val(c2.eval(env), *a),
                ),
    {
        let ghost s0 = *circuit;
        let c0 = Fq::double(circuit, &a.0);
        let ghost s1 = *circuit;
        let c1 = Fq::double(circuit, &a.1);
        proof {
            lemma_grows_trans(s0, s1, *circuit);
            assert forall|c2: Circuit, env: State| #![trigger fq2_val(c2.eval(env), (c0, c1))] #![trigger canonical2(c2.eval(env), (c0, c1))] c2.extends(*circuit) implies canonical2(c2.eval(env), (c0, c1)) && fq2_val(
                c2.eval(env),
                (c0, c1),
            ) == f2double(fq2_val(c2.eval(env), *a)) by {
                lemma_extends_trans(s1, *circuit, c2);
            }
        }
        (c0, c1)
    }

    /// Half: each coordinate times `2^-1`.
    pub fn half(circuit: &mut Circuit, a: &Pair<BigIntWires>) -> (c: Pair<BigIntWires>)
        requires
            old(circuit).wf(),
            old(circuit).has_room(2),
            is_fq2(*old(circuit), *a),
        ensures
            grows(*old(circuit), *final(circuit)),
            is_fq2(*final(circuit), c),
            final(circuit).num_wires == old(circuit).num_wires + 2 * 254,
            forall|c2: Circuit, env: State| #![trigger fq2_val(c2.eval(env), c)] #![trigger canonical2(c2.eval(env), c)]
                c2.extends(*final(circuit)) ==> canonical2(c2.eval(env), c) && fq2_val(c2.eval(env), c) == f2half(
                    fq2_val(c2.eval(env), *a),
                ),
    {
        let ghost s0 = *circuit;
        let c0 = Fq::half(circuit, &a.0);
        let ghost s1 = *circuit;
        let c1 = Fq::half(circuit, &a.1);
        proof {
            lemma_grows_trans(s0, s1, *circuit);
            assert forall|c2: Circuit, env: State| #![trigger fq2_val(c2.eval(env), (c0, c1))] #![trigger canonical2(c2.eval(env), (c0, c1))] c2.extends(*circuit) implies canonical2(c2.eval(env), (c0, c1)) && fq2_val(
                c2.eval(env),
                (c0, c1),
            ) == f2half(fq2_val(c2.eval(env), *a)) by {
                lemma_extends_trans(s1, *circuit, c2);
            }
        }
        (c0, c1)
    }

    /// Division by six.
    pub fn div6(circuit: &mut Circuit, a: &Pair<BigIntWires>) -> (c: Pair<BigIntWires>)
        requires
            old(circuit).wf(),
            old(circuit).has_room(2),
            is_fq2(*old(circuit), *a),
        ensures
            grows(*old(circuit), *final(circuit)),
            is_fq2(*final(circuit), c),
            final(circuit).num_wires == old(circuit).num_wires + 2 * 254,
            forall|c2: Circuit, env: State| #![trigger fq2_val(c2.eval(env), c)] #![trigger canonical2(c2.eval(env), c)]
                c2.extends(*final(circuit)) ==> canonical2(c2.eval(env), c) && fq2_val(c2.eval(env), c) == f2div6(
                    fq2_val(c2.eval(env), *a),
                ),
    {
        let ghost s0 = *circuit;
        let c0 = Fq::div6(circuit, &a.0);
        let ghost s1 = *circuit;
        let c1 = Fq::div6(circuit, &a.1);
        proof {
            lemma_grows_trans(s0, s1, *circuit);
            assert forall|c2: Circuit, env: State| #![trigger fq2_val(c2.eval(env), (c0, c1))] #![trigger canonical2(c2.eval(env), (c0, c1))] c2.extends(*circuit) implies canonical2(c2.eval(env), (c0, c1)) && fq2_val(
                c2.eval(env),
                (c0, c1),
            ) == f2div6(fq2_val(c2.eval(env), *a)) by {
                lemma_extends_trans(s1, *circuit, c2);
            }
        }
        (c0, c1)
    }

    /// Triple, as the element plus its double.
    pub fn triple(circuit: &mut Circuit, a: &Pair<BigIntWires>) -> (c: Pair<BigIntWires>)
        requires
            old(circuit).wf(),
            old(circuit).has_room(4),
            is_fq2(*old(circuit), *a),
        ensures
            grows(*old(circuit), *final(circuit)),
            is_fq2(*final(circuit), c),
            final(circuit).num_wires == old(circuit).num_wires + 4 * 254,
            forall|c2: Circuit, env: State| #![trigger fq2_val(c2.eval(env), c)] #![trigger canonical2(c2.eval(env), c)]
                c2.extends(*final(circuit)) ==> canonical2(c2.eval(env), c) && fq2_val(c2.eval(env), c) == f2triple(
                    fq2_val(c2.eval(env), *a),
                ),
    {
        let ghost s0 = *circuit;
        let a_2 = Self::double(circuit, a);
        let ghost s1 = *circuit;
        let c = Self::add(circuit, (a.0, a.1), a_2);
        proof {
            lemma_grows_trans(s0, s1, *circuit);
            assert forall|c2: Circuit, env: State| #![trigger fq2_val(c2.eval(env), c)] #![trigger canonical2(c2.eval(env), c)] c2.extends(*circuit) implies canonical2(c2.eval(env), c) && fq2_val(
                c2.eval(env),
                c,
            ) == f2triple(fq2_val(c2.eval(env), *a)) by {
                lemma_extends_trans(s1, *circuit, c2);
                let x = fq2_val(c2.eval(env), *a);
                assert(fq2_val(c2.eval(env), a_2) == f2double(x));
                lemma_fq2_canonical(c2.eval(env), *a);
                lemma_triple(x.0);
                lemma_triple(x.1);
            }
        }
        c
    }
    /// Montgomery product, by Karatsuba's three multiplications.
    pub fn mul_montgomery(circuit: &mut Circuit, a: &Pair<BigIntWires>, b: &Pair<BigIntWires>) -> (c:
        Pair<BigIntWires>)
        requires
            old(circuit).wf(),
            old(circuit).has_room(8),
            is_fq2(*old(circuit), *a),
            is_fq2(*old(circuit), *b),
        ensures
            grows(*old(circuit), *final(circuit)),
            is_fq2(*final(circuit), c),
            final(circuit).num_wires == old(circuit).num_wires + 8 * 254,
            forall|c2: Circuit, env: State| #![trigger fq2_val(c2.eval(env), c)] #![trigger canonical2(c2.eval(env), c)]
                c2.extends(*final(circuit)) ==> canonical2(c2.eval(env), c) && fq2_val(c2.eval(env), c) == f2mmul(
                    fq2_val(c2.eval(env), *a),
                    fq2_val(c2.eval(env), *b),
                ),
    {
        let ghost s0 = *circuit;
        let a_sum = Fq::add(circuit, &a.0, &a.1);
        let ghost s1 = *circuit;
        let b_sum = Fq::add(circuit, &b.0, &b.1);
        let ghost s2 = *circuit;
        let a0_b0 = Fq::mul_montgomery(circuit, &a.0, &b.0);
        let ghost s3 = *circuit;
        let a1_b1 = Fq::mul_montgomery(circuit, &a.1, &b.1);
        let ghost s4 = *circuit;
        let sum_prod = Fq::mul_montgomery(circuit, &a_sum, &b_sum);
        let ghost s5 = *circuit;
        let c0 = Fq::sub(circuit, &a0_b0, &a1_b1);
        let ghost s6 = *circuit;
        let sum_a0b0_a1b1 = Fq::add(circuit, &a0_b0, &a1_b1);
        let ghost s7 = *circuit;
        let c1 = Fq::sub(circuit, &sum_prod, &sum_a0b0_a1b1);
        proof {
            lemma_grows_trans(s0, s1, s2);
            lemma_grows_trans(s0, s2, s3);
            lemma_grows_trans(s0, s3, s4);
            lemma_grows_trans(s0, s4, s5);
            lemma_grows_trans(s0, s5, s6);
            lemma_grows_trans(s0, s6, s7);
            lemma_grows_trans(s0, s7, *circuit);
            assert forall|c2: Circuit, env: State| #![trigger fq2_val(c2.eval(env), (c0, c1))] #![trigger canonical2(c2.eval(env), (c0, c1))] c2.extends(*circuit) implies canonical2(c2.eval(env), (c0, c1)) && fq2_val(
                c2.eval(env),
                (c0, c1),
            ) == f2mmul(fq2_val(c2.eval(env), *a), fq2_val(c2.eval(env), *b)) by {
                lemma_extends_trans(s7, *circuit, c2);
                lemma_extends_trans(s6, s7, c2);
                lemma_extends_trans(s5, s6, c2);
                lemma_extends_trans(s4, s5, c2);
                lemma_extends_trans(s3, s4, c2);
                lemma_extends_trans(s2, s3, c2);
                lemma_extends_trans(s1, s2, c2);
                let x = fq2_val(c2.eval(env), *a);
                let y = fq2_val(c2.eval(env), *b);
                assert(fq_val(c2.eval(env), sum_prod) == mmul(fadd(x.0, x.1), fadd(y.0, y.1)));
                lemma_f2_karatsuba(x, y);
            }
        }
        (c0, c1)
    }

    /// Montgomery product by a constant given in Montgomery form, with three
    /// base-field products by constants (Karatsuba).
    pub fn mul_by_constant_montgomery(circuit: &mut Circuit, a: &Pair<BigIntWires>, b: &Fq2Value) -> (c:
        Pair<BigIntWires>)
        requires
            old(circuit).wf(),
            old(circuit).has_room(7),
            is_fq2(*old(circuit), *a),
            b.wf(),
        ensures
            grows(*old(circuit), *final(circuit)),
            is_fq2(*final(circuit), c),
            final(circuit).num_wires == old(circuit).num_wires + 7 * 254,
            forall|c2: Circuit, env: State| #![trigger fq2_val(c2.eval(env), c)] #![trigger canonical2(c2.eval(env), c)]
                c2.extends(*final(circuit)) ==> canonical2(c2.eval(env), c) && fq2_val(c2.eval(env), c)
                    == f2mmul(fq2_val(c2.eval(env), *a), b@),
    {
        let ghost s0 = *circuit;
        let a_sum = Fq::add(circuit, &a.0, &a.1);
        let ghost s1 = *circuit;
        let a0_b0 = Fq::mul_by_constant_montgomery(circuit, &a.0, &b.c0);
        let ghost s2 = *circuit;
        let a1_b1 = Fq::mul_by_constant_montgomery(circuit, &a.1, &b.c1);
        let ghost s3 = *circuit;
        let b_sum = fq_add(&b.c0, &b.c1);
        let sum_mul_sum = Fq::mul_by_constant_montgomery(circuit, &a_sum, &b_sum);
        let ghost s4 = *circuit;
        let c0 = Fq::sub(circuit, &a0_b0, &a1_b1);
        let ghost s5 = *circuit;
        let a0b0_plus_a1b1 = Fq::add(circuit, &a0_b0, &a1_b1);
        let ghost s6 = *circuit;
        let c1 = Fq::sub(circuit, &sum_mul_sum, &a0b0_plus_a1b1);
        proof {
            lemma_grows_trans(s0, s1, s2);
            lemma_grows_trans(s0, s2, s3);
            lemma_grows_trans(s0, s3, s4);
            lemma_grows_trans(s0, s4, s5);
            lemma_grows_trans(s0, s5, s6);
            lemma_grows_trans(s0, s6, *circuit);
            assert forall|c2: Circuit, env: State| #![trigger fq2_val(c2.eval(env), (c0, c1))] #![trigger canonical2(c2.eval(env), (c0, c1))] c2.extends(*circuit) implies canonical2(c2.eval(env), (c0, c1)) && fq2_val(
                c2.eval(env),
                (c0, c1),
            ) == f2mmul(fq2_val(c2.eval(env), *a), b@) by {
                lemma_extends_trans(s6, *circuit, c2);
                lemma_extends_trans(s5, s6, c2);
                lemma_extends_trans(s4, s5, c2);
                lemma_extends_trans(s3, s4, c2);
                lemma_extends_trans(s2, s3, c2);
                lemma_extends_trans(s1, s2, c2);
                let x = fq2_val(c2.eval(env), *a);
                assert(fq_val(c2.eval(env), sum_mul_sum) == mmul(fadd(x.0, x.1), fadd(b@.0, b@.1)));
                lemma_f2_karatsuba(x, b@);
            }
        }
        (c0, c1)
    }

    /// Montgomery product by a base-field element `b`, that is by `b + 0 * u`.
    pub fn mul_by_fq_montgomery(circuit: &mut Circuit, a: &Pair<BigIntWires>, b: &BigIntWires) -> (c:
        Pair<BigIntWires>)
        requires
            old(circuit).wf(),
            old(circuit).has_room(2),
            is_fq2(*old(circuit), *a),
            old(circuit).is_fq(*b),
        ensures
            grows(*old(circuit), *final(circuit)),
            is_fq2(*final(circuit), c),
            final(circuit).num_wires == old(circuit).num_wires + 2 * 254,
            forall|c2: Circuit, env: State| #![trigger fq2_val(c2.eval(env), c)] #![trigger canonical2(c2.eval(env), c)]
                c2.extends(*final(circuit)) ==> canonical2(c2.eval(env), c) && fq2_val(c2.eval(env), c) == f2mmul(
                    fq2_val(c2.eval(env), *a),
                    (fq_val(c2.eval(env), *b), 0int),
                ),
    {
        let ghost s0 = *circuit;
        let c0 = Fq::mul_montgomery(circuit, &a.0, b);
        let ghost s1 = *circuit;
        let c1 = Fq::mul_montgomery(circuit, &a.1, b);
        proof {
            lemma_grows_trans(s0, s1, *circuit);
            assert forall|c2: Circuit, env: State| #![trigger fq2_val(c2.eval(env), (c0, c1))] #![trigger canonical2(c2.eval(env), (c0, c1))] c2.extends(*circuit) implies canonical2(c2.eval(env), (c0, c1)) && fq2_val(
                c2.eval(env),
                (c0, c1),
            ) == f2mmul(fq2_val(c2.eval(env), *a), (fq_val(c2.eval(env), *b), 0int)) by {
                lemma_extends_trans(s1, *circuit, c2);
                let x = fq2_val(c2.eval(env), *a);
                lemma_f2_embed(x, fq_val(c2.eval(env), *b));
            }
        }
        (c0, c1)
    }

    /// Montgomery product by a base-field constant `b`, that is by `b + 0 * u`.
    pub fn mul_by_constant_fq_montgomery(circuit: &mut Circuit, a: &Pair<BigIntWires>, b: &FqValue) -> (c:
        Pair<BigIntWires>)
        requires
            old(circuit).wf(),
            old(circuit).has_room(2),
            is_fq2(*old(circuit), *a),
            b.wf(),
        ensures
            grows(*old(circuit), *final(circuit)),
            is_fq2(*final(circuit), c),
            final(circuit).num_wires == old(circuit).num_wires + 2 * 254,
            forall|c2: Circuit, env: State| #![trigger fq2_val(c2.eval(env), c)] #![trigger canonical2(c2.eval(env), c)]
                c2.extends(*final(circuit)) ==> canonical2(c2.eval(env), c) && fq2_val(c2.eval(env), c) == f2mmul(
                    fq2_val(c2.eval(env), *a),
                    (b.value(), 0int),
                ),
    {
        let ghost s0 = *circuit;
        let c0 = Fq::mul_by_constant_montgomery(circuit, &a.0, b);
        let ghost s1 = *circuit;
        let c1 = Fq::mul_by_constant_montgomery(circuit, &a.1, b);
        proof {
            lemma_grows_trans(s0, s1, *circuit);
            assert forall|c2: Circuit, env: State| #![trigger fq2_val(c2.eval(env), (c0, c1))] #![trigger canonical2(c2.eval(env), (c0, c1))] c2.extends(*circuit) implies canonical2(c2.eval(env), (c0, c1)) && fq2_val(
                c2.eval(env),
                (c0, c1),
            ) == f2mmul(fq2_val(c2.eval(env), *a), (b.value(), 0int)) by {
                lemma_extends_trans(s1, *circuit, c2);
                lemma_f2_embed(fq2_val(c2.eval(env), *a), b.value());
            }
        }
        (c0, c1)
    }

    /// Montgomery product of an `Fq2` constant `a` by a base-field element `b`.
    pub fn mul_constant_by_fq_montgomery(circuit: &mut Circuit, a: &Fq2Value, b: &BigIntWires) -> (c:
        Pair<BigIntWires>)
        requires
            old(circuit).wf(),
            old(circuit).has_room(2),
            a.wf(),
            old(circuit).is_fq(*b),
        ensures
            grows(*old(circuit), *final(circuit)),
            is_fq2(*final(circuit), c),
            final(circuit).num_wires == old(circuit).num_wires + 2 * 254,
            forall|c2: Circuit, env: State| #![trigger fq2_val(c2.eval(env), c)] #![trigger canonical2(c2.eval(env), c)]
                c2.extends(*final(circuit)) ==> canonical2(c2.eval(env), c) && fq2_val(c2.eval(env), c) == f2mmul(
                    a@,
                    (fq_val(c2.eval(env), *b), 0int),
                ),
    {
        let ghost s0 = *circuit;
        let c0 = Fq::mul_by_constant_montgomery(circuit, b, &a.c0);
        let ghost s1 = *circuit;
        let c1 = Fq::mul_by_constant_montgomery(circuit, b, &a.c1);
        proof {
            lemma_grows_trans(s0, s1, *circuit);
            assert forall|c2: Circuit, env: State| #![trigger fq2_val(c2.eval(env), (c0, c1))] #![trigger canonical2(c2.eval(env), (c0, c1))] c2.extends(*circuit) implies canonical2(c2.eval(env), (c0, c1)) && fq2_val(
                c2.eval(env),
                (c0, c1),
            ) == f2mmul(a@, (fq_val(c2.eval(env), *b), 0int)) by {
                lemma_extends_trans(s1, *circuit, c2);
                let y = fq_val(c2.eval(env), *b);
                lemma_f2_embed(a@, y);
                assert(y * a@.0 * r_inv() == a@.0 * y * r_inv()) by (nonlinear_arith);
                assert(y * a@.1 * r_inv() == a@.1 * y * r_inv()) by (nonlinear_arith);
            }
        }
        (c0, c1)
    }

    /// Product by the sextic non-residue `9 + u`.
    pub fn mul_by_nonresidue(circuit: &mut Circuit, a: &Pair<BigIntWires>) -> (c: Pair<BigIntWires>)
        requires
            old(circuit).wf(),
            old(circuit).has_room(6),
            is_fq2(*old(circuit), *a),
        ensures
            grows(*old(circuit), *final(circuit)),
            is_fq2(*final(circuit), c),
            final(circuit).num_wires == old(circuit).num_wires + 6 * 254,
            forall|c2: Circuit, env: State| #![trigger fq2_val(c2.eval(env), c)] #![trigger canonical2(c2.eval(env), c)]
                c2.extends(*final(circuit)) ==> canonical2(c2.eval(env), c) && fq2_val(c2.eval(env), c) == f2nonres(
                    fq2_val(c2.eval(env), *a),
                ),
    {
        let ghost s0 = *circuit;
        let a0_3 = Fq::triple(circuit, &a.0);
        let ghost s1 = *circuit;
        let a0_9 = Fq::triple(circuit, &a0_3);
        let ghost s2 = *circuit;
        let a1_3 = Fq::triple(circuit, &a.1);
        let ghost s3 = *circuit;
        let a1_9 = Fq::triple(circuit, &a1_3);
        let ghost s4 = *circuit;
        let c0 = Fq::sub(circuit, &a0_9, &a.1);
        let ghost s5 = *circuit;
        let c1 = Fq::add(circuit, &a1_9, &a.0);
        proof {
            lemma_grows_trans(s0, s1, s2);
            lemma_grows_trans(s0, s2, s3);
            lemma_grows_trans(s0, s3, s4);
            lemma_grows_trans(s0, s4, s5);
            lemma_grows_trans(s0, s5, *circuit);
            assert forall|c2: Circuit, env: State| #![trigger fq2_val(c2.eval(env), (c0, c1))] #![trigger canonical2(c2.eval(env), (c0, c1))] c2.extends(*circuit) implies canonical2(c2.eval(env), (c0, c1)) && fq2_val(
                c2.eval(env),
                (c0, c1),
            ) == f2nonres(fq2_val(c2.eval(env), *a)) by {
                lemma_extends_trans(s5, *circuit, c2);
                lemma_extends_trans(s4, s5, c2);
                lemma_extends_trans(s3, s4, c2);
                lemma_extends_trans(s2, s3, c2);
                lemma_extends_trans(s1, s2, c2);
                let x = fq2_val(c2.eval(env), *a);
                lemma_fq2_canonical(c2.eval(env), *a);
                assert(fq_val(c2.eval(env), a0_9) == fred(3 * fred(3 * x.0)));
                assert(fq_val(c2.eval(env), a1_9) == fred(3 * fred(3 * x.1)));
                lemma_f2_nonres(x);
            }
        }
        (c0, c1)
    }

    /// Montgomery square, as `((a0 + a1)(a0 - a1), 2 a0 a1)`.
    pub fn square_montgomery(circuit: &mut Circuit, a: &Pair<BigIntWires>) -> (c: Pair<BigIntWires>)
        requires
            old(circuit).wf(),
            old(circuit).has_room(5),
            is_fq2(*old(circuit), *a),
        ensures
            grows(*old(circuit), *final(circuit)),
            is_fq2(*final(circuit), c),
            final(circuit).num_wires == old(circuit).num_wires + 5 * 254,
            forall|c2: Circuit, env: State| #![trigger fq2_val(c2.eval(env), c)] #![trigger canonical2(c2.eval(env), c)]
                c2.extends(*final(circuit)) ==> canonical2(c2.eval(env), c) && fq2_val(c2.eval(env), c) == f2mmul(
                    fq2_val(c2.eval(env), *a),
                    fq2_val(c2.eval(env), *a),
                ),
    {
        let ghost s0 = *circuit;
        let a0_plus_a1 = Fq::add(circuit, &a.0, &a.1);
        let ghost s1 = *circuit;
        let a0_minus_a1 = Fq::sub(circuit, &a.0, &a.1);
        let ghost s2 = *circuit;
        let a0_a1 = Fq::mul_montgomery(circuit, &a.0, &a.1);
        let ghost s3 = *circuit;
        let c0 = Fq::mul_montgomery(circuit, &a0_plus_a1, &a0_minus_a1);
        let ghost s4 = *circuit;
        let c1 = Fq::double(circuit, &a0_a1);
        proof {
            lemma_grows_trans(s0, s1, s2);
            lemma_grows_trans(s0, s2, s3);
            lemma_grows_trans(s0, s3, s4);
            lemma_grows_trans(s0, s4, *circuit);
            assert forall|c2: Circuit, env: State| #![trigger fq2_val(c2.eval(env), (c0, c1))] #![trigger canonical2(c2.eval(env), (c0, c1))] c2.extends(*circuit) implies canonical2(c2.eval(env), (c0, c1)) && fq2_val(
                c2.eval(env),
                (c0, c1),
            ) == f2mmul(fq2_val(c2.eval(env), *a), fq2_val(c2.eval(env), *a)) by {
                lemma_extends_trans(s4, *circuit, c2);
                lemma_extends_trans(s3, s4, c2);
                lemma_extends_trans(s2, s3, c2);
                lemma_extends_trans(s1, s2, c2);
                let x = fq2_val(c2.eval(env), *a);
                assert(fq_val(c2.eval(env), c0) == mmul(fadd(x.0, x.1), fsub(x.0, x.1)));
                lemma_f2_square(x);
            }
        }
        (c0, c1)
    }

    /// Montgomery inverse: the conjugate times the inverse of the norm.
    pub fn inverse_montgomery(circuit: &mut Circuit, a: &Pair<BigIntWires>) -> (c: Pair<BigIntWires>)
        requires
            old(circuit).wf(),
            old(circuit).has_room(7),
            is_fq2(*old(circuit), *a),
        ensures
            grows(*old(circuit), *final(circuit)),
            is_fq2(*final(circuit), c),
            final(circuit).num_wires == old(circuit).num_wires + 7 * 254,
            forall|c2: Circuit, env: State| #![trigger fq2_val(c2.eval(env), c)] #![trigger canonical2(c2.eval(env), c)]
                c2.extends(*final(circuit)) ==> canonical2(c2.eval(env), c) && fq2_val(c2.eval(env), c) == f2minv(
                    fq2_val(c2.eval(env), *a),
                ),
    {
        let ghost s0 = *circuit;
        let norm = Self::norm_montgomery(circuit, &a.0, &a.1);
        let ghost s1 = *circuit;
        let inverse_norm = Fq::inverse_montgomery(circuit, &norm);
        let ghost s2 = *circuit;
        let c0 = Fq::mul_montgomery(circuit, &a.0, &inverse_norm);
        let ghost s3 = *circuit;
        let neg_a1 = Fq::neg(circuit, &a.1);
        let ghost s4 = *circuit;
        let c1 = Fq::mul_montgomery(circuit, &neg_a1, &inverse_norm);
        proof {
            lemma_grows_trans(s0, s1, s2);
            lemma_grows_trans(s0, s2, s3);
            lemma_grows_trans(s0, s3, s4);
            lemma_grows_trans(s0, s4, *circuit);
            assert forall|c2: Circuit, env: State| #![trigger fq2_val(c2.eval(env), (c0, c1))] #![trigger canonical2(c2.eval(env), (c0, c1))] c2.extends(*circuit) implies canonical2(c2.eval(env), (c0, c1)) && fq2_val(
                c2.eval(env),
                (c0, c1),
            ) == f2minv(fq2_val(c2.eval(env), *a)) by {
                lemma_extends_trans(s4, *circuit, c2);
                lemma_extends_trans(s3, s4, c2);
                lemma_extends_trans(s2, s3, c2);
                lemma_extends_trans(s1, s2, c2);
                assert(fq_val(c2.eval(env), norm) == f2mnorm(fq2_val(c2.eval(env), *a)));
            }
        }
        (c0, c1)
    }

    /// The `i`-th power of the Frobenius map: the second coordinate times the
    /// Montgomery form of `FROBENIUS_COEFF_FP2_C1[i mod 2]`, which is one for even
    /// `i` and minus one for odd `i`.
    pub fn frobenius_montgomery(circuit: &mut Circuit, a: &Pair<BigIntWires>, i: usize) -> (c: Pair<
        BigIntWires,
    >)
        requires
            old(circuit).wf(),
            old(circuit).has_room(1),
            is_fq2(*old(circuit), *a),
        ensures
            grows(*old(circuit), *final(circuit)),
            is_fq2(*final(circuit), c),
            final(circuit).num_wires == old(circuit).num_wires + 254,
            c.0 == a.0,
            c.1.start == old(circuit).num_wires,
            forall|c2: Circuit, env: State| #![trigger fq2_val(c2.eval(env), c)] #![trigger canonical(c2.eval(env), c.1)]
                c2.extends(*final(circuit)) ==> canonical(c2.eval(env), c.1) && fq2_val(c2.eval(env), c) == f2frobenius(
                    fq2_val(c2.eval(env), *a),
                    i as int,
                ),
    {
        let coeff = fq2_frobenius_coeff_c1(i % 2);
        let k = Fq::as_montgomery(coeff);
        let c1 = Fq::mul_by_constant_montgomery(circuit, &a.1, &k);
        proof {
            assert forall|c2: Circuit, env: State| #![trigger fq2_val(c2.eval(env), (a.0, c1))] #![trigger canonical(c2.eval(env), c1)] c2.extends(*circuit) implies canonical(c2.eval(env), c1) && fq2_val(
                c2.eval(env),
                (a.0, c1),
            ) == f2frobenius(fq2_val(c2.eval(env), *a), i as int) by {
                lemma_fq2_canonical(c2.eval(env), *a);
                lemma_mmul_unit(fq_val(c2.eval(env), a.1));
            }
        }
        (a.0, c1)
    }

    /// Square root, in Montgomery form, of an element `c0 + 0 * u` whose
    /// second coordinate is zero, given the wire `is_qr` telling whether `c0`
    /// is a square: `(sqrt(c0), 0)` where `is_qr` is set and `(0, sqrt(-c0))`
    /// elsewhere, each square root the power `(p + 1) / 4`.
    pub fn sqrt_c1_zero_montgomery(circuit: &mut Circuit, a: &Pair<BigIntWires>, is_qr: WireId) -> (c:
        Pair<BigIntWires>)
        requires
            old(circuit).wf(),
            old(circuit).has_room(6),
            is_fq2(*old(circuit), *a),
            is_qr < old(circuit).num_wires,
        ensures
            grows(*old(circuit), *final(circuit)),
            is_fq2(*final(circuit), c),
            final(circuit).num_wires == old(circuit).num_wires + 6 * 254,
            forall|c2: Circuit, env: State| #![trigger fq2_val(c2.eval(env), c)] #![trigger canonical2(c2.eval(env), c)]
                c2.extends(*final(circuit)) ==> canonical2(c2.eval(env), c) && fq2_val(c2.eval(env), c) == if wire(
                    c2.eval(env),
                    is_qr,
                ) {
                    (mexp(fq_val(c2.eval(env), a.0), ((p() + 1) / 4) as nat), 0int)
                } else {
                    (0int, mexp(fneg(fq_val(c2.eval(env), a.0)), ((p() + 1) / 4) as nat))
                },
    {
        let ghost s0 = *circuit;
        let c0_sqrt = Fq::sqrt_montgomery(circuit, &a.0);
        let ghost s1 = *circuit;
        let c0_neg = Fq::neg(circuit, &a.0);
        let ghost s2 = *circuit;
        let c1_sqrt = Fq::sqrt_montgomery(circuit, &c0_neg);
        let ghost s3 = *circuit;
        let zero = BigIntWires::new_constant(circuit, &FqValue::zero());
        let ghost s4 = *circuit;
        let c0_final = select(circuit, &c0_sqrt, &zero, is_qr);
        let ghost s5 = *circuit;
        let c1_final = select(circuit, &zero, &c1_sqrt, is_qr);
        proof {
            lemma_grows_trans(s0, s1, s2);
            lemma_grows_trans(s0, s2, s3);
            lemma_grows_trans(s0, s3, s4);
            lemma_grows_trans(s0, s4, s5);
            lemma_grows_trans(s0, s5, *circuit);
            assert forall|c2: Circuit, env: State| #![trigger fq2_val(c2.eval(env), (c0_final, c1_final))] #![trigger canonical2(c2.eval(env), (c0_final, c1_final))] c2.extends(*circuit) implies canonical2(c2.eval(env), (c0_final, c1_final)) && fq2_val(
                c2.eval(env),
                (c0_final, c1_final),
            ) == if wire(c2.eval(env), is_qr) {
                (mexp(fq_val(c2.eval(env), a.0), ((p() + 1) / 4) as nat), 0int)
            } else {
                (0int, mexp(fneg(fq_val(c2.eval(env), a.0)), ((p() + 1) / 4) as nat))
            } by {
                lemma_extends_trans(s5, *circuit, c2);
                lemma_extends_trans(s4, s5, c2);
                lemma_extends_trans(s3, s4, c2);
                lemma_extends_trans(s2, s3, c2);
                lemma_extends_trans(s1, s2, c2);
            }
        }
        (c0_final, c1_final)
    }

    /// Norm `c0^2 + c1^2` of `c0 + c1 * u`, with Montgomery squares.
    pub fn norm_montgomery(circuit: &mut Circuit, c0: &BigIntWires, c1: &BigIntWires) -> (c:
        BigIntWires)
        requires
            old(circuit).wf(),
            old(circuit).has_room(3),
            old(circuit).is_fq(*c0),
            old(circuit).is_fq(*c1),
        ensures
            grows(*old(circuit), *final(circuit)),
            final(circuit).is_fq(c),
            final(circuit).num_wires == old(circuit).num_wires + 3 * 254,
            forall|c2: Circuit, env: State| #![trigger fq_val(c2.eval(env), c)] #![trigger canonical(c2.eval(env), c)]
                c2.extends(*final(circuit)) ==> canonical(c2.eval(env), c) && fq_val(c2.eval(env), c) == f2mnorm(
                    (fq_val(c2.eval(env), *c0), fq_val(c2.eval(env), *c1)),
                ),
    {
        let ghost s0 = *circuit;
        let c0_square = Fq::square_montgomery(circuit, c0);
        let ghost s1 = *circuit;
        let c1_square = Fq::square_montgomery(circuit, c1);
        let ghost s2 = *circuit;
        let c = Fq::add(circuit, &c0_square, &c1_square);
        proof {
            lemma_grows_trans(s0, s1, s2);
            lemma_grows_trans(s0, s2, *circuit);
            assert forall|c2: Circuit, env: State| #![trigger fq_val(c2.eval(env), c)] #![trigger canonical(c2.eval(env), c)] c2.extends(*circuit) implies canonical(c2.eval(env), c) && fq_val(
                c2.eval(env),
                c,
            ) == f2mnorm((fq_val(c2.eval(env), *c0), fq_val(c2.eval(env), *c1))) by {
                lemma_extends_trans(s2, *circuit, c2);
                lemma_extends_trans(s1, s2, c2);
            }
        }
        c
    }

    /// A wire that is set exactly when the element equals the constant `b`,
    /// coordinate by coordinate as `Fq::equal_constant` compares them.
    pub fn equal_constant(circuit: &mut Circuit, a: &Pair<BigIntWires>, b: &Fq2Value) -> (w: WireId)
        requires
            old(circuit).wf(),
            old(circuit).has_room(3),
            is_fq2(*old(circuit), *a),
            b.wf(),
        ensures
            grows(*old(circuit), *final(circuit)),
            w == final(circuit).num_wires - 1,
            final(circuit).num_wires == old(circuit).num_wires + 3,
            forall|c2: Circuit, env: State|
                c2.extends(*final(circuit)) ==> #[trigger] wire(c2.eval(env), w) == (fq2_val(
                    c2.eval(env),
                    *a,
                ) == b@),
    {
        let ghost s0 = *circuit;
        let u = Fq::equal_constant(circuit, &a.0, &b.c0);
        let ghost s1 = *circuit;
        let v = Fq::equal_constant(circuit, &a.1, &b.c1);
        let ghost s2 = *circuit;
        let out = circuit.add_gate(GateKind::And, u, v);
        proof {
            lemma_grows_trans(s0, s1, s2);
            lemma_grows_trans(s0, s2, *circuit);
            assert forall|c2: Circuit, env: State| c2.extends(*circuit) implies #[trigger] wire(
                c2.eval(env),
                out.start,
            ) == (fq2_val(c2.eval(env), *a) == b@) by {
                lemma_extends_trans(s2, *circuit, c2);
                lemma_extends_trans(s1, s2, c2);
                lemma_single_wire(c2.eval(env), out);
            }
        }
        out.start
    }

    /// The wire values of both bundles as `"c0: <bits>, c1: <bits>"`, each
    /// bundle's bits lowest wire first.
    pub fn to_bitmask(wires: &Pair<BigIntWires>, values: &Vec<bool>) -> (s: String)
        requires
            wires.0.below(values.len() as int),
            wires.1.below(values.len() as int),
        ensures
            s@ == fq2_bitmask(*wires, values@),
    {
        let mut out: Vec<char> = Vec::new();
        push_fq2_bitmask(wires, values, &mut out);
        proof {
            assert(out@ =~= fq2_bitmask(*wires, values@));
        }
        string_from_chars(out)
    }
}

/// `"c0: <bits>, c1: <bits>"` for the pair's wire values.
pub open spec fn fq2_bitmask(w: Pair<BigIntWires>, values: Seq<bool>) -> Seq<char> {
    seq!['c', '0', ':', ' '] + bitmask(w.0.bits_in(env_of(values))) + seq![
        ',',
        ' ',
        'c',
        '1',
        ':',
        ' ',
    ] + bitmask(w.1.bits_in(env_of(values)))
}

/// Append `fq2_bitmask` of the pair.
pub fn push_fq2_bitmask(wires: &Pair<BigIntWires>, values: &Vec<bool>, out: &mut Vec<char>)
    requires
        wires.0.below(values.len() as int),
        wires.1.below(values.len() as int),
    ensures
        final(out)@ == old(out)@ + fq2_bitmask(*wires, values@),
{
    let ghost start = out@;
    out.push('c');
    out.push('0');
    out.push(':');
    out.push(' ');
    wires.0.push_bitmask(values, out);
    out.push(',');
    out.push(' ');
    out.push('c');
    out.push('1');
    out.push(':');
    out.push(' ');
    wires.1.push_bitmask(values, out);
    proof {
        assert(out@ =~= start + fq2_bitmask(*wires, values@));
    }
}

/// The first-coordinate Frobenius coefficients of `ark_bn254::Fq2Config`,
/// `FROBENIUS_COEFF_FP2_C1[i]`: one for `i = 0`, minus one for `i = 1`.
#[verifier::external_body]
fn fq2_frobenius_coeff_c1(i: usize) -> (r: FqValue)
    requires
        i < 2,
    ensures
        r.wf(),
        i == 0 ==> r.value() == 1,
        i == 1 ==> r.value() == p() - 1,
{
    FqValue { limbs: ark_bn254::Fq2Config::FROBENIUS_COEFF_FP2_C1[i].into_bigint().0 }
}

} // verus!

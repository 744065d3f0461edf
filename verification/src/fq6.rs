//! The sextic extension `Fq6 = Fq2[v]/(v^3 - (9 + u))`: conversions of
//! concrete values and the gadgets on triples of `Fq2` bundle pairs.
use crate::bits::bits_to_nat;
use crate::circuit::{
    canonical, env_of, grows, lemma_extends_trans, lemma_grows_trans, lemma_single_wire, string_from_chars, wire,
    BigIntWires, Circuit, GateKind, State, WireId,
};
use crate::field::fred;
use crate::fq::Fq;
use crate::fq2::{
    canonical2, fq2_bitmask, fq2_val, is_fq2, lemma_fq2_canonical, push_fq2_bitmask, Fq2, Pair,
};
use crate::tower::{
    f2add, f2frobenius, f2from_mont, f2mmul, f2to_mont, f6frobenius, frob6_c1, frob6_c2, lemma_f2_sum3, f6_canonical, f6add, f6by01_formula, f6div6, f6double,
    f6interp, f6minv, f6mmul, f6neg, f6nonres, f6points, f6sqr_formula, f6sub, f6triple,
    lemma_f6_by01, lemma_f6_square, lemma_f6_toom,
};
use crate::value::{Fq2Value, Fq6Value, FqValue};
use ark_ff::{Fp6Config, PrimeField};
use vstd::prelude::*;

verus! {

/// The three `Fq2` coordinates `c0 + c1 * v + c2 * v^2` of an `Fq6` element.
pub type Fq6Components<T> = [Pair<T>; 3];

/// The sextic extension `Fq6`.
pub struct Fq6;

/// The `Fq6` element on three pairs of bundles.
pub open spec fn fq6_val(m: State, w: Fq6Components<BigIntWires>) -> ((int, int), (int, int), (int, int)) {
    (fq2_val(m, w[0]), fq2_val(m, w[1]), fq2_val(m, w[2]))
}

/// All six bundles hold canonical integers, so their wires carry the bits
/// of the coordinates.
pub open spec fn canonical6(m: State, w: Fq6Components<BigIntWires>) -> bool {
    canonical2(m, w[0]) && canonical2(m, w[1]) && canonical2(m, w[2])
}

/// Every bundle holds a base-field element of circuit `c`.
pub open spec fn is_fq6(c: Circuit, w: Fq6Components<BigIntWires>) -> bool {
    is_fq2(c, w[0]) && is_fq2(c, w[1]) && is_fq2(c, w[2])
}

/// The six bundles of an `Fq6` element, in order.
pub open spec fn fq6_bundles(w: Fq6Components<BigIntWires>) -> Seq<BigIntWires> {
    seq![w[0].0, w[0].1, w[1].0, w[1].1, w[2].0, w[2].1]
}

/// Two bundles share no wire.
pub open spec fn apart(v: BigIntWires, w: BigIntWires) -> bool {
    v.below(w.start as int) || w.below(v.start as int)
}

/// The six bundles hold base-field elements and share no wire.
pub open spec fn fq6_bundles_apart(w: Fq6Components<BigIntWires>) -> bool {
    &&& forall|i: int| 0 <= i < 6 ==> (#[trigger] fq6_bundles(w)[i]).len == 254
    &&& forall|i: int, j: int| 0 <= i < j < 6 ==> apart(#[trigger] fq6_bundles(w)[i], #[trigger] fq6_bundles(w)[j])
}

/// Values on bundles are canonical.
pub proof fn lemma_fq6_canonical(m: State, w: Fq6Components<BigIntWires>)
    ensures
        f6_canonical(fq6_val(m, w)),
{
    lemma_fq2_canonical(m, w[0]);
    lemma_fq2_canonical(m, w[1]);
    lemma_fq2_canonical(m, w[2]);
}

impl Fq6 {
    /// Number of bits of an `Fq6` element.
    pub const N_BITS: usize = 3 * Fq2::N_BITS;

    /// Fresh wires for an `Fq6` element, all six bundles registered as input
    /// and/or output as asked.
    pub fn new_bn(circuit: &mut Circuit, is_input: bool, is_output: bool) -> (w: Fq6Components<
        BigIntWires,
    >)
        requires
            old(circuit).wf(),
            old(circuit).has_room(6),
        ensures
            is_fq6(*final(circuit), w),
            fq6_bundles_apart(w),
            forall|k: int|
                0 <= k < 6 ==> (#[trigger] fq6_bundles(w)[k]).start == old(circuit).num_wires + 254
                    * k,
            final(circuit).num_wires == old(circuit).num_wires + 6 * 254,
            final(circuit).wf(),
            final(circuit).extends(*old(circuit)),
            final(circuit).gates@ == old(circuit).gates@,
            final(circuit).inputs@ == if is_input {
                old(circuit).inputs@.push(w[0].0).push(w[0].1).push(w[1].0).push(w[1].1).push(
                    w[2].0,
                ).push(w[2].1)
            } else {
                old(circuit).inputs@
            },
            final(circuit).outputs@ == if is_output {
                old(circuit).outputs@.push(w[0].0).push(w[0].1).push(w[1].0).push(w[1].1).push(
                    w[2].0,
                ).push(w[2].1)
            } else {
                old(circuit).outputs@
            },
    {
        let ghost s0 = *circuit;
        let x = Fq2::new_bn(circuit, is_input, is_output);
        let ghost s1 = *circuit;
        let y = Fq2::new_bn(circuit, is_input, is_output);
        let ghost s2 = *circuit;
        let z = Fq2::new_bn(circuit, is_input, is_output);
        proof {
            lemma_extends_trans(s0, s1, s2);
            lemma_extends_trans(s0, s2, *circuit);
            let w = [x, y, z];
            let b = fq6_bundles(w);
            assert(b[0] == x.0 && b[1] == x.1 && b[2] == y.0 && b[3] == y.1 && b[4] == z.0 && b[5]
                == z.1);
        }
        [x, y, z]
    }

    /// Write every coordinate of `value` on `wires` of the wire values
    /// `values`, as an input assignment for `Circuit::simple_evaluate`.
    pub fn set_wire_value(values: &mut Vec<bool>, wires: &Fq6Components<BigIntWires>, value: &Fq6Value)
        requires
            fq6_bundles_apart(*wires),
            forall|i: int| 0 <= i < 6 ==> (#[trigger] fq6_bundles(*wires)[i]).below(old(values).len() as int),
            value.wf(),
        ensures
            final(values).len() == old(values).len(),
            fq6_val(env_of(final(values)@), *wires) == value@,
    {
        let ghost b = fq6_bundles(*wires);
        assert(b[0].below(values.len() as int) && b[1].below(values.len() as int));
        assert(b[2].below(values.len() as int) && b[3].below(values.len() as int));
        assert(b[4].below(values.len() as int) && b[5].below(values.len() as int));
        assert(apart(b[0], b[1]) && apart(b[2], b[3]) && apart(b[4], b[5]));
        Fq2::set_wire_value(values, &wires[0], &value.c0);
        let ghost v1 = values@;
        Fq2::set_wire_value(values, &wires[1], &value.c1);
        let ghost v2 = values@;
        Fq2::set_wire_value(values, &wires[2], &value.c2);
        proof {
            assert(apart(b[0], b[2]) && apart(b[0], b[3]) && apart(b[0], b[4]) && apart(b[0], b[5]));
            assert(apart(b[1], b[2]) && apart(b[1], b[3]) && apart(b[1], b[4]) && apart(b[1], b[5]));
            assert(apart(b[2], b[4]) && apart(b[2], b[5]) && apart(b[3], b[4]) && apart(b[3], b[5]));
            assert(wires[0].0.bits_in(env_of(values@)) =~= wires[0].0.bits_in(env_of(v1)));
            assert(wires[0].1.bits_in(env_of(values@)) =~= wires[0].1.bits_in(env_of(v1)));
            assert(wires[1].0.bits_in(env_of(values@)) =~= wires[1].0.bits_in(env_of(v2)));
            assert(wires[1].1.bits_in(env_of(values@)) =~= wires[1].1.bits_in(env_of(v2)));
        }
    }

    /// The `Fq6` element on `wires` of the wire values `values`.
    pub fn wire_value(values: &Vec<bool>, wires: &Fq6Components<BigIntWires>) -> (r: Fq6Value)
        requires
            forall|i: int| 0 <= i < 6 ==> (#[trigger] fq6_bundles(*wires)[i]).below(values.len() as int),
        ensures
            r.wf(),
            r@ == fq6_val(env_of(values@), *wires),
    {
        let ghost b = fq6_bundles(*wires);
        assert(b[0].below(values.len() as int) && b[1].below(values.len() as int));
        assert(b[2].below(values.len() as int) && b[3].below(values.len() as int));
        assert(b[4].below(values.len() as int) && b[5].below(values.len() as int));
        Fq6Value {
            c0: Fq2::wire_value(values, &wires[0]),
            c1: Fq2::wire_value(values, &wires[1]),
            c2: Fq2::wire_value(values, &wires[2]),
        }
    }

    /// Sum.
    pub fn add(
        circuit: &mut Circuit,
        a: &Fq6Components<BigIntWires>,
        b: &Fq6Components<BigIntWires>,
    ) -> (c: Fq6Components<BigIntWires>)
        requires
            old(circuit).wf(),
            old(circuit).has_room(6),
            is_fq6(*old(circuit), *a),
            is_fq6(*old(circuit), *b),
        ensures
            grows(*old(circuit), *final(circuit)),
            is_fq6(*final(circuit), c),
            final(circuit).num_wires == old(circuit).num_wires + 6 * 254,
            forall|c2: Circuit, env: State| #![trigger fq6_val(c2.eval(env), c)] #![trigger canonical6(c2.eval(env), c)]
                c2.extends(*final(circuit)) ==> canonical6(c2.eval(env), c) && fq6_val(c2.eval(env), c) == f6add(
                    fq6_val(c2.eval(env), *a),
                    fq6_val(c2.eval(env), *b),
                ),
    {
        let ghost s0 = *circuit;
        let x = Fq2::add(circuit, a[0], b[0]);
        let ghost s1 = *circuit;
        let y = Fq2::add(circuit, a[1], b[1]);
        let ghost s2 = *circuit;
        let z = Fq2::add(circuit, a[2], b[2]);
        let c = [x, y, z];
        proof {
            lemma_grows_trans(s0, s1, s2);
            lemma_grows_trans(s0, s2, *circuit);
            assert forall|c2: Circuit, env: State| #![trigger fq6_val(c2.eval(env), c)] #![trigger canonical6(c2.eval(env), c)] c2.extends(*circuit) implies canonical6(c2.eval(env), c) && fq6_val(
                c2.eval(env),
                c,
            ) == f6add(fq6_val(c2.eval(env), *a), fq6_val(c2.eval(env), *b)) by {
                lemma_extends_trans(s2, *circuit, c2);
                lemma_extends_trans(s1, s2, c2);
            }
        }
        c
    }

    /// Negation.
    pub fn neg(
        circuit: &mut Circuit,
        a: &Fq6Components<BigIntWires>,
    ) -> (c: Fq6Components<BigIntWires>)
        requires
            old(circuit).wf(),
            old(circuit).has_room(6),
            is_fq6(*old(circuit), *a),
        ensures
            grows(*old(circuit), *final(circuit)),
            is_fq6(*final(circuit), c),
            final(circuit).num_wires == old(circuit).num_wires + 6 * 254,
            forall|c2: Circuit, env: State| #![trigger fq6_val(c2.eval(env), c)] #![trigger canonical6(c2.eval(env), c)]
                c2.extends(*final(circuit)) ==> canonical6(c2.eval(env), c) && fq6_val(c2.eval(env), c) == f6neg(fq6_val(c2.eval(env), *a)),
    {
        let ghost s0 = *circuit;
        let x = Fq2::neg(circuit, a[0]);
        let ghost s1 = *circuit;
        let y = Fq2::neg(circuit, a[1]);
        let ghost s2 = *circuit;
        let z = Fq2::neg(circuit, a[2]);
        let c = [x, y, z];
        proof {
            lemma_grows_trans(s0, s1, s2);
            lemma_grows_trans(s0, s2, *circuit);
            assert forall|c2: Circuit, env: State| #![trigger fq6_val(c2.eval(env), c)] #![trigger canonical6(c2.eval(env), c)] c2.extends(*circuit) implies canonical6(c2.eval(env), c) && fq6_val(
                c2.eval(env),
                c,
            ) == f6neg(fq6_val(c2.eval(env), *a)) by {
                lemma_extends_trans(s2, *circuit, c2);
                lemma_extends_trans(s1, s2, c2);
            }
        }
        c
    }

    /// Difference.
    pub fn sub(
        circuit: &mut Circuit,
        a: &Fq6Components<BigIntWires>,
        b: &Fq6Components<BigIntWires>,
    ) -> (c: Fq6Components<BigIntWires>)
        requires
            old(circuit).wf(),
            old(circuit).has_room(6),
            is_fq6(*old(circuit), *a),
            is_fq6(*old(circuit), *b),
        ensures
            grows(*old(circuit), *final(circuit)),
            is_fq6(*final(circuit), c),
            final(circuit).num_wires == old(circuit).num_wires + 6 * 254,
            forall|c2: Circuit, env: State| #![trigger fq6_val(c2.eval(env), c)] #![trigger canonical6(c2.eval(env), c)]
                c2.extends(*final(circuit)) ==> canonical6(c2.eval(env), c) && fq6_val(c2.eval(env), c) == f6sub(fq6_val(c2.eval(env), *a), fq6_val(c2.eval(env), *b)),
    {
        let ghost s0 = *circuit;
        let x = Fq2::sub(circuit, &a[0], &b[0]);
        let ghost s1 = *circuit;
        let y = Fq2::sub(circuit, &a[1], &b[1]);
        let ghost s2 = *circuit;
        let z = Fq2::sub(circuit, &a[2], &b[2]);
        let c = [x, y, z];
        proof {
            lemma_grows_trans(s0, s1, s2);
            lemma_grows_trans(s0, s2, *circuit);
            assert forall|c2: Circuit, env: State| #![trigger fq6_val(c2.eval(env), c)] #![trigger canonical6(c2.eval(env), c)] c2.extends(*circuit) implies canonical6(c2.eval(env), c) && fq6_val(
                c2.eval(env),
                c,
            ) == f6sub(fq6_val(c2.eval(env), *a), fq6_val(c2.eval(env), *b)) by {
                lemma_extends_trans(s2, *circuit, c2);
                lemma_extends_trans(s1, s2, c2);
            }
        }
        c
    }

    /// Double.
    pub fn double(
        circuit: &mut Circuit,
        a: &Fq6Components<BigIntWires>,
    ) -> (c: Fq6Components<BigIntWires>)
        requires
            old(circuit).wf(),
            old(circuit).has_room(6),
            is_fq6(*old(circuit), *a),
        ensures
            grows(*old(circuit), *final(circuit)),
            is_fq6(*final(circuit), c),
            final(circuit).num_wires == old(circuit).num_wires + 6 * 254,
            forall|c2: Circuit, env: State| #![trigger fq6_val(c2.eval(env), c)] #![trigger canonical6(c2.eval(env), c)]
                c2.extends(*final(circuit)) ==> canonical6(c2.eval(env), c) && fq6_val(c2.eval(env), c) == f6double(fq6_val(c2.eval(env), *a)),
    {
        let ghost s0 = *circuit;
        let x = Fq2::double(circuit, &a[0]);
        let ghost s1 = *circuit;
        let y = Fq2::double(circuit, &a[1]);
        let ghost s2 = *circuit;
        let z = Fq2::double(circuit, &a[2]);
        let c = [x, y, z];
        proof {
            lemma_grows_trans(s0, s1, s2);
            lemma_grows_trans(s0, s2, *circuit);
            assert forall|c2: Circuit, env: State| #![trigger fq6_val(c2.eval(env), c)] #![trigger canonical6(c2.eval(env), c)] c2.extends(*circuit) implies canonical6(c2.eval(env), c) && fq6_val(
                c2.eval(env),
                c,
            ) == f6double(fq6_val(c2.eval(env), *a)) by {
                lemma_extends_trans(s2, *circuit, c2);
                lemma_extends_trans(s1, s2, c2);
            }
        }
        c
    }

    /// Division by six.
    pub fn div6(
        circuit: &mut Circuit,
        a: &Fq6Components<BigIntWires>,
    ) -> (c: Fq6Components<BigIntWires>)
        requires
            old(circuit).wf(),
            old(circuit).has_room(6),
            is_fq6(*old(circuit), *a),
        ensures
            grows(*old(circuit), *final(circuit)),
            is_fq6(*final(circuit), c),
            final(circuit).num_wires == old(circuit).num_wires + 6 * 254,
            forall|c2: Circuit, env: State| #![trigger fq6_val(c2.eval(env), c)] #![trigger canonical6(c2.eval(env), c)]
                c2.extends(*final(circuit)) ==> canonical6(c2.eval(env), c) && fq6_val(c2.eval(env), c) == f6div6(fq6_val(c2.eval(env), *a)),
    {
        let ghost s0 = *circuit;
        let x = Fq2::div6(circuit, &a[0]);
        let ghost s1 = *circuit;
        let y = Fq2::div6(circuit, &a[1]);
        let ghost s2 = *circuit;
        let z = Fq2::div6(circuit, &a[2]);
        let c = [x, y, z];
        proof {
            lemma_grows_trans(s0, s1, s2);
            lemma_grows_trans(s0, s2, *circuit);
            assert forall|c2: Circuit, env: State| #![trigger fq6_val(c2.eval(env), c)] #![trigger canonical6(c2.eval(env), c)] c2.extends(*circuit) implies canonical6(c2.eval(env), c) && fq6_val(
                c2.eval(env),
                c,
            ) == f6div6(fq6_val(c2.eval(env), *a)) by {
                lemma_extends_trans(s2, *circuit, c2);
                lemma_extends_trans(s1, s2, c2);
            }
        }
        c
    }

    /// Triple.
    pub fn triple(
        circuit: &mut Circuit,
        a: &Fq6Components<BigIntWires>,
    ) -> (c: Fq6Components<BigIntWires>)
        requires
            old(circuit).wf(),
            old(circuit).has_room(12),
            is_fq6(*old(circuit), *a),
        ensures
            grows(*old(circuit), *final(circuit)),
            is_fq6(*final(circuit), c),
            final(circuit).num_wires == old(circuit).num_wires + 12 * 254,
            forall|c2: Circuit, env: State| #![trigger fq6_val(c2.eval(env), c)] #![trigger canonical6(c2.eval(env), c)]
                c2.extends(*final(circuit)) ==> canonical6(c2.eval(env), c) && fq6_val(c2.eval(env), c) == f6triple(fq6_val(c2.eval(env), *a)),
    {
        let ghost s0 = *circuit;
        let x = Fq2::triple(circuit, &a[0]);
        let ghost s1 = *circuit;
        let y = Fq2::triple(circuit, &a[1]);
        let ghost s2 = *circuit;
        let z = Fq2::triple(circuit, &a[2]);
        let c = [x, y, z];
        proof {
            lemma_grows_trans(s0, s1, s2);
            lemma_grows_trans(s0, s2, *circuit);
            assert forall|c2: Circuit, env: State| #![trigger fq6_val(c2.eval(env), c)] #![trigger canonical6(c2.eval(env), c)] c2.extends(*circuit) implies canonical6(c2.eval(env), c) && fq6_val(
                c2.eval(env),
                c,
            ) == f6triple(fq6_val(c2.eval(env), *a)) by {
                lemma_extends_trans(s2, *circuit, c2);
                lemma_extends_trans(s1, s2, c2);
            }
        }
        c
    }

    /// Montgomery product by an `Fq2` element `b`, coordinate by coordinate.
    pub fn mul_by_fq2_montgomery(
        circuit: &mut Circuit,
        a: &Fq6Components<BigIntWires>,
        b: &Pair<BigIntWires>,
    ) -> (c: Fq6Components<BigIntWires>)
        requires
            old(circuit).wf(),
            old(circuit).has_room(24),
            is_fq6(*old(circuit), *a),
            is_fq2(*old(circuit), *b),
        ensures
            grows(*old(circuit), *final(circuit)),
            is_fq6(*final(circuit), c),
            final(circuit).num_wires == old(circuit).num_wires + 24 * 254,
            forall|c2: Circuit, env: State| #![trigger fq6_val(c2.eval(env), c)] #![trigger canonical6(c2.eval(env), c)]
                c2.extends(*final(circuit)) ==> canonical6(c2.eval(env), c) && fq6_val(c2.eval(env), c) == ({ let x = fq6_val(c2.eval(env), *a); (f2mmul(x.0, fq2_val(c2.eval(env), *b)), f2mmul(x.1, fq2_val(c2.eval(env), *b)), f2mmul(x.2, fq2_val(c2.eval(env), *b))) }),
    {
        let ghost s0 = *circuit;
        let x = Fq2::mul_montgomery(circuit, &a[0], b);
        let ghost s1 = *circuit;
        let y = Fq2::mul_montgomery(circuit, &a[1], b);
        let ghost s2 = *circuit;
        let z = Fq2::mul_montgomery(circuit, &a[2], b);
        let c = [x, y, z];
        proof {
            lemma_grows_trans(s0, s1, s2);
            lemma_grows_trans(s0, s2, *circuit);
            assert forall|c2: Circuit, env: State| #![trigger fq6_val(c2.eval(env), c)] #![trigger canonical6(c2.eval(env), c)] c2.extends(*circuit) implies canonical6(c2.eval(env), c) && fq6_val(
                c2.eval(env),
                c,
            ) == ({ let x = fq6_val(c2.eval(env), *a); (f2mmul(x.0, fq2_val(c2.eval(env), *b)), f2mmul(x.1, fq2_val(c2.eval(env), *b)), f2mmul(x.2, fq2_val(c2.eval(env), *b))) }) by {
                lemma_extends_trans(s2, *circuit, c2);
                lemma_extends_trans(s1, s2, c2);
            }
        }
        c
    }

    /// Product by `v`: `(c0, c1, c2)` becomes `(c2 * (9 + u), c0, c1)`.
    pub fn mul_by_nonresidue(circuit: &mut Circuit, a: &Fq6Components<BigIntWires>) -> (c:
        Fq6Components<BigIntWires>)
        requires
            old(circuit).wf(),
            old(circuit).has_room(6),
            is_fq6(*old(circuit), *a),
        ensures
            grows(*old(circuit), *final(circuit)),
            is_fq6(*final(circuit), c),
            final(circuit).num_wires == old(circuit).num_wires + 6 * 254,
            c[1] == a[0],
            c[2] == a[1],
            forall|c2: Circuit, env: State| #![trigger fq6_val(c2.eval(env), c)] #![trigger canonical2(c2.eval(env), c[0])]
                c2.extends(*final(circuit)) ==> canonical2(c2.eval(env), c[0]) && fq6_val(c2.eval(env), c) == f6nonres(
                    fq6_val(c2.eval(env), *a),
                ),
    {
        let u = Fq2::mul_by_nonresidue(circuit, &a[2]);
        [u, a[0], a[1]]
    }

    /// Montgomery product by an `Fq2` constant, coordinate by coordinate.
    pub fn mul_by_constant_fq2_montgomery(
        circuit: &mut Circuit,
        a: &Fq6Components<BigIntWires>,
        b: &Fq2Value,
    ) -> (c: Fq6Components<BigIntWires>)
        requires
            old(circuit).wf(),
            old(circuit).has_room(21),
            is_fq6(*old(circuit), *a),
            b.wf(),
        ensures
            grows(*old(circuit), *final(circuit)),
            is_fq6(*final(circuit), c),
            final(circuit).num_wires == old(circuit).num_wires + 21 * 254,
            forall|c2: Circuit, env: State| #![trigger fq6_val(c2.eval(env), c)] #![trigger canonical6(c2.eval(env), c)]
                c2.extends(*final(circuit)) ==> canonical6(c2.eval(env), c) && fq6_val(c2.eval(env), c) == ({
                    let x = fq6_val(c2.eval(env), *a);
                    (f2mmul(x.0, b@), f2mmul(x.1, b@), f2mmul(x.2, b@))
                }),
    {
        let ghost s0 = *circuit;
        let x = Fq2::mul_by_constant_montgomery(circuit, &a[0], b);
        let ghost s1 = *circuit;
        let y = Fq2::mul_by_constant_montgomery(circuit, &a[1], b);
        let ghost s2 = *circuit;
        let z = Fq2::mul_by_constant_montgomery(circuit, &a[2], b);
        let c = [x, y, z];
        proof {
            lemma_grows_trans(s0, s1, s2);
            lemma_grows_trans(s0, s2, *circuit);
            assert forall|c2: Circuit, env: State| #![trigger fq6_val(c2.eval(env), c)] #![trigger canonical6(c2.eval(env), c)] c2.extends(*circuit) implies canonical6(c2.eval(env), c) && fq6_val(
                c2.eval(env),
                c,
            ) == ({
                let x = fq6_val(c2.eval(env), *a);
                (f2mmul(x.0, b@), f2mmul(x.1, b@), f2mmul(x.2, b@))
            }) by {
                lemma_extends_trans(s2, *circuit, c2);
                lemma_extends_trans(s1, s2, c2);
            }
        }
        c
    }

    /// Values at `1`, `-1` and `2` of `x0 + x1 t + x2 t^2`.
    fn eval_points(
        circuit: &mut Circuit,
        x0: &Pair<BigIntWires>,
        x1: &Pair<BigIntWires>,
        x2: &Pair<BigIntWires>,
    ) -> (r: (Pair<BigIntWires>, Pair<BigIntWires>, Pair<BigIntWires>))
        requires
            old(circuit).wf(),
            old(circuit).has_room(16),
            is_fq2(*old(circuit), *x0),
            is_fq2(*old(circuit), *x1),
            is_fq2(*old(circuit), *x2),
        ensures
            grows(*old(circuit), *final(circuit)),
            is_fq2(*final(circuit), r.0),
            is_fq2(*final(circuit), r.1),
            is_fq2(*final(circuit), r.2),
            final(circuit).num_wires == old(circuit).num_wires + 16 * 254,
            forall|c2: Circuit, env: State| #![trigger fq2_val(c2.eval(env), r.0)] #![trigger canonical2(c2.eval(env), r.0)]
                c2.extends(*final(circuit)) ==> canonical2(c2.eval(env), r.0) && fq2_val(c2.eval(env), r.0) == f6points(
                    fq2_val(c2.eval(env), *x0), fq2_val(c2.eval(env), *x1), fq2_val(c2.eval(env), *x2),
                ).0,
            forall|c2: Circuit, env: State| #![trigger fq2_val(c2.eval(env), r.1)] #![trigger canonical2(c2.eval(env), r.1)]
                c2.extends(*final(circuit)) ==> canonical2(c2.eval(env), r.1) && fq2_val(c2.eval(env), r.1) == f6points(
                    fq2_val(c2.eval(env), *x0), fq2_val(c2.eval(env), *x1), fq2_val(c2.eval(env), *x2),
                ).1,
            forall|c2: Circuit, env: State| #![trigger fq2_val(c2.eval(env), r.2)] #![trigger canonical2(c2.eval(env), r.2)]
                c2.extends(*final(circuit)) ==> canonical2(c2.eval(env), r.2) && fq2_val(c2.eval(env), r.2) == f6points(
                    fq2_val(c2.eval(env), *x0), fq2_val(c2.eval(env), *x1), fq2_val(c2.eval(env), *x2),
                ).2,
    {
        let ghost s0 = *circuit;
        let w2 = Fq2::add(circuit, *x0, *x2);
        let ghost s1 = *circuit;
        let w3 = Fq2::add(circuit, w2, *x1);
        let ghost s2 = *circuit;
        let w4 = Fq2::sub(circuit, &w2, x1);
        let ghost s3 = *circuit;
        let w5 = Fq2::double(circuit, x1);
        let ghost s4 = *circuit;
        let w6 = Fq2::double(circuit, x2);
        let ghost s5 = *circuit;
        let w7 = Fq2::double(circuit, &w6);
        let ghost s6 = *circuit;
        let w8 = Fq2::add(circuit, *x0, w5);
        let ghost s7 = *circuit;
        let w9 = Fq2::add(circuit, w8, w7);
        let ghost s8 = *circuit;
        proof {
            lemma_grows_trans(s0, s1, s2);
            lemma_grows_trans(s0, s2, s3);
            lemma_grows_trans(s0, s3, s4);
            lemma_grows_trans(s0, s4, s5);
            lemma_grows_trans(s0, s5, s6);
            lemma_grows_trans(s0, s6, s7);
            lemma_grows_trans(s0, s7, s8);
            assert forall|c2: Circuit, env: State| #![trigger fq2_val(c2.eval(env), w3)] #![trigger fq2_val(c2.eval(env), w4)] #![trigger fq2_val(c2.eval(env), w9)] #![trigger canonical2(c2.eval(env), w3)] #![trigger canonical2(c2.eval(env), w4)] #![trigger canonical2(c2.eval(env), w9)] c2.extends(*circuit) implies canonical2(c2.eval(env), w3) && canonical2(c2.eval(env), w4) && canonical2(c2.eval(env), w9) && fq2_val(c2.eval(env), w3) == f6points(fq2_val(c2.eval(env), *x0), fq2_val(c2.eval(env), *x1), fq2_val(c2.eval(env), *x2)).0 && fq2_val(c2.eval(env), w4) == f6points(fq2_val(c2.eval(env), *x0), fq2_val(c2.eval(env), *x1), fq2_val(c2.eval(env), *x2)).1 && fq2_val(c2.eval(env), w9) == f6points(fq2_val(c2.eval(env), *x0), fq2_val(c2.eval(env), *x1), fq2_val(c2.eval(env), *x2)).2 by {
                lemma_extends_trans(s7, s8, c2);
                lemma_extends_trans(s6, s7, c2);
                lemma_extends_trans(s5, s6, c2);
                lemma_extends_trans(s4, s5, c2);
                lemma_extends_trans(s3, s4, c2);
                lemma_extends_trans(s2, s3, c2);
                lemma_extends_trans(s1, s2, c2);
            }
        }
        (w3, w4, w9)
    }

    /// Six times the product's coordinates, interpolated from its values
    /// `v0 .. v4` at `0, 1, -1, 2` and infinity.
    fn interpolate(
        circuit: &mut Circuit,
        v0: &Pair<BigIntWires>,
        v1: &Pair<BigIntWires>,
        v2: &Pair<BigIntWires>,
        v3: &Pair<BigIntWires>,
        v4: &Pair<BigIntWires>,
    ) -> (r: (Pair<BigIntWires>, Pair<BigIntWires>, Pair<BigIntWires>))
        requires
            old(circuit).wf(),
            old(circuit).has_room(64),
            is_fq2(*old(circuit), *v0),
            is_fq2(*old(circuit), *v1),
            is_fq2(*old(circuit), *v2),
            is_fq2(*old(circuit), *v3),
            is_fq2(*old(circuit), *v4),
        ensures
            grows(*old(circuit), *final(circuit)),
            is_fq2(*final(circuit), r.0),
            is_fq2(*final(circuit), r.1),
            is_fq2(*final(circuit), r.2),
            final(circuit).num_wires == old(circuit).num_wires + 64 * 254,
            forall|c2: Circuit, env: State| #![trigger fq2_val(c2.eval(env), r.0)] #![trigger canonical2(c2.eval(env), r.0)]
                c2.extends(*final(circuit)) ==> canonical2(c2.eval(env), r.0) && fq2_val(c2.eval(env), r.0) == f6interp(
                    fq2_val(c2.eval(env), *v0), fq2_val(c2.eval(env), *v1), fq2_val(c2.eval(env), *v2), fq2_val(c2.eval(env), *v3), fq2_val(c2.eval(env), *v4),
                ).0,
            forall|c2: Circuit, env: State| #![trigger fq2_val(c2.eval(env), r.1)] #![trigger canonical2(c2.eval(env), r.1)]
                c2.extends(*final(circuit)) ==> canonical2(c2.eval(env), r.1) && fq2_val(c2.eval(env), r.1) == f6interp(
                    fq2_val(c2.eval(env), *v0), fq2_val(c2.eval(env), *v1), fq2_val(c2.eval(env), *v2), fq2_val(c2.eval(env), *v3), fq2_val(c2.eval(env), *v4),
                ).1,
            forall|c2: Circuit, env: State| #![trigger fq2_val(c2.eval(env), r.2)] #![trigger canonical2(c2.eval(env), r.2)]
                c2.extends(*final(circuit)) ==> canonical2(c2.eval(env), r.2) && fq2_val(c2.eval(env), r.2) == f6interp(
                    fq2_val(c2.eval(env), *v0), fq2_val(c2.eval(env), *v1), fq2_val(c2.eval(env), *v2), fq2_val(c2.eval(env), *v3), fq2_val(c2.eval(env), *v4),
                ).2,
    {
        let ghost s0 = *circuit;
        let v2_2 = Fq2::double(circuit, v2);
        let ghost s1 = *circuit;
        let v0_3 = Fq2::triple(circuit, v0);
        let ghost s2 = *circuit;
        let v1_3 = Fq2::triple(circuit, v1);
        let ghost s3 = *circuit;
        let v2_3 = Fq2::triple(circuit, v2);
        let ghost s4 = *circuit;
        let v4_3 = Fq2::triple(circuit, v4);
        let ghost s5 = *circuit;
        let v0_6 = Fq2::double(circuit, &v0_3);
        let ghost s6 = *circuit;
        let v1_6 = Fq2::double(circuit, &v1_3);
        let ghost s7 = *circuit;
        let v4_6 = Fq2::double(circuit, &v4_3);
        let ghost s8 = *circuit;
        let v4_12 = Fq2::double(circuit, &v4_6);
        let ghost s9 = *circuit;
        let w18 = Fq2::sub(circuit, &v0_3, &v1_3);
        let ghost s10 = *circuit;
        let w19 = Fq2::sub(circuit, &w18, v2);
        let ghost s11 = *circuit;
        let w20 = Fq2::add(circuit, w19, *v3);
        let ghost s12 = *circuit;
        let w21 = Fq2::sub(circuit, &w20, &v4_12);
        let ghost s13 = *circuit;
        let w22 = Fq2::mul_by_nonresidue(circuit, &w21);
        let ghost s14 = *circuit;
        let r0 = Fq2::add(circuit, w22, v0_6);
        let ghost s15 = *circuit;
        let w23 = Fq2::sub(circuit, &v1_6, &v0_3);
        let ghost s16 = *circuit;
        let w24 = Fq2::sub(circuit, &w23, &v2_2);
        let ghost s17 = *circuit;
        let w25 = Fq2::sub(circuit, &w24, v3);
        let ghost s18 = *circuit;
        let w26 = Fq2::add(circuit, w25, v4_12);
        let ghost s19 = *circuit;
        let w27 = Fq2::mul_by_nonresidue(circuit, &v4_6);
        let ghost s20 = *circuit;
        let r1 = Fq2::add(circuit, w26, w27);
        let ghost s21 = *circuit;
        let w28 = Fq2::sub(circuit, &v1_3, &v0_6);
        let ghost s22 = *circuit;
        let w29 = Fq2::add(circuit, w28, v2_3);
        let ghost s23 = *circuit;
        let r2 = Fq2::sub(circuit, &w29, &v4_6);
        let ghost s24 = *circuit;
        proof {
            lemma_grows_trans(s0, s1, s2);
            lemma_grows_trans(s0, s2, s3);
            lemma_grows_trans(s0, s3, s4);
            lemma_grows_trans(s0, s4, s5);
            lemma_grows_trans(s0, s5, s6);
            lemma_grows_trans(s0, s6, s7);
            lemma_grows_trans(s0, s7, s8);
            lemma_grows_trans(s0, s8, s9);
            lemma_grows_trans(s0, s9, s10);
            lemma_grows_trans(s0, s10, s11);
            lemma_grows_trans(s0, s11, s12);
            lemma_grows_trans(s0, s12, s13);
            lemma_grows_trans(s0, s13, s14);
            lemma_grows_trans(s0, s14, s15);
            lemma_grows_trans(s0, s15, s16);
            lemma_grows_trans(s0, s16, s17);
            lemma_grows_trans(s0, s17, s18);
            lemma_grows_trans(s0, s18, s19);
            lemma_grows_trans(s0, s19, s20);
            lemma_grows_trans(s0, s20, s21);
            lemma_grows_trans(s0, s21, s22);
            lemma_grows_trans(s0, s22, s23);
            lemma_grows_trans(s0, s23, s24);
            assert forall|c2: Circuit, env: State| #![trigger fq2_val(c2.eval(env), r0)] #![trigger fq2_val(c2.eval(env), r1)] #![trigger fq2_val(c2.eval(env), r2)] #![trigger canonical2(c2.eval(env), r0)] #![trigger canonical2(c2.eval(env), r1)] #![trigger canonical2(c2.eval(env), r2)] c2.extends(*circuit) implies canonical2(c2.eval(env), r0) && canonical2(c2.eval(env), r1) && canonical2(c2.eval(env), r2) && fq2_val(c2.eval(env), r0) == f6interp(fq2_val(c2.eval(env), *v0), fq2_val(c2.eval(env), *v1), fq2_val(c2.eval(env), *v2), fq2_val(c2.eval(env), *v3), fq2_val(c2.eval(env), *v4)).0 && fq2_val(c2.eval(env), r1) == f6interp(fq2_val(c2.eval(env), *v0), fq2_val(c2.eval(env), *v1), fq2_val(c2.eval(env), *v2), fq2_val(c2.eval(env), *v3), fq2_val(c2.eval(env), *v4)).1 && fq2_val(c2.eval(env), r2) == f6interp(fq2_val(c2.eval(env), *v0), fq2_val(c2.eval(env), *v1), fq2_val(c2.eval(env), *v2), fq2_val(c2.eval(env), *v3), fq2_val(c2.eval(env), *v4)).2 by {
                lemma_extends_trans(s23, s24, c2);
                lemma_extends_trans(s22, s23, c2);
                lemma_extends_trans(s21, s22, c2);
                lemma_extends_trans(s20, s21, c2);
                lemma_extends_trans(s19, s20, c2);
                lemma_extends_trans(s18, s19, c2);
                lemma_extends_trans(s17, s18, c2);
                lemma_extends_trans(s16, s17, c2);
                lemma_extends_trans(s15, s16, c2);
                lemma_extends_trans(s14, s15, c2);
                lemma_extends_trans(s13, s14, c2);
                lemma_extends_trans(s12, s13, c2);
                lemma_extends_trans(s11, s12, c2);
                lemma_extends_trans(s10, s11, c2);
                lemma_extends_trans(s9, s10, c2);
                lemma_extends_trans(s8, s9, c2);
                lemma_extends_trans(s7, s8, c2);
                lemma_extends_trans(s6, s7, c2);
                lemma_extends_trans(s5, s6, c2);
                lemma_extends_trans(s4, s5, c2);
                lemma_extends_trans(s3, s4, c2);
                lemma_extends_trans(s2, s3, c2);
                lemma_extends_trans(s1, s2, c2);
            }
        }
        (r0, r1, r2)
    }

    /// Montgomery product, by Toom-Cook evaluation at `0, 1, -1, 2` and
    /// infinity, five `Fq2` products, and interpolation.
    pub fn mul_montgomery(
        circuit: &mut Circuit,
        a: &Fq6Components<BigIntWires>,
        b: &Fq6Components<BigIntWires>,
    ) -> (c: Fq6Components<BigIntWires>)
        requires
            old(circuit).wf(),
            old(circuit).has_room(142),
            is_fq6(*old(circuit), *a),
            is_fq6(*old(circuit), *b),
        ensures
            grows(*old(circuit), *final(circuit)),
            is_fq6(*final(circuit), c),
            final(circuit).num_wires == old(circuit).num_wires + 142 * 254,
            forall|c2: Circuit, env: State| #![trigger fq6_val(c2.eval(env), c)] #![trigger canonical6(c2.eval(env), c)]
                c2.extends(*final(circuit)) ==> canonical6(c2.eval(env), c) && fq6_val(c2.eval(env), c) == f6mmul(
                    fq6_val(c2.eval(env), *a),
                    fq6_val(c2.eval(env), *b),
                ),
    {
        let ghost s0 = *circuit;
        let v0 = Fq2::mul_montgomery(circuit, &a[0], &b[0]);
        let ghost s1 = *circuit;
        let pa = Self::eval_points(circuit, &a[0], &a[1], &a[2]);
        let ghost s2 = *circuit;
        let pb = Self::eval_points(circuit, &b[0], &b[1], &b[2]);
        let ghost s3 = *circuit;
        let v1 = Fq2::mul_montgomery(circuit, &pa.0, &pb.0);
        let ghost s4 = *circuit;
        let v2 = Fq2::mul_montgomery(circuit, &pa.1, &pb.1);
        let ghost s5 = *circuit;
        let v3 = Fq2::mul_montgomery(circuit, &pa.2, &pb.2);
        let ghost s6 = *circuit;
        let v4 = Fq2::mul_montgomery(circuit, &a[2], &b[2]);
        let ghost s7 = *circuit;
        let r = Self::interpolate(circuit, &v0, &v1, &v2, &v3, &v4);
        let ghost s8 = *circuit;
        let result = [r.0, r.1, r.2];
        let c = Self::div6(circuit, &result);
        proof {
            lemma_grows_trans(s0, s1, s2);
            lemma_grows_trans(s0, s2, s3);
            lemma_grows_trans(s0, s3, s4);
            lemma_grows_trans(s0, s4, s5);
            lemma_grows_trans(s0, s5, s6);
            lemma_grows_trans(s0, s6, s7);
            lemma_grows_trans(s0, s7, s8);
            lemma_grows_trans(s0, s8, *circuit);
            assert forall|c2: Circuit, env: State| #![trigger fq6_val(c2.eval(env), c)] #![trigger canonical6(c2.eval(env), c)] c2.extends(*circuit) implies canonical6(c2.eval(env), c) && fq6_val(
                c2.eval(env),
                c,
            ) == f6mmul(fq6_val(c2.eval(env), *a), fq6_val(c2.eval(env), *b)) by {
                lemma_extends_trans(s8, *circuit, c2);
                lemma_extends_trans(s7, s8, c2);
                lemma_extends_trans(s6, s7, c2);
                lemma_extends_trans(s5, s6, c2);
                lemma_extends_trans(s4, s5, c2);
                lemma_extends_trans(s3, s4, c2);
                lemma_extends_trans(s2, s3, c2);
                lemma_extends_trans(s1, s2, c2);
                lemma_fq6_canonical(c2.eval(env), *a);
                lemma_fq6_canonical(c2.eval(env), *b);
                lemma_f6_toom(fq6_val(c2.eval(env), *a), fq6_val(c2.eval(env), *b));
            }
        }
        c
    }

    /// Montgomery square (Chung-Hasan's second formula, with one halving).
    pub fn square_montgomery(circuit: &mut Circuit, a: &Fq6Components<BigIntWires>) -> (c:
        Fq6Components<BigIntWires>)
        requires
            old(circuit).wf(),
            old(circuit).has_room(64),
            is_fq6(*old(circuit), *a),
        ensures
            grows(*old(circuit), *final(circuit)),
            is_fq6(*final(circuit), c),
            final(circuit).num_wires == old(circuit).num_wires + 64 * 254,
            forall|c2: Circuit, env: State| #![trigger fq6_val(c2.eval(env), c)] #![trigger canonical6(c2.eval(env), c)]
                c2.extends(*final(circuit)) ==> canonical6(c2.eval(env), c) && fq6_val(c2.eval(env), c) == f6mmul(
                    fq6_val(c2.eval(env), *a),
                    fq6_val(c2.eval(env), *a),
                ),
    {
        let ghost s0 = *circuit;
        let s_0 = Fq2::square_montgomery(circuit, &a[0]);
        let ghost s1 = *circuit;
        let w1 = Fq2::add(circuit, a[0], a[2]);
        let ghost s2 = *circuit;
        let w2 = Fq2::add(circuit, w1, a[1]);
        let ghost s3 = *circuit;
        let w3 = Fq2::sub(circuit, &w1, &a[1]);
        let ghost s4 = *circuit;
        let s_1 = Fq2::square_montgomery(circuit, &w2);
        let ghost s5 = *circuit;
        let s_2 = Fq2::square_montgomery(circuit, &w3);
        let ghost s6 = *circuit;
        let w4 = Fq2::mul_montgomery(circuit, &a[1], &a[2]);
        let ghost s7 = *circuit;
        let s_3 = Fq2::double(circuit, &w4);
        let ghost s8 = *circuit;
        let s_4 = Fq2::square_montgomery(circuit, &a[2]);
        let ghost s9 = *circuit;
        let w5 = Fq2::add(circuit, s_1, s_2);
        let ghost s10 = *circuit;
        let t_1 = Fq2::half(circuit, &w5);
        let ghost s11 = *circuit;
        let w6 = Fq2::mul_by_nonresidue(circuit, &s_3);
        let ghost s12 = *circuit;
        let res_c0 = Fq2::add(circuit, s_0, w6);
        let ghost s13 = *circuit;
        let w7 = Fq2::mul_by_nonresidue(circuit, &s_4);
        let ghost s14 = *circuit;
        let w8 = Fq2::sub(circuit, &s_1, &s_3);
        let ghost s15 = *circuit;
        let w9 = Fq2::sub(circuit, &w8, &t_1);
        let ghost s16 = *circuit;
        let res_c1 = Fq2::add(circuit, w9, w7);
        let ghost s17 = *circuit;
        let w10 = Fq2::sub(circuit, &t_1, &s_0);
        let ghost s18 = *circuit;
        let res_c2 = Fq2::sub(circuit, &w10, &s_4);
        let c = [res_c0, res_c1, res_c2];
        proof {
            lemma_grows_trans(s0, s1, s2);
            lemma_grows_trans(s0, s2, s3);
            lemma_grows_trans(s0, s3, s4);
            lemma_grows_trans(s0, s4, s5);
            lemma_grows_trans(s0, s5, s6);
            lemma_grows_trans(s0, s6, s7);
            lemma_grows_trans(s0, s7, s8);
            lemma_grows_trans(s0, s8, s9);
            lemma_grows_trans(s0, s9, s10);
            lemma_grows_trans(s0, s10, s11);
            lemma_grows_trans(s0, s11, s12);
            lemma_grows_trans(s0, s12, s13);
            lemma_grows_trans(s0, s13, s14);
            lemma_grows_trans(s0, s14, s15);
            lemma_grows_trans(s0, s15, s16);
            lemma_grows_trans(s0, s16, s17);
            lemma_grows_trans(s0, s17, s18);
            lemma_grows_trans(s0, s18, *circuit);
            assert forall|c2: Circuit, env: State| #![trigger fq6_val(c2.eval(env), c)] #![trigger canonical6(c2.eval(env), c)] c2.extends(*circuit) implies canonical6(c2.eval(env), c) && fq6_val(c2.eval(env), c) == f6mmul(fq6_val(c2.eval(env), *a), fq6_val(c2.eval(env), *a)) by {
                lemma_extends_trans(s18, *circuit, c2);
                lemma_extends_trans(s17, s18, c2);
                lemma_extends_trans(s16, s17, c2);
                lemma_extends_trans(s15, s16, c2);
                lemma_extends_trans(s14, s15, c2);
                lemma_extends_trans(s13, s14, c2);
                lemma_extends_trans(s12, s13, c2);
                lemma_extends_trans(s11, s12, c2);
                lemma_extends_trans(s10, s11, c2);
                lemma_extends_trans(s9, s10, c2);
                lemma_extends_trans(s8, s9, c2);
                lemma_extends_trans(s7, s8, c2);
                lemma_extends_trans(s6, s7, c2);
                lemma_extends_trans(s5, s6, c2);
                lemma_extends_trans(s4, s5, c2);
                lemma_extends_trans(s3, s4, c2);
                lemma_extends_trans(s2, s3, c2);
                lemma_extends_trans(s1, s2, c2);
                lemma_fq6_canonical(c2.eval(env), *a);
                assert(fq6_val(c2.eval(env), c) == f6sqr_formula(fq6_val(c2.eval(env), *a)));
                lemma_f6_square(fq6_val(c2.eval(env), *a));
            }
        }
        c
    }

    /// Montgomery product by the sparse element `c0 + c1 * v`.
    pub fn mul_by_01_montgomery(
        circuit: &mut Circuit,
        a: &Fq6Components<BigIntWires>,
        c0: &Pair<BigIntWires>,
        c1: &Pair<BigIntWires>,
    ) -> (c: Fq6Components<BigIntWires>)
        requires
            old(circuit).wf(),
            old(circuit).has_room(66),
            is_fq6(*old(circuit), *a),
            is_fq2(*old(circuit), *c0),
            is_fq2(*old(circuit), *c1),
        ensures
            grows(*old(circuit), *final(circuit)),
            is_fq6(*final(circuit), c),
            final(circuit).num_wires == old(circuit).num_wires + 66 * 254,
            forall|c2: Circuit, env: State| #![trigger fq6_val(c2.eval(env), c)] #![trigger canonical6(c2.eval(env), c)]
                c2.extends(*final(circuit)) ==> canonical6(c2.eval(env), c) && fq6_val(c2.eval(env), c) == f6mmul(
                    fq6_val(c2.eval(env), *a),
                    (fq2_val(c2.eval(env), *c0), fq2_val(c2.eval(env), *c1), (0int, 0int)),
                ),
    {
        let ghost s0 = *circuit;
        let w1 = Fq2::mul_montgomery(circuit, &a[0], c0);
        let ghost s1 = *circuit;
        let w2 = Fq2::mul_montgomery(circuit, &a[1], c1);
        let ghost s2 = *circuit;
        let w3 = Fq2::add(circuit, a[1], a[2]);
        let ghost s3 = *circuit;
        let w4 = Fq2::mul_montgomery(circuit, &w3, c1);
        let ghost s4 = *circuit;
        let w5 = Fq2::sub(circuit, &w4, &w2);
        let ghost s5 = *circuit;
        let w6 = Fq2::mul_by_nonresidue(circuit, &w5);
        let ghost s6 = *circuit;
        let w7 = Fq2::add(circuit, w6, w1);
        let ghost s7 = *circuit;
        let w8 = Fq2::add(circuit, a[0], a[1]);
        let ghost s8 = *circuit;
        let w9 = Fq2::add(circuit, *c0, *c1);
        let ghost s9 = *circuit;
        let w10 = Fq2::mul_montgomery(circuit, &w8, &w9);
        let ghost s10 = *circuit;
        let w11 = Fq2::sub(circuit, &w10, &w1);
        let ghost s11 = *circuit;
        let w12 = Fq2::sub(circuit, &w11, &w2);
        let ghost s12 = *circuit;
        let w13 = Fq2::add(circuit, a[0], a[2]);
        let ghost s13 = *circuit;
        let w14 = Fq2::mul_montgomery(circuit, &w13, c0);
        let ghost s14 = *circuit;
        let w15 = Fq2::sub(circuit, &w14, &w1);
        let ghost s15 = *circuit;
        let w16 = Fq2::add(circuit, w15, w2);
        let c = [w7, w12, w16];
        proof {
            lemma_grows_trans(s0, s1, s2);
            lemma_grows_trans(s0, s2, s3);
            lemma_grows_trans(s0, s3, s4);
            lemma_grows_trans(s0, s4, s5);
            lemma_grows_trans(s0, s5, s6);
            lemma_grows_trans(s0, s6, s7);
            lemma_grows_trans(s0, s7, s8);
            lemma_grows_trans(s0, s8, s9);
            lemma_grows_trans(s0, s9, s10);
            lemma_grows_trans(s0, s10, s11);
            lemma_grows_trans(s0, s11, s12);
            lemma_grows_trans(s0, s12, s13);
            lemma_grows_trans(s0, s13, s14);
            lemma_grows_trans(s0, s14, s15);
            lemma_grows_trans(s0, s15, *circuit);
            assert forall|c2: Circuit, env: State| #![trigger fq6_val(c2.eval(env), c)] #![trigger canonical6(c2.eval(env), c)] c2.extends(*circuit) implies canonical6(c2.eval(env), c) && fq6_val(c2.eval(env), c) == f6mmul(fq6_val(c2.eval(env), *a), (fq2_val(c2.eval(env), *c0), fq2_val(c2.eval(env), *c1), (0int, 0int))) by {
                lemma_extends_trans(s15, *circuit, c2);
                lemma_extends_trans(s14, s15, c2);
                lemma_extends_trans(s13, s14, c2);
                lemma_extends_trans(s12, s13, c2);
                lemma_extends_trans(s11, s12, c2);
                lemma_extends_trans(s10, s11, c2);
                lemma_extends_trans(s9, s10, c2);
                lemma_extends_trans(s8, s9, c2);
                lemma_extends_trans(s7, s8, c2);
                lemma_extends_trans(s6, s7, c2);
                lemma_extends_trans(s5, s6, c2);
                lemma_extends_trans(s4, s5, c2);
                lemma_extends_trans(s3, s4, c2);
                lemma_extends_trans(s2, s3, c2);
                lemma_extends_trans(s1, s2, c2);
                lemma_fq6_canonical(c2.eval(env), *a);
                lemma_fq2_canonical(c2.eval(env), *c0);
                lemma_fq2_canonical(c2.eval(env), *c1);
                let x = fq6_val(c2.eval(env), *a);
                assert(fq6_val(c2.eval(env), c) == f6by01_formula(x, fq2_val(c2.eval(env), *c0), fq2_val(c2.eval(env), *c1), f2mmul(x.1, fq2_val(c2.eval(env), *c1)), f2mmul(f2add(x.1, x.2), fq2_val(c2.eval(env), *c1))));
                lemma_f6_by01(x, fq2_val(c2.eval(env), *c0), fq2_val(c2.eval(env), *c1));
            }
        }
        c
    }

    /// Montgomery product by the sparse element `c0 + c1 * v` with `c1` a
    /// constant in Montgomery form.
    pub fn mul_by_01_constant1_montgomery(
        circuit: &mut Circuit,
        a: &Fq6Components<BigIntWires>,
        c0: &Pair<BigIntWires>,
        c1: &Fq2Value,
    ) -> (c: Fq6Components<BigIntWires>)
        requires
            old(circuit).wf(),
            old(circuit).has_room(64),
            is_fq6(*old(circuit), *a),
            is_fq2(*old(circuit), *c0),
            c1.wf(),
        ensures
            grows(*old(circuit), *final(circuit)),
            is_fq6(*final(circuit), c),
            final(circuit).num_wires == old(circuit).num_wires + 64 * 254,
            forall|c2: Circuit, env: State| #![trigger fq6_val(c2.eval(env), c)] #![trigger canonical6(c2.eval(env), c)]
                c2.extends(*final(circuit)) ==> canonical6(c2.eval(env), c) && fq6_val(
                    c2.eval(env),
                    c,
                ) == f6mmul(fq6_val(c2.eval(env), *a), (fq2_val(c2.eval(env), *c0), c1@, (0int, 0int))),
    {
        let ghost s0 = *circuit;
        let w1 = Fq2::mul_montgomery(circuit, &a[0], c0);
        let ghost s1 = *circuit;
        let w2 = Fq2::mul_by_constant_montgomery(circuit, &a[1], c1);
        let ghost s2 = *circuit;
        let w3 = Fq2::add(circuit, a[1], a[2]);
        let ghost s3 = *circuit;
        let w4 = Fq2::mul_by_constant_montgomery(circuit, &w3, c1);
        let ghost s4 = *circuit;
        let w5 = Fq2::sub(circuit, &w4, &w2);
        let ghost s5 = *circuit;
        let w6 = Fq2::mul_by_nonresidue(circuit, &w5);
        let ghost s6 = *circuit;
        let w7 = Fq2::add(circuit, w6, w1);
        let ghost s7 = *circuit;
        let w8 = Fq2::add(circuit, a[0], a[1]);
        let ghost s8 = *circuit;
        let w9 = Fq2::add_constant(circuit, c0, c1);
        let ghost s9 = *circuit;
        let w10 = Fq2::mul_montgomery(circuit, &w8, &w9);
        let ghost s10 = *circuit;
        let w11 = Fq2::sub(circuit, &w10, &w1);
        let ghost s11 = *circuit;
        let w12 = Fq2::sub(circuit, &w11, &w2);
        let ghost s12 = *circuit;
        let w13 = Fq2::add(circuit, a[0], a[2]);
        let ghost s13 = *circuit;
        let w14 = Fq2::mul_montgomery(circuit, &w13, c0);
        let ghost s14 = *circuit;
        let w15 = Fq2::sub(circuit, &w14, &w1);
        let ghost s15 = *circuit;
        let w16 = Fq2::add(circuit, w15, w2);
        let c = [w7, w12, w16];
        proof {
            lemma_grows_trans(s0, s1, s2);
            lemma_grows_trans(s0, s2, s3);
            lemma_grows_trans(s0, s3, s4);
            lemma_grows_trans(s0, s4, s5);
            lemma_grows_trans(s0, s5, s6);
            lemma_grows_trans(s0, s6, s7);
            lemma_grows_trans(s0, s7, s8);
            lemma_grows_trans(s0, s8, s9);
            lemma_grows_trans(s0, s9, s10);
            lemma_grows_trans(s0, s10, s11);
            lemma_grows_trans(s0, s11, s12);
            lemma_grows_trans(s0, s12, s13);
            lemma_grows_trans(s0, s13, s14);
            lemma_grows_trans(s0, s14, s15);
            lemma_grows_trans(s0, s15, *circuit);
            assert forall|c2: Circuit, env: State| #![trigger fq6_val(c2.eval(env), c)] #![trigger canonical6(c2.eval(env), c)] c2.extends(*circuit) implies canonical6(c2.eval(env), c) && fq6_val(
                c2.eval(env),
                c,
            ) == f6mmul(fq6_val(c2.eval(env), *a), (fq2_val(c2.eval(env), *c0), c1@, (0int, 0int))) by {
                lemma_extends_trans(s15, *circuit, c2);
                lemma_extends_trans(s14, s15, c2);
                lemma_extends_trans(s13, s14, c2);
                lemma_extends_trans(s12, s13, c2);
                lemma_extends_trans(s11, s12, c2);
                lemma_extends_trans(s10, s11, c2);
                lemma_extends_trans(s9, s10, c2);
                lemma_extends_trans(s8, s9, c2);
                lemma_extends_trans(s7, s8, c2);
                lemma_extends_trans(s6, s7, c2);
                lemma_extends_trans(s5, s6, c2);
                lemma_extends_trans(s4, s5, c2);
                lemma_extends_trans(s3, s4, c2);
                lemma_extends_trans(s2, s3, c2);
                lemma_extends_trans(s1, s2, c2);
                lemma_fq6_canonical(c2.eval(env), *a);
                lemma_fq2_canonical(c2.eval(env), *c0);
                assert(fq6_val(c2.eval(env), c) == f6by01_formula(fq6_val(c2.eval(env), *a), fq2_val(c2.eval(env), *c0), c1@, f2mmul(fq6_val(c2.eval(env), *a).1, c1@), f2mmul(f2add(fq6_val(c2.eval(env), *a).1, fq6_val(c2.eval(env), *a).2), c1@)));
                lemma_f6_by01(fq6_val(c2.eval(env), *a), fq2_val(c2.eval(env), *c0), c1@);
            }
        }
        c
    }

    /// Montgomery inverse, by the norm to `Fq2`: with `t0 = a^2 - (9 + u) b c`,
    /// `t1 = (9 + u) c^2 - a b` and `t2 = b^2 - a c`, the result is
    /// `(t0, t1, t2)` times the inverse of `a t0 + (9 + u)(c t1 + b t2)`.
    pub fn inverse_montgomery(circuit: &mut Circuit, r: &Fq6Components<BigIntWires>) -> (c:
        Fq6Components<BigIntWires>)
        requires
            old(circuit).wf(),
            old(circuit).has_room(122),
            is_fq6(*old(circuit), *r),
        ensures
            grows(*old(circuit), *final(circuit)),
            is_fq6(*final(circuit), c),
            final(circuit).num_wires == old(circuit).num_wires + 122 * 254,
            forall|c2: Circuit, env: State| #![trigger fq6_val(c2.eval(env), c)] #![trigger canonical6(c2.eval(env), c)]
                c2.extends(*final(circuit)) ==> canonical6(c2.eval(env), c) && fq6_val(c2.eval(env), c) == f6minv(fq6_val(c2.eval(env), *r)),
    {
        let ghost s0 = *circuit;
        let a_square = Fq2::square_montgomery(circuit, &r[0]);
        let ghost s1 = *circuit;
        let b_square = Fq2::square_montgomery(circuit, &r[1]);
        let ghost s2 = *circuit;
        let c_square = Fq2::square_montgomery(circuit, &r[2]);
        let ghost s3 = *circuit;
        let ab = Fq2::mul_montgomery(circuit, &r[0], &r[1]);
        let ghost s4 = *circuit;
        let ac = Fq2::mul_montgomery(circuit, &r[0], &r[2]);
        let ghost s5 = *circuit;
        let bc = Fq2::mul_montgomery(circuit, &r[1], &r[2]);
        let ghost s6 = *circuit;
        let bc_beta = Fq2::mul_by_nonresidue(circuit, &bc);
        let ghost s7 = *circuit;
        let a_square_minus_bc_beta = Fq2::sub(circuit, &a_square, &bc_beta);
        let ghost s8 = *circuit;
        let c_square_beta = Fq2::mul_by_nonresidue(circuit, &c_square);
        let ghost s9 = *circuit;
        let c_square_beta_minus_ab = Fq2::sub(circuit, &c_square_beta, &ab);
        let ghost s10 = *circuit;
        let b_square_minus_ac = Fq2::sub(circuit, &b_square, &ac);
        let ghost s11 = *circuit;
        let wires_1 = Fq2::mul_montgomery(circuit, &c_square_beta_minus_ab, &r[2]);
        let ghost s12 = *circuit;
        let wires_2 = Fq2::mul_montgomery(circuit, &b_square_minus_ac, &r[1]);
        let ghost s13 = *circuit;
        let wires_1_plus_wires_2 = Fq2::add(circuit, wires_1, wires_2);
        let ghost s14 = *circuit;
        let wires_3 = Fq2::mul_by_nonresidue(circuit, &wires_1_plus_wires_2);
        let ghost s15 = *circuit;
        let wires_4 = Fq2::mul_montgomery(circuit, &r[0], &a_square_minus_bc_beta);
        let ghost s16 = *circuit;
        let norm = Fq2::add(circuit, wires_4, wires_3);
        let ghost s17 = *circuit;
        let inverse_norm = Fq2::inverse_montgomery(circuit, &norm);
        let ghost s18 = *circuit;
        let res_c0 = Fq2::mul_montgomery(circuit, &a_square_minus_bc_beta, &inverse_norm);
        let ghost s19 = *circuit;
        let res_c1 = Fq2::mul_montgomery(circuit, &c_square_beta_minus_ab, &inverse_norm);
        let ghost s20 = *circuit;
        let res_c2 = Fq2::mul_montgomery(circuit, &b_square_minus_ac, &inverse_norm);
        let c = [res_c0, res_c1, res_c2];
        proof {
            lemma_grows_trans(s0, s1, s2);
            lemma_grows_trans(s0, s2, s3);
            lemma_grows_trans(s0, s3, s4);
            lemma_grows_trans(s0, s4, s5);
            lemma_grows_trans(s0, s5, s6);
            lemma_grows_trans(s0, s6, s7);
            lemma_grows_trans(s0, s7, s8);
            lemma_grows_trans(s0, s8, s9);
            lemma_grows_trans(s0, s9, s10);
            lemma_grows_trans(s0, s10, s11);
            lemma_grows_trans(s0, s11, s12);
            lemma_grows_trans(s0, s12, s13);
            lemma_grows_trans(s0, s13, s14);
            lemma_grows_trans(s0, s14, s15);
            lemma_grows_trans(s0, s15, s16);
            lemma_grows_trans(s0, s16, s17);
            lemma_grows_trans(s0, s17, s18);
            lemma_grows_trans(s0, s18, s19);
            lemma_grows_trans(s0, s19, s20);
            lemma_grows_trans(s0, s20, *circuit);
            assert forall|c2: Circuit, env: State| #![trigger fq6_val(c2.eval(env), c)] #![trigger canonical6(c2.eval(env), c)] c2.extends(*circuit) implies canonical6(c2.eval(env), c) && fq6_val(c2.eval(env), c) == f6minv(fq6_val(c2.eval(env), *r)) by {
                lemma_extends_trans(s20, *circuit, c2);
                lemma_extends_trans(s19, s20, c2);
                lemma_extends_trans(s18, s19, c2);
                lemma_extends_trans(s17, s18, c2);
                lemma_extends_trans(s16, s17, c2);
                lemma_extends_trans(s15, s16, c2);
                lemma_extends_trans(s14, s15, c2);
                lemma_extends_trans(s13, s14, c2);
                lemma_extends_trans(s12, s13, c2);
                lemma_extends_trans(s11, s12, c2);
                lemma_extends_trans(s10, s11, c2);
                lemma_extends_trans(s9, s10, c2);
                lemma_extends_trans(s8, s9, c2);
                lemma_extends_trans(s7, s8, c2);
                lemma_extends_trans(s6, s7, c2);
                lemma_extends_trans(s5, s6, c2);
                lemma_extends_trans(s4, s5, c2);
                lemma_extends_trans(s3, s4, c2);
                lemma_extends_trans(s2, s3, c2);
                lemma_extends_trans(s1, s2, c2);
            }
        }
        c
    }

    /// The `i`-th power of the Frobenius map: each coordinate's `Fq2`
    /// Frobenius, the second and third then multiplied by the Montgomery forms
    /// of `FROBENIUS_COEFF_FP6_C1[i mod 6]` and `FROBENIUS_COEFF_FP6_C2[i mod 6]`.
    pub fn frobenius_montgomery(circuit: &mut Circuit, a: &Fq6Components<BigIntWires>, i: usize) -> (c:
        Fq6Components<BigIntWires>)
        requires
            old(circuit).wf(),
            old(circuit).has_room(17),
            is_fq6(*old(circuit), *a),
        ensures
            grows(*old(circuit), *final(circuit)),
            is_fq6(*final(circuit), c),
            final(circuit).num_wires == old(circuit).num_wires + 17 * 254,
            c[0].0 == a[0].0,
            forall|c2: Circuit, env: State| #![trigger canonical(c2.eval(env), c[0].1)] #![trigger canonical2(c2.eval(env), c[1])] #![trigger canonical2(c2.eval(env), c[2])]
                c2.extends(*final(circuit)) ==> canonical(c2.eval(env), c[0].1) && canonical2(c2.eval(env), c[1]) && canonical2(c2.eval(env), c[2]),
            forall|c2: Circuit, env: State| #![trigger fq6_val(c2.eval(env), c)]
                c2.extends(*final(circuit)) ==> fq6_val(c2.eval(env), c) == f6frobenius(fq6_val(c2.eval(env), *a), i as int),
    {
        let k1 = Fq2::as_montgomery(fq6_frobenius_coeff_c1(i % 6));
        let k2 = Fq2::as_montgomery(fq6_frobenius_coeff_c2(i % 6));
        let ghost s0 = *circuit;
        let frobenius_a_c0 = Fq2::frobenius_montgomery(circuit, &a[0], i);
        let ghost s1 = *circuit;
        let frobenius_a_c1 = Fq2::frobenius_montgomery(circuit, &a[1], i);
        let ghost s2 = *circuit;
        let frobenius_a_c2 = Fq2::frobenius_montgomery(circuit, &a[2], i);
        let ghost s3 = *circuit;
        let frobenius_a_c1_updated = Fq2::mul_by_constant_montgomery(circuit, &frobenius_a_c1, &k1);
        let ghost s4 = *circuit;
        let frobenius_a_c2_updated = Fq2::mul_by_constant_montgomery(circuit, &frobenius_a_c2, &k2);
        let c = [frobenius_a_c0, frobenius_a_c1_updated, frobenius_a_c2_updated];
        proof {
            lemma_grows_trans(s0, s1, s2);
            lemma_grows_trans(s0, s2, s3);
            lemma_grows_trans(s0, s3, s4);
            lemma_grows_trans(s0, s4, *circuit);
            assert(c[0] == frobenius_a_c0 && c[1] == frobenius_a_c1_updated && c[2]
                == frobenius_a_c2_updated);
            assert forall|c2: Circuit, env: State|
                #![trigger canonical(c2.eval(env), c[0].1)]
                #![trigger canonical2(c2.eval(env), c[1])]
                #![trigger canonical2(c2.eval(env), c[2])]
                c2.extends(*circuit) implies canonical(c2.eval(env), c[0].1) && canonical2(
                c2.eval(env),
                c[1],
            ) && canonical2(c2.eval(env), c[2]) by {
                lemma_extends_trans(s4, *circuit, c2);
                lemma_extends_trans(s3, s4, c2);
                lemma_extends_trans(s2, s3, c2);
                lemma_extends_trans(s1, s2, c2);
            }
            assert forall|c2: Circuit, env: State| #![trigger fq6_val(c2.eval(env), c)] c2.extends(*circuit) implies fq6_val(c2.eval(env), c) == f6frobenius(fq6_val(c2.eval(env), *a), i as int) by {
                lemma_extends_trans(s4, *circuit, c2);
                lemma_extends_trans(s3, s4, c2);
                lemma_extends_trans(s2, s3, c2);
                lemma_extends_trans(s1, s2, c2);
                let m = c2.eval(env);
                assert(fq2_val(m, frobenius_a_c0) == f2frobenius(fq2_val(m, a[0]), i as int));
                assert(fq2_val(m, frobenius_a_c1) == f2frobenius(fq2_val(m, a[1]), i as int));
                assert(fq2_val(m, frobenius_a_c2) == f2frobenius(fq2_val(m, a[2]), i as int));
                assert(fq2_val(m, frobenius_a_c1_updated) == f2mmul(fq2_val(m, frobenius_a_c1), k1@));
                assert(fq2_val(m, frobenius_a_c2_updated) == f2mmul(fq2_val(m, frobenius_a_c2), k2@));
            }
        }
        c
    }

    /// Montgomery product by a constant given in Montgomery form, by the same
    /// evaluation and interpolation as the product of two elements, with the
    /// five products by constants done by the `Fq2` product by a constant.
    pub fn mul_by_constant_montgomery(circuit: &mut Circuit, a: &Fq6Components<BigIntWires>, b: &Fq6Value) -> (c:
        Fq6Components<BigIntWires>)
        requires
            old(circuit).wf(),
            old(circuit).has_room(121),
            is_fq6(*old(circuit), *a),
            b.wf(),
        ensures
            grows(*old(circuit), *final(circuit)),
            is_fq6(*final(circuit), c),
            final(circuit).num_wires == old(circuit).num_wires + 121 * 254,
            forall|c2: Circuit, env: State| #![trigger fq6_val(c2.eval(env), c)] #![trigger canonical6(c2.eval(env), c)]
                c2.extends(*final(circuit)) ==> canonical6(c2.eval(env), c) && fq6_val(c2.eval(env), c) == f6mmul(fq6_val(c2.eval(env), *a), b@),
    {
        let b_at_1 = b.c0.add(&b.c1).add(&b.c2);
        let b_at_minus_1 = b.c0.sub(&b.c1).add(&b.c2);
        let b_at_2 = b.c0.add(&b.c1.double()).add(&b.c2.double().double());
        proof {
            lemma_f2_sum3(b@.0, b@.1, b@.2);
            assert(b_at_1@ == f6points(b@.0, b@.1, b@.2).0);
            assert(b_at_minus_1@ == f6points(b@.0, b@.1, b@.2).1);
        }
        let ghost s0 = *circuit;
        let v0 = Fq2::mul_by_constant_montgomery(circuit, &a[0], &b.c0);
        let ghost s1 = *circuit;
        let pa = Self::eval_points(circuit, &a[0], &a[1], &a[2]);
        let ghost s2 = *circuit;
        let v1 = Fq2::mul_by_constant_montgomery(circuit, &pa.0, &b_at_1);
        let ghost s3 = *circuit;
        let v2 = Fq2::mul_by_constant_montgomery(circuit, &pa.1, &b_at_minus_1);
        let ghost s4 = *circuit;
        let v3 = Fq2::mul_by_constant_montgomery(circuit, &pa.2, &b_at_2);
        let ghost s5 = *circuit;
        let v4 = Fq2::mul_by_constant_montgomery(circuit, &a[2], &b.c2);
        let ghost s6 = *circuit;
        let r = Self::interpolate(circuit, &v0, &v1, &v2, &v3, &v4);
        let ghost s7 = *circuit;
        let c = Self::div6(circuit, &[r.0, r.1, r.2]);
        proof {
            lemma_grows_trans(s0, s1, s2);
            lemma_grows_trans(s0, s2, s3);
            lemma_grows_trans(s0, s3, s4);
            lemma_grows_trans(s0, s4, s5);
            lemma_grows_trans(s0, s5, s6);
            lemma_grows_trans(s0, s6, s7);
            lemma_grows_trans(s0, s7, *circuit);
            assert forall|c2: Circuit, env: State| #![trigger fq6_val(c2.eval(env), c)] #![trigger canonical6(c2.eval(env), c)] c2.extends(*circuit) implies canonical6(c2.eval(env), c) && fq6_val(c2.eval(env), c) == f6mmul(fq6_val(c2.eval(env), *a), b@) by {
                lemma_extends_trans(s7, *circuit, c2);
                lemma_extends_trans(s6, s7, c2);
                lemma_extends_trans(s5, s6, c2);
                lemma_extends_trans(s4, s5, c2);
                lemma_extends_trans(s3, s4, c2);
                lemma_extends_trans(s2, s3, c2);
                lemma_extends_trans(s1, s2, c2);
                assert(fq6_val(c2.eval(env), c) == ({ let x = fq6_val(c2.eval(env), *a); let pa = f6points(x.0, x.1, x.2); let pb = f6points(b@.0, b@.1, b@.2); f6div6(f6interp(f2mmul(x.0, b@.0), f2mmul(pa.0, pb.0), f2mmul(pa.1, pb.1), f2mmul(pa.2, pb.2), f2mmul(x.2, b@.2))) }));
                lemma_fq6_canonical(c2.eval(env), *a);
                lemma_f6_toom(fq6_val(c2.eval(env), *a), b@);
            }
        }
        c
    }

    /// A wire that is set exactly when the element equals the constant `b`,
    /// coordinate by coordinate as `Fq::equal_constant` compares them.
    pub fn equal_constant(circuit: &mut Circuit, a: &Fq6Components<BigIntWires>, b: &Fq6Value) -> (y:
        WireId)
        requires
            old(circuit).wf(),
            old(circuit).has_room(11),
            is_fq6(*old(circuit), *a),
            b.wf(),
        ensures
            grows(*old(circuit), *final(circuit)),
            y == final(circuit).num_wires - 1,
            final(circuit).num_wires == old(circuit).num_wires + 11,
            forall|c2: Circuit, env: State|
                c2.extends(*final(circuit)) ==> #[trigger] wire(c2.eval(env), y) == (fq6_val(
                    c2.eval(env),
                    *a,
                ) == b@),
    {
        let ghost s0 = *circuit;
        let u = Fq2::equal_constant(circuit, &a[0], &b.c0);
        let ghost s1 = *circuit;
        let v = Fq2::equal_constant(circuit, &a[1], &b.c1);
        let ghost s2 = *circuit;
        let w = Fq2::equal_constant(circuit, &a[2], &b.c2);
        let ghost s3 = *circuit;
        let x = circuit.add_gate(
            GateKind::And,
            BigIntWires { start: u, len: 1 },
            BigIntWires { start: v, len: 1 },
        );
        let ghost s4 = *circuit;
        let y = circuit.add_gate(GateKind::And, x, BigIntWires { start: w, len: 1 });
        proof {
            lemma_grows_trans(s0, s1, s2);
            lemma_grows_trans(s0, s2, s3);
            lemma_grows_trans(s0, s3, s4);
            lemma_grows_trans(s0, s4, *circuit);
            assert forall|c2: Circuit, env: State| c2.extends(*circuit) implies #[trigger] wire(
                c2.eval(env),
                y.start,
            ) == (fq6_val(c2.eval(env), *a) == b@) by {
                lemma_extends_trans(s4, *circuit, c2);
                lemma_extends_trans(s3, s4, c2);
                lemma_extends_trans(s2, s3, c2);
                lemma_extends_trans(s1, s2, c2);
                let m = c2.eval(env);
                lemma_single_wire(m, y);
                lemma_single_wire(m, x);
                lemma_single_wire(m, BigIntWires { start: u, len: 1 });
                lemma_single_wire(m, BigIntWires { start: v, len: 1 });
                lemma_single_wire(m, BigIntWires { start: w, len: 1 });
            }
        }
        y.start
    }

    /// The wire values of the three pairs as
    /// `"c0: (<pair>), c1: (<pair>), c2: (<pair>)"`, each pair as `Fq2::to_bitmask` writes it.
    pub fn to_bitmask(wires: &Fq6Components<BigIntWires>, values: &Vec<bool>) -> (s: String)
        requires
            forall|i: int| 0 <= i < 3 ==> #[trigger] wires[i].0.below(values.len() as int) && wires[i].1.below(values.len() as int),
        ensures
            s@ == seq!['c', '0', ':', ' ', '('] + fq2_bitmask(wires[0], values@) + seq![')', ',', ' ', 'c', '1', ':', ' ', '(']
                + fq2_bitmask(wires[1], values@) + seq![')', ',', ' ', 'c', '2', ':', ' ', '('] + fq2_bitmask(wires[2], values@) + seq![')'],
    {
        let ghost w0 = wires[0];
        let ghost w1 = wires[1];
        let ghost w2 = wires[2];
        assert(w0.0.below(values.len() as int) && w0.1.below(values.len() as int));
        assert(w1.0.below(values.len() as int) && w1.1.below(values.len() as int));
        assert(w2.0.below(values.len() as int) && w2.1.below(values.len() as int));
        let mut out: Vec<char> = Vec::new();
        out.push('c');
        out.push('0');
        out.push(':');
        out.push(' ');
        out.push('(');
        push_fq2_bitmask(&wires[0], values, &mut out);
        out.push(')');
        out.push(',');
        out.push(' ');
        out.push('c');
        out.push('1');
        out.push(':');
        out.push(' ');
        out.push('(');
        push_fq2_bitmask(&wires[1], values, &mut out);
        out.push(')');
        out.push(',');
        out.push(' ');
        out.push('c');
        out.push('2');
        out.push(':');
        out.push(' ');
        out.push('(');
        push_fq2_bitmask(&wires[2], values, &mut out);
        out.push(')');
        proof {
            assert(out@ =~= seq!['c', '0', ':', ' ', '('] + fq2_bitmask(wires[0], values@) + seq![')', ',', ' ', 'c', '1', ':', ' ', '(']
                + fq2_bitmask(wires[1], values@) + seq![')', ',', ' ', 'c', '2', ':', ' ', '('] + fq2_bitmask(wires[2], values@) + seq![')']);
        }
        string_from_chars(out)
    }

    /// Montgomery form of every coordinate.
    pub fn as_montgomery(a: Fq6Value) -> (r: Fq6Value)
        requires
            a.wf(),
        ensures
            r.wf(),
            r@ == (f2to_mont(a@.0), f2to_mont(a@.1), f2to_mont(a@.2)),
    {
        Fq6Value {
            c0: Fq2::as_montgomery(a.c0),
            c1: Fq2::as_montgomery(a.c1),
            c2: Fq2::as_montgomery(a.c2),
        }
    }

    /// Every coordinate out of Montgomery form.
    pub fn from_montgomery(a: Fq6Value) -> (r: Fq6Value)
        requires
            a.wf(),
        ensures
            r.wf(),
            r@ == (f2from_mont(a@.0), f2from_mont(a@.1), f2from_mont(a@.2)),
    {
        Fq6Value {
            c0: Fq2::from_montgomery(a.c0),
            c1: Fq2::from_montgomery(a.c1),
            c2: Fq2::from_montgomery(a.c2),
        }
    }

    /// The bits of every coordinate.
    pub fn to_bits(u: Fq6Value) -> (bits: Fq6Components<Vec<bool>>)
        requires
            u.wf(),
        ensures
            forall|i: int| 0 <= i < 3 ==> (#[trigger] bits[i]).0.len() == 254 && bits[i].1.len() == 254,
            bits_to_nat(bits[0].0@) == u@.0.0,
            bits_to_nat(bits[0].1@) == u@.0.1,
            bits_to_nat(bits[1].0@) == u@.1.0,
            bits_to_nat(bits[1].1@) == u@.1.1,
            bits_to_nat(bits[2].0@) == u@.2.0,
            bits_to_nat(bits[2].1@) == u@.2.1,
    {
        [Fq2::to_bits(u.c0), Fq2::to_bits(u.c1), Fq2::to_bits(u.c2)]
    }

    /// The element whose coordinates have the given bits, each reduced modulo `p`.
    pub fn from_bits(bits: Fq6Components<Vec<bool>>) -> (r: Fq6Value)
        ensures
            r.wf(),
            r@.0 == (fred(bits_to_nat(bits[0].0@) as int), fred(bits_to_nat(bits[0].1@) as int)),
            r@.1 == (fred(bits_to_nat(bits[1].0@) as int), fred(bits_to_nat(bits[1].1@) as int)),
            r@.2 == (fred(bits_to_nat(bits[2].0@) as int), fred(bits_to_nat(bits[2].1@) as int)),
    {
        Fq6Value {
            c0: Fq2Value { c0: Fq::bits_value(&bits[0].0), c1: Fq::bits_value(&bits[0].1) },
            c1: Fq2Value { c0: Fq::bits_value(&bits[1].0), c1: Fq::bits_value(&bits[1].1) },
            c2: Fq2Value { c0: Fq::bits_value(&bits[2].0), c1: Fq::bits_value(&bits[2].1) },
        }
    }
}

/// First Frobenius coefficients of `ark_bn254::Fq6Config`,
/// `FROBENIUS_COEFF_FP6_C1[i]`: the constant `Fq2` elements that `ark_bn254`
/// defines there, listed by `frob6_c1`.
#[verifier::external_body]
fn fq6_frobenius_coeff_c1(i: usize) -> (r: Fq2Value)
    requires
        i < 6,
    ensures
        r.wf(),
        r@ == frob6_c1(i as int),
{
    let c = ark_bn254::Fq6Config::FROBENIUS_COEFF_FP6_C1[i];
    Fq2Value { c0: FqValue { limbs: c.c0.into_bigint().0 }, c1: FqValue { limbs: c.c1.into_bigint().0 } }
}

/// Second Frobenius coefficients of `ark_bn254::Fq6Config`,
/// `FROBENIUS_COEFF_FP6_C2[i]`: the constant `Fq2` elements that `ark_bn254`
/// defines there, listed by `frob6_c2`.
#[verifier::external_body]
fn fq6_frobenius_coeff_c2(i: usize) -> (r: Fq2Value)
    requires
        i < 6,
    ensures
        r.wf(),
        r@ == frob6_c2(i as int),
{
    let c = ark_bn254::Fq6Config::FROBENIUS_COEFF_FP6_C2[i];
    Fq2Value { c0: FqValue { limbs: c.c0.into_bigint().0 }, c1: FqValue { limbs: c.c1.into_bigint().0 } }
}

} // verus!

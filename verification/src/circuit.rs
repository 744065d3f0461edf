//! Boolean-wire circuits whose gates act on bundles of wires holding
//! base-field elements, with their evaluation semantics.
//!
//! A circuit only ever grows: wires are issued in increasing order and each
//! gate writes a bundle of fresh wires, so the value that evaluation gives a
//! bundle never changes once the bundle exists (see `lemma_extends_frame`).
use crate::bits::{
    bits_to_nat, exp2, lemma_bits_unique, lemma_exp2_254, lemma_nat_to_bits, nat_to_bits,
};
use crate::field::{
    fadd, fdiv6, fhalf, finv, fneg, fred, from_mont, fsub, lemma_constants, lemma_fred_range, mexp, minv,
    mmul, p,
};
use crate::fq::Fq;
use crate::value::{fq_add, fq_inverse, fq_mul, fq_neg, fq_pow, fq_sub, FqValue};
use vstd::prelude::*;

verus! {

/// Index of a wire of a circuit.
pub type WireId = usize;

/// A bundle of `len` consecutive wires starting at `start`, holding the
/// little-endian bits of an integer.
#[derive(Clone, Copy, Debug)]
pub struct BigIntWires {
    pub start: WireId,
    pub len: usize,
}

/// What a gate computes from the field values of its input bundles.
#[derive(Clone, Copy, Debug)]
pub enum GateKind {
    Add,
    Sub,
    Neg,
    Double,
    Triple,
    Half,
    Div6,
    MulMontgomery,
    SquareMontgomery,
    InverseMontgomery,
    Inverse,
    AddConstant(FqValue),
    MulByConstantMontgomery(FqValue),
    EqualConstant(FqValue),
    ExpByConstantMontgomery(FqValue),
    And,
    Select(WireId),
    Constant(FqValue),
    MontgomeryReduce,
}

/// A gate: reads bundles `a` and `b` (unary kinds read only `a`) and writes `out`.
#[derive(Clone, Copy, Debug)]
pub struct Gate {
    pub kind: GateKind,
    pub a: BigIntWires,
    pub b: BigIntWires,
    pub out: BigIntWires,
}

/// A circuit: the number of issued wires, the gates in evaluation order, and
/// the bundles marked as inputs and outputs.
pub struct Circuit {
    pub num_wires: usize,
    pub gates: Vec<Gate>,
    pub inputs: Vec<BigIntWires>,
    pub outputs: Vec<BigIntWires>,
}

/// Values of all wires.
pub type State = spec_fn(int) -> bool;

/// `new` is `old` with wires issued, gates appended and nothing else changed.
pub open spec fn grows(old: Circuit, new: Circuit) -> bool {
    &&& new.wf()
    &&& new.extends(old)
    &&& new.inputs@ == old.inputs@
    &&& new.outputs@ == old.outputs@
}

impl BigIntWires {
    /// Issue a bundle of `n_bits` fresh wires, registered as circuit input
    /// and/or output as asked.
    pub fn new(circuit: &mut Circuit, n_bits: usize, is_input: bool, is_output: bool) -> (w:
        BigIntWires)
        requires
            old(circuit).wf(),
            old(circuit).num_wires + n_bits <= usize::MAX,
        ensures
            w.start == old(circuit).num_wires,
            w.len == n_bits,
            final(circuit).num_wires == old(circuit).num_wires + n_bits,
            final(circuit).wf(),
            final(circuit).extends(*old(circuit)),
            final(circuit).gates@ == old(circuit).gates@,
            final(circuit).inputs@ == if is_input {
                old(circuit).inputs@.push(w)
            } else {
                old(circuit).inputs@
            },
            final(circuit).outputs@ == if is_output {
                old(circuit).outputs@.push(w)
            } else {
                old(circuit).outputs@
            },
    {
        let w = BigIntWires { start: circuit.num_wires, len: n_bits };
        circuit.num_wires = circuit.num_wires + n_bits;
        if is_input {
            circuit.inputs.push(w);
        }
        if is_output {
            circuit.outputs.push(w);
        }
        proof {
            assert(circuit.gates@.take(circuit.gates@.len() as int) =~= circuit.gates@);
        }
        w
    }

    /// A bundle holding the constant field element `value`, written by a
    /// constant gate that reads no wire.
    pub fn new_constant(circuit: &mut Circuit, value: &FqValue) -> (w: BigIntWires)
        requires
            old(circuit).wf(),
            old(circuit).has_room(1),
            value.wf(),
        ensures
            grows(*old(circuit), *final(circuit)),
            final(circuit).is_fq(w),
            w.start == old(circuit).num_wires,
            final(circuit).num_wires == old(circuit).num_wires + 254,
            forall|c2: Circuit, env: State| #![trigger fq_val(c2.eval(env), w)] #![trigger canonical(c2.eval(env), w)]
                c2.extends(*final(circuit)) ==> canonical(c2.eval(env), w) && fq_val(c2.eval(env), w) == value.value(),
    {
        let none = BigIntWires { start: 0, len: 0 };
        circuit.add_gate(GateKind::Constant(*value), none, none)
    }

    /// Register the bundle as a circuit output.
    pub fn mark_as_output(&self, circuit: &mut Circuit)
        requires
            old(circuit).wf(),
        ensures
            final(circuit).num_wires == old(circuit).num_wires,
            final(circuit).gates@ == old(circuit).gates@,
            final(circuit).inputs@ == old(circuit).inputs@,
            final(circuit).outputs@ == old(circuit).outputs@.push(*self),
            final(circuit).wf(),
            final(circuit).extends(*old(circuit)),
    {
        circuit.outputs.push(*self);
        proof {
            assert(circuit.gates@.take(circuit.gates@.len() as int) =~= circuit.gates@);
        }
    }

    /// Write `bits` on the bundle's wires of the wire values `values`.
    pub fn set_bits(&self, values: &mut Vec<bool>, bits: &Vec<bool>)
        requires
            self.below(old(values).len() as int),
            bits.len() == self.len,
        ensures
            final(values).len() == old(values).len(),
            self.bits_in(env_of(final(values)@)) == bits@,
            forall|i: int|
                0 <= i < old(values).len() && !(self.start <= i < self.start + self.len) ==> final(values)@[i] == old(values)@[i],
    {
        let ghost v0 = values@;
        let mut j: usize = 0;
        while j < self.len
            invariant
                self.below(v0.len() as int),
                bits.len() == self.len,
                values.len() == v0.len(),
                j <= self.len,
                forall|i: int|
                    0 <= i < values.len() ==> values@[i] == if self.start <= i < self.start + j {
                        bits@[i - self.start]
                    } else {
                        v0[i]
                    },
            decreases self.len - j,
        {
            values.set(self.start + j, bits[j]);
            j = j + 1;
        }
        proof {
            assert(self.bits_in(env_of(values@)) =~= bits@);
        }
    }

    /// The bits on the bundle's wires of the wire values `values`.
    pub fn get_bits(&self, values: &Vec<bool>) -> (bits: Vec<bool>)
        requires
            self.below(values.len() as int),
        ensures
            bits@ == self.bits_in(env_of(values@)),
    {
        let mut bits: Vec<bool> = Vec::new();
        let mut i: usize = 0;
        while i < self.len
            invariant
                self.below(values.len() as int),
                i <= self.len,
                bits@ =~= self.bits_in(env_of(values@)).take(i as int),
            decreases self.len - i,
        {
            bits.push(values[self.start + i]);
            i = i + 1;
        }
        proof {
            assert(self.bits_in(env_of(values@)).take(self.len as int) =~= self.bits_in(env_of(values@)));
        }
        bits
    }

    /// Append the bundle's wire values, lowest wire first, as `'1'` and `'0'`.
    pub fn push_bitmask(&self, values: &Vec<bool>, out: &mut Vec<char>)
        requires
            self.below(values.len() as int),
        ensures
            final(out)@ == old(out)@ + bitmask(self.bits_in(env_of(values@))),
    {
        let ghost start = out@;
        let mut i: usize = 0;
        while i < self.len
            invariant
                self.below(values.len() as int),
                i <= self.len,
                out@ == start + bitmask(self.bits_in(env_of(values@))).take(i as int),
            decreases self.len - i,
        {
            let c = if values[self.start + i] {
                '1'
            } else {
                '0'
            };
            out.push(c);
            proof {
                assert(bitmask(self.bits_in(env_of(values@))).take(i + 1) =~= bitmask(
                    self.bits_in(env_of(values@)),
                ).take(i as int).push(c));
            }
            i = i + 1;
        }
        proof {
            assert(bitmask(self.bits_in(env_of(values@))).take(self.len as int) =~= bitmask(
                self.bits_in(env_of(values@)),
            ));
        }
    }

    pub fn len(&self) -> (r: usize)
        ensures
            r == self.len,
    {
        self.len
    }

    /// The bits on the bundle's wires.
    pub open spec fn bits_in(self, m: State) -> Seq<bool> {
        Seq::new(self.len as nat, |i: int| m(self.start + i))
    }

    /// The bundle lies among the first `n` wires.
    pub open spec fn below(self, n: int) -> bool {
        self.start + self.len <= n
    }
}

/// The bit for wire `w` among `bits` laid on the wires from `start` on, if
/// `w` is one of them.
pub fn wire_bit(bits: &Vec<bool>, start: usize, w: usize) -> (r: Option<bool>)
    ensures
        r == if start <= w < start + bits.len() {
            Some(bits@[w - start])
        } else {
            None::<bool>
        },
{
    if w >= start && w - start < bits.len() {
        Some(bits[w - start])
    } else {
        None
    }
}

/// Bits written as `'1'` and `'0'`.
pub open spec fn bitmask(bits: Seq<bool>) -> Seq<char> {
    bits.map_values(|b: bool| if b { '1' } else { '0' })
}

/// `String::from_iter` over chars: the string of those chars.
#[verifier::external_body]
pub(crate) fn string_from_chars(chars: Vec<char>) -> (s: String)
    ensures
        s@ == chars@,
{
    String::from_iter(chars)
}

/// The integer on a bundle.
pub open spec fn read(m: State, w: BigIntWires) -> nat {
    bits_to_nat(w.bits_in(m))
}

/// The integer on the bundle is canonical, below `p`: it is the field
/// element the bundle holds, and its wires carry that element's bits (see
/// `lemma_canonical_bits`). Kept opaque so that the many bundles of a large
/// gadget do not unfold it; `reveal(canonical)` opens it.
#[verifier::opaque]
pub open spec fn canonical(m: State, w: BigIntWires) -> bool {
    read(m, w) < p()
}

/// The field element on a bundle: its integer reduced modulo `p`.
pub open spec fn fq_val(m: State, w: BigIntWires) -> int {
    fred(read(m, w) as int)
}

/// Number of output wires of a gate kind.
pub open spec fn out_width(kind: GateKind) -> nat {
    match kind {
        GateKind::EqualConstant(_) => 1,
        GateKind::And => 1,
        _ => 254,
    }
}

/// The value of the selector wire of a select gate (false for other kinds).
pub open spec fn selector(m: State, kind: GateKind) -> bool {
    match kind {
        GateKind::Select(w) => m(w as int),
        _ => false,
    }
}

/// The value a gate writes, from the field values `x`, `y` of its inputs
/// and the value `s` of its selector wire.
pub open spec fn gate_result(kind: GateKind, x: int, y: int, s: bool) -> int {
    match kind {
        GateKind::Add => fadd(x, y),
        GateKind::Sub => fsub(x, y),
        GateKind::Neg => fneg(x),
        GateKind::Double => fred(2 * x),
        GateKind::Triple => fred(3 * x),
        GateKind::Half => fhalf(x),
        GateKind::Div6 => fdiv6(x),
        GateKind::MulMontgomery => mmul(x, y),
        GateKind::SquareMontgomery => mmul(x, x),
        GateKind::InverseMontgomery => minv(x),
        GateKind::Inverse => finv(x),
        GateKind::AddConstant(k) => fadd(x, k.value()),
        GateKind::MulByConstantMontgomery(k) => mmul(x, k.value()),
        GateKind::EqualConstant(k) => if x == k.value() {
            1
        } else {
            0
        },
        GateKind::ExpByConstantMontgomery(e) => mexp(x, e.value() as nat),
        GateKind::And => if x == 1 && y == 1 {
            1
        } else {
            0
        },
        GateKind::Select(_) => if s {
            x
        } else {
            y
        },
        GateKind::Constant(k) => k.value(),
        GateKind::MontgomeryReduce => from_mont(x),
    }
}

/// The state after writing the binary digits of `r` on bundle `w`.
pub open spec fn write(m: State, w: BigIntWires, r: nat) -> State {
    |i: int|
        if w.start <= i < w.start + w.len {
            nat_to_bits(r, w.len as nat)[i - w.start]
        } else {
            m(i)
        }
}

pub open spec fn apply_gate(m: State, g: Gate) -> State {
    write(m, g.out, gate_result(g.kind, fq_val(m, g.a), fq_val(m, g.b), selector(m, g.kind)) as nat)
}

/// The state after evaluating the gates `gs` in order from state `m`.
pub open spec fn run(m: State, gs: Seq<Gate>) -> State
    decreases gs.len(),
{
    if gs.len() == 0 {
        m
    } else {
        apply_gate(run(m, gs.drop_last()), gs.last())
    }
}

/// The constant of a gate kind, if it has one, is a canonical field element.
pub open spec fn kind_wf(kind: GateKind) -> bool {
    match kind {
        GateKind::AddConstant(k) => k.wf(),
        GateKind::MulByConstantMontgomery(k) => k.wf(),
        GateKind::EqualConstant(k) => k.wf(),
        GateKind::Constant(k) => k.wf(),
        _ => true,
    }
}

/// A well-shaped gate of a circuit with `n` wires.
pub open spec fn gate_wf(g: Gate, n: int) -> bool {
    &&& kind_wf(g.kind)
    &&& g.a.below(g.out.start as int)
    &&& g.b.below(g.out.start as int)
    &&& g.out.below(n)
    &&& g.out.len == out_width(g.kind)
    &&& g.kind matches GateKind::Select(w) ==> w < g.out.start
}

/// The initial state whose wire values are `s`.
pub open spec fn env_of(s: Seq<bool>) -> State {
    |i: int| 0 <= i < s.len() && s[i]
}

impl Circuit {
    /// The state after evaluating the whole circuit from `env`.
    pub open spec fn eval(&self, env: State) -> State {
        run(env, self.gates@)
    }

    pub open spec fn wf(&self) -> bool {
        forall|k: int| 0 <= k < self.gates@.len() ==> gate_wf(#[trigger] self.gates@[k], self.num_wires as int)
    }

    /// `self` is `old` with wires issued and gates appended, every appended
    /// gate writing only wires that `old` had not issued.
    pub open spec fn extends(&self, old: Circuit) -> bool {
        &&& old.gates@.len() <= self.gates@.len()
        &&& self.gates@.take(old.gates@.len() as int) == old.gates@
        &&& old.num_wires <= self.num_wires
        &&& forall|k: int|
            old.gates@.len() <= k < self.gates@.len() ==> #[trigger] self.gates@[k].out.start
                >= old.num_wires
    }

    /// `n` more bundles of at most 254 wires can be issued.
    pub open spec fn has_room(&self, n: int) -> bool {
        self.num_wires + 254 * n <= usize::MAX
    }

    /// `w` is a bundle of this circuit holding a base-field element.
    pub open spec fn is_fq(&self, w: BigIntWires) -> bool {
        w.len == 254 && w.below(self.num_wires as int)
    }

    /// Whether every gate is well shaped (`wf`): checked by callers that
    /// build or receive a circuit outside verified code.
    pub fn is_wf(&self) -> (r: bool)
        ensures
            r == self.wf(),
    {
        let n = self.num_wires;
        let mut k: usize = 0;
        while k < self.gates.len()
            invariant
                n == self.num_wires,
                k <= self.gates.len(),
                forall|j: int| 0 <= j < k ==> gate_wf(#[trigger] self.gates@[j], n as int),
            decreases self.gates.len() - k,
        {
            let g = self.gates[k];
            if !gate_is_wf(&g, n) {
                assert(!gate_wf(self.gates@[k as int], n as int));
                return false;
            }
            k = k + 1;
        }
        true
    }

    /// An empty circuit.
    pub fn new() -> (c: Circuit)
        ensures
            c.wf(),
            c.num_wires == 0,
            c.gates@.len() == 0,
            c.inputs@.len() == 0,
            c.outputs@.len() == 0,
    {
        Circuit { num_wires: 0, gates: Vec::new(), inputs: Vec::new(), outputs: Vec::new() }
    }

    /// Issue one fresh wire.
    pub fn issue_wire(&mut self) -> (w: WireId)
        requires
            old(self).wf(),
            old(self).num_wires < usize::MAX,
        ensures
            w == old(self).num_wires,
            final(self).num_wires == old(self).num_wires + 1,
            final(self).gates@ == old(self).gates@,
            final(self).inputs@ == old(self).inputs@,
            final(self).outputs@ == old(self).outputs@,
            final(self).wf(),
            final(self).extends(*old(self)),
    {
        let w = self.num_wires;
        self.num_wires = self.num_wires + 1;
        proof {
            assert(self.gates@.take(self.gates@.len() as int) =~= self.gates@);
        }
        w
    }

    /// Append gate `kind` on inputs `a`, `b`, writing a fresh bundle.
    pub fn add_gate(&mut self, kind: GateKind, a: BigIntWires, b: BigIntWires) -> (out: BigIntWires)
        requires
            old(self).wf(),
            old(self).has_room(1),
            kind_wf(kind),
            a.below(old(self).num_wires as int),
            b.below(old(self).num_wires as int),
            kind matches GateKind::Select(w) ==> w < old(self).num_wires,
        ensures
            out.start == old(self).num_wires,
            out.len == out_width(kind),
            final(self).num_wires == old(self).num_wires + out.len,
            final(self).gates@ == old(self).gates@.push(Gate { kind, a, b, out }),
            final(self).inputs@ == old(self).inputs@,
            final(self).outputs@ == old(self).outputs@,
            final(self).wf(),
            final(self).extends(*old(self)),
            forall|c2: Circuit, env: State| #![trigger fq_val(c2.eval(env), out)] #![trigger canonical(c2.eval(env), out)]
                c2.extends(*final(self)) ==> canonical(c2.eval(env), out) && fq_val(
                    c2.eval(env),
                    out,
                ) == gate_result(
                    kind,
                    fq_val(c2.eval(env), a),
                    fq_val(c2.eval(env), b),
                    selector(c2.eval(env), kind),
                ),
    {
        let width: usize = match kind {
            GateKind::EqualConstant(_) => 1,
            GateKind::And => 1,
            _ => 254,
        };
        let out = BigIntWires { start: self.num_wires, len: width };
        let ghost old_c = *old(self);
        self.num_wires = self.num_wires + width;
        self.gates.push(Gate { kind, a, b, out });
        proof {
            let g = Gate { kind, a, b, out };
            assert(self.gates@.take(old_c.gates@.len() as int) =~= old_c.gates@);
            assert forall|k: int| 0 <= k < self.gates@.len() implies gate_wf(
                #[trigger] self.gates@[k],
                self.num_wires as int,
            ) by {
                if k < old_c.gates@.len() {
                    assert(self.gates@[k] == old_c.gates@[k]);
                }
            }
            assert forall|c2: Circuit, env: State|
                #![trigger fq_val(c2.eval(env), out)]
                #![trigger canonical(c2.eval(env), out)]
                c2.extends(*self) implies canonical(c2.eval(env), out) && fq_val(c2.eval(env), out)
                == gate_result(
                kind,
                fq_val(c2.eval(env), a),
                fq_val(c2.eval(env), b),
                selector(c2.eval(env), kind),
            ) by {
                lemma_gate_value(old_c, *self, c2, env, g);
            }
            lemma_extends_refl(*self);
        }
        out
    }

    /// Evaluate the circuit from the wire values `input`; returns the values
    /// of all wires after every gate has been evaluated.
    pub fn simple_evaluate(&self, input: &Vec<bool>) -> (values: Vec<bool>)
        requires
            self.wf(),
            input.len() == self.num_wires,
        ensures
            values.len() == self.num_wires,
            forall|i: int| 0 <= i < self.num_wires ==> values@[i] == self.eval(env_of(input@))(i),
    {
        let mut vals = input.clone();
        let n = self.gates.len();
        let mut k: usize = 0;
        let ghost env = env_of(input@);
        proof {
            assert(self.gates@.take(0) =~= Seq::<Gate>::empty());
        }
        while k < n
            invariant
                self.wf(),
                n == self.gates@.len(),
                k <= n,
                vals.len() == self.num_wires,
                env == env_of(input@),
                input.len() == self.num_wires,
                forall|i: int|
                    0 <= i < self.num_wires ==> vals@[i] == run(env, self.gates@.take(k as int))(i),
            decreases n - k,
        {
            let g = self.gates[k];
            proof {
                assert(gate_wf(self.gates@[k as int], self.num_wires as int));
                assert(self.gates@.take(k + 1).drop_last() =~= self.gates@.take(k as int));
                assert(self.gates@.take(k + 1).last() == g);
            }
            let ghost m = run(env, self.gates@.take(k as int));
            eval_gate(&mut vals, &g, Ghost(m));
            k = k + 1;
        }
        proof {
            assert(self.gates@.take(n as int) =~= self.gates@);
        }
        vals
    }
}

impl Default for Circuit {
    /// An empty circuit.
    fn default() -> (c: Circuit)
        ensures
            c.wf(),
            c.num_wires == 0,
            c.gates@.len() == 0,
            c.inputs@.len() == 0,
            c.outputs@.len() == 0,
    {
        Circuit::new()
    }
}

/// Whether gate `g` is well shaped in a circuit of `n` wires.
fn gate_is_wf(g: &Gate, n: usize) -> (r: bool)
    ensures
        r == gate_wf(*g, n as int),
{
    let kind_ok = match g.kind {
        GateKind::AddConstant(k) => k.is_canonical(),
        GateKind::MulByConstantMontgomery(k) => k.is_canonical(),
        GateKind::EqualConstant(k) => k.is_canonical(),
        GateKind::Constant(k) => k.is_canonical(),
        _ => true,
    };
    let width: usize = match g.kind {
        GateKind::EqualConstant(_) => 1,
        GateKind::And => 1,
        _ => 254,
    };
    let select_ok = match g.kind {
        GateKind::Select(w) => w < g.out.start,
        _ => true,
    };
    kind_ok && fits_below(&g.a, g.out.start) && fits_below(&g.b, g.out.start) && fits_below(
        &g.out,
        n,
    ) && g.out.len == width && select_ok
}

/// Whether bundle `w` lies among the first `n` wires.
fn fits_below(w: &BigIntWires, n: usize) -> (r: bool)
    ensures
        r == w.below(n as int),
{
    w.len <= n && w.start <= n - w.len
}

/// `a` where wire `s` is set and `b` elsewhere, on a fresh bundle.
pub fn select(circuit: &mut Circuit, a: &BigIntWires, b: &BigIntWires, s: WireId) -> (c:
    BigIntWires)
    requires
        old(circuit).wf(),
        old(circuit).has_room(1),
        old(circuit).is_fq(*a),
        old(circuit).is_fq(*b),
        s < old(circuit).num_wires,
    ensures
        grows(*old(circuit), *final(circuit)),
        final(circuit).is_fq(c),
        c.start == old(circuit).num_wires,
        final(circuit).num_wires == old(circuit).num_wires + 254,
        forall|c2: Circuit, env: State| #![trigger fq_val(c2.eval(env), c)] #![trigger canonical(c2.eval(env), c)]
            c2.extends(*final(circuit)) ==> canonical(c2.eval(env), c) && fq_val(c2.eval(env), c) == if wire(
                c2.eval(env),
                s,
            ) {
                fq_val(c2.eval(env), *a)
            } else {
                fq_val(c2.eval(env), *b)
            },
{
    circuit.add_gate(GateKind::Select(s), *a, *b)
}

/// Read the field element on bundle `w` of the wire values `vals`.
fn read_bundle(vals: &Vec<bool>, w: BigIntWires) -> (r: FqValue)
    requires
        w.below(vals.len() as int),
    ensures
        r.wf(),
        r.value() == fred(bits_to_nat(Seq::new(w.len as nat, |i: int| vals@[w.start + i])) as int),
{
    let mut bits: Vec<bool> = Vec::new();
    let mut i: usize = 0;
    while i < w.len
        invariant
            w.below(vals.len() as int),
            i <= w.len,
            bits@ =~= Seq::new(i as nat, |j: int| vals@[w.start + j]),
        decreases w.len - i,
    {
        bits.push(vals[w.start + i]);
        i = i + 1;
    }
    Fq::from_bits(bits)
}

/// The value a gate writes, computed from the field values of its inputs.
fn compute_gate(kind: &GateKind, x: &FqValue, y: &FqValue, s: bool) -> (r: FqValue)
    requires
        kind_wf(*kind),
        x.wf(),
        y.wf(),
    ensures
        r.wf(),
        r.value() == gate_result(*kind, x.value(), y.value(), s),
{
    proof {
        lemma_constants();
    }
    match kind {
        GateKind::Add => fq_add(x, y),
        GateKind::Sub => fq_sub(x, y),
        GateKind::Neg => fq_neg(x),
        GateKind::Double => {
            let r = fq_add(x, x);
            r
        },
        GateKind::Triple => {
            let d = fq_add(x, x);
            let r = fq_add(&d, x);
            proof {
                crate::field::lemma_fred_range(2 * x.value());
                crate::field::lemma_cong_add(d.value(), 2 * x.value(), x.value(), x.value());
            }
            r
        },
        GateKind::Half => fq_mul(x, &FqValue::half_constant()),
        GateKind::Div6 => fq_mul(x, &FqValue::sixth_constant()),
        GateKind::MulMontgomery => {
            let t = fq_mul(x, y);
            let r = fq_mul(&t, &FqValue::montgomery_r_inverse());
            proof {
                crate::field::lemma_mmul_split(x.value(), y.value());
            }
            r
        },
        GateKind::SquareMontgomery => {
            let t = fq_mul(x, x);
            let r = fq_mul(&t, &FqValue::montgomery_r_inverse());
            proof {
                crate::field::lemma_mmul_split(x.value(), x.value());
            }
            r
        },
        GateKind::InverseMontgomery => {
            match fq_inverse(x) {
                None => {
                    proof {
                        crate::field::lemma_finv_zero(x.value());
                    }
                    FqValue::zero()
                },
                Some(inv) => {
                    proof {
                        crate::field::lemma_finv_is(x.value(), inv.value());
                    }
                    let rr = FqValue::montgomery_rr();
                    fq_mul(&rr, &inv)
                },
            }
        },
        GateKind::Inverse => {
            match fq_inverse(x) {
                None => {
                    proof {
                        crate::field::lemma_finv_zero(x.value());
                    }
                    FqValue::zero()
                },
                Some(inv) => {
                    proof {
                        crate::field::lemma_finv_is(x.value(), inv.value());
                    }
                    inv
                },
            }
        },
        GateKind::AddConstant(k) => fq_add(x, k),
        GateKind::MulByConstantMontgomery(k) => {
            let t = fq_mul(x, k);
            let r = fq_mul(&t, &FqValue::montgomery_r_inverse());
            proof {
                crate::field::lemma_mmul_split(x.value(), k.value());
            }
            r
        },
        GateKind::EqualConstant(k) => {
            if x.equals(k) {
                FqValue::one()
            } else {
                FqValue::zero()
            }
        },
        GateKind::ExpByConstantMontgomery(e) => {
            let plain = fq_mul(x, &FqValue::montgomery_r_inverse());
            let power = fq_pow(&plain, e);
            fq_mul(&power, &FqValue::montgomery_r())
        },
        GateKind::And => {
            if x.value_is_one() && y.value_is_one() {
                FqValue::one()
            } else {
                FqValue::zero()
            }
        },
        GateKind::Select(_) => {
            if s {
                *x
            } else {
                *y
            }
        },
        GateKind::Constant(k) => *k,
        GateKind::MontgomeryReduce => fq_mul(x, &FqValue::montgomery_r_inverse()),
    }
}

/// Evaluate gate `g` on the wire values `vals`, which hold state `m`.
fn eval_gate(vals: &mut Vec<bool>, g: &Gate, Ghost(m): Ghost<State>)
    requires
        gate_wf(*g, old(vals).len() as int),
        forall|i: int| 0 <= i < old(vals).len() ==> old(vals)@[i] == m(i),
    ensures
        final(vals).len() == old(vals).len(),
        forall|i: int| 0 <= i < final(vals).len() ==> final(vals)@[i] == apply_gate(m, *g)(i),
{
    let ghost v0 = vals@;
    let x = read_bundle(vals, g.a);
    let y = read_bundle(vals, g.b);
    proof {
        assert(Seq::new(g.a.len as nat, |i: int| vals@[g.a.start + i]) =~= g.a.bits_in(m));
        assert(Seq::new(g.b.len as nat, |i: int| vals@[g.b.start + i]) =~= g.b.bits_in(m));
    }
    let s = match g.kind {
        GateKind::Select(w) => vals[w],
        _ => false,
    };
    let r = compute_gate(&g.kind, &x, &y, s);
    let ghost rv = r.value() as nat;
    let ghost target = nat_to_bits(rv, g.out.len as nat);
    let bits: Vec<bool> = if g.out.len == 1 {
        let mut v: Vec<bool> = Vec::new();
        v.push(r.value_is_one());
        proof {
            assert(rv == 0 || rv == 1);
            reveal_with_fuel(nat_to_bits, 2);
            assert(v@ =~= target);
        }
        v
    } else {
        let v = Fq::to_bits(r);
        proof {
            lemma_bits_unique(v@);
        }
        v
    };
    let mut j: usize = 0;
    while j < g.out.len
        invariant
            gate_wf(*g, vals.len() as int),
            vals.len() == v0.len(),
            bits@ == target,
            target.len() == g.out.len,
            j <= g.out.len,
            forall|i: int|
                0 <= i < vals.len() ==> vals@[i] == if g.out.start <= i < g.out.start + j {
                    target[i - g.out.start]
                } else {
                    v0[i]
                },
        decreases g.out.len - j,
    {
        vals[g.out.start + j] = bits[j];
        j = j + 1;
    }
}

/// Evaluating a circuit with one more gate is evaluating that gate last.
proof fn lemma_eval_push(old: Circuit, new: Circuit, env: State, g: Gate)
    requires
        new.gates@ == old.gates@.push(g),
    ensures
        new.eval(env) == apply_gate(old.eval(env), g),
{
    assert(new.gates@.drop_last() =~= old.gates@);
    assert(new.gates@.last() == g);
}

/// The last gate of `new` puts its result on its output bundle, and the
/// bundle keeps that value in every extension.
proof fn lemma_gate_value(old: Circuit, new: Circuit, c2: Circuit, env: State, g: Gate)
    requires
        new.gates@ == old.gates@.push(g),
        c2.extends(new),
        kind_wf(g.kind),
        g.out.start == old.num_wires,
        g.out.len == out_width(g.kind),
        g.a.below(old.num_wires as int),
        g.b.below(old.num_wires as int),
        g.kind matches GateKind::Select(w) ==> w < old.num_wires,
        new.num_wires == old.num_wires + g.out.len,
    ensures
        canonical(c2.eval(env), g.out),
        fq_val(c2.eval(env), g.out) == gate_result(
            g.kind,
            fq_val(c2.eval(env), g.a),
            fq_val(c2.eval(env), g.b),
            selector(c2.eval(env), g.kind),
        ),
{
    let m0 = old.eval(env);
    lemma_eval_push(old, new, env, g);
    let x = fq_val(m0, g.a);
    let y = fq_val(m0, g.b);
    let s = selector(m0, g.kind);
    let r = gate_result(g.kind, x, y, s);
    lemma_fred_range(read(m0, g.a) as int);
    lemma_fred_range(read(m0, g.b) as int);
    lemma_gate_result_range(g.kind, x, y, s);
    lemma_read_write(m0, g.out, r as nat);
    lemma_read_write_other(m0, g.out, r as nat, g.a);
    lemma_read_write_other(m0, g.out, r as nat, g.b);
    vstd::arithmetic::div_mod::lemma_small_mod(r as nat, exp2(out_width(g.kind)));
    vstd::arithmetic::div_mod::lemma_small_mod(r as nat, p() as nat);
    assert(read(new.eval(env), g.out) == r);
    lemma_extends_frame(new, c2, env, g.out);
    reveal(canonical);
    lemma_extends_frame(new, c2, env, g.a);
    lemma_extends_frame(new, c2, env, g.b);
    if let GateKind::Select(w) = g.kind {
        assert(new.gates@.take(new.gates@.len() as int) =~= new.gates@);
        assert(c2.gates@.take(new.gates@.len() as int) == new.gates@);
        lemma_run_frame(env, c2.gates@, new.gates@.len() as int, new.num_wires as int, w as int);
        assert(selector(new.eval(env), g.kind) == s);
    }
}

/// Every gate result fits its output width.
pub proof fn lemma_gate_result_range(kind: GateKind, x: int, y: int, s: bool)
    requires
        kind_wf(kind),
        0 <= x < p(),
        0 <= y < p(),
    ensures
        0 <= gate_result(kind, x, y, s) < exp2(out_width(kind)),
        0 <= gate_result(kind, x, y, s) < p(),
{
    lemma_constants();
    lemma_exp2_254();
    reveal_with_fuel(exp2, 2);
    match kind {
        GateKind::EqualConstant(_) => {},
        GateKind::And => {},
        GateKind::Select(_) => {},
        GateKind::Constant(_) => {},
        _ => {
            lemma_fred_range(gate_result(kind, x, y, s));
            assert(gate_result(kind, x, y, s) % p() == gate_result(kind, x, y, s)) by {
                let r = gate_result(kind, x, y, s);
                vstd::arithmetic::div_mod::lemma_mod_twice(r, p());
            }
        },
    }
}

/// A canonical bundle's wires carry exactly the bits of the field element
/// it holds.
pub proof fn lemma_canonical_bits(m: State, w: BigIntWires)
    requires
        canonical(m, w),
    ensures
        read(m, w) == fq_val(m, w),
        w.bits_in(m) == nat_to_bits(fq_val(m, w) as nat, w.len as nat),
{
    reveal(canonical);
    lemma_constants();
    vstd::arithmetic::div_mod::lemma_small_mod(read(m, w), p() as nat);
    lemma_bits_unique(w.bits_in(m));
}

/// Reading the bundle just written gives the value written, reduced.
pub proof fn lemma_read_write(m: State, w: BigIntWires, r: nat)
    ensures
        read(write(m, w, r), w) == r % exp2(w.len as nat),
{
    lemma_nat_to_bits(r, w.len as nat);
    assert(w.bits_in(write(m, w, r)) =~= nat_to_bits(r, w.len as nat));
}

/// Writing a bundle leaves bundles below it unchanged.
pub proof fn lemma_read_write_other(m: State, w: BigIntWires, r: nat, v: BigIntWires)
    requires
        v.below(w.start as int),
    ensures
        read(write(m, w, r), v) == read(m, v),
{
    assert(v.bits_in(write(m, w, r)) =~= v.bits_in(m));
}

pub proof fn lemma_extends_refl(c: Circuit)
    ensures
        c.extends(c),
{
    assert(c.gates@.take(c.gates@.len() as int) =~= c.gates@);
}

pub proof fn lemma_extends_trans(c1: Circuit, c2: Circuit, c3: Circuit)
    requires
        c2.extends(c1),
        c3.extends(c2),
    ensures
        c3.extends(c1),
{
    let n1 = c1.gates@.len() as int;
    let n2 = c2.gates@.len() as int;
    assert(c3.gates@.take(n1) =~= c2.gates@.take(n1)) by {
        assert forall|k: int| 0 <= k < n1 implies c3.gates@[k] == c2.gates@[k] by {
            assert(c3.gates@.take(n2)[k] == c3.gates@[k]);
        }
    }
    assert forall|k: int| n1 <= k < c3.gates@.len() implies #[trigger] c3.gates@[k].out.start
        >= c1.num_wires by {
        if k < n2 {
            assert(c3.gates@.take(n2)[k] == c3.gates@[k]);
            assert(c2.gates@[k].out.start >= c1.num_wires);
        }
    }
}


/// The value of wire `w`.
pub open spec fn wire(m: State, w: WireId) -> bool {
    m(w as int)
}

/// A one-wire bundle holds 1 when its wire is set and 0 otherwise.
pub proof fn lemma_single_wire(m: State, w: BigIntWires)
    requires
        w.len == 1,
    ensures
        fq_val(m, w) == if wire(m, w.start) {
            1int
        } else {
            0int
        },
{
    lemma_constants();
    let s = w.bits_in(m);
    assert(s.drop_first() =~= Seq::<bool>::empty());
    assert(bits_to_nat(s.drop_first()) == 0);
    vstd::arithmetic::div_mod::lemma_small_mod(read(m, w), p() as nat);
}

/// Growth is transitive.
pub proof fn lemma_grows_trans(c1: Circuit, c2: Circuit, c3: Circuit)
    requires
        grows(c1, c2),
        grows(c2, c3),
    ensures
        grows(c1, c3),
{
    lemma_extends_trans(c1, c2, c3);
}

/// Evaluation of an extension agrees with evaluation of the circuit it extends
/// on every wire of that circuit.
pub proof fn lemma_extends_frame(old: Circuit, new: Circuit, env: State, w: BigIntWires)
    requires
        new.extends(old),
        w.below(old.num_wires as int),
    ensures
        read(new.eval(env), w) == read(old.eval(env), w),
        fq_val(new.eval(env), w) == fq_val(old.eval(env), w),
{
    assert(new.gates@.take(old.gates@.len() as int) == old.gates@);
    assert forall|j: int| 0 <= j < w.len implies #[trigger] new.eval(env)(w.start + j) == old.eval(
        env,
    )(w.start + j) by {
        lemma_run_frame(env, new.gates@, old.gates@.len() as int, old.num_wires as int, w.start + j);
    }
    assert(w.bits_in(new.eval(env)) =~= w.bits_in(old.eval(env)));
}

/// Gates after the first `k` that write only at or above `n` leave wire
/// `i < n` as the first `k` gates left it.
proof fn lemma_run_frame(env: State, gs: Seq<Gate>, k: int, n: int, i: int)
    requires
        0 <= k <= gs.len(),
        forall|j: int| k <= j < gs.len() ==> #[trigger] gs[j].out.start >= n,
        i < n,
    ensures
        run(env, gs)(i) == run(env, gs.take(k))(i),
    decreases gs.len() - k,
{
    if gs.len() > k {
        let gs1 = gs.drop_last();
        assert forall|j: int| k <= j < gs1.len() implies #[trigger] gs1[j].out.start >= n by {
            assert(gs1[j] == gs[j]);
        }
        lemma_run_frame(env, gs1, k, n, i);
        assert(gs1.take(k) =~= gs.take(k));
        assert(gs[gs.len() - 1].out.start >= n);
    } else {
        assert(gs.take(k) =~= gs);
    }
}

} // verus!

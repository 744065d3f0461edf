use ark_ff::{AdditiveGroup, BigInt, Field, Fp12Config, PrimeField};
use bn254_gadgets::circuit::{BigIntWires, Circuit};
use bn254_gadgets::fq::Fq;
use bn254_gadgets::fq2::{Fq2, Pair};
use bn254_gadgets::fq6::{Fq6, Fq6Components};
use bn254_gadgets::value::{Fq2Value, Fq6Value, FqValue};

/// A deterministic, full-size field element.
fn rnd_fq(seed: u64) -> ark_bn254::Fq {
    let mut s = seed.wrapping_mul(0x9e37_79b9_7f4a_7c15).wrapping_add(3);
    let mut bytes = [0u8; 32];
    for chunk in bytes.chunks_mut(8) {
        s = s.wrapping_add(0x9e37_79b9_7f4a_7c15);
        let mut z = s;
        z = (z ^ (z >> 30)).wrapping_mul(0xbf58_476d_1ce4_e5b9);
        z = (z ^ (z >> 27)).wrapping_mul(0x94d0_49bb_1331_11eb);
        z ^= z >> 31;
        chunk.copy_from_slice(&z.to_le_bytes());
    }
    ark_bn254::Fq::from_le_bytes_mod_order(&bytes)
}

fn rnd2(seed: u64) -> ark_bn254::Fq2 {
    ark_bn254::Fq2::new(rnd_fq(2 * seed), rnd_fq(2 * seed + 1))
}

fn rnd(seed: u64) -> ark_bn254::Fq6 {
    ark_bn254::Fq6::new(rnd2(3 * seed), rnd2(3 * seed + 1), rnd2(3 * seed + 2))
}

fn val(x: ark_bn254::Fq) -> FqValue {
    FqValue { limbs: x.into_bigint().0 }
}

fn ark(v: &FqValue) -> ark_bn254::Fq {
    ark_bn254::Fq::new(BigInt::new(v.limbs))
}

fn val2(x: ark_bn254::Fq2) -> Fq2Value {
    Fq2Value { c0: val(x.c0), c1: val(x.c1) }
}

fn ark2(v: &Fq2Value) -> ark_bn254::Fq2 {
    ark_bn254::Fq2::new(ark(&v.c0), ark(&v.c1))
}

fn val6(x: ark_bn254::Fq6) -> Fq6Value {
    Fq6Value { c0: val2(x.c0), c1: val2(x.c1), c2: val2(x.c2) }
}

fn ark6(v: &Fq6Value) -> ark_bn254::Fq6 {
    ark_bn254::Fq6::new(ark2(&v.c0), ark2(&v.c1), ark2(&v.c2))
}

fn mont2(x: ark_bn254::Fq2) -> ark_bn254::Fq2 {
    ark2(&Fq2::as_montgomery(val2(x)))
}

fn mont6(x: ark_bn254::Fq6) -> ark_bn254::Fq6 {
    ark6(&Fq6::as_montgomery(val6(x)))
}

fn mark(circuit: &mut Circuit, c: &Fq6Components<BigIntWires>) {
    for c_wire in c {
        c_wire.0.mark_as_output(circuit);
        c_wire.1.mark_as_output(circuit);
    }
}

fn run(circuit: &Circuit, a: &[(&Fq6Components<BigIntWires>, ark_bn254::Fq6)], b: &[(&Pair<BigIntWires>, ark_bn254::Fq2)]) -> Vec<bool> {
    let mut values = vec![false; circuit.num_wires];
    for (w, x) in a {
        Fq6::set_wire_value(&mut values, w, &val6(*x));
    }
    for (w, x) in b {
        Fq2::set_wire_value(&mut values, w, &val2(*x));
    }
    circuit.simple_evaluate(&values)
}

/// The element on bundle `c` of the wire values `out`, after checking that
/// the wires carry its canonical bits, bit for bit.
fn read(out: &Vec<bool>, c: &BigIntWires) -> ark_bn254::Fq {
    let v = Fq::wire_value(out, c);
    assert_eq!(c.get_bits(out), Fq::to_bits(v));
    ark(&v)
}

/// All six coordinates on `c`, each checked bit for bit as `read` does.
fn read6(out: &Vec<bool>, c: &Fq6Components<BigIntWires>) -> ark_bn254::Fq6 {
    let pair = |w: &Pair<BigIntWires>| ark_bn254::Fq2::new(read(out, &w.0), read(out, &w.1));
    ark_bn254::Fq6::new(pair(&c[0]), pair(&c[1]), pair(&c[2]))
}

fn eval(circuit: &Circuit, a: &[(&Fq6Components<BigIntWires>, ark_bn254::Fq6)], c: &Fq6Components<BigIntWires>) -> ark_bn254::Fq6 {
    read6(&run(circuit, a, &[]), c)
}

#[test]
fn test_fq6_random() {
    for seed in 0..5u64 {
        let u = rnd(seed);
        let b = Fq6::to_bits(val6(u));
        let v = Fq6::from_bits(b);
        assert_eq!(u, ark6(&v));
    }
}

#[test]
fn test_fq6_add() {
    let mut circuit = Circuit::default();
    let a_wires = Fq6::new_bn(&mut circuit, true, false);
    let b_wires = Fq6::new_bn(&mut circuit, true, false);
    let c_wires = Fq6::add(&mut circuit, &a_wires, &b_wires);
    mark(&mut circuit, &c_wires);
    let (a_val, b_val) = (rnd(1), rnd(2));
    assert_eq!(eval(&circuit, &[(&a_wires, a_val), (&b_wires, b_val)], &c_wires), a_val + b_val);
}

#[test]
fn test_fq6_neg() {
    let mut circuit = Circuit::default();
    let a_wires = Fq6::new_bn(&mut circuit, true, false);
    let c_wires = Fq6::neg(&mut circuit, &a_wires);
    mark(&mut circuit, &c_wires);
    let a_val = rnd(3);
    assert_eq!(eval(&circuit, &[(&a_wires, a_val)], &c_wires), -a_val);
}

#[test]
fn test_fq6_sub() {
    let mut circuit = Circuit::default();
    let a_wires = Fq6::new_bn(&mut circuit, true, false);
    let b_wires = Fq6::new_bn(&mut circuit, true, false);
    let c_wires = Fq6::sub(&mut circuit, &a_wires, &b_wires);
    mark(&mut circuit, &c_wires);
    let (a_val, b_val) = (rnd(4), rnd(5));
    assert_eq!(eval(&circuit, &[(&a_wires, a_val), (&b_wires, b_val)], &c_wires), a_val - b_val);
}

#[test]
fn test_fq6_double() {
    let mut circuit = Circuit::default();
    let a_wires = Fq6::new_bn(&mut circuit, true, false);
    let c_wires = Fq6::double(&mut circuit, &a_wires);
    mark(&mut circuit, &c_wires);
    let a_val = rnd(6);
    assert_eq!(eval(&circuit, &[(&a_wires, a_val)], &c_wires), a_val + a_val);
}

#[test]
fn test_fq6_div6() {
    let mut circuit = Circuit::default();
    let a_wires = Fq6::new_bn(&mut circuit, true, false);
    let c_wires = Fq6::div6(&mut circuit, &a_wires);
    mark(&mut circuit, &c_wires);
    let a_val = rnd(7);
    let expected = a_val / ark_bn254::Fq6::from(6u32);
    assert_eq!(eval(&circuit, &[(&a_wires, a_val)], &c_wires), expected);
}

#[test]
fn test_fq6_mul_montgomery() {
    let mut circuit = Circuit::default();
    let a_wires = Fq6::new_bn(&mut circuit, true, false);
    let b_wires = Fq6::new_bn(&mut circuit, true, false);
    let c_wires = Fq6::mul_montgomery(&mut circuit, &a_wires, &b_wires);
    mark(&mut circuit, &c_wires);
    let (a_val, b_val) = (rnd(8), rnd(9));
    let expected = mont6(a_val * b_val);
    let got = eval(&circuit, &[(&a_wires, mont6(a_val)), (&b_wires, mont6(b_val))], &c_wires);
    assert_eq!(got, expected);
}

#[test]
fn test_fq6_mul_by_constant_montgomery() {
    let mut circuit = Circuit::default();
    let a_wires = Fq6::new_bn(&mut circuit, true, false);
    let (a_val, b_val) = (rnd(10), rnd(11));
    let c_wires = Fq6::mul_by_constant_montgomery(&mut circuit, &a_wires, &val6(mont6(b_val)));
    mark(&mut circuit, &c_wires);
    let expected = mont6(a_val * b_val);
    assert_eq!(eval(&circuit, &[(&a_wires, mont6(a_val))], &c_wires), expected);
}

#[test]
fn test_fq6_mul_by_fq2_montgomery() {
    let mut circuit = Circuit::default();
    let a_wires = Fq6::new_bn(&mut circuit, true, false);
    let b_wires = Fq2::new_bn(&mut circuit, true, false);
    let c_wires = Fq6::mul_by_fq2_montgomery(&mut circuit, &a_wires, &b_wires);
    mark(&mut circuit, &c_wires);
    let a_val = rnd(12);
    let b_val = rnd2(99);
    let expected = mont6(a_val * ark_bn254::Fq6::new(b_val, ark_bn254::Fq2::ZERO, ark_bn254::Fq2::ZERO));
    let out = run(&circuit, &[(&a_wires, mont6(a_val))], &[(&b_wires, mont2(b_val))]);
    assert_eq!(read6(&out, &c_wires), expected);
}

#[test]
fn test_fq6_mul_by_constant_fq2_montgomery() {
    let mut circuit = Circuit::default();
    let a_wires = Fq6::new_bn(&mut circuit, true, false);
    let a_val = rnd(13);
    let b_val = rnd2(98);
    let c_wires = Fq6::mul_by_constant_fq2_montgomery(&mut circuit, &a_wires, &val2(mont2(b_val)));
    mark(&mut circuit, &c_wires);
    let expected = mont6(a_val * ark_bn254::Fq6::new(b_val, ark_bn254::Fq2::ZERO, ark_bn254::Fq2::ZERO));
    assert_eq!(eval(&circuit, &[(&a_wires, mont6(a_val))], &c_wires), expected);
}

#[test]
fn test_fq6_mul_by_nonresidue() {
    let mut circuit = Circuit::default();
    let a_wires = Fq6::new_bn(&mut circuit, true, false);
    let c_wires = Fq6::mul_by_nonresidue(&mut circuit, &a_wires);
    mark(&mut circuit, &c_wires);
    let a_val = rnd(14);
    let mut expected = a_val;
    ark_bn254::Fq12Config::mul_fp6_by_nonresidue_in_place(&mut expected);
    assert_eq!(eval(&circuit, &[(&a_wires, a_val)], &c_wires), expected);
}

#[test]
fn test_fq6_square_montgomery() {
    let mut circuit = Circuit::default();
    let a_wires = Fq6::new_bn(&mut circuit, true, false);
    let c_wires = Fq6::square_montgomery(&mut circuit, &a_wires);
    mark(&mut circuit, &c_wires);
    let a_val = rnd(15);
    let expected = mont6(a_val * a_val);
    assert_eq!(eval(&circuit, &[(&a_wires, mont6(a_val))], &c_wires), expected);
}

#[test]
fn test_fq6_inverse_montgomery() {
    let mut circuit = Circuit::default();
    let a_wires = Fq6::new_bn(&mut circuit, true, false);
    let c_wires = Fq6::inverse_montgomery(&mut circuit, &a_wires);
    mark(&mut circuit, &c_wires);
    let a_val = rnd(16);
    let expected = mont6(a_val.inverse().unwrap());
    let actual_c = run(&circuit, &[(&a_wires, mont6(a_val))], &[]);
    let mut expected_c = actual_c.clone();
    Fq6::set_wire_value(&mut expected_c, &c_wires, &val6(expected));
    assert_eq!(Fq6::to_bitmask(&c_wires, &expected_c), Fq6::to_bitmask(&c_wires, &actual_c));
}

#[test]
fn test_fq6_mul_by_01_montgomery() {
    let mut circuit = Circuit::default();
    let a_wires = Fq6::new_bn(&mut circuit, true, false);
    let c0_wires = Fq2::new_bn(&mut circuit, true, false);
    let c1_wires = Fq2::new_bn(&mut circuit, true, false);
    let result_wires = Fq6::mul_by_01_montgomery(&mut circuit, &a_wires, &c0_wires, &c1_wires);
    mark(&mut circuit, &result_wires);
    let a_val = rnd(17);
    let c0_val = rnd2(97);
    let c1_val = rnd2(96);
    let mut expected = a_val;
    expected.mul_by_01(&c0_val, &c1_val);
    let expected = mont6(expected);
    let out = run(&circuit, &[(&a_wires, mont6(a_val))], &[(&c0_wires, mont2(c0_val)), (&c1_wires, mont2(c1_val))]);
    assert_eq!(read6(&out, &result_wires), expected);
}

#[test]
fn test_fq6_mul_by_01_constant1_montgomery() {
    let mut circuit = Circuit::default();
    let a_wires = Fq6::new_bn(&mut circuit, true, false);
    let c0_wires = Fq2::new_bn(&mut circuit, true, false);
    let a_val = rnd(18);
    let c0_val = rnd2(95);
    let c1_val = rnd2(94);
    let result_wires = Fq6::mul_by_01_constant1_montgomery(&mut circuit, &a_wires, &c0_wires, &val2(mont2(c1_val)));
    mark(&mut circuit, &result_wires);
    let mut expected = a_val;
    expected.mul_by_01(&c0_val, &c1_val);
    let expected = mont6(expected);
    let out = run(&circuit, &[(&a_wires, mont6(a_val))], &[(&c0_wires, mont2(c0_val))]);
    assert_eq!(read6(&out, &result_wires), expected);
}

#[test]
fn test_fq6_triple() {
    let mut circuit = Circuit::default();
    let a_wires = Fq6::new_bn(&mut circuit, true, false);
    let c_wires = Fq6::triple(&mut circuit, &a_wires);
    mark(&mut circuit, &c_wires);
    let a_val = rnd(19);
    assert_eq!(eval(&circuit, &[(&a_wires, a_val)], &c_wires), a_val + a_val + a_val);
}

#[test]
fn test_fq6_frobenius_montgomery() {
    let a_val = rnd(20);
    for i in 0..7usize {
        let mut circuit = Circuit::default();
        let a_wires = Fq6::new_bn(&mut circuit, true, false);
        let c_wires = Fq6::frobenius_montgomery(&mut circuit, &a_wires, i);
        mark(&mut circuit, &c_wires);
        let expected = mont6(a_val.frobenius_map(i));
        assert_eq!(eval(&circuit, &[(&a_wires, mont6(a_val))], &c_wires), expected);
    }
}

#[test]
fn test_fq6_equal_constant() {
    let b_val = rnd(21);
    let mut other = b_val;
    other.c2 = ark_bn254::Fq2::ZERO;
    for (a_val, expected) in [(b_val, true), (rnd(22), false), (other, false)] {
        let mut circuit = Circuit::default();
        let a_wires = Fq6::new_bn(&mut circuit, true, false);
        let w = Fq6::equal_constant(&mut circuit, &a_wires, &val6(b_val));
        let out = run(&circuit, &[(&a_wires, a_val)], &[]);
        assert_eq!(out[w], expected);
    }
}

#[test]
fn test_fq6_inverse_times_element_is_one() {
    let mut circuit = Circuit::default();
    let a_wires = Fq6::new_bn(&mut circuit, true, false);
    let c_wires = Fq6::inverse_montgomery(&mut circuit, &a_wires);
    let d_wires = Fq6::mul_montgomery(&mut circuit, &a_wires, &c_wires);
    let a_val = rnd(23);
    assert_eq!(eval(&circuit, &[(&a_wires, mont6(a_val))], &d_wires), mont6(ark_bn254::Fq6::ONE));
}

#[test]
fn test_fq6_mul_by_constant_montgomery_raw_one() {
    // The constant is read in Montgomery form: the raw constant one stands for
    // R^-1, so the Montgomery form of one times it is the raw one.
    let mut circuit = Circuit::default();
    let a_wires = Fq6::new_bn(&mut circuit, true, false);
    let before = circuit.num_wires;
    let c_wires = Fq6::mul_by_constant_montgomery(&mut circuit, &a_wires, &val6(ark_bn254::Fq6::ONE));
    assert_eq!(circuit.num_wires, before + 121 * 254);
    mark(&mut circuit, &c_wires);
    let got = eval(&circuit, &[(&a_wires, mont6(ark_bn254::Fq6::ONE))], &c_wires);
    assert_eq!(got, ark_bn254::Fq6::ONE);
}

#[test]
fn test_fq6_v_times_v_squared() {
    // v * v^2 = v^3 = 9 + u.
    let z = ark_bn254::Fq2::ZERO;
    let one = ark_bn254::Fq2::ONE;
    let v = ark_bn254::Fq6::new(z, one, z);
    let v2 = ark_bn254::Fq6::new(z, z, one);
    let nine_u = ark_bn254::Fq2::new(ark_bn254::Fq::from(9u32), ark_bn254::Fq::ONE);
    let mut circuit = Circuit::default();
    let a_wires = Fq6::new_bn(&mut circuit, true, false);
    let b_wires = Fq6::new_bn(&mut circuit, true, false);
    let c_wires = Fq6::mul_montgomery(&mut circuit, &a_wires, &b_wires);
    let got = eval(&circuit, &[(&a_wires, mont6(v)), (&b_wires, mont6(v2))], &c_wires);
    assert_eq!(got, mont6(ark_bn254::Fq6::new(nine_u, z, z)));
    // and the inverse of v is v^2 / (9 + u)
    let mut circuit = Circuit::default();
    let a_wires = Fq6::new_bn(&mut circuit, true, false);
    let c_wires = Fq6::inverse_montgomery(&mut circuit, &a_wires);
    let got = eval(&circuit, &[(&a_wires, mont6(v))], &c_wires);
    assert_eq!(got, mont6(ark_bn254::Fq6::new(z, z, nine_u.inverse().unwrap())));
}

#[test]
fn test_fq6_new_bn_bundles() {
    let mut circuit = Circuit::default();
    let first = Fq6::new_bn(&mut circuit, true, false);
    let w = Fq6::new_bn(&mut circuit, false, true);
    let starts = [w[0].0.start, w[0].1.start, w[1].0.start, w[1].1.start, w[2].0.start, w[2].1.start];
    for (k, s) in starts.iter().enumerate() {
        assert_eq!(*s, 6 * 254 + 254 * k);
    }
    assert_eq!(first[2].1.start, 5 * 254);
    assert_eq!(circuit.num_wires, 12 * 254);
    assert_eq!(circuit.inputs.len(), 6);
    assert_eq!(circuit.outputs.len(), 6);
}

#[test]
fn test_fq6_passthrough_bundles() {
    let mut circuit = Circuit::default();
    let a_wires = Fq6::new_bn(&mut circuit, true, false);
    let before = circuit.num_wires;
    let c = Fq6::mul_by_nonresidue(&mut circuit, &a_wires);
    assert_eq!(c[1].0.start, a_wires[0].0.start);
    assert_eq!(c[2].1.start, a_wires[1].1.start);
    assert!(c[0].0.start >= before && c[0].1.start >= before);
    let f = Fq6::frobenius_montgomery(&mut circuit, &a_wires, 1);
    assert_eq!(f[0].0.start, a_wires[0].0.start);
}

use ark_ff::{AdditiveGroup, BigInt, Field, Fp6Config, PrimeField};
use bn254_gadgets::circuit::{wire_bit, BigIntWires, Circuit};
use bn254_gadgets::fq::Fq;
use bn254_gadgets::fq2::{Fq2, Pair};
use bn254_gadgets::value::{Fq2Value, FqValue};

/// A deterministic, full-size field element.
fn rnd_fq(seed: u64) -> ark_bn254::Fq {
    let mut s = seed.wrapping_mul(0x9e37_79b9_7f4a_7c15).wrapping_add(2);
    let mut bytes = [0u8; 32];
    for chunk in bytes.chunks_mut(8) {
        s = s.wrapping_add(0x9e37_79b9_7f4a_7c15);
        let mut z = s;
        z = (z ^ (z >> 30)).wrapping_mul(0xbf58_476d_1ce4_e5b9);
        z = (z ^ (z >> 27)).wrapping_mul(0x94d0_49bb_1331_11eb);
        z ^= z >> 31;
        chunk.copy_from_slice(&z.to_le_bytes());
    }
    ark_bn254::Fq::from_le_bytes_mod_order(&bytes)
}

fn rnd(seed: u64) -> ark_bn254::Fq2 {
    ark_bn254::Fq2::new(rnd_fq(2 * seed), rnd_fq(2 * seed + 1))
}

fn val(x: ark_bn254::Fq) -> FqValue {
    FqValue { limbs: x.into_bigint().0 }
}

fn ark(v: &FqValue) -> ark_bn254::Fq {
    ark_bn254::Fq::new(BigInt::new(v.limbs))
}

fn val2(x: ark_bn254::Fq2) -> Fq2Value {
    Fq2Value { c0: val(x.c0), c1: val(x.c1) }
}

fn ark2(v: &Fq2Value) -> ark_bn254::Fq2 {
    ark_bn254::Fq2::new(ark(&v.c0), ark(&v.c1))
}

fn mont(x: ark_bn254::Fq) -> ark_bn254::Fq {
    ark(&Fq::as_montgomery(val(x)))
}

fn mont2(x: ark_bn254::Fq2) -> ark_bn254::Fq2 {
    ark2(&Fq2::as_montgomery(val2(x)))
}

fn run(circuit: &Circuit, inputs: &[(&Pair<BigIntWires>, ark_bn254::Fq2)]) -> Vec<bool> {
    let mut values = vec![false; circuit.num_wires];
    for (w, x) in inputs {
        Fq2::set_wire_value(&mut values, w, &val2(*x));
    }
    circuit.simple_evaluate(&values)
}

/// The element on bundle `c` of the wire values `out`, after checking that
/// the wires carry its canonical bits, bit for bit.
fn read(out: &Vec<bool>, c: &BigIntWires) -> ark_bn254::Fq {
    let v = Fq::wire_value(out, c);
    assert_eq!(c.get_bits(out), Fq::to_bits(v));
    ark(&v)
}

/// Both coordinates on `c`, each checked bit for bit as `read` does.
fn read2(out: &Vec<bool>, c: &Pair<BigIntWires>) -> ark_bn254::Fq2 {
    ark_bn254::Fq2::new(read(out, &c.0), read(out, &c.1))
}

fn eval(circuit: &Circuit, inputs: &[(&Pair<BigIntWires>, ark_bn254::Fq2)], c: &Pair<BigIntWires>) -> ark_bn254::Fq2 {
    read2(&run(circuit, inputs), c)
}

fn mark(circuit: &mut Circuit, c: &Pair<BigIntWires>) {
    c.0.mark_as_output(circuit);
    c.1.mark_as_output(circuit);
}

#[test]
fn test_fq2_random() {
    for seed in 0..10u64 {
        let u = rnd(seed);
        let b = Fq2::to_bits(val2(u));
        let v = Fq2::from_bits(b);
        assert_eq!(u, ark2(&v));
    }
}

#[test]
fn test_fq2_add() {
    let mut circuit = Circuit::default();
    let a_wires = Fq2::new_bn(&mut circuit, true, false);
    let b_wires = Fq2::new_bn(&mut circuit, true, false);
    let c_wires = Fq2::add(&mut circuit, a_wires, b_wires);
    mark(&mut circuit, &c_wires);
    let (a_val, b_val) = (rnd(1), rnd(2));
    assert_eq!(eval(&circuit, &[(&a_wires, a_val), (&b_wires, b_val)], &c_wires), a_val + b_val);
}

#[test]
fn test_fq2_neg() {
    let mut circuit = Circuit::default();
    let a_wires = Fq2::new_bn(&mut circuit, true, false);
    let c_wires = Fq2::neg(&mut circuit, a_wires);
    mark(&mut circuit, &c_wires);
    let a_val = rnd(3);
    assert_eq!(eval(&circuit, &[(&a_wires, a_val)], &c_wires), -a_val);
}

#[test]
fn test_fq2_sub() {
    let mut circuit = Circuit::default();
    let a_wires = Fq2::new_bn(&mut circuit, true, false);
    let b_wires = Fq2::new_bn(&mut circuit, true, false);
    let c_wires = Fq2::sub(&mut circuit, &a_wires, &b_wires);
    mark(&mut circuit, &c_wires);
    let (a_val, b_val) = (rnd(4), rnd(5));
    assert_eq!(eval(&circuit, &[(&a_wires, a_val), (&b_wires, b_val)], &c_wires), a_val - b_val);
}

#[test]
fn test_fq2_double() {
    let mut circuit = Circuit::default();
    let a_wires = Fq2::new_bn(&mut circuit, true, false);
    let c_wires = Fq2::double(&mut circuit, &a_wires);
    mark(&mut circuit, &c_wires);
    let a_val = rnd(6);
    assert_eq!(eval(&circuit, &[(&a_wires, a_val)], &c_wires), a_val + a_val);
}

#[test]
fn test_fq2_half() {
    let mut circuit = Circuit::default();
    let a_wires = Fq2::new_bn(&mut circuit, true, false);
    let c_wires = Fq2::half(&mut circuit, &a_wires);
    let a_val = rnd(7);
    let got = eval(&circuit, &[(&a_wires, a_val)], &c_wires);
    assert_eq!(got + got, a_val);
}

#[test]
fn test_fq2_triple() {
    let mut circuit = Circuit::default();
    let a_wires = Fq2::new_bn(&mut circuit, true, false);
    let c_wires = Fq2::triple(&mut circuit, &a_wires);
    mark(&mut circuit, &c_wires);
    let a_val = rnd(8);
    assert_eq!(eval(&circuit, &[(&a_wires, a_val)], &c_wires), a_val + a_val + a_val);
}

#[test]
fn test_fq2_mul_montgomery() {
    let mut circuit = Circuit::default();
    let a_wires = Fq2::new_bn(&mut circuit, true, false);
    let b_wires = Fq2::new_bn(&mut circuit, true, false);
    let c_wires = Fq2::mul_montgomery(&mut circuit, &a_wires, &b_wires);
    mark(&mut circuit, &c_wires);
    let (a_val, b_val) = (rnd(9), rnd(10));
    let expected = mont2(a_val * b_val);
    let got = eval(&circuit, &[(&a_wires, mont2(a_val)), (&b_wires, mont2(b_val))], &c_wires);
    assert_eq!(got, expected);
}

#[test]
fn test_fq2_mul_by_constant_montgomery() {
    let mut circuit = Circuit::default();
    let a_wires = Fq2::new_bn(&mut circuit, true, false);
    let (a_val, b_val) = (rnd(11), rnd(12));
    let c_wires = Fq2::mul_by_constant_montgomery(&mut circuit, &a_wires, &val2(mont2(b_val)));
    mark(&mut circuit, &c_wires);
    let expected = mont2(a_val * b_val);
    assert_eq!(eval(&circuit, &[(&a_wires, mont2(a_val))], &c_wires), expected);
}

#[test]
fn test_fq2_mul_by_constant_montgomery_raw_one() {
    // The constant is read in Montgomery form: the raw constant (1, 0) stands
    // for R^-1, so the Montgomery form of one times it is the raw one.
    let mut circuit = Circuit::default();
    let a_wires = Fq2::new_bn(&mut circuit, true, false);
    let before = circuit.num_wires;
    let c_wires = Fq2::mul_by_constant_montgomery(&mut circuit, &a_wires, &val2(ark_bn254::Fq2::ONE));
    assert_eq!(circuit.num_wires, before + 7 * 254);
    mark(&mut circuit, &c_wires);
    let got = eval(&circuit, &[(&a_wires, mont2(ark_bn254::Fq2::ONE))], &c_wires);
    assert_eq!(got, ark_bn254::Fq2::ONE);
}

#[test]
fn test_fq2_mul_by_fq_montgomery() {
    let mut circuit = Circuit::default();
    let a_wires = Fq2::new_bn(&mut circuit, true, false);
    let b_wires = Fq::new_bn(&mut circuit, true, false);
    let c_wires = Fq2::mul_by_fq_montgomery(&mut circuit, &a_wires, &b_wires);
    mark(&mut circuit, &c_wires);
    let a_val = rnd(13);
    let b_val = rnd_fq(99);
    let expected = mont2(a_val * ark_bn254::Fq2::new(b_val, ark_bn254::Fq::ZERO));
    let mut values = vec![false; circuit.num_wires];
    Fq2::set_wire_value(&mut values, &a_wires, &val2(mont2(a_val)));
    Fq::set_wire_value(&mut values, &b_wires, &val(mont(b_val)));
    let out = circuit.simple_evaluate(&values);
    assert_eq!(read2(&out, &c_wires), expected);
}

#[test]
fn test_fq2_mul_by_constant_fq_montgomery() {
    let mut circuit = Circuit::default();
    let a_wires = Fq2::new_bn(&mut circuit, true, false);
    let a_val = rnd(14);
    let b_val = rnd_fq(98);
    let c_wires = Fq2::mul_by_constant_fq_montgomery(&mut circuit, &a_wires, &val(mont(b_val)));
    mark(&mut circuit, &c_wires);
    let expected = mont2(a_val * ark_bn254::Fq2::new(b_val, ark_bn254::Fq::ZERO));
    assert_eq!(eval(&circuit, &[(&a_wires, mont2(a_val))], &c_wires), expected);
}

#[test]
fn test_fq2_mul_constant_by_fq_montgomery() {
    let mut circuit = Circuit::default();
    let b_wires = Fq::new_bn(&mut circuit, true, false);
    let a_val = rnd(15);
    let b_val = rnd_fq(97);
    let c_wires = Fq2::mul_constant_by_fq_montgomery(&mut circuit, &val2(mont2(a_val)), &b_wires);
    let expected = mont2(a_val * ark_bn254::Fq2::new(b_val, ark_bn254::Fq::ZERO));
    let mut values = vec![false; circuit.num_wires];
    Fq::set_wire_value(&mut values, &b_wires, &val(mont(b_val)));
    let out = circuit.simple_evaluate(&values);
    assert_eq!(read2(&out, &c_wires), expected);
}

#[test]
fn test_fq2_mul_by_nonresidue() {
    let mut circuit = Circuit::default();
    let a_wires = Fq2::new_bn(&mut circuit, true, false);
    let c_wires = Fq2::mul_by_nonresidue(&mut circuit, &a_wires);
    mark(&mut circuit, &c_wires);
    let a_val = rnd(16);
    let expected = ark_bn254::Fq6Config::mul_fp2_by_nonresidue(a_val);
    assert_eq!(eval(&circuit, &[(&a_wires, a_val)], &c_wires), expected);
}

#[test]
fn test_fq2_square_montgomery() {
    let mut circuit = Circuit::default();
    let a_wires = Fq2::new_bn(&mut circuit, true, false);
    let c_wires = Fq2::square_montgomery(&mut circuit, &a_wires);
    mark(&mut circuit, &c_wires);
    let a_val = rnd(17);
    let expected = mont2(a_val * a_val);
    assert_eq!(eval(&circuit, &[(&a_wires, mont2(a_val))], &c_wires), expected);
}

#[test]
fn test_fq2_inverse_montgomery() {
    let mut circuit = Circuit::default();
    let a_wires = Fq2::new_bn(&mut circuit, true, false);
    let c_wires = Fq2::inverse_montgomery(&mut circuit, &a_wires);
    mark(&mut circuit, &c_wires);
    let a_val = rnd(18);
    let expected = mont2(a_val.inverse().unwrap());
    let actual_c = run(&circuit, &[(&a_wires, mont2(a_val))]);
    let mut expected_c = actual_c.clone();
    Fq2::set_wire_value(&mut expected_c, &c_wires, &val2(expected));
    assert_eq!(Fq2::to_bitmask(&c_wires, &expected_c), Fq2::to_bitmask(&c_wires, &actual_c));
}

#[test]
fn test_fq2_frobenius_montgomery() {
    let a_val = rnd(19);
    for i in 0..4usize {
        let mut circuit = Circuit::default();
        let a_wires = Fq2::new_bn(&mut circuit, true, false);
        let c_wires = Fq2::frobenius_montgomery(&mut circuit, &a_wires, i);
        mark(&mut circuit, &c_wires);
        let expected = mont2(a_val.frobenius_map(i));
        assert_eq!(eval(&circuit, &[(&a_wires, mont2(a_val))], &c_wires), expected);
    }
}

#[test]
fn test_fq2_div6() {
    let mut circuit = Circuit::default();
    let a_wires = Fq2::new_bn(&mut circuit, true, false);
    let c_wires = Fq2::div6(&mut circuit, &a_wires);
    mark(&mut circuit, &c_wires);
    let a_val = rnd(20);
    let expected = a_val / ark_bn254::Fq2::from(6u32);
    assert_eq!(eval(&circuit, &[(&a_wires, a_val)], &c_wires), expected);
}

#[test]
fn test_fq2_norm_montgomery() {
    let mut circuit = Circuit::default();
    let c0_wires = Fq::new_bn(&mut circuit, true, false);
    let c1_wires = Fq::new_bn(&mut circuit, true, false);
    let norm_wires = Fq2::norm_montgomery(&mut circuit, &c0_wires, &c1_wires);
    norm_wires.mark_as_output(&mut circuit);
    let r_val = rnd(21);
    let expected_norm = mont(r_val.norm());
    let mut values = vec![false; circuit.num_wires];
    Fq::set_wire_value(&mut values, &c0_wires, &val(mont(r_val.c0)));
    Fq::set_wire_value(&mut values, &c1_wires, &val(mont(r_val.c1)));
    let out = circuit.simple_evaluate(&values);
    assert_eq!(read(&out, &norm_wires), expected_norm);
}

#[test]
fn test_fq2_add_constant() {
    let mut circuit = Circuit::default();
    let a_wires = Fq2::new_bn(&mut circuit, true, false);
    let b_val = rnd(22);
    let c_wires = Fq2::add_constant(&mut circuit, &a_wires, &val2(b_val));
    let a_val = rnd(23);
    assert_eq!(eval(&circuit, &[(&a_wires, a_val)], &c_wires), a_val + b_val);
}

#[test]
fn test_fq2_equal_constant() {
    let b_val = rnd(24);
    let cases = [(b_val, true), (rnd(25), false), (ark_bn254::Fq2::new(b_val.c0, b_val.c0), false)];
    for (a_val, expected) in cases {
        let mut circuit = Circuit::default();
        let a_wires = Fq2::new_bn(&mut circuit, true, false);
        let w = Fq2::equal_constant(&mut circuit, &a_wires, &val2(b_val));
        let out = run(&circuit, &[(&a_wires, a_val)]);
        assert_eq!(out[w], expected);
    }
}

#[test]
fn test_fq2_to_bitmask_format() {
    let w = (BigIntWires { start: 0, len: 2 }, BigIntWires { start: 2, len: 3 });
    let values = vec![true, false, false, true, true];
    assert_eq!(Fq2::to_bitmask(&w, &values), "c0: 10, c1: 011");
}

#[test]
fn test_fq2_montgomery_conversions() {
    let x = rnd(26);
    assert_eq!(ark2(&Fq2::from_montgomery(Fq2::as_montgomery(val2(x)))), x);
    let r = ark_bn254::Fq::from(2u32).pow([254u64]);
    assert_eq!(mont2(x), x * ark_bn254::Fq2::new(r, ark_bn254::Fq::ZERO));
}

#[test]
fn test_fq2_sqrt_c1_zero_montgomery() {
    for seed in 40..46u64 {
        let c0 = rnd_fq(seed);
        let r = ark_bn254::Fq2::new(c0, ark_bn254::Fq::ZERO);
        let mut circuit = Circuit::default();
        let a_wires = Fq2::new_bn(&mut circuit, true, false);
        let is_qr_wire = circuit.issue_wire();
        let c = Fq2::sqrt_c1_zero_montgomery(&mut circuit, &a_wires, is_qr_wire);
        let mut values = vec![false; circuit.num_wires];
        Fq2::set_wire_value(&mut values, &a_wires, &val2(mont2(r)));
        values[is_qr_wire] = c0.legendre().is_qr();
        let out = circuit.simple_evaluate(&values);
        let got = ark2(&Fq2::from_montgomery(val2(read2(&out, &c))));
        assert_eq!(got * got, r);
        if c0.legendre().is_qr() {
            assert_eq!(got.c1, ark_bn254::Fq::ZERO);
        } else {
            assert_eq!(got.c0, ark_bn254::Fq::ZERO);
        }
    }
}

#[test]
fn test_select_and_constant() {
    let mut circuit = Circuit::default();
    let a = Fq::new_bn(&mut circuit, true, false);
    let s = circuit.issue_wire();
    let k = BigIntWires::new_constant(&mut circuit, &val(rnd_fq(50)));
    let c = bn254_gadgets::circuit::select(&mut circuit, &a, &k, s);
    for flag in [true, false] {
        let mut values = vec![false; circuit.num_wires];
        Fq::set_wire_value(&mut values, &a, &val(rnd_fq(51)));
        values[s] = flag;
        let out = circuit.simple_evaluate(&values);
        assert_eq!(read(&out, &k), rnd_fq(50));
        let expected = if flag { rnd_fq(51) } else { rnd_fq(50) };
        assert_eq!(read(&out, &c), expected);
    }
}

#[test]
fn test_fq2_conjugation_respects_products() {
    let mut circuit = Circuit::default();
    let a_wires = Fq2::new_bn(&mut circuit, true, false);
    let b_wires = Fq2::new_bn(&mut circuit, true, false);
    let ab = Fq2::mul_montgomery(&mut circuit, &a_wires, &b_wires);
    let conj_ab = Fq2::frobenius_montgomery(&mut circuit, &ab, 1);
    let conj_a = Fq2::frobenius_montgomery(&mut circuit, &a_wires, 1);
    let conj_b = Fq2::frobenius_montgomery(&mut circuit, &b_wires, 1);
    let prod = Fq2::mul_montgomery(&mut circuit, &conj_a, &conj_b);
    let twice = Fq2::frobenius_montgomery(&mut circuit, &conj_a, 1);
    let out = run(&circuit, &[(&a_wires, mont2(rnd(60))), (&b_wires, mont2(rnd(61)))]);
    assert_eq!(read2(&out, &conj_ab), read2(&out, &prod));
    assert_eq!(read2(&out, &twice), mont2(rnd(60)));
}

#[test]
fn test_fq2_nonresidue_commutes_with_montgomery_form() {
    let mut circuit = Circuit::default();
    let a_wires = Fq2::new_bn(&mut circuit, true, false);
    let c_wires = Fq2::mul_by_nonresidue(&mut circuit, &a_wires);
    let x = rnd(62);
    let got = eval(&circuit, &[(&a_wires, mont2(x))], &c_wires);
    assert_eq!(got, mont2(x * ark_bn254::Fq2::new(ark_bn254::Fq::from(9u32), ark_bn254::Fq::from(1u32))));
}

#[test]
fn test_fq2_frobenius_keeps_first_bundle() {
    let mut circuit = Circuit::default();
    let a_wires = Fq2::new_bn(&mut circuit, true, false);
    let before = circuit.num_wires;
    let c = Fq2::frobenius_montgomery(&mut circuit, &a_wires, 1);
    assert_eq!(c.0.start, a_wires.0.start);
    assert_eq!(c.1.start, before);
    assert_eq!(circuit.num_wires, before + 254);
}

#[test]
fn test_circuit_is_wf_and_wire_bit() {
    let mut circuit = Circuit::default();
    let a_wires = Fq2::new_bn(&mut circuit, true, false);
    let _ = Fq2::square_montgomery(&mut circuit, &a_wires);
    assert!(circuit.is_wf());
    let mut broken = Circuit::default();
    let b = Fq2::new_bn(&mut broken, true, false);
    let _ = Fq2::add(&mut broken, b, b);
    broken.gates[0].out.start = 0;
    assert!(!broken.is_wf());
    let bits = vec![true, false, true];
    assert_eq!(wire_bit(&bits, 10, 9), None);
    assert_eq!(wire_bit(&bits, 10, 10), Some(true));
    assert_eq!(wire_bit(&bits, 10, 11), Some(false));
    assert_eq!(wire_bit(&bits, 10, 13), None);
}

#[test]
fn test_fq2_inverse_of_u() {
    // u^-1 = -u
    let u = ark_bn254::Fq2::new(ark_bn254::Fq::ZERO, ark_bn254::Fq::ONE);
    let mut circuit = Circuit::default();
    let a_wires = Fq2::new_bn(&mut circuit, true, false);
    let c_wires = Fq2::inverse_montgomery(&mut circuit, &a_wires);
    let d_wires = Fq2::mul_montgomery(&mut circuit, &a_wires, &c_wires);
    let out = run(&circuit, &[(&a_wires, mont2(u))]);
    assert_eq!(read2(&out, &c_wires), mont2(-u));
    assert_eq!(read2(&out, &d_wires), mont2(ark_bn254::Fq2::ONE));
}

#[test]
fn test_fq2_sqrt_c1_zero_squares_back() {
    // For a square c0 and for a non-square c0, the result squares to c0.
    let mut nonsq = rnd_fq(70);
    while nonsq.legendre().is_qr() {
        nonsq += ark_bn254::Fq::ONE;
    }
    for c0 in [rnd_fq(71) * rnd_fq(71), nonsq] {
        let r = ark_bn254::Fq2::new(c0, ark_bn254::Fq::ZERO);
        let mut circuit = Circuit::default();
        let a_wires = Fq2::new_bn(&mut circuit, true, false);
        let is_qr_wire = circuit.issue_wire();
        let c = Fq2::sqrt_c1_zero_montgomery(&mut circuit, &a_wires, is_qr_wire);
        let m = Fq2::mul_montgomery(&mut circuit, &c, &c);
        let mut values = vec![false; circuit.num_wires];
        Fq2::set_wire_value(&mut values, &a_wires, &val2(mont2(r)));
        values[is_qr_wire] = c0.legendre().is_qr();
        let out = circuit.simple_evaluate(&values);
        assert_eq!(read2(&out, &m), mont2(r));
    }
}

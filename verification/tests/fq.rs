use ark_ff::{AdditiveGroup, BigInt, Field, PrimeField};
use bn254_gadgets::circuit::{BigIntWires, Circuit};
use bn254_gadgets::fq::{Fq, WireBitsError};
use bn254_gadgets::value::FqValue;

/// A deterministic, full-size field element.
fn rnd(seed: u64) -> ark_bn254::Fq {
    let mut s = seed.wrapping_mul(0x9e37_79b9_7f4a_7c15).wrapping_add(1);
    let mut bytes = [0u8; 32];
    for chunk in bytes.chunks_mut(8) {
        s = s.wrapping_add(0x9e37_79b9_7f4a_7c15);
        let mut z = s;
        z = (z ^ (z >> 30)).wrapping_mul(0xbf58_476d_1ce4_e5b9);
        z = (z ^ (z >> 27)).wrapping_mul(0x94d0_49bb_1331_11eb);
        z ^= z >> 31;
        chunk.copy_from_slice(&z.to_le_bytes());
    }
    ark_bn254::Fq::from_le_bytes_mod_order(&bytes)
}

fn val(x: ark_bn254::Fq) -> FqValue {
    FqValue { limbs: x.into_bigint().0 }
}

fn ark(v: &FqValue) -> ark_bn254::Fq {
    ark_bn254::Fq::new(BigInt::new(v.limbs))
}

fn mont(x: ark_bn254::Fq) -> ark_bn254::Fq {
    ark(&Fq::as_montgomery(val(x)))
}

fn unmont(x: ark_bn254::Fq) -> ark_bn254::Fq {
    ark(&Fq::from_montgomery(val(x)))
}

/// The element on bundle `c` of the wire values `out`, after checking that
/// the wires carry its canonical bits, bit for bit.
fn read(out: &Vec<bool>, c: &BigIntWires) -> ark_bn254::Fq {
    let v = Fq::wire_value(out, c);
    assert_eq!(c.get_bits(out), Fq::to_bits(v));
    ark(&v)
}

/// Evaluate with the given input bundles set, and read bundle `c`.
fn eval(circuit: &Circuit, inputs: &[(&BigIntWires, ark_bn254::Fq)], c: &BigIntWires) -> ark_bn254::Fq {
    let mut values = vec![false; circuit.num_wires];
    for (w, x) in inputs {
        Fq::set_wire_value(&mut values, w, &val(*x));
    }
    let out = circuit.simple_evaluate(&values);
    read(&out, c)
}

#[test]
fn test_fq_random() {
    for seed in 0..20u64 {
        let u = rnd(seed);
        let b = Fq::to_bits(val(u));
        assert_eq!(b.len(), 254);
        let v = Fq::from_bits(b);
        assert_eq!(u, ark(&v));
    }
}

#[test]
fn test_fq_add() {
    let mut circuit = Circuit::default();
    let a = Fq::new_bn(&mut circuit, true, false);
    let b = Fq::new_bn(&mut circuit, true, false);
    let c = Fq::add(&mut circuit, &a, &b);
    c.mark_as_output(&mut circuit);
    let (a_v, b_v) = (rnd(1), rnd(2));
    assert_eq!(eval(&circuit, &[(&a, a_v), (&b, b_v)], &c), a_v + b_v);
}

#[test]
fn test_fq_mul_montgomery() {
    let mut circuit = Circuit::default();
    let a = Fq::new_bn(&mut circuit, true, false);
    let b = Fq::new_bn(&mut circuit, true, false);
    let c = Fq::mul_montgomery(&mut circuit, &a, &b);
    c.mark_as_output(&mut circuit);
    let (a_v, b_v) = (rnd(3), rnd(4));
    let expected = mont(unmont(a_v) * unmont(b_v));
    assert_eq!(eval(&circuit, &[(&a, a_v), (&b, b_v)], &c), expected);
}

#[test]
fn test_fq_sub() {
    let mut circuit = Circuit::default();
    let a = Fq::new_bn(&mut circuit, true, false);
    let b = Fq::new_bn(&mut circuit, true, false);
    let c = Fq::sub(&mut circuit, &a, &b);
    c.mark_as_output(&mut circuit);
    let (a_v, b_v) = (rnd(5), rnd(6));
    assert_eq!(eval(&circuit, &[(&a, a_v), (&b, b_v)], &c), a_v - b_v);
}

#[test]
fn test_fq_add_constant() {
    let mut circuit = Circuit::default();
    let a = Fq::new_bn(&mut circuit, true, false);
    let b_v = rnd(7);
    let c = Fq::add_constant(&mut circuit, &a, &val(b_v));
    c.mark_as_output(&mut circuit);
    let a_v = rnd(8);
    assert_eq!(eval(&circuit, &[(&a, a_v)], &c), a_v + b_v);
}

#[test]
fn test_fq_unary() {
    let a_v = rnd(9);
    let ops: Vec<(fn(&mut Circuit, &BigIntWires) -> BigIntWires, ark_bn254::Fq)> = vec![
        (Fq::double, a_v + a_v),
        (Fq::half, a_v / ark_bn254::Fq::from(2u32)),
        (Fq::neg, -a_v),
        (Fq::triple, a_v + a_v + a_v),
        (Fq::square_montgomery, mont(unmont(a_v) * unmont(a_v))),
    ];
    for (op, expected) in ops {
        let mut circuit = Circuit::default();
        let a = Fq::new_bn(&mut circuit, true, false);
        let c = op(&mut circuit, &a);
        c.mark_as_output(&mut circuit);
        assert_eq!(eval(&circuit, &[(&a, a_v)], &c), expected);
    }
}

#[test]
fn test_fq_mul_by_constant_montgomery() {
    let mut circuit = Circuit::default();
    let a_val = rnd(10);
    let b_val = rnd(11);
    let a = Fq::new_bn(&mut circuit, true, false);
    let a_mont = mont(a_val);
    let b_mont = mont(b_val);
    let c = Fq::mul_by_constant_montgomery(&mut circuit, &a, &val(b_mont));
    c.mark_as_output(&mut circuit);
    let expected = mont(a_val * b_val);
    assert_eq!(eval(&circuit, &[(&a, a_mont)], &c), expected);
}

#[test]
fn test_fq_inverse_montgomery() {
    let mut circuit = Circuit::default();
    let a = Fq::new_bn(&mut circuit, true, false);
    let c = Fq::inverse_montgomery(&mut circuit, &a);
    c.mark_as_output(&mut circuit);
    let a_val = rnd(12);
    let expected = a_val.inverse().unwrap();
    assert_eq!(eval(&circuit, &[(&a, mont(a_val))], &c), mont(expected));
}

#[test]
fn test_fq_inverse_montgomery_of_zero() {
    let mut circuit = Circuit::default();
    let a = Fq::new_bn(&mut circuit, true, false);
    let c = Fq::inverse_montgomery(&mut circuit, &a);
    assert_eq!(eval(&circuit, &[(&a, ark_bn254::Fq::from(0u32))], &c), ark_bn254::Fq::from(0u32));
}

#[test]
fn test_fq_div6() {
    let mut circuit = Circuit::default();
    let a = Fq::new_bn(&mut circuit, true, false);
    let c = Fq::div6(&mut circuit, &a);
    c.mark_as_output(&mut circuit);
    let a_v = rnd(13);
    let expected_c = a_v / ark_bn254::Fq::from(6u32);
    let got = eval(&circuit, &[(&a, a_v)], &c);
    assert_eq!(got, expected_c);
    assert_eq!(got + got + got + got + got + got, a_v);
}

#[test]
fn test_fq_mul_by_constant_montgomery_one() {
    let mut circuit = Circuit::default();
    let a = Fq::new_bn(&mut circuit, true, false);
    let c = Fq::mul_by_constant_montgomery(&mut circuit, &a, &val(mont(ark_bn254::Fq::from(1u32))));
    c.mark_as_output(&mut circuit);
    let a_v = mont(rnd(14));
    assert_eq!(eval(&circuit, &[(&a, a_v)], &c), a_v);
}

#[test]
fn test_fq_mul_by_constant_montgomery_zero() {
    let mut circuit = Circuit::default();
    let a = Fq::new_bn(&mut circuit, true, false);
    let c = Fq::mul_by_constant_montgomery(&mut circuit, &a, &val(mont(ark_bn254::Fq::from(0u32))));
    c.mark_as_output(&mut circuit);
    let a_v = mont(rnd(15));
    assert_eq!(eval(&circuit, &[(&a, a_v)], &c), mont(ark_bn254::Fq::from(0u32)));
}

#[test]
fn test_fq_equal_constant() {
    let b_v = rnd(16);
    for (a_v, expected) in [(b_v, true), (rnd(17), false)] {
        let mut circuit = Circuit::default();
        let a = Fq::new_bn(&mut circuit, true, false);
        let c = Fq::equal_constant(&mut circuit, &a, &val(b_v));
        let mut values = vec![false; circuit.num_wires];
        Fq::set_wire_value(&mut values, &a, &val(a_v));
        let out = circuit.simple_evaluate(&values);
        assert_eq!(out[c.start], expected);
    }
}

#[test]
fn test_fq_montgomery_conversions() {
    let x = rnd(18);
    let r = ark_bn254::Fq::from(2u32).pow([254u64]);
    assert_eq!(mont(x), x * r);
    assert_eq!(unmont(mont(x)), x);
    assert_eq!(mont(unmont(x)), x);
}

#[test]
fn test_fq_bits_of_small_values() {
    let bits = Fq::to_bits(val(ark_bn254::Fq::from(5u32)));
    assert!(bits[0] && !bits[1] && bits[2]);
    assert!(bits[3..].iter().all(|b| !b));
    let v = Fq::from_bits(vec![true, true]);
    assert_eq!(ark(&v), ark_bn254::Fq::from(3u32));
    let top = Fq::to_bits(val(-ark_bn254::Fq::from(1u32)));
    assert_eq!(Fq::from_bits(top).limbs, val(-ark_bn254::Fq::from(1u32)).limbs);
}

#[test]
fn test_fq_wires_are_fresh() {
    let mut circuit = Circuit::default();
    let a = Fq::new_bn(&mut circuit, true, false);
    let b = Fq::wires(&mut circuit);
    assert_eq!(a.start, 0);
    assert_eq!(b.start, 254);
    assert_eq!(b.len(), Fq::N_BITS);
    assert_eq!(circuit.num_wires, 508);
    assert_eq!(circuit.inputs.len(), 1);
    assert_eq!(circuit.gates.len(), 0);
}

#[test]
fn test_fq_sqrt_montgomery() {
    let mut circuit = Circuit::default();
    let aa_wire = Fq::new_bn(&mut circuit, true, false);
    let c = Fq::sqrt_montgomery(&mut circuit, &aa_wire);
    c.mark_as_output(&mut circuit);
    for seed in 30..34u64 {
        let a_v = rnd(seed);
        let aa_v = a_v * a_v;
        let expected_c = match a_v.legendre().is_qnr() {
            true => mont(-a_v),
            false => mont(a_v),
        };
        assert_eq!(eval(&circuit, &[(&aa_wire, mont(aa_v))], &c), expected_c);
    }
}

#[test]
fn test_fq_exp_by_constant_montgomery() {
    let mut circuit = Circuit::default();
    let a = Fq::new_bn(&mut circuit, true, false);
    let e = val(ark_bn254::Fq::from(1_000_003u64));
    let c = Fq::exp_by_constant_montgomery(&mut circuit, &a, &e);
    let a_v = rnd(35);
    assert_eq!(eval(&circuit, &[(&a, mont(a_v))], &c), mont(a_v.pow([1_000_003u64])));
}

#[test]
fn test_fq_is_qnr_montgomery() {
    // Set for a quadratic non-residue; unset for a nonzero square and for zero.
    let mut qnr = rnd(36);
    while !qnr.legendre().is_qnr() {
        qnr += ark_bn254::Fq::from(1u32);
    }
    let cases = [(qnr, true), (qnr * qnr, false), (ark_bn254::Fq::ZERO, false)];
    for (x, expected) in cases {
        let mut circuit = Circuit::default();
        let a = Fq::new_bn(&mut circuit, true, false);
        let w = Fq::is_qnr_montgomery(&mut circuit, &a);
        let mut values = vec![false; circuit.num_wires];
        Fq::set_wire_value(&mut values, &a, &val(mont(x)));
        let out = circuit.simple_evaluate(&values);
        assert_eq!(out[w], expected);
        assert_eq!(out[w], x.legendre().is_qnr());
    }
}

#[test]
fn test_fq_montgomery_reduce() {
    let mut circuit = Circuit::default();
    // A 508-bit input (2 * 254 bits) for montgomery_reduce
    let x = BigIntWires::new(&mut circuit, 2 * Fq::N_BITS, true, false);
    let result = Fq::montgomery_reduce(&mut circuit, &x);
    result.mark_as_output(&mut circuit);

    let a_v = rnd(40);
    let b_v = rnd(41);
    let product = a_v * b_v;
    let montgomery_product = mont(product);
    let montgomery_r = num_bigint::BigUint::from(1u32) << 254;
    let input_value: num_bigint::BigUint = num_bigint::BigUint::from(montgomery_product) * montgomery_r;
    let expected = montgomery_product;

    let mut bits = Vec::new();
    for i in 0..x.len() {
        bits.push(input_value.bit(i as u64));
    }
    let mut values = vec![false; circuit.num_wires];
    x.set_bits(&mut values, &bits);
    let out = circuit.simple_evaluate(&values);
    assert_eq!(read(&out, &result), expected);
}

#[test]
fn test_fq_inverse() {
    let mut circuit = Circuit::default();
    let a = Fq::new_bn(&mut circuit, true, false);
    let c = Fq::inverse(&mut circuit, &a);
    c.mark_as_output(&mut circuit);
    let a_v = rnd(42);
    assert_eq!(eval(&circuit, &[(&a, a_v)], &c), a_v.inverse().unwrap());
    assert_eq!(eval(&circuit, &[(&a, ark_bn254::Fq::from(0u32))], &c), ark_bn254::Fq::from(0u32));
}

#[test]
fn test_fq_constants() {
    assert_eq!(ark(&Fq::half_modulus()) * ark_bn254::Fq::from(2u32), ark_bn254::Fq::from(1u32));
    assert_eq!(ark(&Fq::one_third_modulus()) * ark_bn254::Fq::from(3u32), ark_bn254::Fq::from(1u32));
    assert_eq!(ark(&Fq::two_third_modulus()) * ark_bn254::Fq::from(3u32), ark_bn254::Fq::from(2u32));
    let e = Fq::modulus_add_1_div_4();
    let p_plus_1: num_bigint::BigUint = num_bigint::BigUint::from(ark_bn254::Fq::from(-1i64)) + 2u32;
    assert_eq!(num_bigint::BigUint::from(ark(&e)) * 4u32, p_plus_1);
}

#[test]
fn test_fq_get_wire_bits() {
    let mut circuit = Circuit::default();
    let a = Fq::new_bn(&mut circuit, true, false);
    let x = rnd(40);
    assert_eq!(Fq::get_wire_bits(&a, &val(x)), Ok(Fq::to_bits(val(x))));
    let narrow = BigIntWires::new(&mut circuit, 10, false, false);
    assert_eq!(
        Fq::get_wire_bits(&narrow, &val(x)),
        Err(WireBitsError::WrongWidth { expected: 254, actual: 10 })
    );
    let modulus = FqValue { limbs: ark_bn254::Fq::MODULUS.0 };
    assert!(!modulus.is_canonical());
    assert_eq!(Fq::get_wire_bits(&a, &modulus), Err(WireBitsError::NotCanonical));
    let below = FqValue { limbs: (-ark_bn254::Fq::ONE).into_bigint().0 };
    assert!(below.is_canonical());
    assert!(Fq::get_wire_bits(&a, &below).is_ok());
}

#[test]
fn test_fq_minus_one_is_not_a_square() {
    // (p - 1) / 2 is odd, so -1 is a non-residue; 4 is a square.
    for (x, expected) in [(-ark_bn254::Fq::ONE, true), (ark_bn254::Fq::from(4u32), false)] {
        let mut circuit = Circuit::default();
        let a = Fq::new_bn(&mut circuit, true, false);
        let w = Fq::is_qnr_montgomery(&mut circuit, &a);
        let mut values = vec![false; circuit.num_wires];
        Fq::set_wire_value(&mut values, &a, &val(mont(x)));
        let out = circuit.simple_evaluate(&values);
        assert_eq!(out[w], expected);
    }
}

#[test]
fn test_fq_sqrt_squares_back() {
    let mut circuit = Circuit::default();
    let a = Fq::new_bn(&mut circuit, true, false);
    let c = Fq::sqrt_montgomery(&mut circuit, &a);
    let x = rnd(41) * rnd(41);
    let s = unmont(eval(&circuit, &[(&a, mont(x))], &c));
    assert_eq!(s * s, x);
}

#[test]
fn test_fq_fermat() {
    // x^(p-1) is one for nonzero x.
    let mut circuit = Circuit::default();
    let a = Fq::new_bn(&mut circuit, true, false);
    let e = FqValue { limbs: (-ark_bn254::Fq::ONE).into_bigint().0 };
    let c = Fq::exp_by_constant_montgomery(&mut circuit, &a, &e);
    for seed in 42..45u64 {
        assert_eq!(eval(&circuit, &[(&a, mont(rnd(seed)))], &c), mont(ark_bn254::Fq::ONE));
    }
}

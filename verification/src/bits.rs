//! Little-endian bit and byte sequences and the integers they denote.
use vstd::prelude::*;

verus! {

/// `2^n`.
pub open spec fn exp2(n: nat) -> nat
    decreases n,
{
    if n == 0 {
        1
    } else {
        2 * exp2((n - 1) as nat)
    }
}

/// The integer whose little-endian binary digits are `s`.
pub open spec fn bits_to_nat(s: Seq<bool>) -> nat
    decreases s.len(),
{
    if s.len() == 0 {
        0
    } else {
        (if s[0] {
            1nat
        } else {
            0nat
        }) + 2 * bits_to_nat(s.drop_first())
    }
}

/// The `n` lowest little-endian binary digits of `r`.
pub open spec fn nat_to_bits(r: nat, n: nat) -> Seq<bool>
    decreases n,
{
    if n == 0 {
        Seq::empty()
    } else {
        seq![r % 2 == 1] + nat_to_bits(r / 2, (n - 1) as nat)
    }
}

/// The integer whose little-endian base-256 digits are `s`.
pub open spec fn bytes_to_nat(s: Seq<u8>) -> nat
    decreases s.len(),
{
    if s.len() == 0 {
        0
    } else {
        s[0] as nat + 256 * bytes_to_nat(s.drop_first())
    }
}

pub proof fn lemma_exp2_pos(n: nat)
    ensures
        exp2(n) >= 1,
    decreases n,
{
    if n > 0 {
        lemma_exp2_pos((n - 1) as nat);
    }
}

pub proof fn lemma_exp2_adds(a: nat, b: nat)
    ensures
        exp2(a + b) == exp2(a) * exp2(b),
    decreases a,
{
    if a > 0 {
        let a1 = (a - 1) as nat;
        lemma_exp2_adds(a1, b);
        assert(exp2(a + b) == 2 * exp2(a1 + b));
        let x = exp2(a1);
        let y = exp2(b);
        assert(exp2(a) == 2 * x);
        assert(2 * (x * y) == (2 * x) * y) by (nonlinear_arith);
    } else {
        assert(exp2(a) == 1);
        assert(a + b == b);
    }
}

pub proof fn lemma_exp2_monotonic(a: nat, b: nat)
    requires
        a <= b,
    ensures
        exp2(a) <= exp2(b),
    decreases b,
{
    if a < b {
        lemma_exp2_monotonic(a, (b - 1) as nat);
        lemma_exp2_pos((b - 1) as nat);
    }
}

/// `2^254`, an upper bound of every field value.
pub proof fn lemma_exp2_254()
    ensures
        exp2(254) == 28948022309329048855892746252171976963317496166410141009864396001978282409984int,
        exp2(8) == 256,
{
    assert(exp2(8) == 256) by {
        reveal_with_fuel(exp2, 9);
    }
    assert(exp2(6) == 64) by {
        reveal_with_fuel(exp2, 7);
    }
    lemma_exp2_adds(8, 8);
    assert(exp2(16) == 65536);
    lemma_exp2_adds(16, 16);
    assert(exp2(32) == 4294967296);
    lemma_exp2_adds(32, 32);
    assert(exp2(64) == 18446744073709551616);
    lemma_exp2_adds(64, 64);
    assert(exp2(128) == 340282366920938463463374607431768211456);
    lemma_exp2_adds(128, 64);
    assert(exp2(192) == 6277101735386680763835789423207666416102355444464034512896);
    lemma_exp2_adds(32, 16);
    lemma_exp2_adds(48, 8);
    lemma_exp2_adds(56, 6);
    assert(exp2(62) == 4611686018427387904);
    lemma_exp2_adds(192, 62);
}

pub open spec fn bit_nat(b: bool) -> nat {
    if b {
        1
    } else {
        0
    }
}

pub proof fn lemma_bits_bound(s: Seq<bool>)
    ensures
        bits_to_nat(s) < exp2(s.len()),
    decreases s.len(),
{
    if s.len() > 0 {
        lemma_bits_bound(s.drop_first());
        assert(exp2(s.len()) == 2 * exp2((s.len() - 1) as nat));
    }
}

pub proof fn lemma_bits_push(s: Seq<bool>, b: bool)
    ensures
        bits_to_nat(s.push(b)) == bits_to_nat(s) + (if b {
            exp2(s.len())
        } else {
            0
        }),
    decreases s.len(),
{
    if s.len() == 0 {
        assert(s.push(b).drop_first() =~= Seq::<bool>::empty());
        assert(bits_to_nat(Seq::<bool>::empty()) == 0);
        assert(s.push(b)[0] == b);
        assert(bits_to_nat(s.push(b)) == bit_nat(b) + 2 * bits_to_nat(s.push(b).drop_first()));
        assert(bits_to_nat(s) == 0);
        assert(exp2(0) == 1);
    } else {
        let t = s.drop_first();
        assert(s.push(b).drop_first() =~= t.push(b));
        assert(s.push(b)[0] == s[0]);
        assert(bits_to_nat(s.push(b)) == bit_nat(s[0]) + 2 * bits_to_nat(t.push(b)));
        lemma_bits_push(t, b);
        let x = exp2(t.len());
        assert(exp2(s.len()) == 2 * x);
        assert(bits_to_nat(s) == bit_nat(s[0]) + 2 * bits_to_nat(t));
    }
}

pub proof fn lemma_nat_to_bits(r: nat, n: nat)
    ensures
        nat_to_bits(r, n).len() == n,
        bits_to_nat(nat_to_bits(r, n)) == r % exp2(n),
    decreases n,
{
    if n > 0 {
        let n1 = (n - 1) as nat;
        lemma_nat_to_bits(r / 2, n1);
        let s = nat_to_bits(r, n);
        assert(s.drop_first() =~= nat_to_bits(r / 2, n1));
        let e = exp2(n1);
        lemma_exp2_pos(n1);
        assert(exp2(n) == 2 * e);
        assert((if r % 2 == 1 { 1nat } else { 0nat }) == r % 2);
        assert(r % 2 + 2 * ((r / 2) % e) == r % (2 * e)) by (nonlinear_arith)
            requires
                e >= 1,
        {
            vstd::arithmetic::div_mod::lemma_breakdown(r as int, 2, e as int);
        }
    }
}

/// A bit sequence is the binary expansion of the integer it denotes.
pub proof fn lemma_bits_unique(s: Seq<bool>)
    ensures
        s =~= nat_to_bits(bits_to_nat(s), s.len()),
    decreases s.len(),
{
    if s.len() > 0 {
        let t = s.drop_first();
        lemma_bits_unique(t);
        let v = bits_to_nat(s);
        assert(v % 2 == bit_nat(s[0]));
        assert(v / 2 == bits_to_nat(t));
        let u = nat_to_bits(v, s.len());
        assert(u.drop_first() =~= nat_to_bits(v / 2, t.len()));
        assert(u[0] == s[0]);
        assert forall|i: int| 0 <= i < s.len() implies u[i] == s[i] by {
            if i > 0 {
                assert(u[i] == u.drop_first()[i - 1]);
                assert(s[i] == t[i - 1]);
            }
        }
    }
}

pub proof fn lemma_bytes_push(s: Seq<u8>, b: u8)
    ensures
        bytes_to_nat(s.push(b)) == bytes_to_nat(s) + exp2(8 * s.len()) * (b as nat),
    decreases s.len(),
{
    if s.len() == 0 {
        assert(s.push(b).drop_first() =~= Seq::<u8>::empty());
        assert(s.push(b)[0] == b);
        assert(bytes_to_nat(s.push(b)) == b as nat + 256 * bytes_to_nat(s.push(b).drop_first()));
        assert(bytes_to_nat(Seq::<u8>::empty()) == 0);
        assert(bytes_to_nat(s) == 0);
        assert(exp2(0) == 1);
        assert(8 * s.len() == 0);
        assert(exp2(8 * s.len()) == 1);
        let e = exp2(8 * s.len());
        assert(e * (b as nat) == b as nat) by (nonlinear_arith)
            requires
                e == 1,
        ;
    } else {
        let t = s.drop_first();
        assert(s.push(b).drop_first() =~= t.push(b));
        assert(s.push(b)[0] == s[0]);
        assert(bytes_to_nat(s.push(b)) == s[0] as nat + 256 * bytes_to_nat(t.push(b)));
        lemma_bytes_push(t, b);
        let x = exp2(8 * t.len());
        lemma_exp2_adds(8, 8 * t.len());
        lemma_exp2_254();
        assert(8 * s.len() == 8 + 8 * t.len());
        assert(exp2(8 * s.len()) == 256 * x);
        assert(256 * (bytes_to_nat(t) + x * (b as nat)) == 256 * bytes_to_nat(t) + (256 * x) * (
        b as nat)) by (nonlinear_arith);
        assert(bytes_to_nat(s) == s[0] as nat + 256 * bytes_to_nat(t));
        let e = exp2(8 * s.len());
        assert(e * (b as nat) == (256 * x) * (b as nat)) by (nonlinear_arith)
            requires
                e == 256 * x,
        ;
    }
}

pub proof fn lemma_bytes_bound(s: Seq<u8>)
    ensures
        bytes_to_nat(s) < exp2(8 * s.len()),
    decreases s.len(),
{
    if s.len() > 0 {
        let t = s.drop_first();
        lemma_bytes_bound(t);
        lemma_exp2_adds(8, 8 * t.len());
        lemma_exp2_254();
        assert(8 * s.len() == 8 + 8 * t.len());
        let x = exp2(8 * t.len());
        assert(s[0] as nat + 256 * bytes_to_nat(t) < 256 * x) by (nonlinear_arith)
            requires
                bytes_to_nat(t) < x,
                s[0] < 256,
        ;
    }
}

/// A byte sequence with a nonzero last byte denotes at least `2^(8 * (len - 1))`.
pub proof fn lemma_bytes_last_nonzero(s: Seq<u8>)
    requires
        s.len() > 0,
        s.last() != 0,
    ensures
        bytes_to_nat(s) >= exp2((8 * (s.len() - 1)) as nat),
{
    let t = s.drop_last();
    assert(t.push(s.last()) =~= s);
    lemma_bytes_push(t, s.last());
    let x = exp2(8 * t.len());
    assert(x * (s.last() as nat) >= x) by (nonlinear_arith)
        requires
            s.last() >= 1,
    ;
}

/// The bits of a byte, least significant first.
pub proof fn lemma_byte_bit(b: u8, i: u8)
    requires
        i < 8,
    ensures
        ((b >> i) & 1) == 1 ==> (b as nat) % exp2((i + 1) as nat) == (b as nat) % exp2(i as nat)
            + exp2(i as nat),
        ((b >> i) & 1) != 1 ==> (b as nat) % exp2((i + 1) as nat) == (b as nat) % exp2(i as nat),
{
    let m: u16 = 1u16 << (i as u16);
    let m2: u16 = 1u16 << ((i + 1) as u16);
    let bit: u8 = (b >> i) & 1;
    let x: u16 = b as u16;
    assert((bit == 1 ==> x % m2 == x % m + m) && (bit == 0 ==> x % m2 == x % m)) by (bit_vector)
        requires
            i < 8,
            m == 1u16 << (i as u16),
            m2 == 1u16 << ((i + 1) as u16),
            bit == (b >> i) & 1,
            x == b as u16,
    ;
    assert(bit == 0 || bit == 1) by (bit_vector)
        requires
            bit == (b >> i) & 1,
    ;
    lemma_exp2_shift(i);
    lemma_exp2_shift((i + 1) as u8);
    let e1 = exp2(i as nat);
    let e2 = exp2((i + 1) as nat);
    assert(e1 == m as nat);
    assert(e2 == m2 as nat);
    assert(b as int == x as int);
    assert((x % m2) as int == (x as int) % (m2 as int));
    assert((x % m) as int == (x as int) % (m as int));
    assert((b as nat) % e2 == (x % m2) as nat);
    assert((b as nat) % e1 == (x % m) as nat);
    if bit == 1 {
        assert((x % m2) as int == (x % m) as int + m as int);
        let a2 = (b as nat) % e2;
        let a1 = (b as nat) % e1;
        assert(a2 == (x % m2) as int);
        assert(a1 == (x % m) as int);
        assert(e1 == m as int);
        let y2 = (x % m2) as int;
        let y1 = (x % m) as int;
        let mm = m as int;
        assert(a2 == a1 + e1) by (nonlinear_arith)
            requires
                a2 == y2,
                a1 == y1,
                e1 == mm,
                y2 == y1 + mm,
        ;
        assert(((b >> i) & 1) == 1);
        assert((b as nat) % exp2((i + 1) as nat) == (b as nat) % exp2(i as nat) + exp2(i as nat));
    } else {
        let a2 = (b as nat) % e2;
        let a1 = (b as nat) % e1;
        let y2 = (x % m2) as int;
        let y1 = (x % m) as int;
        assert(a2 == a1) by (nonlinear_arith)
            requires
                a2 == y2,
                a1 == y1,
                y2 == y1,
        ;
        assert(((b >> i) & 1) != 1);
        assert((b as nat) % exp2((i + 1) as nat) == (b as nat) % exp2(i as nat));
    }
}

proof fn lemma_exp2_shift(i: u8)
    requires
        i <= 8,
    ensures
        exp2(i as nat) == (1u16 << (i as u16)),
{
    reveal_with_fuel(exp2, 9);
    assert(1u16 << 0u16 == 1) by (bit_vector);
    assert(1u16 << 1u16 == 2) by (bit_vector);
    assert(1u16 << 2u16 == 4) by (bit_vector);
    assert(1u16 << 3u16 == 8) by (bit_vector);
    assert(1u16 << 4u16 == 16) by (bit_vector);
    assert(1u16 << 5u16 == 32) by (bit_vector);
    assert(1u16 << 6u16 == 64) by (bit_vector);
    assert(1u16 << 7u16 == 128) by (bit_vector);
    assert(1u16 << 8u16 == 256) by (bit_vector);
}

} // verus!

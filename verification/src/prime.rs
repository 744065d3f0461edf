//! Lucas's primality test and its consequences.
//!
//! A number `n` is prime when some `g` has order exactly `n - 1` modulo `n`,
//! which is checked from a factorisation of `n - 1` into primes: `g^(n-1)` is
//! one and no `g^((n-1)/q)` is. The proof also shows that the powers of `g`
//! run through every nonzero residue, which is what the field facts of
//! `modulus.rs` are derived from.
use vstd::arithmetic::div_mod::{
    lemma_fundamental_div_mod, lemma_fundamental_div_mod_converse, lemma_mod_bound,
    lemma_mod_multiples_basic, lemma_mod_twice, lemma_mul_mod_noop_general, lemma_small_mod,
};
use vstd::arithmetic::power::{
    lemma1_pow, lemma_pow0, lemma_pow1, lemma_pow_adds, lemma_pow_mod_noop, lemma_pow_multiplies,
    pow,
};
use vstd::prelude::*;
use vstd::relations::injective_on;
use vstd::set_lib::{lemma_int_range, lemma_map_size, lemma_subset_equality, set_int_range};

verus! {

/// `n` has no divisor strictly between one and itself.
pub open spec fn is_prime(n: int) -> bool {
    n > 1 && forall|d: int| 1 < d < n ==> #[trigger] (n % d) != 0
}

/// The product of a sequence of integers.
pub open spec fn product(s: Seq<int>) -> int
    decreases s.len(),
{
    if s.len() == 0 {
        1
    } else {
        product(s.drop_last()) * s.last()
    }
}

/// `b^e mod m`, by repeated squaring.
pub open spec fn powmod(b: int, e: nat, m: int) -> int
    decreases e,
{
    if e == 0 {
        1int % m
    } else {
        let h = powmod(b, e / 2, m);
        let h2 = (h * h) % m;
        if e % 2 == 0 {
            h2
        } else {
            (h2 * b) % m
        }
    }
}

/// `x` is `g^k mod n` for some `k` below `n - 1`.
pub open spec fn is_power_of(g: int, n: int, x: int) -> bool {
    exists|k: nat| k < n - 1 && #[trigger] (pow(g, k) % n) == x
}

/// Every nonzero residue modulo `n` is a power of `g` below `n - 1`.
pub open spec fn generates(g: int, n: int) -> bool {
    forall|x: int| 0 < x < n ==> #[trigger] is_power_of(g, n, x)
}

/// Repeated squaring computes the power.
pub proof fn lemma_powmod(b: int, e: nat, m: int)
    requires
        m > 1,
    ensures
        powmod(b, e, m) == pow(b, e) % m,
    decreases e,
{
    if e == 0 {
        lemma_pow0(b);
    } else {
        let h = e / 2;
        lemma_powmod(b, h, m);
        lemma_pow_adds(b, h, h);
        lemma_mul_mod_noop_general(pow(b, h), pow(b, h), m);
        if e % 2 == 1 {
            lemma_pow_adds(b, h + h, 1);
            lemma_pow1(b);
            lemma_mul_mod_noop_general(pow(b, h + h), b, m);
            assert(e == (h + h) + 1);
        } else {
            assert(e == h + h);
        }
    }
}

/// One squaring step of a certified exponentiation.
pub proof fn lemma_square_step(b: int, m: int, e: nat, h: int, q: int, r: int)
    requires
        m > 1,
        e >= 1,
        powmod(b, e, m) == h,
        h * h == q * m + r,
        0 <= r < m,
    ensures
        powmod(b, 2 * e, m) == r,
{
    let e2 = 2 * e;
    assert(e2 / 2 == e && e2 % 2 == 0 && e2 != 0);
    lemma_fundamental_div_mod_converse(h * h, m, q, r);
}

/// One squaring-and-multiplying step of a certified exponentiation.
pub proof fn lemma_square_mul_step(b: int, m: int, e: nat, h: int, q1: int, r1: int, q2: int, r2: int)
    requires
        m > 1,
        powmod(b, e, m) == h,
        h * h == q1 * m + r1,
        0 <= r1 < m,
        r1 * b == q2 * m + r2,
        0 <= r2 < m,
    ensures
        powmod(b, 2 * e + 1, m) == r2,
{
    let e2 = 2 * e + 1;
    assert(e2 / 2 == e && e2 % 2 == 1);
    lemma_fundamental_div_mod_converse(h * h, m, q1, r1);
    lemma_fundamental_div_mod_converse(r1 * b, m, q2, r2);
}

/// The first step of a certified exponentiation: `b^1 mod m`.
pub proof fn lemma_chain_start(b: int, m: int, q: int, r: int) -> (e: nat)
    requires
        m > 1,
        b == q * m + r,
        0 <= r < m,
    ensures
        e == 1,
        powmod(b, e, m) == r,
{
    lemma_small_mod(1, m as nat);
    assert(powmod(b, 0, m) == 1);
    assert((1int * 1int) % m == 1);
    assert(1int * b == b);
    assert(powmod(b, 1, m) == b % m);
    lemma_fundamental_div_mod_converse(b, m, q, r);
    1
}

/// A squaring step of a certified exponentiation.
pub proof fn lemma_chain_square(b: int, m: int, e: nat, h: int, q: int, r: int) -> (e2: nat)
    requires
        m > 1,
        e >= 1,
        powmod(b, e, m) == h,
        h * h == q * m + r,
        0 <= r < m,
    ensures
        e2 == 2 * e,
        powmod(b, e2, m) == r,
{
    lemma_square_step(b, m, e, h, q, r);
    2 * e
}

/// A squaring-and-multiplying step of a certified exponentiation.
pub proof fn lemma_chain_square_mul(
    b: int,
    m: int,
    e: nat,
    h: int,
    q1: int,
    r1: int,
    q2: int,
    r2: int,
) -> (e2: nat)
    requires
        m > 1,
        powmod(b, e, m) == h,
        h * h == q1 * m + r1,
        0 <= r1 < m,
        r1 * b == q2 * m + r2,
        0 <= r2 < m,
    ensures
        e2 == 2 * e + 1,
        powmod(b, e2, m) == r2,
{
    lemma_square_mul_step(b, m, e, h, q1, r1, q2, r2);
    2 * e + 1
}

/// The end of a certified exponentiation: `b^e mod m` is `v`.
pub proof fn lemma_chain_end(b: int, m: int, e: nat, x: nat, v: int)
    requires
        m > 1,
        powmod(b, x, m) == v,
        x == e,
    ensures
        pow(b, e) % m == v,
{
    lemma_powmod(b, e, m);
}

/// A power of a power: from `g^a mod n == x` and `x^c mod n == y`,
/// `g^(a c) mod n == y`.
pub proof fn lemma_power_compose(g: int, a: nat, c: nat, ac: nat, n: int, x: int, y: int)
    requires
        n > 1,
        pow(g, a) % n == x,
        pow(x, c) % n == y,
        a * c == ac,
    ensures
        pow(g, ac) % n == y,
{
    lemma_pm_mul(g, a, c, n);
}

/// `n` has no divisor from 2 to `k`.
pub open spec fn no_divisor_up_to(n: int, k: int) -> bool
    decreases k,
{
    if k < 2 {
        true
    } else {
        n % k != 0 && no_divisor_up_to(n, k - 1)
    }
}

/// Trial division: a number with no divisor up to `k`, where `(k + 1)^2`
/// exceeds it, is prime.
pub proof fn lemma_trial_division(n: int, k: int)
    requires
        n > 1,
        k >= 1,
        (k + 1) * (k + 1) > n,
        no_divisor_up_to(n, k),
    ensures
        is_prime(n),
{
    assert forall|d: int| 1 < d < n implies #[trigger] (n % d) != 0 by {
        if n % d == 0 {
            lemma_fundamental_div_mod(n, d);
            let e = n / d;
            assert(e >= 2) by (nonlinear_arith)
                requires
                    n == d * e,
                    d < n,
                    d > 1,
            ;
            lemma_mod_multiples_basic(d, e);
            assert(n % e == 0) by {
                assert(n == d * e);
                assert(d * e == e * d) by (nonlinear_arith);
            }
            if d <= k {
                lemma_no_divisor(n, k, d);
            } else {
                assert(e <= k) by (nonlinear_arith)
                    requires
                        n == d * e,
                        d >= k + 1,
                        (k + 1) * (k + 1) > n,
                        e >= 2,
                        k >= 1,
                ;
                lemma_no_divisor(n, k, e);
            }
        }
    }
}

proof fn lemma_no_divisor(n: int, k: int, d: int)
    requires
        no_divisor_up_to(n, k),
        2 <= d <= k,
    ensures
        n % d != 0,
    decreases k,
{
    if d < k {
        lemma_no_divisor(n, k - 1, d);
    }
}

/// Powers add modulo `n`.
proof fn lemma_pm_add(g: int, i: nat, j: nat, n: int)
    requires
        n > 1,
    ensures
        pow(g, i + j) % n == ((pow(g, i) % n) * (pow(g, j) % n)) % n,
{
    lemma_pow_adds(g, i, j);
    lemma_mul_mod_noop_general(pow(g, i), pow(g, j), n);
}

/// Powers multiply modulo `n`.
proof fn lemma_pm_mul(g: int, i: nat, j: nat, n: int)
    requires
        n > 1,
    ensures
        pow(g, i * j) % n == pow(pow(g, i) % n, j) % n,
{
    lemma_pow_multiplies(g, i, j);
    lemma_pow_mod_noop(pow(g, i), j, n);
}

/// A power of an element of order dividing `d`: `g^(d k)` is one.
proof fn lemma_pm_one_multiple(g: int, d: nat, k: nat, n: int)
    requires
        n > 1,
        pow(g, d) % n == 1,
    ensures
        pow(g, d * k) % n == 1,
{
    lemma_pm_mul(g, d, k, n);
    lemma1_pow(k);
    lemma_small_mod(1, n as nat);
}

/// A least witness of a property that holds at `k >= 1`.
proof fn lemma_least(f: spec_fn(int) -> bool, k: int) -> (d: int)
    requires
        k >= 1,
        f(k),
    ensures
        1 <= d <= k,
        f(d),
        forall|j: int| 1 <= j < d ==> !#[trigger] f(j),
    decreases k,
{
    if exists|j: int| 1 <= j < k && #[trigger] f(j) {
        let j = choose|j: int| 1 <= j < k && #[trigger] f(j);
        lemma_least(f, j)
    } else {
        k
    }
}

/// A prime dividing a product divides one of the factors.
pub proof fn lemma_euclid(s: int, a: int, b: int)
    requires
        is_prime(s),
        a >= 0,
        b >= 0,
        (a * b) % s == 0,
    ensures
        a % s == 0 || b % s == 0,
{
    let f = |k: int| (k * b) % s == 0;
    lemma_mod_multiples_basic(b, s);
    assert(f(s)) by {
        assert(s * b == b * s) by (nonlinear_arith);
    }
    let k = lemma_least(f, s);
    // k divides s
    lemma_fundamental_div_mod(s, k);
    let t = s / k;
    let r = s % k;
    lemma_mod_bound(s, k);
    assert(r * b == s * b - t * (k * b)) by (nonlinear_arith)
        requires
            s == k * t + r,
    ;
    lemma_fundamental_div_mod(k * b, s);
    let c = (k * b) / s;
    assert(r * b == s * (b - t * c)) by (nonlinear_arith)
        requires
            r * b == s * b - t * (k * b),
            k * b == s * c,
    ;
    lemma_mod_multiples_basic(b - t * c, s);
    assert((s * (b - t * c)) % s == 0) by {
        assert(s * (b - t * c) == (b - t * c) * s) by (nonlinear_arith);
    }
    assert(r == 0) by {
        if r != 0 {
            assert(f(r));
        }
    }
    if k == 1 {
        assert(b % s == 0);
    } else {
        assert(k == s) by {
            if k < s {
                assert(s % k == 0);
            }
        }
        lemma_fundamental_div_mod(a, s);
        let t2 = a / s;
        let r2 = a % s;
        lemma_mod_bound(a, s);
        lemma_fundamental_div_mod(a * b, s);
        let c2 = (a * b) / s;
        assert(r2 * b == s * (c2 - t2 * b)) by (nonlinear_arith)
            requires
                a == s * t2 + r2,
                a * b == s * c2,
        ;
        lemma_mod_multiples_basic(c2 - t2 * b, s);
        assert((s * (c2 - t2 * b)) % s == 0) by {
            assert(s * (c2 - t2 * b) == (c2 - t2 * b) * s) by (nonlinear_arith);
        }
        assert(r2 == 0) by {
            if r2 != 0 {
                assert(f(r2));
            }
        }
    }
}

/// A product of primes is positive.
proof fn lemma_product_positive(fs: Seq<int>)
    requires
        forall|i: int| 0 <= i < fs.len() ==> is_prime(#[trigger] fs[i]),
    ensures
        product(fs) >= 1,
    decreases fs.len(),
{
    if fs.len() > 0 {
        let init = fs.drop_last();
        assert forall|i: int| 0 <= i < init.len() implies is_prime(#[trigger] init[i]) by {
            assert(init[i] == fs[i]);
        }
        lemma_product_positive(init);
        assert(is_prime(fs[fs.len() - 1]));
        assert(product(init) * fs.last() >= 1) by (nonlinear_arith)
            requires
                product(init) >= 1,
                fs.last() >= 1,
        ;
    }
}

/// A prime dividing a product of primes is one of them.
proof fn lemma_prime_divides_product(s: int, fs: Seq<int>) -> (i: int)
    requires
        is_prime(s),
        forall|i: int| 0 <= i < fs.len() ==> is_prime(#[trigger] fs[i]),
        product(fs) % s == 0,
    ensures
        0 <= i < fs.len(),
        fs[i] == s,
    decreases fs.len(),
{
    if fs.len() == 0 {
        lemma_small_mod(1, s as nat);
        assert(false);
        0
    } else {
        let init = fs.drop_last();
        let l = fs.last();
        assert forall|i: int| 0 <= i < init.len() implies is_prime(#[trigger] init[i]) by {
            assert(init[i] == fs[i]);
        }
        assert(is_prime(fs[fs.len() - 1]));
        lemma_product_positive(init);
        lemma_euclid(s, product(init), l);
        if l % s == 0 {
            // s divides the prime l, so it is l
            lemma_fundamental_div_mod(l, s);
            assert(l / s >= 1) by (nonlinear_arith)
                requires
                    l == s * (l / s),
                    l >= 2,
                    s >= 2,
            ;
            assert(s <= l) by (nonlinear_arith)
                requires
                    l == s * (l / s),
                    l / s >= 1,
                    s >= 2,
            ;
            if s < l {
                assert(l % s != 0);
            }
            fs.len() - 1
        } else {
            let i = lemma_prime_divides_product(s, init);
            assert(fs[i] == init[i]);
            i
        }
    }
}

/// A number above one that divides a product of primes is divisible by one
/// of them.
proof fn lemma_factor_in_list(m: int, fs: Seq<int>) -> (i: int)
    requires
        m > 1,
        forall|i: int| 0 <= i < fs.len() ==> is_prime(#[trigger] fs[i]),
        product(fs) % m == 0,
    ensures
        0 <= i < fs.len(),
        m % fs[i] == 0,
{
    let f = |k: int| k >= 2 && m % k == 0;
    lemma_mod_multiples_basic(1, m);
    assert(f(m));
    let s = lemma_least(f, m);
    assert(is_prime(s)) by {
        assert forall|e: int| 1 < e < s implies #[trigger] (s % e) != 0 by {
            if s % e == 0 {
                lemma_divides_trans(e, s, m);
                assert(f(e));
            }
        }
    }
    lemma_product_positive(fs);
    lemma_divides_trans(s, m, product(fs));
    let i = lemma_prime_divides_product(s, fs);
    i
}

/// Divisibility is transitive.
proof fn lemma_divides_trans(a: int, b: int, c: int)
    requires
        a > 0,
        b > 0,
        b % a == 0,
        c % b == 0,
    ensures
        c % a == 0,
{
    lemma_fundamental_div_mod(b, a);
    lemma_fundamental_div_mod(c, b);
    let x = b / a;
    let y = c / b;
    assert(c == (x * y) * a) by (nonlinear_arith)
        requires
            b == a * x,
            c == b * y,
    ;
    lemma_mod_multiples_basic(x * y, a);
}

/// Lucas's test: if `g^(n-1)` is one modulo `n` and `g^((n-1)/q)` is not, for
/// every prime `q` of a factorisation of `n - 1`, then `n` is prime and the
/// powers of `g` give every nonzero residue.
pub proof fn lemma_lucas(n: int, g: int, fs: Seq<int>)
    requires
        n > 2,
        forall|i: int| 0 <= i < fs.len() ==> is_prime(#[trigger] fs[i]),
        product(fs) == n - 1,
        pow(g, (n - 1) as nat) % n == 1,
        forall|i: int| 0 <= i < fs.len() ==> #[trigger] (pow(g, ((n - 1) / fs[i]) as nat) % n) != 1,
    ensures
        is_prime(n),
        generates(g, n),
{
    let big_n = n - 1;
    // the order of g
    let f = |k: int| pow(g, k as nat) % n == 1;
    let d = lemma_least(f, big_n);
    // d divides n - 1
    lemma_fundamental_div_mod(big_n, d);
    let m = big_n / d;
    let r = big_n % d;
    lemma_mod_bound(big_n, d);
    assert(m >= 0) by (nonlinear_arith)
        requires
            big_n == d * m + r,
            0 <= r < d,
            big_n >= 1,
            d >= 1,
    ;
    lemma_pm_add(g, (d as nat) * (m as nat), r as nat, n);
    lemma_pm_one_multiple(g, d as nat, m as nat, n);
    lemma_mod_twice(pow(g, r as nat), n);
    lemma_mod_bound(pow(g, r as nat), n);
    assert((d as nat) * (m as nat) + r as nat == (n - 1) as nat);
    assert(pow(g, r as nat) % n == 1);
    assert(r == 0) by {
        if r != 0 {
            assert(f(r));
        }
    }
    // d is n - 1
    assert(d == big_n) by {
        if d < big_n {
            assert(m > 1) by (nonlinear_arith)
                requires
                    big_n == d * m,
                    d < big_n,
                    d >= 1,
            ;
            assert(product(fs) % m == 0) by {
                assert(big_n == m * d) by (nonlinear_arith)
                    requires
                        big_n == d * m,
                ;
                lemma_mod_multiples_basic(d, m);
            }
            let i = lemma_factor_in_list(m, fs);
            let q = fs[i];
            lemma_fundamental_div_mod(m, q);
            let mq = m / q;
            assert(big_n == q * (d * mq)) by (nonlinear_arith)
                requires
                    big_n == d * m,
                    m == q * mq,
            ;
            assert(is_prime(q));
            lemma_fundamental_div_mod_converse(big_n, q, d * mq, 0);
            assert(mq >= 0) by (nonlinear_arith)
                requires
                    m == q * mq,
                    m > 1,
                    q > 1,
            ;
            lemma_pm_one_multiple(g, d as nat, mq as nat, n);
            assert(pow(g, ((n - 1) / fs[i]) as nat) % n != 1);
        }
    }
    // the powers below n - 1 are distinct
    let x = set_int_range(0, big_n);
    let pf = |k: int| pow(g, k as nat) % n;
    assert forall|i: int, j: int|
        x.contains(i) && x.contains(j) && #[trigger] pf(i) == #[trigger] pf(j) implies i == j by {
        if i != j {
            let (a, b) = if i < j {
                (i, j)
            } else {
                (j, i)
            };
            lemma_pm_add(g, (big_n - a) as nat, a as nat, n);
            lemma_pm_add(g, (big_n - a) as nat, b as nat, n);
            lemma_pm_add(g, big_n as nat, (b - a) as nat, n);
            assert((big_n - a) + b == big_n + (b - a));
            lemma_mod_twice(pow(g, (b - a) as nat), n);
            lemma_small_mod(1, n as nat);
            assert(f(b - a));
        }
    }
    assert(injective_on(pf, x));
    lemma_int_range(0, big_n);
    let y = x.map(pf);
    lemma_map_size(x, y, pf);
    // and they are the nonzero residues
    let z = set_int_range(1, n);
    lemma_int_range(1, n);
    assert(y.subset_of(z)) by {
        assert forall|v: int| y.contains(v) implies z.contains(v) by {
            let k = choose|k: int| x.contains(k) && pf(k) == v;
            lemma_mod_bound(pow(g, k as nat), n);
            lemma_pm_add(g, (big_n - k) as nat, k as nat, n);
            assert((big_n - k) as nat + k as nat == (n - 1) as nat);
            if v == 0 {
                lemma_small_mod(0, n as nat);
                assert((pow(g, (big_n - k) as nat) % n) * 0 == 0);
            }
        }
    }
    lemma_subset_equality(y, z);
    assert forall|v: int| 0 < v < n implies #[trigger] is_power_of(g, n, v) by {
        assert(z.contains(v));
        let k = choose|k: int| x.contains(k) && pf(k) == v;
        assert(pow(g, k as nat) % n == v);
    }
    // so every e in (1, n) is a unit, and divides n only if it divides 1
    assert forall|e: int| 1 < e < n implies #[trigger] (n % e) != 0 by {
        assert(is_power_of(g, n, e));
        let k = choose|k: nat| k < n - 1 && #[trigger] (pow(g, k) % n) == e;
        let y2 = pow(g, (big_n - k) as nat) % n;
        lemma_pm_add(g, k, (big_n - k) as nat, n);
        assert(k + (big_n - k) as nat == (n - 1) as nat);
        assert((e * y2) % n == 1);
        lemma_fundamental_div_mod(e * y2, n);
        let t = (e * y2) / n;
        if n % e == 0 {
            lemma_fundamental_div_mod(n, e);
            let c = n / e;
            assert(e * (y2 - c * t) == 1) by (nonlinear_arith)
                requires
                    e * y2 == n * t + 1,
                    n == e * c,
            ;
            assert(false) by (nonlinear_arith)
                requires
                    e * (y2 - c * t) == 1,
                    e > 1,
            ;
        }
    }
}

} // verus!

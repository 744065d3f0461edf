//! Lucas certificates that the base-field modulus `p` is prime, with 3
//! generating the nonzero residues modulo `p`: the factorisations of `p - 1`
//! and of its large prime factors, and the powers that the test checks, each
//! power given by the quotients and remainders of its repeated squaring.
use crate::field::p;
use crate::prime::{
    generates, is_prime, lemma_chain_end, powmod, lemma_chain_square, lemma_chain_square_mul,
    lemma_chain_start, lemma_lucas, lemma_power_compose, lemma_trial_division, no_divisor_up_to,
    product,
};
use vstd::arithmetic::div_mod::lemma_fundamental_div_mod_converse;
use vstd::arithmetic::power::pow;
use vstd::prelude::*;

verus! {

/// 2 is prime, by trial division.
proof fn lemma_prime_2()
    ensures
        is_prime(2),
{
    assert(no_divisor_up_to(2, 1));
    lemma_trial_division(2, 1);
}

/// 3 is prime, by trial division.
proof fn lemma_prime_3()
    ensures
        is_prime(3),
{
    assert(no_divisor_up_to(3, 1));
    lemma_trial_division(3, 1);
}

/// 5 is prime, by trial division.
proof fn lemma_prime_5()
    ensures
        is_prime(5),
{
    assert(no_divisor_up_to(5, 1));
    assert(no_divisor_up_to(5, 2));
    lemma_trial_division(5, 2);
}

/// 7 is prime, by trial division.
proof fn lemma_prime_7()
    ensures
        is_prime(7),
{
    assert(no_divisor_up_to(7, 1));
    assert(no_divisor_up_to(7, 2));
    lemma_trial_division(7, 2);
}

/// 11 is prime, by trial division.
proof fn lemma_prime_11()
    ensures
        is_prime(11),
{
    assert(no_divisor_up_to(11, 1));
    assert(no_divisor_up_to(11, 2));
    assert(no_divisor_up_to(11, 3));
    lemma_trial_division(11, 3);
}

/// 13 is prime, by trial division.
proof fn lemma_prime_13()
    ensures
        is_prime(13),
{
    assert(no_divisor_up_to(13, 1));
    assert(no_divisor_up_to(13, 2));
    assert(no_divisor_up_to(13, 3));
    lemma_trial_division(13, 3);
}

/// 17 is prime, by trial division.
proof fn lemma_prime_17()
    ensures
        is_prime(17),
{
    assert(no_divisor_up_to(17, 1));
    assert(no_divisor_up_to(17, 2));
    assert(no_divisor_up_to(17, 3));
    assert(no_divisor_up_to(17, 4));
    lemma_trial_division(17, 4);
}

/// 19 is prime, by trial division.
proof fn lemma_prime_19()
    ensures
        is_prime(19),
{
    assert(no_divisor_up_to(19, 1));
    assert(no_divisor_up_to(19, 2));
    assert(no_divisor_up_to(19, 3));
    assert(no_divisor_up_to(19, 4));
    lemma_trial_division(19, 4);
}

/// 29 is prime, by trial division.
proof fn lemma_prime_29()
    ensures
        is_prime(29),
{
    assert(no_divisor_up_to(29, 1));
    assert(no_divisor_up_to(29, 2));
    assert(no_divisor_up_to(29, 3));
    assert(no_divisor_up_to(29, 4));
    assert(no_divisor_up_to(29, 5));
    lemma_trial_division(29, 5);
}

/// 37 is prime, by trial division.
proof fn lemma_prime_37()
    ensures
        is_prime(37),
{
    assert(no_divisor_up_to(37, 1));
    assert(no_divisor_up_to(37, 2));
    assert(no_divisor_up_to(37, 3));
    assert(no_divisor_up_to(37, 4));
    assert(no_divisor_up_to(37, 5));
    assert(no_divisor_up_to(37, 6));
    lemma_trial_division(37, 6);
}

/// 41 is prime, by trial division.
proof fn lemma_prime_41()
    ensures
        is_prime(41),
{
    assert(no_divisor_up_to(41, 1));
    assert(no_divisor_up_to(41, 2));
    assert(no_divisor_up_to(41, 3));
    assert(no_divisor_up_to(41, 4));
    assert(no_divisor_up_to(41, 5));
    assert(no_divisor_up_to(41, 6));
    lemma_trial_division(41, 6);
}

/// 67 is prime, by trial division.
proof fn lemma_prime_67()
    ensures
        is_prime(67),
{
    assert(no_divisor_up_to(67, 1));
    assert(no_divisor_up_to(67, 2));
    assert(no_divisor_up_to(67, 3));
    assert(no_divisor_up_to(67, 4));
    assert(no_divisor_up_to(67, 5));
    assert(no_divisor_up_to(67, 6));
    assert(no_divisor_up_to(67, 7));
    assert(no_divisor_up_to(67, 8));
    lemma_trial_division(67, 8);
}

/// 73 is prime, by trial division.
proof fn lemma_prime_73()
    ensures
        is_prime(73),
{
    assert(no_divisor_up_to(73, 1));
    assert(no_divisor_up_to(73, 2));
    assert(no_divisor_up_to(73, 3));
    assert(no_divisor_up_to(73, 4));
    assert(no_divisor_up_to(73, 5));
    assert(no_divisor_up_to(73, 6));
    assert(no_divisor_up_to(73, 7));
    assert(no_divisor_up_to(73, 8));
    lemma_trial_division(73, 8);
}

/// 89 is prime, by trial division.
proof fn lemma_prime_89()
    ensures
        is_prime(89),
{
    assert(no_divisor_up_to(89, 1));
    assert(no_divisor_up_to(89, 2));
    assert(no_divisor_up_to(89, 3));
    assert(no_divisor_up_to(89, 4));
    assert(no_divisor_up_to(89, 5));
    assert(no_divisor_up_to(89, 6));
    assert(no_divisor_up_to(89, 7));
    assert(no_divisor_up_to(89, 8));
    assert(no_divisor_up_to(89, 9));
    lemma_trial_division(89, 9);
}

/// 109 is prime, by trial division.
proof fn lemma_prime_109()
    ensures
        is_prime(109),
{
    assert(no_divisor_up_to(109, 1));
    assert(no_divisor_up_to(109, 2));
    assert(no_divisor_up_to(109, 3));
    assert(no_divisor_up_to(109, 4));
    assert(no_divisor_up_to(109, 5));
    assert(no_divisor_up_to(109, 6));
    assert(no_divisor_up_to(109, 7));
    assert(no_divisor_up_to(109, 8));
    assert(no_divisor_up_to(109, 9));
    assert(no_divisor_up_to(109, 10));
    lemma_trial_division(109, 10);
}

/// 229 is prime, by trial division.
proof fn lemma_prime_229()
    ensures
        is_prime(229),
{
    assert(no_divisor_up_to(229, 1));
    assert(no_divisor_up_to(229, 2));
    assert(no_divisor_up_to(229, 3));
    assert(no_divisor_up_to(229, 4));
    assert(no_divisor_up_to(229, 5));
    assert(no_divisor_up_to(229, 6));
    assert(no_divisor_up_to(229, 7));
    assert(no_divisor_up_to(229, 8));
    assert(no_divisor_up_to(229, 9));
    assert(no_divisor_up_to(229, 10));
    assert(no_divisor_up_to(229, 11));
    assert(no_divisor_up_to(229, 12));
    assert(no_divisor_up_to(229, 13));
    assert(no_divisor_up_to(229, 14));
    assert(no_divisor_up_to(229, 15));
    lemma_trial_division(229, 15);
}

/// 233 is prime, by trial division.
proof fn lemma_prime_233()
    ensures
        is_prime(233),
{
    assert(no_divisor_up_to(233, 1));
    assert(no_divisor_up_to(233, 2));
    assert(no_divisor_up_to(233, 3));
    assert(no_divisor_up_to(233, 4));
    assert(no_divisor_up_to(233, 5));
    assert(no_divisor_up_to(233, 6));
    assert(no_divisor_up_to(233, 7));
    assert(no_divisor_up_to(233, 8));
    assert(no_divisor_up_to(233, 9));
    assert(no_divisor_up_to(233, 10));
    assert(no_divisor_up_to(233, 11));
    assert(no_divisor_up_to(233, 12));
    assert(no_divisor_up_to(233, 13));
    assert(no_divisor_up_to(233, 14));
    assert(no_divisor_up_to(233, 15));
    lemma_trial_division(233, 15);
}

/// 271 is prime, by trial division.
proof fn lemma_prime_271()
    ensures
        is_prime(271),
{
    assert(no_divisor_up_to(271, 1));
    assert(no_divisor_up_to(271, 2));
    assert(no_divisor_up_to(271, 3));
    assert(no_divisor_up_to(271, 4));
    assert(no_divisor_up_to(271, 5));
    assert(no_divisor_up_to(271, 6));
    assert(no_divisor_up_to(271, 7));
    assert(no_divisor_up_to(271, 8));
    assert(no_divisor_up_to(271, 9));
    assert(no_divisor_up_to(271, 10));
    assert(no_divisor_up_to(271, 11));
    assert(no_divisor_up_to(271, 12));
    assert(no_divisor_up_to(271, 13));
    assert(no_divisor_up_to(271, 14));
    assert(no_divisor_up_to(271, 15));
    assert(no_divisor_up_to(271, 16));
    lemma_trial_division(271, 16);
}

/// 311 is prime, by trial division.
proof fn lemma_prime_311()
    ensures
        is_prime(311),
{
    assert(no_divisor_up_to(311, 1));
    assert(no_divisor_up_to(311, 2));
    assert(no_divisor_up_to(311, 3));
    assert(no_divisor_up_to(311, 4));
    assert(no_divisor_up_to(311, 5));
    assert(no_divisor_up_to(311, 6));
    assert(no_divisor_up_to(311, 7));
    assert(no_divisor_up_to(311, 8));
    assert(no_divisor_up_to(311, 9));
    assert(no_divisor_up_to(311, 10));
    assert(no_divisor_up_to(311, 11));
    assert(no_divisor_up_to(311, 12));
    assert(no_divisor_up_to(311, 13));
    assert(no_divisor_up_to(311, 14));
    assert(no_divisor_up_to(311, 15));
    assert(no_divisor_up_to(311, 16));
    assert(no_divisor_up_to(311, 17));
    lemma_trial_division(311, 17);
}

/// 911 is prime, by trial division.
proof fn lemma_prime_911()
    ensures
        is_prime(911),
{
    assert(no_divisor_up_to(911, 1));
    assert(no_divisor_up_to(911, 2));
    assert(no_divisor_up_to(911, 3));
    assert(no_divisor_up_to(911, 4));
    assert(no_divisor_up_to(911, 5));
    assert(no_divisor_up_to(911, 6));
    assert(no_divisor_up_to(911, 7));
    assert(no_divisor_up_to(911, 8));
    assert(no_divisor_up_to(911, 9));
    assert(no_divisor_up_to(911, 10));
    assert(no_divisor_up_to(911, 11));
    assert(no_divisor_up_to(911, 12));
    assert(no_divisor_up_to(911, 13));
    assert(no_divisor_up_to(911, 14));
    assert(no_divisor_up_to(911, 15));
    assert(no_divisor_up_to(911, 16));
    assert(no_divisor_up_to(911, 17));
    assert(no_divisor_up_to(911, 18));
    assert(no_divisor_up_to(911, 19));
    assert(no_divisor_up_to(911, 20));
    assert(no_divisor_up_to(911, 21));
    assert(no_divisor_up_to(911, 22));
    assert(no_divisor_up_to(911, 23));
    assert(no_divisor_up_to(911, 24));
    assert(no_divisor_up_to(911, 25));
    assert(no_divisor_up_to(911, 26));
    assert(no_divisor_up_to(911, 27));
    assert(no_divisor_up_to(911, 28));
    assert(no_divisor_up_to(911, 29));
    assert(no_divisor_up_to(911, 30));
    lemma_trial_division(911, 30);
}

/// 983 is prime, by trial division.
proof fn lemma_prime_983()
    ensures
        is_prime(983),
{
    assert(no_divisor_up_to(983, 1));
    assert(no_divisor_up_to(983, 2));
    assert(no_divisor_up_to(983, 3));
    assert(no_divisor_up_to(983, 4));
    assert(no_divisor_up_to(983, 5));
    assert(no_divisor_up_to(983, 6));
    assert(no_divisor_up_to(983, 7));
    assert(no_divisor_up_to(983, 8));
    assert(no_divisor_up_to(983, 9));
    assert(no_divisor_up_to(983, 10));
    assert(no_divisor_up_to(983, 11));
    assert(no_divisor_up_to(983, 12));
    assert(no_divisor_up_to(983, 13));
    assert(no_divisor_up_to(983, 14));
    assert(no_divisor_up_to(983, 15));
    assert(no_divisor_up_to(983, 16));
    assert(no_divisor_up_to(983, 17));
    assert(no_divisor_up_to(983, 18));
    assert(no_divisor_up_to(983, 19));
    assert(no_divisor_up_to(983, 20));
    assert(no_divisor_up_to(983, 21));
    assert(no_divisor_up_to(983, 22));
    assert(no_divisor_up_to(983, 23));
    assert(no_divisor_up_to(983, 24));
    assert(no_divisor_up_to(983, 25));
    assert(no_divisor_up_to(983, 26));
    assert(no_divisor_up_to(983, 27));
    assert(no_divisor_up_to(983, 28));
    assert(no_divisor_up_to(983, 29));
    assert(no_divisor_up_to(983, 30));
    assert(no_divisor_up_to(983, 31));
    lemma_trial_division(983, 31);
}

/// 1231 is prime, by trial division.
proof fn lemma_prime_1231()
    ensures
        is_prime(1231),
{
    assert(no_divisor_up_to(1231, 1));
    assert(no_divisor_up_to(1231, 2));
    assert(no_divisor_up_to(1231, 3));
    assert(no_divisor_up_to(1231, 4));
    assert(no_divisor_up_to(1231, 5));
    assert(no_divisor_up_to(1231, 6));
    assert(no_divisor_up_to(1231, 7));
    assert(no_divisor_up_to(1231, 8));
    assert(no_divisor_up_to(1231, 9));
    assert(no_divisor_up_to(1231, 10));
    assert(no_divisor_up_to(1231, 11));
    assert(no_divisor_up_to(1231, 12));
    assert(no_divisor_up_to(1231, 13));
    assert(no_divisor_up_to(1231, 14));
    assert(no_divisor_up_to(1231, 15));
    assert(no_divisor_up_to(1231, 16));
    assert(no_divisor_up_to(1231, 17));
    assert(no_divisor_up_to(1231, 18));
    assert(no_divisor_up_to(1231, 19));
    assert(no_divisor_up_to(1231, 20));
    assert(no_divisor_up_to(1231, 21));
    assert(no_divisor_up_to(1231, 22));
    assert(no_divisor_up_to(1231, 23));
    assert(no_divisor_up_to(1231, 24));
    assert(no_divisor_up_to(1231, 25));
    assert(no_divisor_up_to(1231, 26));
    assert(no_divisor_up_to(1231, 27));
    assert(no_divisor_up_to(1231, 28));
    assert(no_divisor_up_to(1231, 29));
    assert(no_divisor_up_to(1231, 30));
    assert(no_divisor_up_to(1231, 31));
    assert(no_divisor_up_to(1231, 32));
    assert(no_divisor_up_to(1231, 33));
    assert(no_divisor_up_to(1231, 34));
    assert(no_divisor_up_to(1231, 35));
    lemma_trial_division(1231, 35);
}

/// 3557 is prime, by trial division.
proof fn lemma_prime_3557()
    ensures
        is_prime(3557),
{
    assert(no_divisor_up_to(3557, 1));
    assert(no_divisor_up_to(3557, 2));
    assert(no_divisor_up_to(3557, 3));
    assert(no_divisor_up_to(3557, 4));
    assert(no_divisor_up_to(3557, 5));
    assert(no_divisor_up_to(3557, 6));
    assert(no_divisor_up_to(3557, 7));
    assert(no_divisor_up_to(3557, 8));
    assert(no_divisor_up_to(3557, 9));
    assert(no_divisor_up_to(3557, 10));
    assert(no_divisor_up_to(3557, 11));
    assert(no_divisor_up_to(3557, 12));
    assert(no_divisor_up_to(3557, 13));
    assert(no_divisor_up_to(3557, 14));
    assert(no_divisor_up_to(3557, 15));
    assert(no_divisor_up_to(3557, 16));
    assert(no_divisor_up_to(3557, 17));
    assert(no_divisor_up_to(3557, 18));
    assert(no_divisor_up_to(3557, 19));
    assert(no_divisor_up_to(3557, 20));
    assert(no_divisor_up_to(3557, 21));
    assert(no_divisor_up_to(3557, 22));
    assert(no_divisor_up_to(3557, 23));
    assert(no_divisor_up_to(3557, 24));
    assert(no_divisor_up_to(3557, 25));
    assert(no_divisor_up_to(3557, 26));
    assert(no_divisor_up_to(3557, 27));
    assert(no_divisor_up_to(3557, 28));
    assert(no_divisor_up_to(3557, 29));
    assert(no_divisor_up_to(3557, 30));
    assert(no_divisor_up_to(3557, 31));
    assert(no_divisor_up_to(3557, 32));
    assert(no_divisor_up_to(3557, 33));
    assert(no_divisor_up_to(3557, 34));
    assert(no_divisor_up_to(3557, 35));
    assert(no_divisor_up_to(3557, 36));
    assert(no_divisor_up_to(3557, 37));
    assert(no_divisor_up_to(3557, 38));
    assert(no_divisor_up_to(3557, 39));
    assert(no_divisor_up_to(3557, 40));
    assert(no_divisor_up_to(3557, 41));
    assert(no_divisor_up_to(3557, 42));
    assert(no_divisor_up_to(3557, 43));
    assert(no_divisor_up_to(3557, 44));
    assert(no_divisor_up_to(3557, 45));
    assert(no_divisor_up_to(3557, 46));
    assert(no_divisor_up_to(3557, 47));
    assert(no_divisor_up_to(3557, 48));
    assert(no_divisor_up_to(3557, 49));
    assert(no_divisor_up_to(3557, 50));
    assert(no_divisor_up_to(3557, 51));
    assert(no_divisor_up_to(3557, 52));
    assert(no_divisor_up_to(3557, 53));
    assert(no_divisor_up_to(3557, 54));
    assert(no_divisor_up_to(3557, 55));
    assert(no_divisor_up_to(3557, 56));
    assert(no_divisor_up_to(3557, 57));
    assert(no_divisor_up_to(3557, 58));
    assert(no_divisor_up_to(3557, 59));
    lemma_trial_division(3557, 59);
}

/// 3691 is prime, by trial division.
proof fn lemma_prime_3691()
    ensures
        is_prime(3691),
{
    assert(no_divisor_up_to(3691, 1));
    assert(no_divisor_up_to(3691, 2));
    assert(no_divisor_up_to(3691, 3));
    assert(no_divisor_up_to(3691, 4));
    assert(no_divisor_up_to(3691, 5));
    assert(no_divisor_up_to(3691, 6));
    assert(no_divisor_up_to(3691, 7));
    assert(no_divisor_up_to(3691, 8));
    assert(no_divisor_up_to(3691, 9));
    assert(no_divisor_up_to(3691, 10));
    assert(no_divisor_up_to(3691, 11));
    assert(no_divisor_up_to(3691, 12));
    assert(no_divisor_up_to(3691, 13));
    assert(no_divisor_up_to(3691, 14));
    assert(no_divisor_up_to(3691, 15));
    assert(no_divisor_up_to(3691, 16));
    assert(no_divisor_up_to(3691, 17));
    assert(no_divisor_up_to(3691, 18));
    assert(no_divisor_up_to(3691, 19));
    assert(no_divisor_up_to(3691, 20));
    assert(no_divisor_up_to(3691, 21));
    assert(no_divisor_up_to(3691, 22));
    assert(no_divisor_up_to(3691, 23));
    assert(no_divisor_up_to(3691, 24));
    assert(no_divisor_up_to(3691, 25));
    assert(no_divisor_up_to(3691, 26));
    assert(no_divisor_up_to(3691, 27));
    assert(no_divisor_up_to(3691, 28));
    assert(no_divisor_up_to(3691, 29));
    assert(no_divisor_up_to(3691, 30));
    assert(no_divisor_up_to(3691, 31));
    assert(no_divisor_up_to(3691, 32));
    assert(no_divisor_up_to(3691, 33));
    assert(no_divisor_up_to(3691, 34));
    assert(no_divisor_up_to(3691, 35));
    assert(no_divisor_up_to(3691, 36));
    assert(no_divisor_up_to(3691, 37));
    assert(no_divisor_up_to(3691, 38));
    assert(no_divisor_up_to(3691, 39));
    assert(no_divisor_up_to(3691, 40));
    assert(no_divisor_up_to(3691, 41));
    assert(no_divisor_up_to(3691, 42));
    assert(no_divisor_up_to(3691, 43));
    assert(no_divisor_up_to(3691, 44));
    assert(no_divisor_up_to(3691, 45));
    assert(no_divisor_up_to(3691, 46));
    assert(no_divisor_up_to(3691, 47));
    assert(no_divisor_up_to(3691, 48));
    assert(no_divisor_up_to(3691, 49));
    assert(no_divisor_up_to(3691, 50));
    assert(no_divisor_up_to(3691, 51));
    assert(no_divisor_up_to(3691, 52));
    assert(no_divisor_up_to(3691, 53));
    assert(no_divisor_up_to(3691, 54));
    assert(no_divisor_up_to(3691, 55));
    assert(no_divisor_up_to(3691, 56));
    assert(no_divisor_up_to(3691, 57));
    assert(no_divisor_up_to(3691, 58));
    assert(no_divisor_up_to(3691, 59));
    assert(no_divisor_up_to(3691, 60));
    lemma_trial_division(3691, 60);
}

/// 4999 is prime, by trial division.
proof fn lemma_prime_4999()
    ensures
        is_prime(4999),
{
    assert(no_divisor_up_to(4999, 1));
    assert(no_divisor_up_to(4999, 2));
    assert(no_divisor_up_to(4999, 3));
    assert(no_divisor_up_to(4999, 4));
    assert(no_divisor_up_to(4999, 5));
    assert(no_divisor_up_to(4999, 6));
    assert(no_divisor_up_to(4999, 7));
    assert(no_divisor_up_to(4999, 8));
    assert(no_divisor_up_to(4999, 9));
    assert(no_divisor_up_to(4999, 10));
    assert(no_divisor_up_to(4999, 11));
    assert(no_divisor_up_to(4999, 12));
    assert(no_divisor_up_to(4999, 13));
    assert(no_divisor_up_to(4999, 14));
    assert(no_divisor_up_to(4999, 15));
    assert(no_divisor_up_to(4999, 16));
    assert(no_divisor_up_to(4999, 17));
    assert(no_divisor_up_to(4999, 18));
    assert(no_divisor_up_to(4999, 19));
    assert(no_divisor_up_to(4999, 20));
    assert(no_divisor_up_to(4999, 21));
    assert(no_divisor_up_to(4999, 22));
    assert(no_divisor_up_to(4999, 23));
    assert(no_divisor_up_to(4999, 24));
    assert(no_divisor_up_to(4999, 25));
    assert(no_divisor_up_to(4999, 26));
    assert(no_divisor_up_to(4999, 27));
    assert(no_divisor_up_to(4999, 28));
    assert(no_divisor_up_to(4999, 29));
    assert(no_divisor_up_to(4999, 30));
    assert(no_divisor_up_to(4999, 31));
    assert(no_divisor_up_to(4999, 32));
    assert(no_divisor_up_to(4999, 33));
    assert(no_divisor_up_to(4999, 34));
    assert(no_divisor_up_to(4999, 35));
    assert(no_divisor_up_to(4999, 36));
    assert(no_divisor_up_to(4999, 37));
    assert(no_divisor_up_to(4999, 38));
    assert(no_divisor_up_to(4999, 39));
    assert(no_divisor_up_to(4999, 40));
    assert(no_divisor_up_to(4999, 41));
    assert(no_divisor_up_to(4999, 42));
    assert(no_divisor_up_to(4999, 43));
    assert(no_divisor_up_to(4999, 44));
    assert(no_divisor_up_to(4999, 45));
    assert(no_divisor_up_to(4999, 46));
    assert(no_divisor_up_to(4999, 47));
    assert(no_divisor_up_to(4999, 48));
    assert(no_divisor_up_to(4999, 49));
    assert(no_divisor_up_to(4999, 50));
    assert(no_divisor_up_to(4999, 51));
    assert(no_divisor_up_to(4999, 52));
    assert(no_divisor_up_to(4999, 53));
    assert(no_divisor_up_to(4999, 54));
    assert(no_divisor_up_to(4999, 55));
    assert(no_divisor_up_to(4999, 56));
    assert(no_divisor_up_to(4999, 57));
    assert(no_divisor_up_to(4999, 58));
    assert(no_divisor_up_to(4999, 59));
    assert(no_divisor_up_to(4999, 60));
    assert(no_divisor_up_to(4999, 61));
    assert(no_divisor_up_to(4999, 62));
    assert(no_divisor_up_to(4999, 63));
    assert(no_divisor_up_to(4999, 64));
    assert(no_divisor_up_to(4999, 65));
    assert(no_divisor_up_to(4999, 66));
    assert(no_divisor_up_to(4999, 67));
    assert(no_divisor_up_to(4999, 68));
    assert(no_divisor_up_to(4999, 69));
    assert(no_divisor_up_to(4999, 70));
    lemma_trial_division(4999, 70);
}

/// 11003 is prime, by trial division.
proof fn lemma_prime_11003()
    ensures
        is_prime(11003),
{
    assert(no_divisor_up_to(11003, 1));
    assert(no_divisor_up_to(11003, 2));
    assert(no_divisor_up_to(11003, 3));
    assert(no_divisor_up_to(11003, 4));
    assert(no_divisor_up_to(11003, 5));
    assert(no_divisor_up_to(11003, 6));
    assert(no_divisor_up_to(11003, 7));
    assert(no_divisor_up_to(11003, 8));
    assert(no_divisor_up_to(11003, 9));
    assert(no_divisor_up_to(11003, 10));
    assert(no_divisor_up_to(11003, 11));
    assert(no_divisor_up_to(11003, 12));
    assert(no_divisor_up_to(11003, 13));
    assert(no_divisor_up_to(11003, 14));
    assert(no_divisor_up_to(11003, 15));
    assert(no_divisor_up_to(11003, 16));
    assert(no_divisor_up_to(11003, 17));
    assert(no_divisor_up_to(11003, 18));
    assert(no_divisor_up_to(11003, 19));
    assert(no_divisor_up_to(11003, 20));
    assert(no_divisor_up_to(11003, 21));
    assert(no_divisor_up_to(11003, 22));
    assert(no_divisor_up_to(11003, 23));
    assert(no_divisor_up_to(11003, 24));
    assert(no_divisor_up_to(11003, 25));
    assert(no_divisor_up_to(11003, 26));
    assert(no_divisor_up_to(11003, 27));
    assert(no_divisor_up_to(11003, 28));
    assert(no_divisor_up_to(11003, 29));
    assert(no_divisor_up_to(11003, 30));
    assert(no_divisor_up_to(11003, 31));
    assert(no_divisor_up_to(11003, 32));
    assert(no_divisor_up_to(11003, 33));
    assert(no_divisor_up_to(11003, 34));
    assert(no_divisor_up_to(11003, 35));
    assert(no_divisor_up_to(11003, 36));
    assert(no_divisor_up_to(11003, 37));
    assert(no_divisor_up_to(11003, 38));
    assert(no_divisor_up_to(11003, 39));
    assert(no_divisor_up_to(11003, 40));
    assert(no_divisor_up_to(11003, 41));
    assert(no_divisor_up_to(11003, 42));
    assert(no_divisor_up_to(11003, 43));
    assert(no_divisor_up_to(11003, 44));
    assert(no_divisor_up_to(11003, 45));
    assert(no_divisor_up_to(11003, 46));
    assert(no_divisor_up_to(11003, 47));
    assert(no_divisor_up_to(11003, 48));
    assert(no_divisor_up_to(11003, 49));
    assert(no_divisor_up_to(11003, 50));
    assert(no_divisor_up_to(11003, 51));
    assert(no_divisor_up_to(11003, 52));
    assert(no_divisor_up_to(11003, 53));
    assert(no_divisor_up_to(11003, 54));
    assert(no_divisor_up_to(11003, 55));
    assert(no_divisor_up_to(11003, 56));
    assert(no_divisor_up_to(11003, 57));
    assert(no_divisor_up_to(11003, 58));
    assert(no_divisor_up_to(11003, 59));
    assert(no_divisor_up_to(11003, 60));
    assert(no_divisor_up_to(11003, 61));
    assert(no_divisor_up_to(11003, 62));
    assert(no_divisor_up_to(11003, 63));
    assert(no_divisor_up_to(11003, 64));
    assert(no_divisor_up_to(11003, 65));
    assert(no_divisor_up_to(11003, 66));
    assert(no_divisor_up_to(11003, 67));
    assert(no_divisor_up_to(11003, 68));
    assert(no_divisor_up_to(11003, 69));
    assert(no_divisor_up_to(11003, 70));
    assert(no_divisor_up_to(11003, 71));
    assert(no_divisor_up_to(11003, 72));
    assert(no_divisor_up_to(11003, 73));
    assert(no_divisor_up_to(11003, 74));
    assert(no_divisor_up_to(11003, 75));
    assert(no_divisor_up_to(11003, 76));
    assert(no_divisor_up_to(11003, 77));
    assert(no_divisor_up_to(11003, 78));
    assert(no_divisor_up_to(11003, 79));
    assert(no_divisor_up_to(11003, 80));
    assert(no_divisor_up_to(11003, 81));
    assert(no_divisor_up_to(11003, 82));
    assert(no_divisor_up_to(11003, 83));
    assert(no_divisor_up_to(11003, 84));
    assert(no_divisor_up_to(11003, 85));
    assert(no_divisor_up_to(11003, 86));
    assert(no_divisor_up_to(11003, 87));
    assert(no_divisor_up_to(11003, 88));
    assert(no_divisor_up_to(11003, 89));
    assert(no_divisor_up_to(11003, 90));
    assert(no_divisor_up_to(11003, 91));
    assert(no_divisor_up_to(11003, 92));
    assert(no_divisor_up_to(11003, 93));
    assert(no_divisor_up_to(11003, 94));
    assert(no_divisor_up_to(11003, 95));
    assert(no_divisor_up_to(11003, 96));
    assert(no_divisor_up_to(11003, 97));
    assert(no_divisor_up_to(11003, 98));
    assert(no_divisor_up_to(11003, 99));
    assert(no_divisor_up_to(11003, 100));
    assert(no_divisor_up_to(11003, 101));
    assert(no_divisor_up_to(11003, 102));
    assert(no_divisor_up_to(11003, 103));
    assert(no_divisor_up_to(11003, 104));
    lemma_trial_division(11003, 104);
}

/// 13327 is prime, by trial division.
proof fn lemma_prime_13327()
    ensures
        is_prime(13327),
{
    assert(no_divisor_up_to(13327, 1));
    assert(no_divisor_up_to(13327, 2));
    assert(no_divisor_up_to(13327, 3));
    assert(no_divisor_up_to(13327, 4));
    assert(no_divisor_up_to(13327, 5));
    assert(no_divisor_up_to(13327, 6));
    assert(no_divisor_up_to(13327, 7));
    assert(no_divisor_up_to(13327, 8));
    assert(no_divisor_up_to(13327, 9));
    assert(no_divisor_up_to(13327, 10));
    assert(no_divisor_up_to(13327, 11));
    assert(no_divisor_up_to(13327, 12));
    assert(no_divisor_up_to(13327, 13));
    assert(no_divisor_up_to(13327, 14));
    assert(no_divisor_up_to(13327, 15));
    assert(no_divisor_up_to(13327, 16));
    assert(no_divisor_up_to(13327, 17));
    assert(no_divisor_up_to(13327, 18));
    assert(no_divisor_up_to(13327, 19));
    assert(no_divisor_up_to(13327, 20));
    assert(no_divisor_up_to(13327, 21));
    assert(no_divisor_up_to(13327, 22));
    assert(no_divisor_up_to(13327, 23));
    assert(no_divisor_up_to(13327, 24));
    assert(no_divisor_up_to(13327, 25));
    assert(no_divisor_up_to(13327, 26));
    assert(no_divisor_up_to(13327, 27));
    assert(no_divisor_up_to(13327, 28));
    assert(no_divisor_up_to(13327, 29));
    assert(no_divisor_up_to(13327, 30));
    assert(no_divisor_up_to(13327, 31));
    assert(no_divisor_up_to(13327, 32));
    assert(no_divisor_up_to(13327, 33));
    assert(no_divisor_up_to(13327, 34));
    assert(no_divisor_up_to(13327, 35));
    assert(no_divisor_up_to(13327, 36));
    assert(no_divisor_up_to(13327, 37));
    assert(no_divisor_up_to(13327, 38));
    assert(no_divisor_up_to(13327, 39));
    assert(no_divisor_up_to(13327, 40));
    assert(no_divisor_up_to(13327, 41));
    assert(no_divisor_up_to(13327, 42));
    assert(no_divisor_up_to(13327, 43));
    assert(no_divisor_up_to(13327, 44));
    assert(no_divisor_up_to(13327, 45));
    assert(no_divisor_up_to(13327, 46));
    assert(no_divisor_up_to(13327, 47));
    assert(no_divisor_up_to(13327, 48));
    assert(no_divisor_up_to(13327, 49));
    assert(no_divisor_up_to(13327, 50));
    assert(no_divisor_up_to(13327, 51));
    assert(no_divisor_up_to(13327, 52));
    assert(no_divisor_up_to(13327, 53));
    assert(no_divisor_up_to(13327, 54));
    assert(no_divisor_up_to(13327, 55));
    assert(no_divisor_up_to(13327, 56));
    assert(no_divisor_up_to(13327, 57));
    assert(no_divisor_up_to(13327, 58));
    assert(no_divisor_up_to(13327, 59));
    assert(no_divisor_up_to(13327, 60));
    assert(no_divisor_up_to(13327, 61));
    assert(no_divisor_up_to(13327, 62));
    assert(no_divisor_up_to(13327, 63));
    assert(no_divisor_up_to(13327, 64));
    assert(no_divisor_up_to(13327, 65));
    assert(no_divisor_up_to(13327, 66));
    assert(no_divisor_up_to(13327, 67));
    assert(no_divisor_up_to(13327, 68));
    assert(no_divisor_up_to(13327, 69));
    assert(no_divisor_up_to(13327, 70));
    assert(no_divisor_up_to(13327, 71));
    assert(no_divisor_up_to(13327, 72));
    assert(no_divisor_up_to(13327, 73));
    assert(no_divisor_up_to(13327, 74));
    assert(no_divisor_up_to(13327, 75));
    assert(no_divisor_up_to(13327, 76));
    assert(no_divisor_up_to(13327, 77));
    assert(no_divisor_up_to(13327, 78));
    assert(no_divisor_up_to(13327, 79));
    assert(no_divisor_up_to(13327, 80));
    assert(no_divisor_up_to(13327, 81));
    assert(no_divisor_up_to(13327, 82));
    assert(no_divisor_up_to(13327, 83));
    assert(no_divisor_up_to(13327, 84));
    assert(no_divisor_up_to(13327, 85));
    assert(no_divisor_up_to(13327, 86));
    assert(no_divisor_up_to(13327, 87));
    assert(no_divisor_up_to(13327, 88));
    assert(no_divisor_up_to(13327, 89));
    assert(no_divisor_up_to(13327, 90));
    assert(no_divisor_up_to(13327, 91));
    assert(no_divisor_up_to(13327, 92));
    assert(no_divisor_up_to(13327, 93));
    assert(no_divisor_up_to(13327, 94));
    assert(no_divisor_up_to(13327, 95));
    assert(no_divisor_up_to(13327, 96));
    assert(no_divisor_up_to(13327, 97));
    assert(no_divisor_up_to(13327, 98));
    assert(no_divisor_up_to(13327, 99));
    assert(no_divisor_up_to(13327, 100));
    assert(no_divisor_up_to(13327, 101));
    assert(no_divisor_up_to(13327, 102));
    assert(no_divisor_up_to(13327, 103));
    assert(no_divisor_up_to(13327, 104));
    assert(no_divisor_up_to(13327, 105));
    assert(no_divisor_up_to(13327, 106));
    assert(no_divisor_up_to(13327, 107));
    assert(no_divisor_up_to(13327, 108));
    assert(no_divisor_up_to(13327, 109));
    assert(no_divisor_up_to(13327, 110));
    assert(no_divisor_up_to(13327, 111));
    assert(no_divisor_up_to(13327, 112));
    assert(no_divisor_up_to(13327, 113));
    assert(no_divisor_up_to(13327, 114));
    assert(no_divisor_up_to(13327, 115));
    lemma_trial_division(13327, 115);
}

/// `22^1 mod 405928799`, by repeated squaring.
proof fn lemma_power_1()
    ensures
        pow(22int, 1nat) % 405928799int == 22int,
{
    let n: int = 405928799int;
    let x: int = 22int;
    let e1 = lemma_chain_start(x, n, 0int, 22int);
    lemma_chain_end(x, n, 1nat, e1, 22int);
}

/// `22^40601 mod 405928799`, by repeated squaring.
proof fn lemma_power_2()
    ensures
        pow(22int, 40601nat) % 405928799int == 63930760int,
{
    let n: int = 405928799int;
    let x: int = 22int;
    let e2 = lemma_chain_start(x, n, 0int, 22int);
    let e3 = lemma_chain_square(x, n, e2, 22int, 0int, 484int);
    let e4 = lemma_chain_square(x, n, e3, 484int, 0int, 234256int);
    let e5 = lemma_chain_square_mul(x, n, e4, 234256int, 135int, 75485671int, 4int, 36969566int);
    let e6 = lemma_chain_square_mul(x, n, e5, 36969566int, 3366966int, 345574522int, 18int, 295921102int);
    let e7 = lemma_chain_square_mul(x, n, e6, 295921102int, 215725759int, 344660963int, 18int, 275822804int);
    let e8 = lemma_chain_square_mul(x, n, e7, 275822804int, 187417644int, 66092860int, 3int, 236256523int);
    let e9 = lemma_chain_square(x, n, e8, 236256523int, 137504766int, 140893495int);
    let e10 = lemma_chain_square_mul(x, n, e9, 140893495int, 48902607int, 405836032int, 21int, 403887925int);
    let e11 = lemma_chain_square(x, n, e10, 403887925int, 401857311int, 337206136int);
    let e12 = lemma_chain_square(x, n, e11, 337206136int, 280118036int, 224331732int);
    let e13 = lemma_chain_square_mul(x, n, e12, 224331732int, 123974268int, 265975692int, 14int, 168462038int);
    let e14 = lemma_chain_square_mul(x, n, e13, 168462038int, 69912404int, 56190648int, 3int, 18407859int);
    let e15 = lemma_chain_square(x, n, e14, 18407859int, 834750int, 207998631int);
    let e16 = lemma_chain_square(x, n, e15, 207998631int, 106578864int, 235569825int);
    let e17 = lemma_chain_square_mul(x, n, e16, 235569825int, 136706591int, 150516416int, 8int, 63930760int);
    lemma_chain_end(x, n, 40601nat, e17, 63930760int);
}

/// `63930760^2 mod 405928799`, by repeated squaring.
proof fn lemma_power_3()
    ensures
        pow(63930760int, 2nat) % 405928799int == 61847818int,
{
    let n: int = 405928799int;
    let x: int = 63930760int;
    let e18 = lemma_chain_start(x, n, 0int, 63930760int);
    let e19 = lemma_chain_square(x, n, e18, 63930760int, 10068618int, 61847818int);
    lemma_chain_end(x, n, 2nat, e19, 61847818int);
}

/// `63930760^4999 mod 405928799`, by repeated squaring.
proof fn lemma_power_4()
    ensures
        pow(63930760int, 4999nat) % 405928799int == 405928798int,
{
    let n: int = 405928799int;
    let x: int = 63930760int;
    let e20 = lemma_chain_start(x, n, 0int, 63930760int);
    let e21 = lemma_chain_square(x, n, e20, 63930760int, 10068618int, 61847818int);
    let e22 = lemma_chain_square(x, n, e21, 61847818int, 9423210int, 273336334int);
    let e23 = lemma_chain_square_mul(x, n, e22, 273336334int, 184053833int, 103522989int, 16304099int, 38394539int);
    let e24 = lemma_chain_square_mul(x, n, e23, 38394539int, 3631525int, 43234046int, 6809039int, 395040799int);
    let e25 = lemma_chain_square_mul(x, n, e24, 395040799int, 384444841int, 285682442int, 44992855int, 41984775int);
    let e26 = lemma_chain_square(x, n, e25, 41984775int, 4342439int, 283799864int);
    let e27 = lemma_chain_square(x, n, e26, 283799864int, 198415000int, 152833496int);
    let e28 = lemma_chain_square(x, n, e27, 152833496int, 57542301int, 362955517int);
    let e29 = lemma_chain_square(x, n, e28, 362955517int, 324531562int, 120483251int);
    let e30 = lemma_chain_square_mul(x, n, e29, 120483251int, 35760492int, 202319893int, 31863875int, 12372555int);
    let e31 = lemma_chain_square_mul(x, n, e30, 12372555int, 377110int, 307837135int, 48482054int, 43499454int);
    let e32 = lemma_chain_square_mul(x, n, e31, 43499454int, 4661414int, 311636330int, 49080398int, 405928798int);
    lemma_chain_end(x, n, 4999nat, e32, 405928798int);
}

/// `22^9998 mod 405928799`, by repeated squaring.
proof fn lemma_power_5()
    ensures
        pow(22int, 9998nat) % 405928799int == 386086986int,
{
    let n: int = 405928799int;
    let x: int = 22int;
    let e33 = lemma_chain_start(x, n, 0int, 22int);
    let e34 = lemma_chain_square(x, n, e33, 22int, 0int, 484int);
    let e35 = lemma_chain_square(x, n, e34, 484int, 0int, 234256int);
    let e36 = lemma_chain_square_mul(x, n, e35, 234256int, 135int, 75485671int, 4int, 36969566int);
    let e37 = lemma_chain_square_mul(x, n, e36, 36969566int, 3366966int, 345574522int, 18int, 295921102int);
    let e38 = lemma_chain_square_mul(x, n, e37, 295921102int, 215725759int, 344660963int, 18int, 275822804int);
    let e39 = lemma_chain_square(x, n, e38, 275822804int, 187417644int, 66092860int);
    let e40 = lemma_chain_square(x, n, e39, 66092860int, 10761163int, 170546363int);
    let e41 = lemma_chain_square(x, n, e40, 170546363int, 71653112int, 233755281int);
    let e42 = lemma_chain_square(x, n, e41, 233755281int, 134608659int, 112518420int);
    let e43 = lemma_chain_square_mul(x, n, e42, 112518420int, 31188708int, 58494708int, 3int, 69097179int);
    let e44 = lemma_chain_square_mul(x, n, e43, 69097179int, 11761718int, 83841359int, 4int, 220794702int);
    let e45 = lemma_chain_square_mul(x, n, e44, 220794702int, 120095693int, 6706097int, 0int, 147534134int);
    let e46 = lemma_chain_square(x, n, e45, 147534134int, 53621030int, 386086986int);
    lemma_chain_end(x, n, 9998nat, e46, 386086986int);
}

/// `386086986^11 mod 405928799`, by repeated squaring.
proof fn lemma_power_6()
    ensures
        pow(386086986int, 11nat) % 405928799int == 147917081int,
{
    let n: int = 405928799int;
    let x: int = 386086986int;
    let e47 = lemma_chain_start(x, n, 0int, 386086986int);
    let e48 = lemma_chain_square(x, n, e47, 386086986int, 367215041int, 190698437int);
    let e49 = lemma_chain_square_mul(x, n, e48, 190698437int, 89586878int, 81543447int, 77557600int, 258958342int);
    let e50 = lemma_chain_square_mul(x, n, e49, 258958342int, 165199963int, 315954527int, 300510659int, 147917081int);
    lemma_chain_end(x, n, 11nat, e50, 147917081int);
}

/// `386086986^3691 mod 405928799`, by repeated squaring.
proof fn lemma_power_7()
    ensures
        pow(386086986int, 3691nat) % 405928799int == 215859951int,
{
    let n: int = 405928799int;
    let x: int = 386086986int;
    let e51 = lemma_chain_start(x, n, 0int, 386086986int);
    let e52 = lemma_chain_square_mul(x, n, e51, 386086986int, 367215041int, 190698437int, 181377091int, 60497173int);
    let e53 = lemma_chain_square_mul(x, n, e52, 60497173int, 9016132int, 306606461int, 291619527int, 55558473int);
    let e54 = lemma_chain_square(x, n, e53, 55558473int, 7604151int, 39247080int);
    let e55 = lemma_chain_square(x, n, e54, 39247080int, 3794589int, 333057789int);
    let e56 = lemma_chain_square_mul(x, n, e55, 333057789int, 273268344int, 128929665int, 122627578int, 304020868int);
    let e57 = lemma_chain_square_mul(x, n, e56, 304020868int, 227696799int, 25259023int, 24024361int, 51902239int);
    let e58 = lemma_chain_square(x, n, e57, 51902239int, 6636243int, 262350964int);
    let e59 = lemma_chain_square_mul(x, n, e58, 262350964int, 169556898int, 344423794int, 327588347int, 268039631int);
    let e60 = lemma_chain_square(x, n, e59, 268039631int, 176989767int, 233016328int);
    let e61 = lemma_chain_square_mul(x, n, e60, 233016328int, 133758947int, 403388931int, 383671266int, 337362432int);
    let e62 = lemma_chain_square_mul(x, n, e61, 337362432int, 280377767int, 300342791int, 285662025int, 215859951int);
    lemma_chain_end(x, n, 3691nat, e62, 215859951int);
}

/// `405928798^2 mod 405928799`, by repeated squaring.
proof fn lemma_power_8()
    ensures
        pow(405928798int, 2nat) % 405928799int == 1int,
{
    let n: int = 405928799int;
    let x: int = 405928798int;
    let e63 = lemma_chain_start(x, n, 0int, 405928798int);
    let e64 = lemma_chain_square(x, n, e63, 405928798int, 405928797int, 1int);
    lemma_chain_end(x, n, 2nat, e64, 1int);
}

/// 405928799 is prime, by Lucas's test with generator 22.
proof fn lemma_prime_405928799()
    ensures
        is_prime(405928799int),
{
    lemma_prime_2();
    lemma_prime_11();
    lemma_prime_3691();
    lemma_prime_4999();
    let n: int = 405928799int;
    let g: int = 22int;
    lemma_power_1();
    lemma_power_2();
    lemma_power_compose(g, 1nat, 40601nat, 40601nat, n, 22int, 63930760int);
    lemma_power_3();
    lemma_power_compose(g, 40601nat, 2nat, 81202nat, n, 63930760int, 61847818int);
    lemma_power_4();
    lemma_power_compose(g, 40601nat, 4999nat, 202964399nat, n, 63930760int, 405928798int);
    lemma_power_5();
    lemma_power_compose(g, 1nat, 9998nat, 9998nat, n, 22int, 386086986int);
    lemma_power_6();
    lemma_power_compose(g, 9998nat, 11nat, 109978nat, n, 386086986int, 147917081int);
    lemma_power_7();
    lemma_power_compose(g, 9998nat, 3691nat, 36902618nat, n, 386086986int, 215859951int);
    lemma_power_8();
    lemma_power_compose(g, 202964399nat, 2nat, 405928798nat, n, 405928798int, 1int);
    assert(product(Seq::<int>::empty()) == 1);
    assert(product(seq![2int]) == 2int) by {
        assert(seq![2int].drop_last() =~= Seq::<int>::empty());
    }
    assert(product(seq![2int, 11int]) == 22int) by {
        assert(seq![2int, 11int].drop_last() =~= seq![2int]);
    }
    assert(product(seq![2int, 11int, 3691int]) == 81202int) by {
        assert(seq![2int, 11int, 3691int].drop_last() =~= seq![2int, 11int]);
    }
    assert(product(seq![2int, 11int, 3691int, 4999int]) == 405928798int) by {
        assert(seq![2int, 11int, 3691int, 4999int].drop_last() =~= seq![2int, 11int, 3691int]);
    }
    let fs = seq![2int, 11int, 3691int, 4999int];
    assert forall|i: int| 0 <= i < fs.len() implies is_prime(#[trigger] fs[i]) by {
        if i == 0 {
            assert(fs[0] == 2int);
        }
        if i == 1 {
            assert(fs[1] == 11int);
        }
        if i == 2 {
            assert(fs[2] == 3691int);
        }
        if i == 3 {
            assert(fs[3] == 4999int);
        }
    }
    assert forall|i: int| 0 <= i < fs.len() implies #[trigger] (pow(g, ((n - 1) / fs[i]) as nat) % n) != 1 by {
        if i == 0 {
            assert(fs[0] == 2int);
            lemma_fundamental_div_mod_converse(n - 1, 2int, 202964399int, 0);
            assert(pow(g, 202964399nat) % n == 405928798int);
        }
        if i == 1 {
            assert(fs[1] == 11int);
            lemma_fundamental_div_mod_converse(n - 1, 11int, 36902618int, 0);
            assert(pow(g, 36902618nat) % n == 215859951int);
        }
        if i == 2 {
            assert(fs[2] == 3691int);
            lemma_fundamental_div_mod_converse(n - 1, 3691int, 109978int, 0);
            assert(pow(g, 109978nat) % n == 147917081int);
        }
        if i == 3 {
            assert(fs[3] == 4999int);
            lemma_fundamental_div_mod_converse(n - 1, 4999int, 81202int, 0);
            assert(pow(g, 81202nat) % n == 61847818int);
        }
    }
    lemma_lucas(n, g, fs);
}

/// `19^1 mod 327599`, by repeated squaring.
proof fn lemma_power_9()
    ensures
        pow(19int, 1nat) % 327599int == 19int,
{
    let n: int = 327599int;
    let x: int = 19int;
    let e65 = lemma_chain_start(x, n, 0int, 19int);
    lemma_chain_end(x, n, 1nat, e65, 19int);
}

/// `19^703 mod 327599`, by repeated squaring.
proof fn lemma_power_10()
    ensures
        pow(19int, 703nat) % 327599int == 203214int,
{
    let n: int = 327599int;
    let x: int = 19int;
    let e66 = lemma_chain_start(x, n, 0int, 19int);
    let e67 = lemma_chain_square(x, n, e66, 19int, 0int, 361int);
    let e68 = lemma_chain_square_mul(x, n, e67, 361int, 0int, 130321int, 7int, 182906int);
    let e69 = lemma_chain_square(x, n, e68, 182906int, 102120int, 194956int);
    let e70 = lemma_chain_square_mul(x, n, e69, 194956int, 116019int, 133555int, 7int, 244352int);
    let e71 = lemma_chain_square_mul(x, n, e70, 244352int, 182259int, 33763int, 1int, 313898int);
    let e72 = lemma_chain_square_mul(x, n, e71, 313898int, 300770int, 3174int, 0int, 60306int);
    let e73 = lemma_chain_square_mul(x, n, e72, 60306int, 11101int, 137137int, 7int, 312410int);
    let e74 = lemma_chain_square_mul(x, n, e73, 312410int, 297925int, 76025int, 4int, 134079int);
    let e75 = lemma_chain_square_mul(x, n, e74, 134079int, 54875int, 183116int, 10int, 203214int);
    lemma_chain_end(x, n, 703nat, e75, 203214int);
}

/// `203214^2 mod 327599`, by repeated squaring.
proof fn lemma_power_11()
    ensures
        pow(203214int, 2nat) % 327599int == 110252int,
{
    let n: int = 327599int;
    let x: int = 203214int;
    let e76 = lemma_chain_start(x, n, 0int, 203214int);
    let e77 = lemma_chain_square(x, n, e76, 203214int, 126056int, 110252int);
    lemma_chain_end(x, n, 2nat, e77, 110252int);
}

/// `203214^233 mod 327599`, by repeated squaring.
proof fn lemma_power_12()
    ensures
        pow(203214int, 233nat) % 327599int == 327598int,
{
    let n: int = 327599int;
    let x: int = 203214int;
    let e78 = lemma_chain_start(x, n, 0int, 203214int);
    let e79 = lemma_chain_square_mul(x, n, e78, 203214int, 126056int, 110252int, 68390int, 254318int);
    let e80 = lemma_chain_square_mul(x, n, e79, 254318int, 197429int, 102153int, 63366int, 281508int);
    let e81 = lemma_chain_square(x, n, e80, 281508int, 241901int, 228365int);
    let e82 = lemma_chain_square_mul(x, n, e81, 228365int, 159190int, 88415int, 54844int, 326254int);
    let e83 = lemma_chain_square(x, n, e82, 326254int, 324914int, 171030int);
    let e84 = lemma_chain_square(x, n, e83, 171030int, 89289int, 273789int);
    let e85 = lemma_chain_square_mul(x, n, e84, 273789int, 228817int, 196138int, 121666int, 327598int);
    lemma_chain_end(x, n, 233nat, e85, 327598int);
}

/// `19^466 mod 327599`, by repeated squaring.
proof fn lemma_power_13()
    ensures
        pow(19int, 466nat) % 327599int == 162473int,
{
    let n: int = 327599int;
    let x: int = 19int;
    let e86 = lemma_chain_start(x, n, 0int, 19int);
    let e87 = lemma_chain_square_mul(x, n, e86, 19int, 0int, 361int, 0int, 6859int);
    let e88 = lemma_chain_square_mul(x, n, e87, 6859int, 143int, 199224int, 11int, 181667int);
    let e89 = lemma_chain_square(x, n, e88, 181667int, 100741int, 248030int);
    let e90 = lemma_chain_square_mul(x, n, e89, 248030int, 187787int, 47487int, 2int, 247055int);
    let e91 = lemma_chain_square(x, n, e90, 247055int, 186313int, 220538int);
    let e92 = lemma_chain_square(x, n, e91, 220538int, 148465int, 23909int);
    let e93 = lemma_chain_square_mul(x, n, e92, 23909int, 1744int, 307625int, 17int, 275692int);
    let e94 = lemma_chain_square(x, n, e93, 275692int, 232009int, 162473int);
    lemma_chain_end(x, n, 466nat, e94, 162473int);
}

/// `162473^19 mod 327599`, by repeated squaring.
proof fn lemma_power_14()
    ensures
        pow(162473int, 19nat) % 327599int == 283020int,
{
    let n: int = 327599int;
    let x: int = 162473int;
    let e95 = lemma_chain_start(x, n, 0int, 162473int);
    let e96 = lemma_chain_square(x, n, e95, 162473int, 80578int, 203507int);
    let e97 = lemma_chain_square(x, n, e96, 203507int, 126420int, 33469int);
    let e98 = lemma_chain_square_mul(x, n, e97, 33469int, 3419int, 112980int, 56032int, 172372int);
    let e99 = lemma_chain_square_mul(x, n, e98, 172372int, 90696int, 187480int, 92980int, 283020int);
    lemma_chain_end(x, n, 19nat, e99, 283020int);
}

/// `162473^37 mod 327599`, by repeated squaring.
proof fn lemma_power_15()
    ensures
        pow(162473int, 37nat) % 327599int == 34768int,
{
    let n: int = 327599int;
    let x: int = 162473int;
    let e100 = lemma_chain_start(x, n, 0int, 162473int);
    let e101 = lemma_chain_square(x, n, e100, 162473int, 80578int, 203507int);
    let e102 = lemma_chain_square(x, n, e101, 203507int, 126420int, 33469int);
    let e103 = lemma_chain_square_mul(x, n, e102, 33469int, 3419int, 112980int, 56032int, 172372int);
    let e104 = lemma_chain_square(x, n, e103, 172372int, 90696int, 187480int);
    let e105 = lemma_chain_square_mul(x, n, e104, 187480int, 107291int, 326091int, 161725int, 34768int);
    lemma_chain_end(x, n, 37nat, e105, 34768int);
}

/// `327598^2 mod 327599`, by repeated squaring.
proof fn lemma_power_16()
    ensures
        pow(327598int, 2nat) % 327599int == 1int,
{
    let n: int = 327599int;
    let x: int = 327598int;
    let e106 = lemma_chain_start(x, n, 0int, 327598int);
    let e107 = lemma_chain_square(x, n, e106, 327598int, 327597int, 1int);
    lemma_chain_end(x, n, 2nat, e107, 1int);
}

/// 327599 is prime, by Lucas's test with generator 19.
proof fn lemma_prime_327599()
    ensures
        is_prime(327599int),
{
    lemma_prime_2();
    lemma_prime_19();
    lemma_prime_37();
    lemma_prime_233();
    let n: int = 327599int;
    let g: int = 19int;
    lemma_power_9();
    lemma_power_10();
    lemma_power_compose(g, 1nat, 703nat, 703nat, n, 19int, 203214int);
    lemma_power_11();
    lemma_power_compose(g, 703nat, 2nat, 1406nat, n, 203214int, 110252int);
    lemma_power_12();
    lemma_power_compose(g, 703nat, 233nat, 163799nat, n, 203214int, 327598int);
    lemma_power_13();
    lemma_power_compose(g, 1nat, 466nat, 466nat, n, 19int, 162473int);
    lemma_power_14();
    lemma_power_compose(g, 466nat, 19nat, 8854nat, n, 162473int, 283020int);
    lemma_power_15();
    lemma_power_compose(g, 466nat, 37nat, 17242nat, n, 162473int, 34768int);
    lemma_power_16();
    lemma_power_compose(g, 163799nat, 2nat, 327598nat, n, 327598int, 1int);
    assert(product(Seq::<int>::empty()) == 1);
    assert(product(seq![2int]) == 2int) by {
        assert(seq![2int].drop_last() =~= Seq::<int>::empty());
    }
    assert(product(seq![2int, 19int]) == 38int) by {
        assert(seq![2int, 19int].drop_last() =~= seq![2int]);
    }
    assert(product(seq![2int, 19int, 37int]) == 1406int) by {
        assert(seq![2int, 19int, 37int].drop_last() =~= seq![2int, 19int]);
    }
    assert(product(seq![2int, 19int, 37int, 233int]) == 327598int) by {
        assert(seq![2int, 19int, 37int, 233int].drop_last() =~= seq![2int, 19int, 37int]);
    }
    let fs = seq![2int, 19int, 37int, 233int];
    assert forall|i: int| 0 <= i < fs.len() implies is_prime(#[trigger] fs[i]) by {
        if i == 0 {
            assert(fs[0] == 2int);
        }
        if i == 1 {
            assert(fs[1] == 19int);
        }
        if i == 2 {
            assert(fs[2] == 37int);
        }
        if i == 3 {
            assert(fs[3] == 233int);
        }
    }
    assert forall|i: int| 0 <= i < fs.len() implies #[trigger] (pow(g, ((n - 1) / fs[i]) as nat) % n) != 1 by {
        if i == 0 {
            assert(fs[0] == 2int);
            lemma_fundamental_div_mod_converse(n - 1, 2int, 163799int, 0);
            assert(pow(g, 163799nat) % n == 327598int);
        }
        if i == 1 {
            assert(fs[1] == 19int);
            lemma_fundamental_div_mod_converse(n - 1, 19int, 17242int, 0);
            assert(pow(g, 17242nat) % n == 34768int);
        }
        if i == 2 {
            assert(fs[2] == 37int);
            lemma_fundamental_div_mod_converse(n - 1, 37int, 8854int, 0);
            assert(pow(g, 8854nat) % n == 283020int);
        }
        if i == 3 {
            assert(fs[3] == 233int);
            lemma_fundamental_div_mod_converse(n - 1, 233int, 1406int, 0);
            assert(pow(g, 1406nat) % n == 110252int);
        }
    }
    lemma_lucas(n, g, fs);
}

/// `3^500 mod 11465965001`, by repeated squaring.
proof fn lemma_power_17()
    ensures
        pow(3int, 500nat) % 11465965001int == 5347790780int,
{
    let n: int = 11465965001int;
    let x: int = 3int;
    let e108 = lemma_chain_start(x, n, 0int, 3int);
    let e109 = lemma_chain_square_mul(x, n, e108, 3int, 0int, 9int, 0int, 27int);
    let e110 = lemma_chain_square_mul(x, n, e109, 27int, 0int, 729int, 0int, 2187int);
    let e111 = lemma_chain_square_mul(x, n, e110, 2187int, 0int, 4782969int, 0int, 14348907int);
    let e112 = lemma_chain_square_mul(x, n, e111, 14348907int, 17956int, 8264536693int, 2int, 1861680077int);
    let e113 = lemma_chain_square(x, n, e112, 1861680077int, 302273093int, 4016707836int);
    let e114 = lemma_chain_square_mul(x, n, e113, 4016707836int, 1407115915int, 6043711981int, 1int, 6665170942int);
    let e115 = lemma_chain_square(x, n, e114, 6665170942int, 3874467058int, 1525730306int);
    let e116 = lemma_chain_square(x, n, e115, 1525730306int, 203022856int, 5347790780int);
    lemma_chain_end(x, n, 500nat, e116, 5347790780int);
}

/// `5347790780^70 mod 11465965001`, by repeated squaring.
proof fn lemma_power_18()
    ensures
        pow(5347790780int, 70nat) % 11465965001int == 7601491529int,
{
    let n: int = 11465965001int;
    let x: int = 5347790780int;
    let e117 = lemma_chain_start(x, n, 0int, 5347790780int);
    let e118 = lemma_chain_square(x, n, e117, 5347790780int, 2494239797int, 10149663603int);
    let e119 = lemma_chain_square(x, n, e118, 10149663603int, 8984474594int, 6885257015int);
    let e120 = lemma_chain_square(x, n, e119, 6885257015int, 4134563829int, 4892161396int);
    let e121 = lemma_chain_square_mul(x, n, e120, 4892161396int, 2087329162int, 7454009654int, 3476592166int, 3585407954int);
    let e122 = lemma_chain_square_mul(x, n, e121, 3585407954int, 1121157285int, 6180283831int, 2882519254int, 8132248926int);
    let e123 = lemma_chain_square(x, n, e122, 8132248926int, 5767806947int, 7601491529int);
    lemma_chain_end(x, n, 70nat, e123, 7601491529int);
}

/// `5347790780^327599 mod 11465965001`, by repeated squaring.
proof fn lemma_power_19()
    ensures
        pow(5347790780int, 327599nat) % 11465965001int == 4146608269int,
{
    let n: int = 11465965001int;
    let x: int = 5347790780int;
    let e124 = lemma_chain_start(x, n, 0int, 5347790780int);
    let e125 = lemma_chain_square(x, n, e124, 5347790780int, 2494239797int, 10149663603int);
    let e126 = lemma_chain_square(x, n, e125, 10149663603int, 8984474594int, 6885257015int);
    let e127 = lemma_chain_square_mul(x, n, e126, 6885257015int, 4134563829int, 4892161396int, 2281731682int, 315867198int);
    let e128 = lemma_chain_square_mul(x, n, e127, 315867198int, 8701586int, 6243179618int, 2911854204int, 7945607836int);
    let e129 = lemma_chain_square_mul(x, n, e128, 7945607836int, 5506094243int, 1059013653int, 493929943int, 10023594397int);
    let e130 = lemma_chain_square_mul(x, n, e129, 10023594397int, 8762668002int, 9255195607int, 4316675459int, 641493001int);
    let e131 = lemma_chain_square_mul(x, n, e130, 641493001int, 35889981int, 4299431020int, 2005278889int, 9483831711int);
    let e132 = lemma_chain_square_mul(x, n, e131, 9483831711int, 7844351863int, 5882040658int, 2743416955int, 9257541285int);
    let e133 = lemma_chain_square_mul(x, n, e132, 9257541285int, 7474475165int, 745751060int, 347822502int, 8350974298int);
    let e134 = lemma_chain_square_mul(x, n, e133, 8350974298int, 6082241810int, 4777700994int, 2228346704int, 7152328616int);
    let e135 = lemma_chain_square_mul(x, n, e134, 7152328616int, 4461535041int, 411375415int, 191867814int, 11313295886int);
    let e136 = lemma_chain_square(x, n, e135, 11313295886int, 11162659557int, 5544360439int);
    let e137 = lemma_chain_square_mul(x, n, e136, 5544360439int, 2680972135int, 8982025586int, 4189267419int, 8451294661int);
    let e138 = lemma_chain_square(x, n, e137, 8451294661int, 6229251653int, 11327708268int);
    let e139 = lemma_chain_square_mul(x, n, e138, 11327708268int, 11191118636int, 2500701188int, 1166341145int, 8925180495int);
    let e140 = lemma_chain_square_mul(x, n, e139, 8925180495int, 6947417584int, 2852467441int, 1330406911int, 2615472069int);
    let e141 = lemma_chain_square_mul(x, n, e140, 2615472069int, 596608671int, 2740017090int, 1277959432int, 10934590768int);
    let e142 = lemma_chain_square_mul(x, n, e141, 10934590768int, 10427842336int, 3108747488int, 1449937371int, 4146608269int);
    lemma_chain_end(x, n, 327599nat, e142, 4146608269int);
}

/// `4146608269^5 mod 11465965001`, by repeated squaring.
proof fn lemma_power_20()
    ensures
        pow(4146608269int, 5nat) % 11465965001int == 4868492069int,
{
    let n: int = 11465965001int;
    let x: int = 4146608269int;
    let e143 = lemma_chain_start(x, n, 0int, 4146608269int);
    let e144 = lemma_chain_square(x, n, e143, 4146608269int, 1499599914int, 7112566447int);
    let e145 = lemma_chain_square_mul(x, n, e144, 7112566447int, 4412066621int, 4523872188int, 1636035503int, 4868492069int);
    lemma_chain_end(x, n, 5nat, e145, 4868492069int);
}

/// `4868492069^2 mod 11465965001`, by repeated squaring.
proof fn lemma_power_21()
    ensures
        pow(4868492069int, 2nat) % 11465965001int == 4573270631int,
{
    let n: int = 11465965001int;
    let x: int = 4868492069int;
    let e146 = lemma_chain_start(x, n, 0int, 4868492069int);
    let e147 = lemma_chain_square(x, n, e146, 4868492069int, 2067180130int, 4573270631int);
    lemma_chain_end(x, n, 2nat, e147, 4573270631int);
}

/// `4868492069^7 mod 11465965001`, by repeated squaring.
proof fn lemma_power_22()
    ensures
        pow(4868492069int, 7nat) % 11465965001int == 11465965000int,
{
    let n: int = 11465965001int;
    let x: int = 4868492069int;
    let e148 = lemma_chain_start(x, n, 0int, 4868492069int);
    let e149 = lemma_chain_square_mul(x, n, e148, 4868492069int, 2067180130int, 4573270631int, 1941827992int, 2180017547int);
    let e150 = lemma_chain_square_mul(x, n, e149, 2180017547int, 414485523int, 5088716686int, 2160688334int, 11465965000int);
    lemma_chain_end(x, n, 7nat, e150, 11465965000int);
}

/// `4146608269^14 mod 11465965001`, by repeated squaring.
proof fn lemma_power_23()
    ensures
        pow(4146608269int, 14nat) % 11465965001int == 27926394int,
{
    let n: int = 11465965001int;
    let x: int = 4146608269int;
    let e151 = lemma_chain_start(x, n, 0int, 4146608269int);
    let e152 = lemma_chain_square_mul(x, n, e151, 4146608269int, 1499599914int, 7112566447int, 2572223693int, 4261181550int);
    let e153 = lemma_chain_square_mul(x, n, e152, 4261181550int, 1583614479int, 10769553021int, 3894754397int, 6819671252int);
    let e154 = lemma_chain_square(x, n, e153, 6819671252int, 4056171110int, 27926394int);
    lemma_chain_end(x, n, 14nat, e154, 27926394int);
}

/// `11465965000^2 mod 11465965001`, by repeated squaring.
proof fn lemma_power_24()
    ensures
        pow(11465965000int, 2nat) % 11465965001int == 1int,
{
    let n: int = 11465965001int;
    let x: int = 11465965000int;
    let e155 = lemma_chain_start(x, n, 0int, 11465965000int);
    let e156 = lemma_chain_square(x, n, e155, 11465965000int, 11465964999int, 1int);
    lemma_chain_end(x, n, 2nat, e156, 1int);
}

/// 11465965001 is prime, by Lucas's test with generator 3.
proof fn lemma_prime_11465965001()
    ensures
        is_prime(11465965001int),
{
    lemma_prime_2();
    lemma_prime_5();
    lemma_prime_7();
    lemma_prime_327599();
    let n: int = 11465965001int;
    let g: int = 3int;
    lemma_power_17();
    lemma_power_18();
    lemma_power_compose(g, 500nat, 70nat, 35000nat, n, 5347790780int, 7601491529int);
    lemma_power_19();
    lemma_power_compose(g, 500nat, 327599nat, 163799500nat, n, 5347790780int, 4146608269int);
    lemma_power_20();
    lemma_power_compose(g, 163799500nat, 5nat, 818997500nat, n, 4146608269int, 4868492069int);
    lemma_power_21();
    lemma_power_compose(g, 818997500nat, 2nat, 1637995000nat, n, 4868492069int, 4573270631int);
    lemma_power_22();
    lemma_power_compose(g, 818997500nat, 7nat, 5732982500nat, n, 4868492069int, 11465965000int);
    lemma_power_23();
    lemma_power_compose(g, 163799500nat, 14nat, 2293193000nat, n, 4146608269int, 27926394int);
    lemma_power_24();
    lemma_power_compose(g, 5732982500nat, 2nat, 11465965000nat, n, 11465965000int, 1int);
    assert(product(Seq::<int>::empty()) == 1);
    assert(product(seq![2int]) == 2int) by {
        assert(seq![2int].drop_last() =~= Seq::<int>::empty());
    }
    assert(product(seq![2int, 2int]) == 4int) by {
        assert(seq![2int, 2int].drop_last() =~= seq![2int]);
    }
    assert(product(seq![2int, 2int, 2int]) == 8int) by {
        assert(seq![2int, 2int, 2int].drop_last() =~= seq![2int, 2int]);
    }
    assert(product(seq![2int, 2int, 2int, 5int]) == 40int) by {
        assert(seq![2int, 2int, 2int, 5int].drop_last() =~= seq![2int, 2int, 2int]);
    }
    assert(product(seq![2int, 2int, 2int, 5int, 5int]) == 200int) by {
        assert(seq![2int, 2int, 2int, 5int, 5int].drop_last() =~= seq![2int, 2int, 2int, 5int]);
    }
    assert(product(seq![2int, 2int, 2int, 5int, 5int, 5int]) == 1000int) by {
        assert(seq![2int, 2int, 2int, 5int, 5int, 5int].drop_last() =~= seq![2int, 2int, 2int, 5int, 5int]);
    }
    assert(product(seq![2int, 2int, 2int, 5int, 5int, 5int, 5int]) == 5000int) by {
        assert(seq![2int, 2int, 2int, 5int, 5int, 5int, 5int].drop_last() =~= seq![2int, 2int, 2int, 5int, 5int, 5int]);
    }
    assert(product(seq![2int, 2int, 2int, 5int, 5int, 5int, 5int, 7int]) == 35000int) by {
        assert(seq![2int, 2int, 2int, 5int, 5int, 5int, 5int, 7int].drop_last() =~= seq![2int, 2int, 2int, 5int, 5int, 5int, 5int]);
    }
    assert(product(seq![2int, 2int, 2int, 5int, 5int, 5int, 5int, 7int, 327599int]) == 11465965000int) by {
        assert(seq![2int, 2int, 2int, 5int, 5int, 5int, 5int, 7int, 327599int].drop_last() =~= seq![2int, 2int, 2int, 5int, 5int, 5int, 5int, 7int]);
    }
    let fs = seq![2int, 2int, 2int, 5int, 5int, 5int, 5int, 7int, 327599int];
    assert forall|i: int| 0 <= i < fs.len() implies is_prime(#[trigger] fs[i]) by {
        if i == 0 {
            assert(fs[0] == 2int);
        }
        if i == 1 {
            assert(fs[1] == 2int);
        }
        if i == 2 {
            assert(fs[2] == 2int);
        }
        if i == 3 {
            assert(fs[3] == 5int);
        }
        if i == 4 {
            assert(fs[4] == 5int);
        }
        if i == 5 {
            assert(fs[5] == 5int);
        }
        if i == 6 {
            assert(fs[6] == 5int);
        }
        if i == 7 {
            assert(fs[7] == 7int);
        }
        if i == 8 {
            assert(fs[8] == 327599int);
        }
    }
    assert forall|i: int| 0 <= i < fs.len() implies #[trigger] (pow(g, ((n - 1) / fs[i]) as nat) % n) != 1 by {
        if i == 0 {
            assert(fs[0] == 2int);
            lemma_fundamental_div_mod_converse(n - 1, 2int, 5732982500int, 0);
            assert(pow(g, 5732982500nat) % n == 11465965000int);
        }
        if i == 1 {
            assert(fs[1] == 2int);
            lemma_fundamental_div_mod_converse(n - 1, 2int, 5732982500int, 0);
            assert(pow(g, 5732982500nat) % n == 11465965000int);
        }
        if i == 2 {
            assert(fs[2] == 2int);
            lemma_fundamental_div_mod_converse(n - 1, 2int, 5732982500int, 0);
            assert(pow(g, 5732982500nat) % n == 11465965000int);
        }
        if i == 3 {
            assert(fs[3] == 5int);
            lemma_fundamental_div_mod_converse(n - 1, 5int, 2293193000int, 0);
            assert(pow(g, 2293193000nat) % n == 27926394int);
        }
        if i == 4 {
            assert(fs[4] == 5int);
            lemma_fundamental_div_mod_converse(n - 1, 5int, 2293193000int, 0);
            assert(pow(g, 2293193000nat) % n == 27926394int);
        }
        if i == 5 {
            assert(fs[5] == 5int);
            lemma_fundamental_div_mod_converse(n - 1, 5int, 2293193000int, 0);
            assert(pow(g, 2293193000nat) % n == 27926394int);
        }
        if i == 6 {
            assert(fs[6] == 5int);
            lemma_fundamental_div_mod_converse(n - 1, 5int, 2293193000int, 0);
            assert(pow(g, 2293193000nat) % n == 27926394int);
        }
        if i == 7 {
            assert(fs[7] == 7int);
            lemma_fundamental_div_mod_converse(n - 1, 7int, 1637995000int, 0);
            assert(pow(g, 1637995000nat) % n == 4573270631int);
        }
        if i == 8 {
            assert(fs[8] == 327599int);
            lemma_fundamental_div_mod_converse(n - 1, 327599int, 35000int, 0);
            assert(pow(g, 35000nat) % n == 7601491529int);
        }
    }
    lemma_lucas(n, g, fs);
}

/// `17^12 mod 1853641`, by repeated squaring.
proof fn lemma_power_25()
    ensures
        pow(17int, 12nat) % 1853641int == 707103int,
{
    let n: int = 1853641int;
    let x: int = 17int;
    let e157 = lemma_chain_start(x, n, 0int, 17int);
    let e158 = lemma_chain_square_mul(x, n, e157, 17int, 0int, 289int, 0int, 4913int);
    let e159 = lemma_chain_square(x, n, e158, 4913int, 13int, 40236int);
    let e160 = lemma_chain_square(x, n, e159, 40236int, 873int, 707103int);
    lemma_chain_end(x, n, 12nat, e160, 707103int);
}

/// `707103^285 mod 1853641`, by repeated squaring.
proof fn lemma_power_26()
    ensures
        pow(707103int, 285nat) % 1853641int == 1578118int,
{
    let n: int = 1853641int;
    let x: int = 707103int;
    let e161 = lemma_chain_start(x, n, 0int, 707103int);
    let e162 = lemma_chain_square(x, n, e161, 707103int, 269736int, 943833int);
    let e163 = lemma_chain_square(x, n, e162, 943833int, 480578int, 1647391int);
    let e164 = lemma_chain_square(x, n, e163, 1647391int, 1464089int, 1708832int);
    let e165 = lemma_chain_square_mul(x, n, e164, 1708832int, 1575335int, 1259489int, 480453int, 1070994int);
    let e166 = lemma_chain_square_mul(x, n, e165, 1070994int, 618797int, 658159int, 251065int, 1825712int);
    let e167 = lemma_chain_square_mul(x, n, e166, 1825712int, 1798203int, 1499821int, 572132int, 595951int);
    let e168 = lemma_chain_square(x, n, e167, 595951int, 191599int, 1832442int);
    let e169 = lemma_chain_square_mul(x, n, e168, 1832442int, 1811485int, 816479int, 311459int, 1578118int);
    lemma_chain_end(x, n, 285nat, e169, 1578118int);
}

/// `1578118^2 mod 1853641`, by repeated squaring.
proof fn lemma_power_27()
    ensures
        pow(1578118int, 2nat) % 1853641int == 763656int,
{
    let n: int = 1853641int;
    let x: int = 1578118int;
    let e170 = lemma_chain_start(x, n, 0int, 1578118int);
    let e171 = lemma_chain_square(x, n, e170, 1578118int, 1343548int, 763656int);
    lemma_chain_end(x, n, 2nat, e171, 763656int);
}

/// `1578118^271 mod 1853641`, by repeated squaring.
proof fn lemma_power_28()
    ensures
        pow(1578118int, 271nat) % 1853641int == 1853640int,
{
    let n: int = 1853641int;
    let x: int = 1578118int;
    let e172 = lemma_chain_start(x, n, 0int, 1578118int);
    let e173 = lemma_chain_square(x, n, e172, 1578118int, 1343548int, 763656int);
    let e174 = lemma_chain_square(x, n, e173, 763656int, 314608int, 198608int);
    let e175 = lemma_chain_square(x, n, e174, 198608int, 21279int, 1510825int);
    let e176 = lemma_chain_square(x, n, e175, 1510825int, 1231410int, 116815int);
    let e177 = lemma_chain_square_mul(x, n, e176, 116815int, 7361int, 1092824int, 930387int, 1736165int);
    let e178 = lemma_chain_square_mul(x, n, e177, 1736165int, 1626134int, 253331int, 215676int, 334742int);
    let e179 = lemma_chain_square_mul(x, n, e178, 334742int, 60449int, 1461755int, 1244481int, 871769int);
    let e180 = lemma_chain_square_mul(x, n, e179, 871769int, 409993int, 1354848int, 1153464int, 1853640int);
    lemma_chain_end(x, n, 271nat, e180, 1853640int);
}

/// `707103^542 mod 1853641`, by repeated squaring.
proof fn lemma_power_29()
    ensures
        pow(707103int, 542nat) % 1853641int == 672202int,
{
    let n: int = 1853641int;
    let x: int = 707103int;
    let e181 = lemma_chain_start(x, n, 0int, 707103int);
    let e182 = lemma_chain_square(x, n, e181, 707103int, 269736int, 943833int);
    let e183 = lemma_chain_square(x, n, e182, 943833int, 480578int, 1647391int);
    let e184 = lemma_chain_square(x, n, e183, 1647391int, 1464089int, 1708832int);
    let e185 = lemma_chain_square(x, n, e184, 1708832int, 1575335int, 1259489int);
    let e186 = lemma_chain_square_mul(x, n, e185, 1259489int, 855781int, 1792500int, 683779int, 1338161int);
    let e187 = lemma_chain_square_mul(x, n, e186, 1338161int, 966031int, 193050int, 73642int, 403628int);
    let e188 = lemma_chain_square_mul(x, n, e187, 403628int, 87889int, 908535int, 346576int, 340889int);
    let e189 = lemma_chain_square_mul(x, n, e188, 340889int, 62690int, 556031int, 212107int, 956606int);
    let e190 = lemma_chain_square(x, n, e189, 956606int, 493674int, 672202int);
    lemma_chain_end(x, n, 542nat, e190, 672202int);
}

/// `672202^15 mod 1853641`, by repeated squaring.
proof fn lemma_power_30()
    ensures
        pow(672202int, 15nat) % 1853641int == 1800158int,
{
    let n: int = 1853641int;
    let x: int = 672202int;
    let e191 = lemma_chain_start(x, n, 0int, 672202int);
    let e192 = lemma_chain_square_mul(x, n, e191, 672202int, 243766int, 876798int, 317960int, 1676836int);
    let e193 = lemma_chain_square_mul(x, n, e192, 1676836int, 1516895int, 206201int, 74776int, 865186int);
    let e194 = lemma_chain_square_mul(x, n, e193, 865186int, 403825int, 237771int, 86224int, 1800158int);
    lemma_chain_end(x, n, 15nat, e194, 1800158int);
}

/// `672202^19 mod 1853641`, by repeated squaring.
proof fn lemma_power_31()
    ensures
        pow(672202int, 19nat) % 1853641int == 1811916int,
{
    let n: int = 1853641int;
    let x: int = 672202int;
    let e195 = lemma_chain_start(x, n, 0int, 672202int);
    let e196 = lemma_chain_square(x, n, e195, 672202int, 243766int, 876798int);
    let e197 = lemma_chain_square(x, n, e196, 876798int, 414737int, 1225387int);
    let e198 = lemma_chain_square_mul(x, n, e197, 1225387int, 810066int, 1749463int, 634423int, 43383int);
    let e199 = lemma_chain_square_mul(x, n, e198, 43383int, 1015int, 639074int, 231752int, 1811916int);
    lemma_chain_end(x, n, 19nat, e199, 1811916int);
}

/// `1811916^3 mod 1853641`, by repeated squaring.
proof fn lemma_power_32()
    ensures
        pow(1811916int, 3nat) % 1853641int == 1294646int,
{
    let n: int = 1853641int;
    let x: int = 1811916int;
    let e200 = lemma_chain_start(x, n, 0int, 1811916int);
    let e201 = lemma_chain_square_mul(x, n, e200, 1811916int, 1771130int, 406726int, 397570int, 1294646int);
    lemma_chain_end(x, n, 3nat, e201, 1294646int);
}

/// `1811916^5 mod 1853641`, by repeated squaring.
proof fn lemma_power_33()
    ensures
        pow(1811916int, 5nat) % 1853641int == 536485int,
{
    let n: int = 1853641int;
    let x: int = 1811916int;
    let e202 = lemma_chain_start(x, n, 0int, 1811916int);
    let e203 = lemma_chain_square(x, n, e202, 1811916int, 1771130int, 406726int);
    let e204 = lemma_chain_square_mul(x, n, e203, 406726int, 89243int, 1555313int, 1520303int, 536485int);
    lemma_chain_end(x, n, 5nat, e204, 536485int);
}

/// `1853640^2 mod 1853641`, by repeated squaring.
proof fn lemma_power_34()
    ensures
        pow(1853640int, 2nat) % 1853641int == 1int,
{
    let n: int = 1853641int;
    let x: int = 1853640int;
    let e205 = lemma_chain_start(x, n, 0int, 1853640int);
    let e206 = lemma_chain_square(x, n, e205, 1853640int, 1853639int, 1int);
    lemma_chain_end(x, n, 2nat, e206, 1int);
}

/// 1853641 is prime, by Lucas's test with generator 17.
proof fn lemma_prime_1853641()
    ensures
        is_prime(1853641int),
{
    lemma_prime_2();
    lemma_prime_3();
    lemma_prime_5();
    lemma_prime_19();
    lemma_prime_271();
    let n: int = 1853641int;
    let g: int = 17int;
    lemma_power_25();
    lemma_power_26();
    lemma_power_compose(g, 12nat, 285nat, 3420nat, n, 707103int, 1578118int);
    lemma_power_27();
    lemma_power_compose(g, 3420nat, 2nat, 6840nat, n, 1578118int, 763656int);
    lemma_power_28();
    lemma_power_compose(g, 3420nat, 271nat, 926820nat, n, 1578118int, 1853640int);
    lemma_power_29();
    lemma_power_compose(g, 12nat, 542nat, 6504nat, n, 707103int, 672202int);
    lemma_power_30();
    lemma_power_compose(g, 6504nat, 15nat, 97560nat, n, 672202int, 1800158int);
    lemma_power_31();
    lemma_power_compose(g, 6504nat, 19nat, 123576nat, n, 672202int, 1811916int);
    lemma_power_32();
    lemma_power_compose(g, 123576nat, 3nat, 370728nat, n, 1811916int, 1294646int);
    lemma_power_33();
    lemma_power_compose(g, 123576nat, 5nat, 617880nat, n, 1811916int, 536485int);
    lemma_power_34();
    lemma_power_compose(g, 926820nat, 2nat, 1853640nat, n, 1853640int, 1int);
    assert(product(Seq::<int>::empty()) == 1);
    assert(product(seq![2int]) == 2int) by {
        assert(seq![2int].drop_last() =~= Seq::<int>::empty());
    }
    assert(product(seq![2int, 2int]) == 4int) by {
        assert(seq![2int, 2int].drop_last() =~= seq![2int]);
    }
    assert(product(seq![2int, 2int, 2int]) == 8int) by {
        assert(seq![2int, 2int, 2int].drop_last() =~= seq![2int, 2int]);
    }
    assert(product(seq![2int, 2int, 2int, 3int]) == 24int) by {
        assert(seq![2int, 2int, 2int, 3int].drop_last() =~= seq![2int, 2int, 2int]);
    }
    assert(product(seq![2int, 2int, 2int, 3int, 3int]) == 72int) by {
        assert(seq![2int, 2int, 2int, 3int, 3int].drop_last() =~= seq![2int, 2int, 2int, 3int]);
    }
    assert(product(seq![2int, 2int, 2int, 3int, 3int, 5int]) == 360int) by {
        assert(seq![2int, 2int, 2int, 3int, 3int, 5int].drop_last() =~= seq![2int, 2int, 2int, 3int, 3int]);
    }
    assert(product(seq![2int, 2int, 2int, 3int, 3int, 5int, 19int]) == 6840int) by {
        assert(seq![2int, 2int, 2int, 3int, 3int, 5int, 19int].drop_last() =~= seq![2int, 2int, 2int, 3int, 3int, 5int]);
    }
    assert(product(seq![2int, 2int, 2int, 3int, 3int, 5int, 19int, 271int]) == 1853640int) by {
        assert(seq![2int, 2int, 2int, 3int, 3int, 5int, 19int, 271int].drop_last() =~= seq![2int, 2int, 2int, 3int, 3int, 5int, 19int]);
    }
    let fs = seq![2int, 2int, 2int, 3int, 3int, 5int, 19int, 271int];
    assert forall|i: int| 0 <= i < fs.len() implies is_prime(#[trigger] fs[i]) by {
        if i == 0 {
            assert(fs[0] == 2int);
        }
        if i == 1 {
            assert(fs[1] == 2int);
        }
        if i == 2 {
            assert(fs[2] == 2int);
        }
        if i == 3 {
            assert(fs[3] == 3int);
        }
        if i == 4 {
            assert(fs[4] == 3int);
        }
        if i == 5 {
            assert(fs[5] == 5int);
        }
        if i == 6 {
            assert(fs[6] == 19int);
        }
        if i == 7 {
            assert(fs[7] == 271int);
        }
    }
    assert forall|i: int| 0 <= i < fs.len() implies #[trigger] (pow(g, ((n - 1) / fs[i]) as nat) % n) != 1 by {
        if i == 0 {
            assert(fs[0] == 2int);
            lemma_fundamental_div_mod_converse(n - 1, 2int, 926820int, 0);
            assert(pow(g, 926820nat) % n == 1853640int);
        }
        if i == 1 {
            assert(fs[1] == 2int);
            lemma_fundamental_div_mod_converse(n - 1, 2int, 926820int, 0);
            assert(pow(g, 926820nat) % n == 1853640int);
        }
        if i == 2 {
            assert(fs[2] == 2int);
            lemma_fundamental_div_mod_converse(n - 1, 2int, 926820int, 0);
            assert(pow(g, 926820nat) % n == 1853640int);
        }
        if i == 3 {
            assert(fs[3] == 3int);
            lemma_fundamental_div_mod_converse(n - 1, 3int, 617880int, 0);
            assert(pow(g, 617880nat) % n == 536485int);
        }
        if i == 4 {
            assert(fs[4] == 3int);
            lemma_fundamental_div_mod_converse(n - 1, 3int, 617880int, 0);
            assert(pow(g, 617880nat) % n == 536485int);
        }
        if i == 5 {
            assert(fs[5] == 5int);
            lemma_fundamental_div_mod_converse(n - 1, 5int, 370728int, 0);
            assert(pow(g, 370728nat) % n == 1294646int);
        }
        if i == 6 {
            assert(fs[6] == 19int);
            lemma_fundamental_div_mod_converse(n - 1, 19int, 97560int, 0);
            assert(pow(g, 97560nat) % n == 1800158int);
        }
        if i == 7 {
            assert(fs[7] == 271int);
            lemma_fundamental_div_mod_converse(n - 1, 271int, 6840int, 0);
            assert(pow(g, 6840nat) % n == 763656int);
        }
    }
    lemma_lucas(n, g, fs);
}

/// `5^1 mod 4562087`, by repeated squaring.
proof fn lemma_power_35()
    ensures
        pow(5int, 1nat) % 4562087int == 5int,
{
    let n: int = 4562087int;
    let x: int = 5int;
    let e207 = lemma_chain_start(x, n, 0int, 5int);
    lemma_chain_end(x, n, 1nat, e207, 5int);
}

/// `5^1853 mod 4562087`, by repeated squaring.
proof fn lemma_power_36()
    ensures
        pow(5int, 1853nat) % 4562087int == 2939414int,
{
    let n: int = 4562087int;
    let x: int = 5int;
    let e208 = lemma_chain_start(x, n, 0int, 5int);
    let e209 = lemma_chain_square_mul(x, n, e208, 5int, 0int, 25int, 0int, 125int);
    let e210 = lemma_chain_square_mul(x, n, e209, 125int, 0int, 15625int, 0int, 78125int);
    let e211 = lemma_chain_square(x, n, e210, 78125int, 1337int, 4005306int);
    let e212 = lemma_chain_square(x, n, e211, 4005306int, 3516477int, 2146137int);
    let e213 = lemma_chain_square_mul(x, n, e212, 2146137int, 1009604int, 2739221int, 3int, 9844int);
    let e214 = lemma_chain_square_mul(x, n, e213, 9844int, 21int, 1100509int, 1int, 940458int);
    let e215 = lemma_chain_square_mul(x, n, e214, 940458int, 193872int, 318900int, 0int, 1594500int);
    let e216 = lemma_chain_square_mul(x, n, e215, 1594500int, 557295int, 1975335int, 2int, 752501int);
    let e217 = lemma_chain_square(x, n, e216, 752501int, 124122int, 2392387int);
    let e218 = lemma_chain_square_mul(x, n, e217, 2392387int, 1254582int, 3325135int, 3int, 2939414int);
    lemma_chain_end(x, n, 1853nat, e218, 2939414int);
}

/// `2939414^2 mod 4562087`, by repeated squaring.
proof fn lemma_power_37()
    ensures
        pow(2939414int, 2nat) % 4562087int == 4407835int,
{
    let n: int = 4562087int;
    let x: int = 2939414int;
    let e219 = lemma_chain_start(x, n, 0int, 2939414int);
    let e220 = lemma_chain_square(x, n, e219, 2939414int, 1893903int, 4407835int);
    lemma_chain_end(x, n, 2nat, e220, 4407835int);
}

/// `2939414^1231 mod 4562087`, by repeated squaring.
proof fn lemma_power_38()
    ensures
        pow(2939414int, 1231nat) % 4562087int == 4562086int,
{
    let n: int = 4562087int;
    let x: int = 2939414int;
    let e221 = lemma_chain_start(x, n, 0int, 2939414int);
    let e222 = lemma_chain_square(x, n, e221, 2939414int, 1893903int, 4407835int);
    let e223 = lemma_chain_square(x, n, e222, 4407835int, 4258798int, 2395799int);
    let e224 = lemma_chain_square_mul(x, n, e223, 2395799int, 1258163int, 3782220int, 2436935int, 935735int);
    let e225 = lemma_chain_square_mul(x, n, e224, 935735int, 191929int, 3194402int, 2058196int, 745376int);
    let e226 = lemma_chain_square(x, n, e225, 745376int, 121783int, 740255int);
    let e227 = lemma_chain_square(x, n, e226, 740255int, 120115int, 2385020int);
    let e228 = lemma_chain_square_mul(x, n, e227, 2385020int, 1246868int, 106884int, 68866int, 3642634int);
    let e229 = lemma_chain_square_mul(x, n, e228, 3642634int, 2908489int, 2601413int, 1676125int, 1719107int);
    let e230 = lemma_chain_square_mul(x, n, e229, 1719107int, 647801int, 4356762int, 2807120int, 1558028int);
    let e231 = lemma_chain_square_mul(x, n, e230, 1558028int, 532092int, 1252780int, 807182int, 4562086int);
    lemma_chain_end(x, n, 1231nat, e231, 4562086int);
}

/// `5^2462 mod 4562087`, by repeated squaring.
proof fn lemma_power_39()
    ensures
        pow(5int, 2462nat) % 4562087int == 311674int,
{
    let n: int = 4562087int;
    let x: int = 5int;
    let e232 = lemma_chain_start(x, n, 0int, 5int);
    let e233 = lemma_chain_square(x, n, e232, 5int, 0int, 25int);
    let e234 = lemma_chain_square(x, n, e233, 25int, 0int, 625int);
    let e235 = lemma_chain_square_mul(x, n, e234, 625int, 0int, 390625int, 0int, 1953125int);
    let e236 = lemma_chain_square_mul(x, n, e235, 1953125int, 836173int, 3292574int, 3int, 2776609int);
    let e237 = lemma_chain_square(x, n, e236, 2776609int, 1689919int, 37928int);
    let e238 = lemma_chain_square(x, n, e237, 37928int, 315int, 1475779int);
    let e239 = lemma_chain_square_mul(x, n, e238, 1475779int, 477396int, 1571389int, 1int, 3294858int);
    let e240 = lemma_chain_square_mul(x, n, e239, 3294858int, 2379632int, 1028180int, 1int, 578813int);
    let e241 = lemma_chain_square_mul(x, n, e240, 578813int, 73436int, 3068037int, 3int, 1653924int);
    let e242 = lemma_chain_square_mul(x, n, e241, 1653924int, 599608int, 735880int, 0int, 3679400int);
    let e243 = lemma_chain_square(x, n, e242, 3679400int, 2967498int, 311674int);
    lemma_chain_end(x, n, 2462nat, e243, 311674int);
}

/// `311674^17 mod 4562087`, by repeated squaring.
proof fn lemma_power_40()
    ensures
        pow(311674int, 17nat) % 4562087int == 2845343int,
{
    let n: int = 4562087int;
    let x: int = 311674int;
    let e244 = lemma_chain_start(x, n, 0int, 311674int);
    let e245 = lemma_chain_square(x, n, e244, 311674int, 21293int, 163785int);
    let e246 = lemma_chain_square(x, n, e245, 163785int, 5880int, 454665int);
    let e247 = lemma_chain_square(x, n, e246, 454665int, 45312int, 2976081int);
    let e248 = lemma_chain_square_mul(x, n, e247, 2976081int, 1941448int, 3436585int, 234781int, 2845343int);
    lemma_chain_end(x, n, 17nat, e248, 2845343int);
}

/// `311674^109 mod 4562087`, by repeated squaring.
proof fn lemma_power_41()
    ensures
        pow(311674int, 109nat) % 4562087int == 476158int,
{
    let n: int = 4562087int;
    let x: int = 311674int;
    let e249 = lemma_chain_start(x, n, 0int, 311674int);
    let e250 = lemma_chain_square_mul(x, n, e249, 311674int, 21293int, 163785int, 11189int, 2334647int);
    let e251 = lemma_chain_square(x, n, e250, 2334647int, 1194755int, 360924int);
    let e252 = lemma_chain_square_mul(x, n, e251, 360924int, 28554int, 301578int, 20603int, 1343111int);
    let e253 = lemma_chain_square_mul(x, n, e252, 1343111int, 395421int, 2154694int, 147205int, 80921int);
    let e254 = lemma_chain_square(x, n, e253, 80921int, 1435int, 1613396int);
    let e255 = lemma_chain_square_mul(x, n, e254, 1613396int, 570582int, 1928182int, 131730int, 476158int);
    lemma_chain_end(x, n, 109nat, e255, 476158int);
}

/// `4562086^2 mod 4562087`, by repeated squaring.
proof fn lemma_power_42()
    ensures
        pow(4562086int, 2nat) % 4562087int == 1int,
{
    let n: int = 4562087int;
    let x: int = 4562086int;
    let e256 = lemma_chain_start(x, n, 0int, 4562086int);
    let e257 = lemma_chain_square(x, n, e256, 4562086int, 4562085int, 1int);
    lemma_chain_end(x, n, 2nat, e257, 1int);
}

/// 4562087 is prime, by Lucas's test with generator 5.
proof fn lemma_prime_4562087()
    ensures
        is_prime(4562087int),
{
    lemma_prime_2();
    lemma_prime_17();
    lemma_prime_109();
    lemma_prime_1231();
    let n: int = 4562087int;
    let g: int = 5int;
    lemma_power_35();
    lemma_power_36();
    lemma_power_compose(g, 1nat, 1853nat, 1853nat, n, 5int, 2939414int);
    lemma_power_37();
    lemma_power_compose(g, 1853nat, 2nat, 3706nat, n, 2939414int, 4407835int);
    lemma_power_38();
    lemma_power_compose(g, 1853nat, 1231nat, 2281043nat, n, 2939414int, 4562086int);
    lemma_power_39();
    lemma_power_compose(g, 1nat, 2462nat, 2462nat, n, 5int, 311674int);
    lemma_power_40();
    lemma_power_compose(g, 2462nat, 17nat, 41854nat, n, 311674int, 2845343int);
    lemma_power_41();
    lemma_power_compose(g, 2462nat, 109nat, 268358nat, n, 311674int, 476158int);
    lemma_power_42();
    lemma_power_compose(g, 2281043nat, 2nat, 4562086nat, n, 4562086int, 1int);
    assert(product(Seq::<int>::empty()) == 1);
    assert(product(seq![2int]) == 2int) by {
        assert(seq![2int].drop_last() =~= Seq::<int>::empty());
    }
    assert(product(seq![2int, 17int]) == 34int) by {
        assert(seq![2int, 17int].drop_last() =~= seq![2int]);
    }
    assert(product(seq![2int, 17int, 109int]) == 3706int) by {
        assert(seq![2int, 17int, 109int].drop_last() =~= seq![2int, 17int]);
    }
    assert(product(seq![2int, 17int, 109int, 1231int]) == 4562086int) by {
        assert(seq![2int, 17int, 109int, 1231int].drop_last() =~= seq![2int, 17int, 109int]);
    }
    let fs = seq![2int, 17int, 109int, 1231int];
    assert forall|i: int| 0 <= i < fs.len() implies is_prime(#[trigger] fs[i]) by {
        if i == 0 {
            assert(fs[0] == 2int);
        }
        if i == 1 {
            assert(fs[1] == 17int);
        }
        if i == 2 {
            assert(fs[2] == 109int);
        }
        if i == 3 {
            assert(fs[3] == 1231int);
        }
    }
    assert forall|i: int| 0 <= i < fs.len() implies #[trigger] (pow(g, ((n - 1) / fs[i]) as nat) % n) != 1 by {
        if i == 0 {
            assert(fs[0] == 2int);
            lemma_fundamental_div_mod_converse(n - 1, 2int, 2281043int, 0);
            assert(pow(g, 2281043nat) % n == 4562086int);
        }
        if i == 1 {
            assert(fs[1] == 17int);
            lemma_fundamental_div_mod_converse(n - 1, 17int, 268358int, 0);
            assert(pow(g, 268358nat) % n == 476158int);
        }
        if i == 2 {
            assert(fs[2] == 109int);
            lemma_fundamental_div_mod_converse(n - 1, 109int, 41854int, 0);
            assert(pow(g, 41854nat) % n == 2845343int);
        }
        if i == 3 {
            assert(fs[3] == 1231int);
            lemma_fundamental_div_mod_converse(n - 1, 1231int, 3706int, 0);
            assert(pow(g, 3706nat) % n == 4407835int);
        }
    }
    lemma_lucas(n, g, fs);
}

/// `13^1 mod 173171039`, by repeated squaring.
proof fn lemma_power_43()
    ensures
        pow(13int, 1nat) % 173171039int == 13int,
{
    let n: int = 173171039int;
    let x: int = 13int;
    let e258 = lemma_chain_start(x, n, 0int, 13int);
    lemma_chain_end(x, n, 1nat, e258, 13int);
}

/// `13^6497 mod 173171039`, by repeated squaring.
proof fn lemma_power_44()
    ensures
        pow(13int, 6497nat) % 173171039int == 169489342int,
{
    let n: int = 173171039int;
    let x: int = 13int;
    let e259 = lemma_chain_start(x, n, 0int, 13int);
    let e260 = lemma_chain_square_mul(x, n, e259, 13int, 0int, 169int, 0int, 2197int);
    let e261 = lemma_chain_square(x, n, e260, 2197int, 0int, 4826809int);
    let e262 = lemma_chain_square(x, n, e261, 4826809int, 134537int, 173048538int);
    let e263 = lemma_chain_square_mul(x, n, e262, 173048538int, 172926123int, 113785647int, 8int, 93845099int);
    let e264 = lemma_chain_square(x, n, e263, 93845099int, 50856671int, 49168632int);
    let e265 = lemma_chain_square_mul(x, n, e264, 49168632int, 13960500int, 82791924int, 6int, 37268778int);
    let e266 = lemma_chain_square_mul(x, n, e265, 37268778int, 8020751int, 29382995int, 2int, 35636857int);
    let e267 = lemma_chain_square(x, n, e266, 35636857int, 7333706int, 89097915int);
    let e268 = lemma_chain_square(x, n, e267, 89097915int, 45841605int, 90069630int);
    let e269 = lemma_chain_square(x, n, e268, 90069630int, 46846968int, 125777148int);
    let e270 = lemma_chain_square(x, n, e269, 125777148int, 91354137int, 137775561int);
    let e271 = lemma_chain_square_mul(x, n, e270, 137775561int, 109614779int, 39679340int, 2int, 169489342int);
    lemma_chain_end(x, n, 6497nat, e271, 169489342int);
}

/// `169489342^2 mod 173171039`, by repeated squaring.
proof fn lemma_power_45()
    ensures
        pow(169489342int, 2nat) % 173171039int == 102893123int,
{
    let n: int = 173171039int;
    let x: int = 169489342int;
    let e272 = lemma_chain_start(x, n, 0int, 169489342int);
    let e273 = lemma_chain_square(x, n, e272, 169489342int, 165885919int, 102893123int);
    lemma_chain_end(x, n, 2nat, e273, 102893123int);
}

/// `169489342^13327 mod 173171039`, by repeated squaring.
proof fn lemma_power_46()
    ensures
        pow(169489342int, 13327nat) % 173171039int == 173171038int,
{
    let n: int = 173171039int;
    let x: int = 169489342int;
    let e274 = lemma_chain_start(x, n, 0int, 169489342int);
    let e275 = lemma_chain_square_mul(x, n, e274, 169489342int, 165885919int, 102893123int, 100705567int, 43120953int);
    let e276 = lemma_chain_square(x, n, e275, 43120953int, 10737457int, 2720386int);
    let e277 = lemma_chain_square_mul(x, n, e276, 2720386int, 42735int, 35637331int, 34879664int, 126975306int);
    let e278 = lemma_chain_square(x, n, e277, 126975306int, 93102913int, 155657029int);
    let e279 = lemma_chain_square(x, n, e278, 155657029int, 139914334int, 87333815int);
    let e280 = lemma_chain_square(x, n, e279, 87333815int, 44044288int, 127478993int);
    let e281 = lemma_chain_square(x, n, e280, 127478993int, 93843022int, 33654191int);
    let e282 = lemma_chain_square(x, n, e281, 33654191int, 6540380int, 171809661int);
    let e283 = lemma_chain_square(x, n, e282, 171809661int, 170458985int, 73599506int);
    let e284 = lemma_chain_square_mul(x, n, e283, 73599506int, 31280561int, 34571157int, 33836158int, 15480532int);
    let e285 = lemma_chain_square_mul(x, n, e284, 15480532int, 1383873int, 145748977int, 142650285int, 141807019int);
    let e286 = lemma_chain_square_mul(x, n, e285, 141807019int, 116123520int, 26929081int, 26356556int, 32373018int);
    let e287 = lemma_chain_square_mul(x, n, e286, 32373018int, 6051891int, 42043575int, 41149708int, 173171038int);
    lemma_chain_end(x, n, 13327nat, e287, 173171038int);
}

/// `13^26654 mod 173171039`, by repeated squaring.
proof fn lemma_power_47()
    ensures
        pow(13int, 26654nat) % 173171039int == 147476004int,
{
    let n: int = 173171039int;
    let x: int = 13int;
    let e288 = lemma_chain_start(x, n, 0int, 13int);
    let e289 = lemma_chain_square_mul(x, n, e288, 13int, 0int, 169int, 0int, 2197int);
    let e290 = lemma_chain_square(x, n, e289, 2197int, 0int, 4826809int);
    let e291 = lemma_chain_square_mul(x, n, e290, 4826809int, 134537int, 173048538int, 12int, 171578526int);
    let e292 = lemma_chain_square(x, n, e291, 171578526int, 170000658int, 7789014int);
    let e293 = lemma_chain_square(x, n, e292, 7789014int, 350339int, 170459975int);
    let e294 = lemma_chain_square(x, n, e293, 170459975int, 167791353int, 142774858int);
    let e295 = lemma_chain_square(x, n, e294, 142774858int, 117714025int, 62798189int);
    let e296 = lemma_chain_square(x, n, e295, 62798189int, 22772933int, 72992334int);
    let e297 = lemma_chain_square(x, n, e296, 72992334int, 30766581int, 24519897int);
    let e298 = lemma_chain_square_mul(x, n, e297, 24519897int, 3471858int, 91770147int, 6int, 153985677int);
    let e299 = lemma_chain_square_mul(x, n, e298, 153985677int, 136925832int, 127768881int, 9int, 102456102int);
    let e300 = lemma_chain_square_mul(x, n, e299, 102456102int, 60617831int, 60837995int, 4int, 98209779int);
    let e301 = lemma_chain_square_mul(x, n, e300, 98209779int, 55697307int, 168536868int, 12int, 112926816int);
    let e302 = lemma_chain_square(x, n, e301, 112926816int, 73640868int, 147476004int);
    lemma_chain_end(x, n, 26654nat, e302, 147476004int);
}

/// `147476004^73 mod 173171039`, by repeated squaring.
proof fn lemma_power_48()
    ensures
        pow(147476004int, 73nat) % 173171039int == 63003907int,
{
    let n: int = 173171039int;
    let x: int = 147476004int;
    let e303 = lemma_chain_start(x, n, 0int, 147476004int);
    let e304 = lemma_chain_square(x, n, e303, 147476004int, 125593585int, 149623201int);
    let e305 = lemma_chain_square(x, n, e304, 149623201int, 129277403int, 80754684int);
    let e306 = lemma_chain_square_mul(x, n, e305, 80754684int, 37658254int, 15833950int, 13484516int, 27403676int);
    let e307 = lemma_chain_square(x, n, e306, 27403676int, 4336530int, 52558306int);
    let e308 = lemma_chain_square(x, n, e307, 52558306int, 15951717int, 122865673int);
    let e309 = lemma_chain_square_mul(x, n, e308, 122865673int, 87173777int, 65098626int, 55439323int, 63003907int);
    lemma_chain_end(x, n, 73nat, e309, 63003907int);
}

/// `147476004^89 mod 173171039`, by repeated squaring.
proof fn lemma_power_49()
    ensures
        pow(147476004int, 89nat) % 173171039int == 152195228int,
{
    let n: int = 173171039int;
    let x: int = 147476004int;
    let e310 = lemma_chain_start(x, n, 0int, 147476004int);
    let e311 = lemma_chain_square(x, n, e310, 147476004int, 125593585int, 149623201int);
    let e312 = lemma_chain_square_mul(x, n, e311, 149623201int, 129277403int, 80754684int, 68772343int, 8828359int);
    let e313 = lemma_chain_square_mul(x, n, e312, 8828359int, 450074int, 140425995int, 119589653int, 136664513int);
    let e314 = lemma_chain_square(x, n, e313, 136664513int, 107853999int, 46392208int);
    let e315 = lemma_chain_square(x, n, e314, 46392208int, 12428388int, 100060132int);
    let e316 = lemma_chain_square_mul(x, n, e315, 100060132int, 57815845int, 66544469int, 56670632int, 152195228int);
    lemma_chain_end(x, n, 89nat, e316, 152195228int);
}

/// `173171038^2 mod 173171039`, by repeated squaring.
proof fn lemma_power_50()
    ensures
        pow(173171038int, 2nat) % 173171039int == 1int,
{
    let n: int = 173171039int;
    let x: int = 173171038int;
    let e317 = lemma_chain_start(x, n, 0int, 173171038int);
    let e318 = lemma_chain_square(x, n, e317, 173171038int, 173171037int, 1int);
    lemma_chain_end(x, n, 2nat, e318, 1int);
}

/// 173171039 is prime, by Lucas's test with generator 13.
proof fn lemma_prime_173171039()
    ensures
        is_prime(173171039int),
{
    lemma_prime_2();
    lemma_prime_73();
    lemma_prime_89();
    lemma_prime_13327();
    let n: int = 173171039int;
    let g: int = 13int;
    lemma_power_43();
    lemma_power_44();
    lemma_power_compose(g, 1nat, 6497nat, 6497nat, n, 13int, 169489342int);
    lemma_power_45();
    lemma_power_compose(g, 6497nat, 2nat, 12994nat, n, 169489342int, 102893123int);
    lemma_power_46();
    lemma_power_compose(g, 6497nat, 13327nat, 86585519nat, n, 169489342int, 173171038int);
    lemma_power_47();
    lemma_power_compose(g, 1nat, 26654nat, 26654nat, n, 13int, 147476004int);
    lemma_power_48();
    lemma_power_compose(g, 26654nat, 73nat, 1945742nat, n, 147476004int, 63003907int);
    lemma_power_49();
    lemma_power_compose(g, 26654nat, 89nat, 2372206nat, n, 147476004int, 152195228int);
    lemma_power_50();
    lemma_power_compose(g, 86585519nat, 2nat, 173171038nat, n, 173171038int, 1int);
    assert(product(Seq::<int>::empty()) == 1);
    assert(product(seq![2int]) == 2int) by {
        assert(seq![2int].drop_last() =~= Seq::<int>::empty());
    }
    assert(product(seq![2int, 73int]) == 146int) by {
        assert(seq![2int, 73int].drop_last() =~= seq![2int]);
    }
    assert(product(seq![2int, 73int, 89int]) == 12994int) by {
        assert(seq![2int, 73int, 89int].drop_last() =~= seq![2int, 73int]);
    }
    assert(product(seq![2int, 73int, 89int, 13327int]) == 173171038int) by {
        assert(seq![2int, 73int, 89int, 13327int].drop_last() =~= seq![2int, 73int, 89int]);
    }
    let fs = seq![2int, 73int, 89int, 13327int];
    assert forall|i: int| 0 <= i < fs.len() implies is_prime(#[trigger] fs[i]) by {
        if i == 0 {
            assert(fs[0] == 2int);
        }
        if i == 1 {
            assert(fs[1] == 73int);
        }
        if i == 2 {
            assert(fs[2] == 89int);
        }
        if i == 3 {
            assert(fs[3] == 13327int);
        }
    }
    assert forall|i: int| 0 <= i < fs.len() implies #[trigger] (pow(g, ((n - 1) / fs[i]) as nat) % n) != 1 by {
        if i == 0 {
            assert(fs[0] == 2int);
            lemma_fundamental_div_mod_converse(n - 1, 2int, 86585519int, 0);
            assert(pow(g, 86585519nat) % n == 173171038int);
        }
        if i == 1 {
            assert(fs[1] == 73int);
            lemma_fundamental_div_mod_converse(n - 1, 73int, 2372206int, 0);
            assert(pow(g, 2372206nat) % n == 152195228int);
        }
        if i == 2 {
            assert(fs[2] == 89int);
            lemma_fundamental_div_mod_converse(n - 1, 89int, 1945742int, 0);
            assert(pow(g, 1945742nat) % n == 63003907int);
        }
        if i == 3 {
            assert(fs[3] == 13327int);
            lemma_fundamental_div_mod_converse(n - 1, 13327int, 12994int, 0);
            assert(pow(g, 12994nat) % n == 102893123int);
        }
    }
    lemma_lucas(n, g, fs);
}

/// `10^1 mod 1263766531`, by repeated squaring.
proof fn lemma_power_51()
    ensures
        pow(10int, 1nat) % 1263766531int == 10int,
{
    let n: int = 1263766531int;
    let x: int = 10int;
    let e319 = lemma_chain_start(x, n, 0int, 10int);
    lemma_chain_end(x, n, 1nat, e319, 10int);
}

/// `10^35529 mod 1263766531`, by repeated squaring.
proof fn lemma_power_52()
    ensures
        pow(10int, 35529nat) % 1263766531int == 248114846int,
{
    let n: int = 1263766531int;
    let x: int = 10int;
    let e320 = lemma_chain_start(x, n, 0int, 10int);
    let e321 = lemma_chain_square(x, n, e320, 10int, 0int, 100int);
    let e322 = lemma_chain_square(x, n, e321, 100int, 0int, 10000int);
    let e323 = lemma_chain_square(x, n, e322, 10000int, 0int, 100000000int);
    let e324 = lemma_chain_square_mul(x, n, e323, 100000000int, 7912853int, 1213877057int, 9int, 764871791int);
    let e325 = lemma_chain_square(x, n, e324, 764871791int, 462924790int, 695344191int);
    let e326 = lemma_chain_square_mul(x, n, e325, 695344191int, 382589293int, 345091898int, 2int, 923385918int);
    let e327 = lemma_chain_square(x, n, e326, 923385918int, 674682809int, 505437145int);
    let e328 = lemma_chain_square_mul(x, n, e327, 505437145int, 202147074int, 1084970731int, 8int, 739575062int);
    let e329 = lemma_chain_square_mul(x, n, e328, 739575062int, 432810379int, 1082678595int, 8int, 716653702int);
    let e330 = lemma_chain_square(x, n, e329, 716653702int, 406398267int, 499303027int);
    let e331 = lemma_chain_square(x, n, e330, 499303027int, 197270228int, 1062223661int);
    let e332 = lemma_chain_square_mul(x, n, e331, 1062223661int, 892822430int, 828152591int, 6int, 698926724int);
    let e333 = lemma_chain_square(x, n, e332, 698926724int, 386541780int, 1124206996int);
    let e334 = lemma_chain_square(x, n, e333, 1124206996int, 1000059218int, 1128911258int);
    let e335 = lemma_chain_square_mul(x, n, e334, 1128911258int, 1008446257int, 530318097int, 4int, 248114846int);
    lemma_chain_end(x, n, 35529nat, e335, 248114846int);
}

/// `248114846^10 mod 1263766531`, by repeated squaring.
proof fn lemma_power_53()
    ensures
        pow(248114846int, 10nat) % 1263766531int == 938992354int,
{
    let n: int = 1263766531int;
    let x: int = 248114846int;
    let e336 = lemma_chain_start(x, n, 0int, 248114846int);
    let e337 = lemma_chain_square(x, n, e336, 248114846int, 48712301int, 1153805885int);
    let e338 = lemma_chain_square_mul(x, n, e337, 1153805885int, 1053412942int, 838789023int, 164679158int, 1034474560int);
    let e339 = lemma_chain_square(x, n, e338, 1034474560int, 846784266int, 938992354int);
    lemma_chain_end(x, n, 10nat, e339, 938992354int);
}

/// `248114846^3557 mod 1263766531`, by repeated squaring.
proof fn lemma_power_54()
    ensures
        pow(248114846int, 3557nat) % 1263766531int == 556940494int,
{
    let n: int = 1263766531int;
    let x: int = 248114846int;
    let e340 = lemma_chain_start(x, n, 0int, 248114846int);
    let e341 = lemma_chain_square_mul(x, n, e340, 248114846int, 48712301int, 1153805885int, 226526310int, 501738100int);
    let e342 = lemma_chain_square(x, n, e341, 501738100int, 199199072int, 791750768int);
    let e343 = lemma_chain_square_mul(x, n, e342, 791750768int, 496032505int, 521499669int, 102385849int, 848766155int);
    let e344 = lemma_chain_square_mul(x, n, e343, 848766155int, 570045153int, 353309782int, 69365187int, 404067275int);
    let e345 = lemma_chain_square_mul(x, n, e344, 404067275int, 129193453int, 800204082int, 157103790int, 878748882int);
    let e346 = lemma_chain_square_mul(x, n, e345, 878748882int, 611030264int, 544955740int, 106990971int, 1237924439int);
    let e347 = lemma_chain_square(x, n, e346, 1237924439int, 1212610778int, 307193603int);
    let e348 = lemma_chain_square(x, n, e347, 307193603int, 74671948int, 1037149221int);
    let e349 = lemma_chain_square_mul(x, n, e348, 1037149221int, 851168693int, 172492858int, 33865463int, 202551015int);
    let e350 = lemma_chain_square(x, n, e349, 202551015int, 32463997int, 806445818int);
    let e351 = lemma_chain_square_mul(x, n, e350, 806445818int, 514616300int, 1122633824int, 220406310int, 556940494int);
    lemma_chain_end(x, n, 3557nat, e351, 556940494int);
}

/// `556940494^2 mod 1263766531`, by repeated squaring.
proof fn lemma_power_55()
    ensures
        pow(556940494int, 2nat) % 1263766531int == 736637955int,
{
    let n: int = 1263766531int;
    let x: int = 556940494int;
    let e352 = lemma_chain_start(x, n, 0int, 556940494int);
    let e353 = lemma_chain_square(x, n, e352, 556940494int, 245443051int, 736637955int);
    lemma_chain_end(x, n, 2nat, e353, 736637955int);
}

/// `556940494^5 mod 1263766531`, by repeated squaring.
proof fn lemma_power_56()
    ensures
        pow(556940494int, 5nat) % 1263766531int == 1263766530int,
{
    let n: int = 1263766531int;
    let x: int = 556940494int;
    let e354 = lemma_chain_start(x, n, 0int, 556940494int);
    let e355 = lemma_chain_square(x, n, e354, 556940494int, 245443051int, 736637955int);
    let e356 = lemma_chain_square_mul(x, n, e355, 736637955int, 429379528int, 163604657int, 72100388int, 1263766530int);
    lemma_chain_end(x, n, 5nat, e356, 1263766530int);
}

/// `10^35570 mod 1263766531`, by repeated squaring.
proof fn lemma_power_57()
    ensures
        pow(10int, 35570nat) % 1263766531int == 54489367int,
{
    let n: int = 1263766531int;
    let x: int = 10int;
    let e357 = lemma_chain_start(x, n, 0int, 10int);
    let e358 = lemma_chain_square(x, n, e357, 10int, 0int, 100int);
    let e359 = lemma_chain_square(x, n, e358, 100int, 0int, 10000int);
    let e360 = lemma_chain_square(x, n, e359, 10000int, 0int, 100000000int);
    let e361 = lemma_chain_square_mul(x, n, e360, 100000000int, 7912853int, 1213877057int, 9int, 764871791int);
    let e362 = lemma_chain_square(x, n, e361, 764871791int, 462924790int, 695344191int);
    let e363 = lemma_chain_square_mul(x, n, e362, 695344191int, 382589293int, 345091898int, 2int, 923385918int);
    let e364 = lemma_chain_square(x, n, e363, 923385918int, 674682809int, 505437145int);
    let e365 = lemma_chain_square_mul(x, n, e364, 505437145int, 202147074int, 1084970731int, 8int, 739575062int);
    let e366 = lemma_chain_square_mul(x, n, e365, 739575062int, 432810379int, 1082678595int, 8int, 716653702int);
    let e367 = lemma_chain_square_mul(x, n, e366, 716653702int, 406398267int, 499303027int, 3int, 1201730677int);
    let e368 = lemma_chain_square_mul(x, n, e367, 1201730677int, 1142740043int, 65977496int, 0int, 659774960int);
    let e369 = lemma_chain_square(x, n, e368, 659774960int, 344448905int, 64403045int);
    let e370 = lemma_chain_square(x, n, e369, 64403045int, 3282055int, 943370820int);
    let e371 = lemma_chain_square_mul(x, n, e370, 943370820int, 704203254int, 600980526int, 4int, 954739136int);
    let e372 = lemma_chain_square(x, n, e371, 954739136int, 721277859int, 54489367int);
    lemma_chain_end(x, n, 35570nat, e372, 54489367int);
}

/// `54489367^39 mod 1263766531`, by repeated squaring.
proof fn lemma_power_58()
    ensures
        pow(54489367int, 39nat) % 1263766531int == 125721785int,
{
    let n: int = 1263766531int;
    let x: int = 54489367int;
    let e373 = lemma_chain_start(x, n, 0int, 54489367int);
    let e374 = lemma_chain_square(x, n, e373, 54489367int, 2349398int, 555662351int);
    let e375 = lemma_chain_square(x, n, e374, 555662351int, 244317791int, 1125194180int);
    let e376 = lemma_chain_square_mul(x, n, e375, 1125194180int, 1001816325int, 961453825int, 41454658int, 989527377int);
    let e377 = lemma_chain_square_mul(x, n, e376, 989527377int, 774798513int, 834531726int, 35982204int, 364343118int);
    let e378 = lemma_chain_square_mul(x, n, e377, 364343118int, 105039898int, 121908086int, 5256267int, 125721785int);
    lemma_chain_end(x, n, 39nat, e378, 125721785int);
}

/// `54489367^911 mod 1263766531`, by repeated squaring.
proof fn lemma_power_59()
    ensures
        pow(54489367int, 911nat) % 1263766531int == 70264509int,
{
    let n: int = 1263766531int;
    let x: int = 54489367int;
    let e379 = lemma_chain_start(x, n, 0int, 54489367int);
    let e380 = lemma_chain_square_mul(x, n, e379, 54489367int, 2349398int, 555662351int, 23958293int, 938430234int);
    let e381 = lemma_chain_square_mul(x, n, e380, 938430234int, 696846515int, 1184305291int, 51063265int, 370757082int);
    let e382 = lemma_chain_square(x, n, e381, 370757082int, 108770734int, 671650970int);
    let e383 = lemma_chain_square(x, n, e382, 671650970int, 356960731int, 782846739int);
    let e384 = lemma_chain_square(x, n, e383, 782846739int, 484938476int, 1199987365int);
    let e385 = lemma_chain_square_mul(x, n, e384, 1199987365int, 1139426975int, 636069500int, 27425179int, 1096122451int);
    let e386 = lemma_chain_square_mul(x, n, e385, 1096122451int, 950717081int, 168431390int, 7262195int, 841434585int);
    let e387 = lemma_chain_square_mul(x, n, e386, 841434585int, 560239683int, 120672552int, 5202995int, 30794239int);
    let e388 = lemma_chain_square_mul(x, n, e387, 30794239int, 750364int, 246321837int, 10620570int, 70264509int);
    lemma_chain_end(x, n, 911nat, e388, 70264509int);
}

/// `70264509^3 mod 1263766531`, by repeated squaring.
proof fn lemma_power_60()
    ensures
        pow(70264509int, 3nat) % 1263766531int == 79716405int,
{
    let n: int = 1263766531int;
    let x: int = 70264509int;
    let e389 = lemma_chain_start(x, n, 0int, 70264509int);
    let e390 = lemma_chain_square_mul(x, n, e389, 70264509int, 3906656int, 124080745int, 6898800int, 79716405int);
    lemma_chain_end(x, n, 3nat, e390, 79716405int);
}

/// `70264509^13 mod 1263766531`, by repeated squaring.
proof fn lemma_power_61()
    ensures
        pow(70264509int, 13nat) % 1263766531int == 768732968int,
{
    let n: int = 1263766531int;
    let x: int = 70264509int;
    let e391 = lemma_chain_start(x, n, 0int, 70264509int);
    let e392 = lemma_chain_square_mul(x, n, e391, 70264509int, 3906656int, 124080745int, 6898800int, 79716405int);
    let e393 = lemma_chain_square(x, n, e392, 79716405int, 5028385int, 558141590int);
    let e394 = lemma_chain_square_mul(x, n, e393, 558141590int, 246502836int, 554346184int, 30821248int, 768732968int);
    lemma_chain_end(x, n, 13nat, e394, 768732968int);
}

/// `1263766530^2 mod 1263766531`, by repeated squaring.
proof fn lemma_power_62()
    ensures
        pow(1263766530int, 2nat) % 1263766531int == 1int,
{
    let n: int = 1263766531int;
    let x: int = 1263766530int;
    let e395 = lemma_chain_start(x, n, 0int, 1263766530int);
    let e396 = lemma_chain_square(x, n, e395, 1263766530int, 1263766529int, 1int);
    lemma_chain_end(x, n, 2nat, e396, 1int);
}

/// 1263766531 is prime, by Lucas's test with generator 10.
proof fn lemma_prime_1263766531()
    ensures
        is_prime(1263766531int),
{
    lemma_prime_2();
    lemma_prime_3();
    lemma_prime_5();
    lemma_prime_13();
    lemma_prime_911();
    lemma_prime_3557();
    let n: int = 1263766531int;
    let g: int = 10int;
    lemma_power_51();
    lemma_power_52();
    lemma_power_compose(g, 1nat, 35529nat, 35529nat, n, 10int, 248114846int);
    lemma_power_53();
    lemma_power_compose(g, 35529nat, 10nat, 355290nat, n, 248114846int, 938992354int);
    lemma_power_54();
    lemma_power_compose(g, 35529nat, 3557nat, 126376653nat, n, 248114846int, 556940494int);
    lemma_power_55();
    lemma_power_compose(g, 126376653nat, 2nat, 252753306nat, n, 556940494int, 736637955int);
    lemma_power_56();
    lemma_power_compose(g, 126376653nat, 5nat, 631883265nat, n, 556940494int, 1263766530int);
    lemma_power_57();
    lemma_power_compose(g, 1nat, 35570nat, 35570nat, n, 10int, 54489367int);
    lemma_power_58();
    lemma_power_compose(g, 35570nat, 39nat, 1387230nat, n, 54489367int, 125721785int);
    lemma_power_59();
    lemma_power_compose(g, 35570nat, 911nat, 32404270nat, n, 54489367int, 70264509int);
    lemma_power_60();
    lemma_power_compose(g, 32404270nat, 3nat, 97212810nat, n, 70264509int, 79716405int);
    lemma_power_61();
    lemma_power_compose(g, 32404270nat, 13nat, 421255510nat, n, 70264509int, 768732968int);
    lemma_power_62();
    lemma_power_compose(g, 631883265nat, 2nat, 1263766530nat, n, 1263766530int, 1int);
    assert(product(Seq::<int>::empty()) == 1);
    assert(product(seq![2int]) == 2int) by {
        assert(seq![2int].drop_last() =~= Seq::<int>::empty());
    }
    assert(product(seq![2int, 3int]) == 6int) by {
        assert(seq![2int, 3int].drop_last() =~= seq![2int]);
    }
    assert(product(seq![2int, 3int, 5int]) == 30int) by {
        assert(seq![2int, 3int, 5int].drop_last() =~= seq![2int, 3int]);
    }
    assert(product(seq![2int, 3int, 5int, 13int]) == 390int) by {
        assert(seq![2int, 3int, 5int, 13int].drop_last() =~= seq![2int, 3int, 5int]);
    }
    assert(product(seq![2int, 3int, 5int, 13int, 911int]) == 355290int) by {
        assert(seq![2int, 3int, 5int, 13int, 911int].drop_last() =~= seq![2int, 3int, 5int, 13int]);
    }
    assert(product(seq![2int, 3int, 5int, 13int, 911int, 3557int]) == 1263766530int) by {
        assert(seq![2int, 3int, 5int, 13int, 911int, 3557int].drop_last() =~= seq![2int, 3int, 5int, 13int, 911int]);
    }
    let fs = seq![2int, 3int, 5int, 13int, 911int, 3557int];
    assert forall|i: int| 0 <= i < fs.len() implies is_prime(#[trigger] fs[i]) by {
        if i == 0 {
            assert(fs[0] == 2int);
        }
        if i == 1 {
            assert(fs[1] == 3int);
        }
        if i == 2 {
            assert(fs[2] == 5int);
        }
        if i == 3 {
            assert(fs[3] == 13int);
        }
        if i == 4 {
            assert(fs[4] == 911int);
        }
        if i == 5 {
            assert(fs[5] == 3557int);
        }
    }
    assert forall|i: int| 0 <= i < fs.len() implies #[trigger] (pow(g, ((n - 1) / fs[i]) as nat) % n) != 1 by {
        if i == 0 {
            assert(fs[0] == 2int);
            lemma_fundamental_div_mod_converse(n - 1, 2int, 631883265int, 0);
            assert(pow(g, 631883265nat) % n == 1263766530int);
        }
        if i == 1 {
            assert(fs[1] == 3int);
            lemma_fundamental_div_mod_converse(n - 1, 3int, 421255510int, 0);
            assert(pow(g, 421255510nat) % n == 768732968int);
        }
        if i == 2 {
            assert(fs[2] == 5int);
            lemma_fundamental_div_mod_converse(n - 1, 5int, 252753306int, 0);
            assert(pow(g, 252753306nat) % n == 736637955int);
        }
        if i == 3 {
            assert(fs[3] == 13int);
            lemma_fundamental_div_mod_converse(n - 1, 13int, 97212810int, 0);
            assert(pow(g, 97212810nat) % n == 79716405int);
        }
        if i == 4 {
            assert(fs[4] == 911int);
            lemma_fundamental_div_mod_converse(n - 1, 911int, 1387230int, 0);
            assert(pow(g, 1387230nat) % n == 125721785int);
        }
        if i == 5 {
            assert(fs[5] == 3557int);
            lemma_fundamental_div_mod_converse(n - 1, 3557int, 355290int, 0);
            assert(pow(g, 355290nat) % n == 938992354int);
        }
    }
    lemma_lucas(n, g, fs);
}

/// `2^2 mod 35385462869`, by repeated squaring.
proof fn lemma_power_63()
    ensures
        pow(2int, 2nat) % 35385462869int == 4int,
{
    let n: int = 35385462869int;
    let x: int = 2int;
    let e397 = lemma_chain_start(x, n, 0int, 2int);
    let e398 = lemma_chain_square(x, n, e397, 2int, 0int, 4int);
    lemma_chain_end(x, n, 2nat, e398, 4int);
}

/// `4^14 mod 35385462869`, by repeated squaring.
proof fn lemma_power_64()
    ensures
        pow(4int, 14nat) % 35385462869int == 268435456int,
{
    let n: int = 35385462869int;
    let x: int = 4int;
    let e399 = lemma_chain_start(x, n, 0int, 4int);
    let e400 = lemma_chain_square_mul(x, n, e399, 4int, 0int, 16int, 0int, 64int);
    let e401 = lemma_chain_square_mul(x, n, e400, 64int, 0int, 4096int, 0int, 16384int);
    let e402 = lemma_chain_square(x, n, e401, 16384int, 0int, 268435456int);
    lemma_chain_end(x, n, 14nat, e402, 268435456int);
}

/// `4^1263766531 mod 35385462869`, by repeated squaring.
proof fn lemma_power_65()
    ensures
        pow(4int, 1263766531nat) % 35385462869int == 27785470642int,
{
    let n: int = 35385462869int;
    let x: int = 4int;
    let e403 = lemma_chain_start(x, n, 0int, 4int);
    let e404 = lemma_chain_square(x, n, e403, 4int, 0int, 16int);
    let e405 = lemma_chain_square(x, n, e404, 16int, 0int, 256int);
    let e406 = lemma_chain_square_mul(x, n, e405, 256int, 0int, 65536int, 0int, 262144int);
    let e407 = lemma_chain_square(x, n, e406, 262144int, 1int, 33334013867int);
    let e408 = lemma_chain_square_mul(x, n, e407, 33334013867int, 31401496275int, 15293980714int, 1int, 25790459987int);
    let e409 = lemma_chain_square_mul(x, n, e408, 25790459987int, 18797205756int, 21156966205int, 2int, 13856939082int);
    let e410 = lemma_chain_square(x, n, e409, 13856939082int, 5426374142int, 7216269326int);
    let e411 = lemma_chain_square_mul(x, n, e410, 7216269326int, 1471636620int, 11697831496int, 1int, 11405863115int);
    let e412 = lemma_chain_square(x, n, e411, 11405863115int, 3676473411int, 24311227066int);
    let e413 = lemma_chain_square_mul(x, n, e412, 24311227066int, 16702784520int, 13242980476int, 1int, 17586459035int);
    let e414 = lemma_chain_square(x, n, e413, 17586459035int, 8740412483int, 12792537498int);
    let e415 = lemma_chain_square(x, n, e414, 12792537498int, 4624752719int, 21254809193int);
    let e416 = lemma_chain_square_mul(x, n, e415, 21254809193int, 12767020047int, 9940176406int, 1int, 4375242755int);
    let e417 = lemma_chain_square_mul(x, n, e416, 4375242755int, 540977780int, 18035939205int, 2int, 1372831082int);
    let e418 = lemma_chain_square_mul(x, n, e417, 1372831082int, 53261001int, 6454018855int, 0int, 25816075420int);
    let e419 = lemma_chain_square(x, n, e418, 25816075420int, 18834563576int, 18760316856int);
    let e420 = lemma_chain_square(x, n, e419, 18760316856int, 9946160372int, 4992497468int);
    let e421 = lemma_chain_square(x, n, e420, 4992497468int, 704386178int, 20930586342int);
    let e422 = lemma_chain_square_mul(x, n, e421, 20930586342int, 12380492131int, 18469757125int, 2int, 3108102762int);
    let e423 = lemma_chain_square_mul(x, n, e422, 3108102762int, 273002018int, 8050959002int, 0int, 32203836008int);
    let e424 = lemma_chain_square(x, n, e423, 32203836008int, 29308279998int, 6672981802int);
    let e425 = lemma_chain_square(x, n, e424, 6672981802int, 1258389251int, 13813946085int);
    let e426 = lemma_chain_square(x, n, e425, 13813946085int, 5392754282int, 31935072167int);
    let e427 = lemma_chain_square(x, n, e426, 31935072167int, 28821124598int, 6146524227int);
    let e428 = lemma_chain_square(x, n, e427, 6146524227int, 1067663300int, 14353939829int);
    let e429 = lemma_chain_square(x, n, e428, 14353939829int, 5822605440int, 16595141881int);
    let e430 = lemma_chain_square(x, n, e429, 16595141881int, 7782821297int, 29464297068int);
    let e431 = lemma_chain_square(x, n, e430, 29464297068int, 24533939401int, 6971795155int);
    let e432 = lemma_chain_square_mul(x, n, e431, 6971795155int, 1373612883int, 15504932698int, 1int, 26634267923int);
    let e433 = lemma_chain_square_mul(x, n, e432, 26634267923int, 20047334986int, 24639099095int, 2int, 27785470642int);
    lemma_chain_end(x, n, 1263766531nat, e433, 27785470642int);
}

/// `27785470642^2 mod 35385462869`, by repeated squaring.
proof fn lemma_power_66()
    ensures
        pow(27785470642int, 2nat) % 35385462869int == 10975929881int,
{
    let n: int = 35385462869int;
    let x: int = 27785470642int;
    let e434 = lemma_chain_start(x, n, 0int, 27785470642int);
    let e435 = lemma_chain_square(x, n, e434, 27785470642int, 21817783807int, 10975929881int);
    lemma_chain_end(x, n, 2nat, e435, 10975929881int);
}

/// `27785470642^7 mod 35385462869`, by repeated squaring.
proof fn lemma_power_67()
    ensures
        pow(27785470642int, 7nat) % 35385462869int == 35385462868int,
{
    let n: int = 35385462869int;
    let x: int = 27785470642int;
    let e436 = lemma_chain_start(x, n, 0int, 27785470642int);
    let e437 = lemma_chain_square_mul(x, n, e436, 27785470642int, 21817783807int, 10975929881int, 8618549900int, 6102390502int);
    let e438 = lemma_chain_square_mul(x, n, e437, 6102390502int, 1052386116int, 7330685200int, 5756220828int, 35385462868int);
    lemma_chain_end(x, n, 7nat, e438, 35385462868int);
}

/// `35385462868^2 mod 35385462869`, by repeated squaring.
proof fn lemma_power_68()
    ensures
        pow(35385462868int, 2nat) % 35385462869int == 1int,
{
    let n: int = 35385462869int;
    let x: int = 35385462868int;
    let e439 = lemma_chain_start(x, n, 0int, 35385462868int);
    let e440 = lemma_chain_square(x, n, e439, 35385462868int, 35385462867int, 1int);
    lemma_chain_end(x, n, 2nat, e440, 1int);
}

/// 35385462869 is prime, by Lucas's test with generator 2.
proof fn lemma_prime_35385462869()
    ensures
        is_prime(35385462869int),
{
    lemma_prime_2();
    lemma_prime_7();
    lemma_prime_1263766531();
    let n: int = 35385462869int;
    let g: int = 2int;
    lemma_power_63();
    lemma_power_64();
    lemma_power_compose(g, 2nat, 14nat, 28nat, n, 4int, 268435456int);
    lemma_power_65();
    lemma_power_compose(g, 2nat, 1263766531nat, 2527533062nat, n, 4int, 27785470642int);
    lemma_power_66();
    lemma_power_compose(g, 2527533062nat, 2nat, 5055066124nat, n, 27785470642int, 10975929881int);
    lemma_power_67();
    lemma_power_compose(g, 2527533062nat, 7nat, 17692731434nat, n, 27785470642int, 35385462868int);
    lemma_power_68();
    lemma_power_compose(g, 17692731434nat, 2nat, 35385462868nat, n, 35385462868int, 1int);
    assert(product(Seq::<int>::empty()) == 1);
    assert(product(seq![2int]) == 2int) by {
        assert(seq![2int].drop_last() =~= Seq::<int>::empty());
    }
    assert(product(seq![2int, 2int]) == 4int) by {
        assert(seq![2int, 2int].drop_last() =~= seq![2int]);
    }
    assert(product(seq![2int, 2int, 7int]) == 28int) by {
        assert(seq![2int, 2int, 7int].drop_last() =~= seq![2int, 2int]);
    }
    assert(product(seq![2int, 2int, 7int, 1263766531int]) == 35385462868int) by {
        assert(seq![2int, 2int, 7int, 1263766531int].drop_last() =~= seq![2int, 2int, 7int]);
    }
    let fs = seq![2int, 2int, 7int, 1263766531int];
    assert forall|i: int| 0 <= i < fs.len() implies is_prime(#[trigger] fs[i]) by {
        if i == 0 {
            assert(fs[0] == 2int);
        }
        if i == 1 {
            assert(fs[1] == 2int);
        }
        if i == 2 {
            assert(fs[2] == 7int);
        }
        if i == 3 {
            assert(fs[3] == 1263766531int);
        }
    }
    assert forall|i: int| 0 <= i < fs.len() implies #[trigger] (pow(g, ((n - 1) / fs[i]) as nat) % n) != 1 by {
        if i == 0 {
            assert(fs[0] == 2int);
            lemma_fundamental_div_mod_converse(n - 1, 2int, 17692731434int, 0);
            assert(pow(g, 17692731434nat) % n == 35385462868int);
        }
        if i == 1 {
            assert(fs[1] == 2int);
            lemma_fundamental_div_mod_converse(n - 1, 2int, 17692731434int, 0);
            assert(pow(g, 17692731434nat) % n == 35385462868int);
        }
        if i == 2 {
            assert(fs[2] == 7int);
            lemma_fundamental_div_mod_converse(n - 1, 7int, 5055066124int, 0);
            assert(pow(g, 5055066124nat) % n == 10975929881int);
        }
        if i == 3 {
            assert(fs[3] == 1263766531int);
            lemma_fundamental_div_mod_converse(n - 1, 1263766531int, 28int, 0);
            assert(pow(g, 28nat) % n == 268435456int);
        }
    }
    lemma_lucas(n, g, fs);
}

/// `6^3 mod 2480874801745591`, by repeated squaring.
proof fn lemma_power_69()
    ensures
        pow(6int, 3nat) % 2480874801745591int == 216int,
{
    let n: int = 2480874801745591int;
    let x: int = 6int;
    let e441 = lemma_chain_start(x, n, 0int, 6int);
    let e442 = lemma_chain_square_mul(x, n, e441, 6int, 0int, 36int, 0int, 216int);
    lemma_chain_end(x, n, 3nat, e442, 216int);
}

/// `216^23370 mod 2480874801745591`, by repeated squaring.
proof fn lemma_power_70()
    ensures
        pow(216int, 23370nat) % 2480874801745591int == 1811331258890614int,
{
    let n: int = 2480874801745591int;
    let x: int = 216int;
    let e443 = lemma_chain_start(x, n, 0int, 216int);
    let e444 = lemma_chain_square(x, n, e443, 216int, 0int, 46656int);
    let e445 = lemma_chain_square_mul(x, n, e444, 46656int, 0int, 2176782336int, 0int, 470184984576int);
    let e446 = lemma_chain_square_mul(x, n, e445, 470184984576int, 89111276int, 540936716515660int, 47int, 241215085339783int);
    let e447 = lemma_chain_square(x, n, e446, 241215085339783int, 23453306613674int, 1752608292675755int);
    let e448 = lemma_chain_square_mul(x, n, e447, 1752608292675755int, 1238126093825679int, 506941103988736int, 44int, 340787184760972int);
    let e449 = lemma_chain_square_mul(x, n, e448, 340787184760972int, 46812481313282int, 1201383041145122int, 104int, 1487757505804888int);
    let e450 = lemma_chain_square(x, n, e449, 1487757505804888int, 892194315699194int, 208369852938890int);
    let e451 = lemma_chain_square_mul(x, n, e450, 208369852938890int, 17501082917696int, 2432277890553764int, 211int, 1907441191293323int);
    let e452 = lemma_chain_square(x, n, e451, 1907441191293323int, 1466551998384800int, 233568902965529int);
    let e453 = lemma_chain_square(x, n, e452, 233568902965529int, 21989998203107int, 1720733602498604int);
    let e454 = lemma_chain_square_mul(x, n, e453, 1720733602498604int, 1193500022123027int, 636894465124859int, 55int, 1121090370962039int);
    let e455 = lemma_chain_square(x, n, e454, 1121090370962039int, 506613078168822int, 2342634986873719int);
    let e456 = lemma_chain_square_mul(x, n, e455, 2342634986873719int, 2212098199338157int, 503804760075174int, 43int, 2144211701177171int);
    let e457 = lemma_chain_square(x, n, e456, 2144211701177171int, 1853234921903397int, 1811331258890614int);
    lemma_chain_end(x, n, 23370nat, e457, 1811331258890614int);
}

/// `216^35385462869 mod 2480874801745591`, by repeated squaring.
proof fn lemma_power_71()
    ensures
        pow(216int, 35385462869nat) % 2480874801745591int == 2193160286810042int,
{
    let n: int = 2480874801745591int;
    let x: int = 216int;
    let e458 = lemma_chain_start(x, n, 0int, 216int);
    let e459 = lemma_chain_square(x, n, e458, 216int, 0int, 46656int);
    let e460 = lemma_chain_square(x, n, e459, 46656int, 0int, 2176782336int);
    let e461 = lemma_chain_square(x, n, e460, 2176782336int, 1909int, 2391341789283677int);
    let e462 = lemma_chain_square(x, n, e461, 2391341789283677int, 2305039959755647int, 2042051359037952int);
    let e463 = lemma_chain_square(x, n, e462, 2042051359037952int, 1680848122611698int, 1638746699830786int);
    let e464 = lemma_chain_square_mul(x, n, e463, 1638746699830786int, 1082477335944856int, 2096482916247900int, 182int, 1321095991848838int);
    let e465 = lemma_chain_square_mul(x, n, e464, 1321095991848838int, 703499676183192int, 1119727547643772int, 97int, 1216294521732425int);
    let e466 = lemma_chain_square_mul(x, n, e465, 1216294521732425int, 596310770118425int, 158911504766450int, 13int, 2073512606860517int);
    let e467 = lemma_chain_square_mul(x, n, e466, 2073512606860517int, 1733039703488591int, 922635940455008int, 80int, 819378998634448int);
    let e468 = lemma_chain_square(x, n, e467, 819378998634448int, 270623065271489int, 1331741208509705int);
    let e469 = lemma_chain_square_mul(x, n, e468, 1331741208509705int, 714882768447241int, 1316023691322594int, 114int, 1441389926682930int);
    let e470 = lemma_chain_square(x, n, e469, 1441389926682930int, 837448515854641int, 408606734747069int);
    let e471 = lemma_chain_square(x, n, e470, 408606734747069int, 67298625292653int, 277415776647838int);
    let e472 = lemma_chain_square_mul(x, n, e471, 277415776647838int, 31021119275738int, 297184215303086int, 25int, 2169920461826801int);
    let e473 = lemma_chain_square(x, n, e472, 2169920461826801int, 1897941325915200int, 1421828482010401int);
    let e474 = lemma_chain_square(x, n, e473, 1421828482010401int, 814872330854248int, 1057044074560233int);
    let e475 = lemma_chain_square(x, n, e474, 1057044074560233int, 450382330771676int, 536413484333773int);
    let e476 = lemma_chain_square_mul(x, n, e475, 536413484333773int, 115983050000201int, 1307633967551738int, 113int, 2110084393923625int);
    let e477 = lemma_chain_square_mul(x, n, e476, 2110084393923625int, 1794712150063839int, 1901723046356776int, 165int, 1427835725041101int);
    let e478 = lemma_chain_square(x, n, e477, 1427835725041101int, 821772568397715int, 256744203567636int);
    let e479 = lemma_chain_square_mul(x, n, e478, 256744203567636int, 26570299323125int, 969034673536621int, 84int, 918006137280492int);
    let e480 = lemma_chain_square(x, n, e479, 918006137280492int, 339692783969463int, 131143044874431int);
    let e481 = lemma_chain_square_mul(x, n, e480, 131143044874431int, 6932432949391int, 2023169197188680int, 176int, 370581485530864int);
    let e482 = lemma_chain_square(x, n, e481, 370581485530864int, 55355730696943int, 1173148489158183int);
    let e483 = lemma_chain_square(x, n, e482, 1173148489158183int, 554754869792603int, 2298875456198116int);
    let e484 = lemma_chain_square(x, n, e483, 2298875456198116int, 2130227756512174int, 1186187999624622int);
    let e485 = lemma_chain_square(x, n, e484, 1186187999624622int, 567155573293517int, 1249000305009337int);
    let e486 = lemma_chain_square(x, n, e485, 1249000305009337int, 628811160005240int, 1971138950282729int);
    let e487 = lemma_chain_square_mul(x, n, e486, 1971138950282729int, 1566136573513449int, 1795787920734082int, 156int, 873721806249516int);
    let e488 = lemma_chain_square(x, n, e487, 873721806249516int, 307709923200792int, 890962456526184int);
    let e489 = lemma_chain_square_mul(x, n, e488, 890962456526184int, 319973461933923int, 682941579018363int, 59int, 1143767764976539int);
    let e490 = lemma_chain_square(x, n, e489, 1143767764976539int, 527315888443443int, 520970942308708int);
    let e491 = lemma_chain_square_mul(x, n, e490, 520970942308708int, 109401217078368int, 582973727153776int, 50int, 1878584977936066int);
    let e492 = lemma_chain_square(x, n, e491, 1878584977936066int, 1422514959982632int, 102052540980844int);
    let e493 = lemma_chain_square_mul(x, n, e492, 102052540980844int, 4198003508004int, 125008834741972int, 10int, 2193160286810042int);
    lemma_chain_end(x, n, 35385462869nat, e493, 2193160286810042int);
}

/// `2193160286810042^95 mod 2480874801745591`, by repeated squaring.
proof fn lemma_power_72()
    ensures
        pow(2193160286810042int, 95nat) % 2480874801745591int == 656145210522782int,
{
    let n: int = 2480874801745591int;
    let x: int = 2193160286810042int;
    let e494 = lemma_chain_start(x, n, 0int, 2193160286810042int);
    let e495 = lemma_chain_square(x, n, e494, 2193160286810042int, 1938812889814645int, 1902849756061569int);
    let e496 = lemma_chain_square_mul(x, n, e495, 1902849756061569int, 1459500169696545int, 150971357058666int, 133462754554931int, 266527895364751int);
    let e497 = lemma_chain_square_mul(x, n, e496, 266527895364751int, 28633899202644int, 987877090749397int, 873310012321692int, 139312130384702int);
    let e498 = lemma_chain_square_mul(x, n, e497, 139312130384702int, 7822994396439int, 1736769841278355int, 1535351417387516int, 2278152639798954int);
    let e499 = lemma_chain_square_mul(x, n, e498, 2278152639798954int, 2091995713194061int, 315164605359065int, 278614017843751int, 2379950166578889int);
    let e500 = lemma_chain_square_mul(x, n, e499, 2379950166578889int, 2283131253303660int, 1290272671311261int, 1140635867591980int, 656145210522782int);
    lemma_chain_end(x, n, 95nat, e500, 656145210522782int);
}

/// `656145210522782^6 mod 2480874801745591`, by repeated squaring.
proof fn lemma_power_73()
    ensures
        pow(656145210522782int, 6nat) % 2480874801745591int == 2279967835349712int,
{
    let n: int = 2480874801745591int;
    let x: int = 656145210522782int;
    let e501 = lemma_chain_start(x, n, 0int, 656145210522782int);
    let e502 = lemma_chain_square_mul(x, n, e501, 656145210522782int, 173538195877139int, 1156545170075375int, 305884671634483int, 426734585878797int);
    let e503 = lemma_chain_square(x, n, e502, 426734585878797int, 73402497641967int, 2279967835349712int);
    lemma_chain_end(x, n, 6nat, e503, 2279967835349712int);
}

/// `656145210522782^41 mod 2480874801745591`, by repeated squaring.
proof fn lemma_power_74()
    ensures
        pow(656145210522782int, 41nat) % 2480874801745591int == 2407620892277408int,
{
    let n: int = 2480874801745591int;
    let x: int = 656145210522782int;
    let e504 = lemma_chain_start(x, n, 0int, 656145210522782int);
    let e505 = lemma_chain_square(x, n, e504, 656145210522782int, 173538195877139int, 1156545170075375int);
    let e506 = lemma_chain_square_mul(x, n, e505, 1156545170075375int, 539163334434901int, 1288868828119134int, 340881816352618int, 2366234734303550int);
    let e507 = lemma_chain_square(x, n, e506, 2366234734303550int, 2256892130906800int, 2781810683700int);
    let e508 = lemma_chain_square(x, n, e507, 2781810683700int, 3119250787int, 2154057745159883int);
    let e509 = lemma_chain_square_mul(x, n, e508, 2154057745159883int, 1870293803709284int, 2221159339806845int, 587455304716202int, 2407620892277408int);
    lemma_chain_end(x, n, 41nat, e509, 2407620892277408int);
}

/// `2407620892277408^2 mod 2480874801745591`, by repeated squaring.
proof fn lemma_power_75()
    ensures
        pow(2407620892277408int, 2nat) % 2480874801745591int == 2407620892277407int,
{
    let n: int = 2480874801745591int;
    let x: int = 2407620892277408int;
    let e510 = lemma_chain_start(x, n, 0int, 2407620892277408int);
    let e511 = lemma_chain_square(x, n, e510, 2407620892277408int, 2336529984041127int, 2407620892277407int);
    lemma_chain_end(x, n, 2nat, e511, 2407620892277407int);
}

/// `2407620892277408^3 mod 2480874801745591`, by repeated squaring.
proof fn lemma_power_76()
    ensures
        pow(2407620892277408int, 3nat) % 2480874801745591int == 2480874801745590int,
{
    let n: int = 2480874801745591int;
    let x: int = 2407620892277408int;
    let e512 = lemma_chain_start(x, n, 0int, 2407620892277408int);
    let e513 = lemma_chain_square_mul(x, n, e512, 2407620892277408int, 2336529984041127int, 2407620892277407int, 2336529984041126int, 2480874801745590int);
    lemma_chain_end(x, n, 3nat, e513, 2480874801745590int);
}

/// `2193160286810042^246 mod 2480874801745591`, by repeated squaring.
proof fn lemma_power_77()
    ensures
        pow(2193160286810042int, 246nat) % 2480874801745591int == 128322563537949int,
{
    let n: int = 2480874801745591int;
    let x: int = 2193160286810042int;
    let e514 = lemma_chain_start(x, n, 0int, 2193160286810042int);
    let e515 = lemma_chain_square_mul(x, n, e514, 2193160286810042int, 1938812889814645int, 1902849756061569int, 1682170544770750int, 1908231441212648int);
    let e516 = lemma_chain_square_mul(x, n, e515, 1908231441212648int, 1467767430533124int, 166269808715620int, 146986998744967int, 541001112565543int);
    let e517 = lemma_chain_square_mul(x, n, e516, 541001112565543int, 117975402705214int, 1285696673673375int, 1136590562167906int, 2470346940829304int);
    let e518 = lemma_chain_square(x, n, e517, 2470346940829304int, 2459863756031051int, 2320978466778275int);
    let e519 = lemma_chain_square_mul(x, n, e518, 2320978466778275int, 2171387705440870int, 78653778271455int, 69532062960671int, 1078988315299549int);
    let e520 = lemma_chain_square_mul(x, n, e519, 1078988315299549int, 469276314844180int, 2366260432593021int, 2091838090886920int, 768777132347162int);
    let e521 = lemma_chain_square(x, n, e520, 768777132347162int, 238229788461745int, 128322563537949int);
    lemma_chain_end(x, n, 246nat, e521, 128322563537949int);
}

/// `128322563537949^5 mod 2480874801745591`, by repeated squaring.
proof fn lemma_power_78()
    ensures
        pow(128322563537949int, 5nat) % 2480874801745591int == 1172307907851451int,
{
    let n: int = 2480874801745591int;
    let x: int = 128322563537949int;
    let e522 = lemma_chain_start(x, n, 0int, 128322563537949int);
    let e523 = lemma_chain_square(x, n, e522, 128322563537949int, 6637449137443int, 611562284862788int);
    let e524 = lemma_chain_square_mul(x, n, e523, 611562284862788int, 150756671801186int, 1409521083062018int, 72907088504441int, 1172307907851451int);
    lemma_chain_end(x, n, 5nat, e524, 1172307907851451int);
}

/// `128322563537949^19 mod 2480874801745591`, by repeated squaring.
proof fn lemma_power_79()
    ensures
        pow(128322563537949int, 19nat) % 2480874801745591int == 1827406440318507int,
{
    let n: int = 2480874801745591int;
    let x: int = 128322563537949int;
    let e525 = lemma_chain_start(x, n, 0int, 128322563537949int);
    let e526 = lemma_chain_square(x, n, e525, 128322563537949int, 6637449137443int, 611562284862788int);
    let e527 = lemma_chain_square(x, n, e526, 611562284862788int, 150756671801186int, 1409521083062018int);
    let e528 = lemma_chain_square_mul(x, n, e527, 1409521083062018int, 800826257817770int, 552648455280254int, 28585588626621int, 366153427381035int);
    let e529 = lemma_chain_square_mul(x, n, e528, 366153427381035int, 54040748968285int, 1570508780089790int, 81234132644733int, 1827406440318507int);
    lemma_chain_end(x, n, 19nat, e529, 1827406440318507int);
}

/// `2480874801745590^2 mod 2480874801745591`, by repeated squaring.
proof fn lemma_power_80()
    ensures
        pow(2480874801745590int, 2nat) % 2480874801745591int == 1int,
{
    let n: int = 2480874801745591int;
    let x: int = 2480874801745590int;
    let e530 = lemma_chain_start(x, n, 0int, 2480874801745590int);
    let e531 = lemma_chain_square(x, n, e530, 2480874801745590int, 2480874801745589int, 1int);
    lemma_chain_end(x, n, 2nat, e531, 1int);
}

/// 2480874801745591 is prime, by Lucas's test with generator 6.
proof fn lemma_prime_of_52_bits()
    ensures
        is_prime(2480874801745591int),
{
    lemma_prime_2();
    lemma_prime_3();
    lemma_prime_5();
    lemma_prime_19();
    lemma_prime_41();
    lemma_prime_35385462869();
    let n: int = 2480874801745591int;
    let g: int = 6int;
    lemma_power_69();
    lemma_power_70();
    lemma_power_compose(g, 3nat, 23370nat, 70110nat, n, 216int, 1811331258890614int);
    lemma_power_71();
    lemma_power_compose(g, 3nat, 35385462869nat, 106156388607nat, n, 216int, 2193160286810042int);
    lemma_power_72();
    lemma_power_compose(g, 106156388607nat, 95nat, 10084856917665nat, n, 2193160286810042int, 656145210522782int);
    lemma_power_73();
    lemma_power_compose(g, 10084856917665nat, 6nat, 60509141505990nat, n, 656145210522782int, 2279967835349712int);
    lemma_power_74();
    lemma_power_compose(g, 10084856917665nat, 41nat, 413479133624265nat, n, 656145210522782int, 2407620892277408int);
    lemma_power_75();
    lemma_power_compose(g, 413479133624265nat, 2nat, 826958267248530nat, n, 2407620892277408int, 2407620892277407int);
    lemma_power_76();
    lemma_power_compose(g, 413479133624265nat, 3nat, 1240437400872795nat, n, 2407620892277408int, 2480874801745590int);
    lemma_power_77();
    lemma_power_compose(g, 106156388607nat, 246nat, 26114471597322nat, n, 2193160286810042int, 128322563537949int);
    lemma_power_78();
    lemma_power_compose(g, 26114471597322nat, 5nat, 130572357986610nat, n, 128322563537949int, 1172307907851451int);
    lemma_power_79();
    lemma_power_compose(g, 26114471597322nat, 19nat, 496174960349118nat, n, 128322563537949int, 1827406440318507int);
    lemma_power_80();
    lemma_power_compose(g, 1240437400872795nat, 2nat, 2480874801745590nat, n, 2480874801745590int, 1int);
    assert(product(Seq::<int>::empty()) == 1);
    assert(product(seq![2int]) == 2int) by {
        assert(seq![2int].drop_last() =~= Seq::<int>::empty());
    }
    assert(product(seq![2int, 3int]) == 6int) by {
        assert(seq![2int, 3int].drop_last() =~= seq![2int]);
    }
    assert(product(seq![2int, 3int, 3int]) == 18int) by {
        assert(seq![2int, 3int, 3int].drop_last() =~= seq![2int, 3int]);
    }
    assert(product(seq![2int, 3int, 3int, 5int]) == 90int) by {
        assert(seq![2int, 3int, 3int, 5int].drop_last() =~= seq![2int, 3int, 3int]);
    }
    assert(product(seq![2int, 3int, 3int, 5int, 19int]) == 1710int) by {
        assert(seq![2int, 3int, 3int, 5int, 19int].drop_last() =~= seq![2int, 3int, 3int, 5int]);
    }
    assert(product(seq![2int, 3int, 3int, 5int, 19int, 41int]) == 70110int) by {
        assert(seq![2int, 3int, 3int, 5int, 19int, 41int].drop_last() =~= seq![2int, 3int, 3int, 5int, 19int]);
    }
    assert(product(seq![2int, 3int, 3int, 5int, 19int, 41int, 35385462869int]) == 2480874801745590int) by {
        assert(seq![2int, 3int, 3int, 5int, 19int, 41int, 35385462869int].drop_last() =~= seq![2int, 3int, 3int, 5int, 19int, 41int]);
    }
    let fs = seq![2int, 3int, 3int, 5int, 19int, 41int, 35385462869int];
    assert forall|i: int| 0 <= i < fs.len() implies is_prime(#[trigger] fs[i]) by {
        if i == 0 {
            assert(fs[0] == 2int);
        }
        if i == 1 {
            assert(fs[1] == 3int);
        }
        if i == 2 {
            assert(fs[2] == 3int);
        }
        if i == 3 {
            assert(fs[3] == 5int);
        }
        if i == 4 {
            assert(fs[4] == 19int);
        }
        if i == 5 {
            assert(fs[5] == 41int);
        }
        if i == 6 {
            assert(fs[6] == 35385462869int);
        }
    }
    assert forall|i: int| 0 <= i < fs.len() implies #[trigger] (pow(g, ((n - 1) / fs[i]) as nat) % n) != 1 by {
        if i == 0 {
            assert(fs[0] == 2int);
            lemma_fundamental_div_mod_converse(n - 1, 2int, 1240437400872795int, 0);
            assert(pow(g, 1240437400872795nat) % n == 2480874801745590int);
        }
        if i == 1 {
            assert(fs[1] == 3int);
            lemma_fundamental_div_mod_converse(n - 1, 3int, 826958267248530int, 0);
            assert(pow(g, 826958267248530nat) % n == 2407620892277407int);
        }
        if i == 2 {
            assert(fs[2] == 3int);
            lemma_fundamental_div_mod_converse(n - 1, 3int, 826958267248530int, 0);
            assert(pow(g, 826958267248530nat) % n == 2407620892277407int);
        }
        if i == 3 {
            assert(fs[3] == 5int);
            lemma_fundamental_div_mod_converse(n - 1, 5int, 496174960349118int, 0);
            assert(pow(g, 496174960349118nat) % n == 1827406440318507int);
        }
        if i == 4 {
            assert(fs[4] == 19int);
            lemma_fundamental_div_mod_converse(n - 1, 19int, 130572357986610int, 0);
            assert(pow(g, 130572357986610nat) % n == 1172307907851451int);
        }
        if i == 5 {
            assert(fs[5] == 41int);
            lemma_fundamental_div_mod_converse(n - 1, 41int, 60509141505990int, 0);
            assert(pow(g, 60509141505990nat) % n == 2279967835349712int);
        }
        if i == 6 {
            assert(fs[6] == 35385462869int);
            lemma_fundamental_div_mod_converse(n - 1, 35385462869int, 70110int, 0);
            assert(pow(g, 70110nat) % n == 1811331258890614int);
        }
    }
    lemma_lucas(n, g, fs);
}

/// `17^8 mod 13427688667394608761327070753331941386769`, by repeated squaring.
proof fn lemma_power_81()
    ensures
        pow(17int, 8nat) % 13427688667394608761327070753331941386769int == 6975757441int,
{
    let n: int = 13427688667394608761327070753331941386769int;
    let x: int = 17int;
    let e532 = lemma_chain_start(x, n, 0int, 17int);
    let e533 = lemma_chain_square(x, n, e532, 17int, 0int, 289int);
    let e534 = lemma_chain_square(x, n, e533, 289int, 0int, 83521int);
    let e535 = lemma_chain_square(x, n, e534, 83521int, 0int, 6975757441int);
    lemma_chain_end(x, n, 8nat, e535, 6975757441int);
}

/// `6975757441^349143971788186 mod 13427688667394608761327070753331941386769`, by repeated squaring.
proof fn lemma_power_82()
    ensures
        powmod(6975757441int, 349143971788186nat, 13427688667394608761327070753331941386769int) == 6257387668360144553750808368122272947907int,
{
    let n: int = 13427688667394608761327070753331941386769int;
    let x: int = 6975757441int;
    let e536 = lemma_chain_start(x, n, 0int, 6975757441int);
    let e537 = lemma_chain_square(x, n, e536, 6975757441int, 0int, 48661191875666868481int);
    let e538 = lemma_chain_square(x, n, e537, 48661191875666868481int, 0int, 2367911594760467245844106297320951247361int);
    let e539 = lemma_chain_square_mul(x, n, e538, 2367911594760467245844106297320951247361int, 417570399454978837652070975623934616932int, 3369085829665295039719726047988941291613int, 1750258449int, 5006375611223139495300354986916316581052int);
    let e540 = lemma_chain_square_mul(x, n, e539, 5006375611223139495300354986916316581052int, 1866575654342529780401819591500974383322int, 9445589947569792983895022774177220360086int, 4907035454int, 5215424273944338003264882564041204391800int);
    let e541 = lemma_chain_square_mul(x, n, e540, 5215424273944338003264882564041204391800int, 2025713511164211513717530325675302179848int, 2934355096317448053888154767734141608888int, 1524413464int, 2696150563261915438721230726698682677792int);
    let e542 = lemma_chain_square_mul(x, n, e541, 2696150563261915438721230726698682677792int, 541361066661370639615823235869901501391int, 1950706119934537218240952368435967499585int, 1013402460int, 3685768123569358049023131219336712110245int);
    let e543 = lemma_chain_square(x, n, e542, 3685768123569358049023131219336712110245int, 1011707003135028687459289653637441945964int, 2102179475110504523136566918620911409709int);
    let e544 = lemma_chain_square_mul(x, n, e543, 2102179475110504523136566918620911409709int, 329107909413074824413523407519591611766int, 7486279698192757501232950486671762340627int, 3889163101int, 13128388190649761665510258226095607444838int);
    let e545 = lemma_chain_square_mul(x, n, e544, 13128388190649761665510258226095607444838int, 12835759061267712356929776782140367256666int, 13276878186931383566417469593779013394090int, 6897410574int, 6869644368891401144717321740413258628284int);
    let e546 = lemma_chain_square(x, n, e545, 6869644368891401144717321740413258628284int, 3514529933184551755595595519140648697749int, 2258946307153316941982635285116296101675int);
    let e547 = lemma_chain_square(x, n, e546, 2258946307153316941982635285116296101675int, 380023587454215071107259162751623661364int, 4207902461478219665733672863242531712709int);
    let e548 = lemma_chain_square(x, n, e547, 4207902461478219665733672863242531712709int, 1318651598492122565683581807661450340304int, 12842506400995115182295479669224179080905int);
    let e549 = lemma_chain_square_mul(x, n, e548, 12842506400995115182295479669224179080905int, 12282826534404753579575025002476700209909int, 11720305508211673356165282440143680325004int, 6088762584int, 12067752428044557618490697088431791503668int);
    let e550 = lemma_chain_square(x, n, e549, 12067752428044557618490697088431791503668int, 10845548498469335812949731658438267169202int, 5091889549594755824004546179636610365886int);
    let e551 = lemma_chain_square_mul(x, n, e550, 5091889549594755824004546179636610365886int, 1930886232731146529024857583755355668047int, 8134222584396329363989600468161190694853int, 4225772962int, 7022996365753006084301420253863550411395int);
    let e552 = lemma_chain_square_mul(x, n, e551, 7022996365753006084301420253863550411395int, 3673191952472490065726722760259534435284int, 3254814498960393943676247235993501488629int, 1690893870int, 4231641991314679549572089270861322432359int);
    let e553 = lemma_chain_square(x, n, e552, 4231641991314679549572089270861322432359int, 1333572321060683641385296516724907685779int, 2633582393516629579489727456836370246830int);
    let e554 = lemma_chain_square_mul(x, n, e553, 2633582393516629579489727456836370246830int, 516526439898947481243383903458391078300int, 6649322094176122579517409222035862036200int, 3454359065int, 5842453141778093282990115084437395153215int);
    let e555 = lemma_chain_square_mul(x, n, e554, 5842453141778093282990115084437395153215int, 2542079993019068553800201490875380598548int, 3958346758458328795159507889272937024813int, 2056382713int, 3197636575067170704414203112282667859236int);
    let e556 = lemma_chain_square(x, n, e555, 3197636575067170704414203112282667859236int, 761477266823706587087734817310079812995int, 7462946224101749833552808866430623240541int);
    let e557 = lemma_chain_square_mul(x, n, e556, 7462946224101749833552808866430623240541int, 4147814841661893081136272681102882831980int, 379792882613482905375539754868723900061int, 197304472int, 4229166006799508630124015787973655772933int);
    let e558 = lemma_chain_square(x, n, e557, 4229166006799508630124015787973655772933int, 1332012199277399122963895758186742371083int, 3712901001186055841377967680935431021662int);
    let e559 = lemma_chain_square_mul(x, n, e558, 3712901001186055841377967680935431021662int, 1026657244301692588308025360557752483873int, 6743050726920492717738903427955185165907int, 3503051600int, 12737534038412654956966127729581210483587int);
    let e560 = lemma_chain_square(x, n, e559, 12737534038412654956966127729581210483587int, 12082851888999118045128327630079936284290int, 12895351089008711360340135177050767827559int);
    let e561 = lemma_chain_square(x, n, e560, 12895351089008711360340135177050767827559int, 12384117909479623816832838974867560794196int, 9954475446451767344175040475225113505757int);
    let e562 = lemma_chain_square_mul(x, n, e561, 9954475446451767344175040475225113505757int, 7379645437760806853295094796618280821471int, 13288868996581400570150434545446621625850int, 6903639865int, 6342761858652700313404751339292803503665int);
    let e563 = lemma_chain_square_mul(x, n, e562, 6342761858652700313404751339292803503665int, 2996094785342193711550122323130842400365int, 1527172540211119951990429571156856661540int, 793374457int, 5809340385295494483458571896424391159707int);
    let e564 = lemma_chain_square(x, n, e563, 5809340385295494483458571896424391159707int, 2513346604034233653377343431051227484763int, 8504903036796324040016022070534343025102int);
    let e565 = lemma_chain_square_mul(x, n, e564, 8504903036796324040016022070534343025102int, 5386882095423371936352643989557116714974int, 1512941859675529747139838831497334331398int, 785981541int, 4564903429907626920638404958219982801489int);
    let e566 = lemma_chain_square(x, n, e565, 4564903429907626920638404958219982801489int, 1551893541811295686196600575119640237949int, 6259332003502039116132253604784580320340int);
    let e567 = lemma_chain_square(x, n, e566, 6259332003502039116132253604784580320340int, 2917794573626113677265786069130685187590int, 359897730427933795316791055025508718890int);
    let e568 = lemma_chain_square_mul(x, n, e567, 359897730427933795316791055025508718890int, 9646215337245368838204849129662769767int, 6818043268295726599014745598641495819277int, 3542010634int, 11920880904688682318073286628891419088611int);
    let e569 = lemma_chain_square_mul(x, n, e568, 11920880904688682318073286628891419088611int, 10583161783370758922519107312409766806487int, 3079082952007132928559887319866624738818int, 1599600373int, 13027714298669905033653990214274515379901int);
    let e570 = lemma_chain_square_mul(x, n, e569, 13027714298669905033653990214274515379901int, 12639654079848392819075901293586294790279int, 1387770873389889319725963285539074351250int, 720954531int, 10837094164793767237419759112166901150911int);
    let e571 = lemma_chain_square_mul(x, n, e570, 10837094164793767237419759112166901150911int, 8746301232153504798984083191902716374631int, 2802230023345260972971803963318125472682int, 1455773768int, 9880359604932038909329065948861251251170int);
    let e572 = lemma_chain_square_mul(x, n, e571, 9880359604932038909329065948861251251170int, 7270164533961779661632981614039871914086int, 24520447676484184303705583049161240766int, 12738506int, 2680147481301572166074686538735211812692int);
    let e573 = lemma_chain_square(x, n, e572, 2680147481301572166074686538735211812692int, 534953609623786769788935521736181369851int, 8316675676090973147705635840013465385445int);
    let e574 = lemma_chain_square_mul(x, n, e573, 8316675676090973147705635840013465385445int, 5151079684267346301564926913529730685286int, 322404100958799630106221462254874467091int, 167490687int, 6548224232610631873545166800417280353828int);
    let e575 = lemma_chain_square(x, n, e574, 6548224232610631873545166800417280353828int, 3193344860956551460582108945237371518914int, 7088788175701355001991212376043801404718int);
    let e576 = lemma_chain_square_mul(x, n, e575, 7088788175701355001991212376043801404718int, 3742335635319253584623882112332112083096int, 8861536376625141524749730149642429702700int, 4603616441int, 4087807930543067855701041589350834521571int);
    let e577 = lemma_chain_square_mul(x, n, e576, 4087807930543067855701041589350834521571int, 1244456443020367926654937384742621207749int, 3093076891346989055899443326679755435060int, 1606870301int, 9688243553545239392989304391108126833991int);
    let e578 = lemma_chain_square(x, n, e577, 9688243553545239392989304391108126833991int, 6990187624823972141709934307606454540663int, 12493568841651287431447246628884152300234int);
    let e579 = lemma_chain_square(x, n, e578, 12493568841651287431447246628884152300234int, 11624432638217109255610047179365678222888int, 11535482015765458034085406181407080285884int);
    let e580 = lemma_chain_square_mul(x, n, e579, 11535482015765458034085406181407080285884int, 9909921851194330570033984181540747651420int, 1406877913570180601429511409964557599476int, 730880743int, 4167690680462730316845845174423627611549int);
    let e581 = lemma_chain_square_mul(x, n, e580, 4167690680462730316845845174423627611549int, 1293569283460766307423105503385407124131int, 809266461451768132758476614014174156662int, 420418337int, 924123676493862096836708245997949438789int);
    let e582 = lemma_chain_square(x, n, e581, 924123676493862096836708245997949438789int, 63600265884198212087938749192994796685int, 4383069838797081391962486752459953725756int);
    let e583 = lemma_chain_square_mul(x, n, e582, 4383069838797081391962486752459953725756int, 1430722865836318640186194513354890888055int, 659757372162544574150671416167020627241int, 342747550int, 5205209538472334137091924592218215884331int);
    let e584 = lemma_chain_square(x, n, e583, 5205209538472334137091924592218215884331int, 2017786307869505625295993573335808614166int, 6257387668360144553750808368122272947907int);
    assert(e584 == 349143971788186nat);
}

/// `6975757441^1464415957447078998913 mod 13427688667394608761327070753331941386769`, by repeated squaring.
proof fn lemma_power_83()
    ensures
        pow(6975757441int, 1464415957447078998913nat) % 13427688667394608761327070753331941386769int == 5693772440853184975873974442930081454945int,
{
    let n: int = 13427688667394608761327070753331941386769int;
    let x: int = 6975757441int;
    lemma_power_82();
    let e585: nat = 349143971788186nat;
    let e586 = lemma_chain_square_mul(x, n, e585, 6257387668360144553750808368122272947907int, 2915982147189809751615283263369462755373int, 89278330958442418240812847858509820812int, 46380579int, 6477914984984562003423899176988476502841int);
    let e587 = lemma_chain_square_mul(x, n, e586, 6477914984984562003423899176988476502841int, 3125138182164134567005530287187567898177int, 7091799547358739508758076482553514051168int, 3684228513int, 10465968003639030903825854112354119996591int);
    let e588 = lemma_chain_square(x, n, e587, 10465968003639030903825854112354119996591int, 8157508635062020954745358604347153250351int, 12239920686123619620708110247733075615362int);
    let e589 = lemma_chain_square(x, n, e588, 12239920686123619620708110247733075615362int, 11157218648238574257582606823517111571655int, 10349712446653742391159123354917157958349int);
    let e590 = lemma_chain_square_mul(x, n, e589, 10349712446653742391159123354917157958349int, 7977288599825970813731575838698960443749int, 3231747929141873455122326241187341448820int, 1678910661int, 7870072755933923246521860120540237225311int);
    let e591 = lemma_chain_square(x, n, e590, 7870072755933923246521860120540237225311int, 4612710848300543316960274973999350870234int, 8444193018953462496837642078447255512775int);
    let e592 = lemma_chain_square(x, n, e591, 8444193018953462496837642078447255512775int, 5310250893326503688961354797880467816421int, 1366097001640905288094162713368137866876int);
    let e593 = lemma_chain_square_mul(x, n, e592, 1366097001640905288094162713368137866876int, 138983041990232320847901822037938531889int, 3834450763951259864794573781796908822735int, 1992018068int, 11852232424810777396641698627031402078843int);
    let e594 = lemma_chain_square_mul(x, n, e593, 11852232424810777396641698627031402078843int, 10461622765565101560446592778584703320825int, 1848304665247113280723071007571971054224int, 960204346int, 6665312742177954376642720324346821782710int);
    let e595 = lemma_chain_square_mul(x, n, e594, 6665312742177954376642720324346821782710int, 3308565982685977074873287546188912363200int, 12407707838570016028664744749725452443300int, 6445871841int, 9785092661597307322345989677604818523571int);
    let e596 = lemma_chain_square(x, n, e595, 9785092661597307322345989677604818523571int, 7130641822858377877869383837863678652263int, 1707608032911883840990293341643142483794int);
    let e597 = lemma_chain_square(x, n, e596, 1707608032911883840990293341643142483794int, 217157640923393108588977583881769236646int, 12873585036074890534817568981199778297662int);
    let e598 = lemma_chain_square_mul(x, n, e597, 12873585036074890534817568981199778297662int, 12342346906171453789502972940117062330356int, 8285338246397316102572871855945229206480int, 4304278372int, 6491853164170009432168990477711891757612int);
    let e599 = lemma_chain_square_mul(x, n, e598, 6491853164170009432168990477711891757612int, 3138601031723313485644201271279538550948int, 7079366236752031566256374903826680335532int, 3677769341int, 2150113419081104459112637096647674444383int);
    let e600 = lemma_chain_square_mul(x, n, e599, 2150113419081104459112637096647674444383int, 344287675222785845642691001366457584118int, 3524511007587365310337144155681370515947int, 1831002676int, 4569568431206695702091862206246104417783int);
    let e601 = lemma_chain_square(x, n, e600, 4569568431206695702091862206246104417783int, 1555067008530246183524409659082281530545int, 4359479627195326744174705537726274275984int);
    let e602 = lemma_chain_square(x, n, e601, 4359479627195326744174705537726274275984int, 1415363663150724594527169128461107391258int, 8260326989117391149811399162467011702854int);
    let e603 = lemma_chain_square(x, n, e602, 8260326989117391149811399162467011702854int, 5081515043823288126733828064046461755659int, 12427030419953019358272941250421898269545int);
    let e604 = lemma_chain_square(x, n, e603, 12427030419953019358272941250421898269545int, 11500943228854454323384889104582729922935int, 1476294701520350783444148583229075860010int);
    let e605 = lemma_chain_square(x, n, e604, 1476294701520350783444148583229075860010int, 162309843467642912956465390421320112512int, 7231167392854148452020912432416729046372int);
    let e606 = lemma_chain_square(x, n, e605, 7231167392854148452020912432416729046372int, 3894175919527252068443940698999675138067int, 11228447681346013439917660636665004326861int);
    let e607 = lemma_chain_square_mul(x, n, e606, 11228447681346013439917660636665004326861int, 9389407250621617574508297215670185598630int, 2870138965785491570212288208997099586851int, 1491052834int, 5693772440853184975873974442930081454945int);
    lemma_chain_end(x, n, 1464415957447078998913nat, e607, 5693772440853184975873974442930081454945int);
}

/// `5693772440853184975873974442930081454945^462 mod 13427688667394608761327070753331941386769`, by repeated squaring.
proof fn lemma_power_84()
    ensures
        pow(5693772440853184975873974442930081454945int, 462nat) % 13427688667394608761327070753331941386769int == 10265023407933947886775309589286649233988int,
{
    let n: int = 13427688667394608761327070753331941386769int;
    let x: int = 5693772440853184975873974442930081454945int;
    let e608 = lemma_chain_start(x, n, 0int, 5693772440853184975873974442930081454945int);
    let e609 = lemma_chain_square_mul(x, n, e608, 5693772440853184975873974442930081454945int, 2414342885901117903004941657930039745999int, 6714156371872924339203457695411485665794int, 2847018534662411284030853196297692518051int, 4923550971172323012661982054091033584111int);
    let e610 = lemma_chain_square_mul(x, n, e609, 4923550971172323012661982054091033584111int, 1805325902781413340865072353691758898227int, 1699189399832943973329641048828596301758int, 720511028830391626021525067911648306947int, 10106052761568546133088442429528744709067int);
    let e611 = lemma_chain_square(x, n, e610, 10106052761568546133088442429528744709067int, 7606096994757333469518782976683467587603int, 10130545222687761098271876408743659385782int);
    let e612 = lemma_chain_square(x, n, e611, 10130545222687761098271876408743659385782int, 7643009087492855016728336131668249071654int, 5738991169728047353469834420735895205598int);
    let e613 = lemma_chain_square_mul(x, n, e612, 5738991169728047353469834420735895205598int, 2452843557967829942370057558928224795756int, 8827731227635727025203919635504264785240int, 3743242342311766404160321633144759408000int, 13304178053789833717502969872167688259800int);
    let e614 = lemma_chain_square_mul(x, n, e613, 13304178053789833717502969872167688259800int, 13181803515949912399915106230702667847843int, 406884742906697645841397174758190650733int, 172532234932678288716030120001524747346int, 11474013575548547547430374408941378459611int);
    let e615 = lemma_chain_square_mul(x, n, e614, 11474013575548547547430374408941378459611int, 9804590409632811257965590139788236589800int, 3288012319255679385447537784299757915121int, 1394223115555467223953614690962096335054int, 7987006277324687660438053253822269222819int);
    let e616 = lemma_chain_square(x, n, e615, 7987006277324687660438053253822269222819int, 4750800443335097025661118768302461643317int, 10265023407933947886775309589286649233988int);
    lemma_chain_end(x, n, 462nat, e616, 10265023407933947886775309589286649233988int);
}

/// `5693772440853184975873974442930081454945^310109350218198 mod 13427688667394608761327070753331941386769`, by repeated squaring.
proof fn lemma_power_85()
    ensures
        powmod(5693772440853184975873974442930081454945int, 310109350218198nat, 13427688667394608761327070753331941386769int) == 5489277163797794553055067081282286358627int,
{
    let n: int = 13427688667394608761327070753331941386769int;
    let x: int = 5693772440853184975873974442930081454945int;
    let e617 = lemma_chain_start(x, n, 0int, 5693772440853184975873974442930081454945int);
    let e618 = lemma_chain_square(x, n, e617, 5693772440853184975873974442930081454945int, 2414342885901117903004941657930039745999int, 6714156371872924339203457695411485665794int);
    let e619 = lemma_chain_square(x, n, e618, 6714156371872924339203457695411485665794int, 3357234212275544162696574785588346432633int, 6517906428681489323641989751139405617659int);
    let e620 = lemma_chain_square(x, n, e619, 6517906428681489323641989751139405617659int, 3163843403385263053953166244706489266355int, 1800656135140150936819684290595178783286int);
    let e621 = lemma_chain_square_mul(x, n, e620, 1800656135140150936819684290595178783286int, 241468401400386740636673682400231646517int, 8921346596422272994931559421110164224223int, 3782938273610162105123776785752582890214int, 2212633613279495793791720315957812954169int);
    let e622 = lemma_chain_square_mul(x, n, e621, 2212633613279495793791720315957812954169int, 364600909946790221606844641593650520771int, 1687117470609487111581899031082115401662int, 715392142056724302653107807419097604652int, 9836665204045236303709804531435045469202int);
    let e623 = lemma_chain_square(x, n, e622, 9836665204045236303709804531435045469202int, 7206004304480852313807443587717440363882int, 2882256319966999871322075937141270239546int);
    let e624 = lemma_chain_square_mul(x, n, e623, 2882256319966999871322075937141270239546int, 618676951764745395367608814589608150107int, 8105584329652586180125840251561926551833int, 3437028800440763977111139426614462254454int, 10741145350658562665128216965396689745059int);
    let e625 = lemma_chain_square(x, n, e624, 10741145350658562665128216965396689745059int, 8592111889228056562825946346631026936657int, 10160285135717730755359660467455914022248int);
    let e626 = lemma_chain_square(x, n, e625, 10160285135717730755359660467455914022248int, 7687949623806461329577839682971000710928int, 2153349746230882403676156533224626061872int);
    let e627 = lemma_chain_square(x, n, e626, 2153349746230882403676156533224626061872int, 345324891308513790034724744686895459131int, 13021535015040606158262448175850468506645int);
    let e628 = lemma_chain_square(x, n, e627, 13021535015040606158262448175850468506645int, 12627666484378548737350455018627232507637int, 13415330023578724499016800630353245901172int);
    let e629 = lemma_chain_square(x, n, e628, 13415330023578724499016800630353245901172int, 13402982754473764148073346006589422817972int, 3116304478699564595252148293900854761116int);
    let e630 = lemma_chain_square_mul(x, n, e629, 3116304478699564595252148293900854761116int, 723233450261940809578369490803580616263int, 6118805970633312000619252609337571141209int, 2594570790959494784470754072494854349236int, 4757493083020340646575033036041890670021int);
    let e631 = lemma_chain_square(x, n, e630, 4757493083020340646575033036041890670021int, 1685602116315528102388329583192091832341int, 10878343937265779902123116432538524444212int);
    let e632 = lemma_chain_square_mul(x, n, e631, 10878343937265779902123116432538524444212int, 8813010917120741657211867006920295389860int, 9111178298914543045678624040597599538604int, 3863433029098147992064923670266108216478int, 2922546478157261264346764534936437217198int);
    let e633 = lemma_chain_square(x, n, e632, 2922546478157261264346764534936437217198int, 636094426118883648297192965556330526146int, 6695877128392071258538758843703574008930int);
    let e634 = lemma_chain_square_mul(x, n, e633, 6695877128392071258538758843703574008930int, 3338979002945813530671717260226280661940int, 10545014037624989130774231538460841873040int, 4471425559756364733555525956426731746445int, 9162159504859112123098751924311584396595int);
    let e635 = lemma_chain_square_mul(x, n, e634, 9162159504859112123098751924311584396595int, 6251646792818302392568526220838650693412int, 4717795193420545833399997159507515328197int, 2000497101121693104796988751188285422121int, 3052760083017225958265750426123654267116int);
    let e636 = lemma_chain_square_mul(x, n, e635, 3052760083017225958265750426123654267116int, 694039335830950892119458755548752258004int, 8927757157870863390509605486527239008380int, 3785656558119916236960657133783399790758int, 4029952179134414573896889258074497758198int);
    let e637 = lemma_chain_square_mul(x, n, e636, 4029952179134414573896889258074497758198int, 1209479529082750473047330226733494586560int, 583952848550671316674920420246966982564int, 247614814298539999670952898913198153914int, 2277280414572719388395971245397701415114int);
    let e638 = lemma_chain_square(x, n, e637, 2277280414572719388395971245397701415114int, 386217331594026594311195799053664520109int, 7206858863339417753076478710403800595175int);
    let e639 = lemma_chain_square_mul(x, n, e638, 7206858863339417753076478710403800595175int, 3868038346928077657991311658114870848602int, 12303831393625823125555190071404508333687int, 5217220762352084585513667563000501023917int, 5601113001565747378925994260169099878042int);
    let e640 = lemma_chain_square(x, n, e639, 5601113001565747378925994260169099878042int, 2336401121101960655677969905969851758096int, 89927399426447302665155818080310721940int);
    let e641 = lemma_chain_square_mul(x, n, e640, 89927399426447302665155818080310721940int, 602258316223898062781896308574399861int, 1984851184717976832076192330251736524491int, 841640825511842501042956826928377075866int, 9265280156356131595993947533877743941041int);
    let e642 = lemma_chain_square_mul(x, n, e641, 9265280156356131595993947533877743941041int, 6393164043504994068428025409074060591570int, 2068314574214710792395688538508173226351int, 877031990641448297510118589602103833446int, 5489082984141976167658800048636649179721int);
    let e643 = lemma_chain_square(x, n, e642, 5489082984141976167658800048636649179721int, 2243873294438181966733107132447656905384int, 7291542998058991135518206625538175173545int);
    let e644 = lemma_chain_square_mul(x, n, e643, 7291542998058991135518206625538175173545int, 3959475127066606513157256353354326046519int, 6011169910353785813566757156296802759914int, 2548929634924225206117643797438106352383int, 3275832125730598732551690726183435254203int);
    let e645 = lemma_chain_square(x, n, e644, 3275832125730598732551690726183435254203int, 799175225295927072819038680520924244366int, 893586657148913171832566646075753971755int);
    let e646 = lemma_chain_square_mul(x, n, e645, 893586657148913171832566646075753971755int, 59466460208710118257984635891909327270int, 8567030928359517293238584105447668889395int, 3632697019426418756775965036097346604587int, 9860395278485862239600304178251604298872int);
    let e647 = lemma_chain_square(x, n, e646, 9860395278485862239600304178251604298872int, 7240813922359985570371466179812057570056int, 528452700718245782386023883217691483320int);
    let e648 = lemma_chain_square(x, n, e647, 528452700718245782386023883217691483320int, 20797492689454308869253749464125565769int, 11042909245536081506929260055753262312039int);
    let e649 = lemma_chain_square_mul(x, n, e648, 11042909245536081506929260055753262312039int, 9081670541055787953665259440572877576015int, 8404511247231059364009799342057491591986int, 3563783440594909547985367951752854945026int, 12802213596160600092992352138613483309776int);
    let e650 = lemma_chain_square(x, n, e649, 12802213596160600092992352138613483309776int, 12205873774814023983274631191280083059832int, 10335060215669663483092008883576697007368int);
    let e651 = lemma_chain_square_mul(x, n, e650, 10335060215669663483092008883576697007368int, 7954717472775828237773861794492169950137int, 12942538520809487838765515673701684750071int, 5488053154181771282293187540334947023529int, 6465279861040198267963326544389239763294int);
    let e652 = lemma_chain_square(x, n, e651, 6465279861040198267963326544389239763294int, 3112958954959330421623623057986390047240int, 7694312459417922489662560472184128762876int);
    let e653 = lemma_chain_square(x, n, e652, 7694312459417922489662560472184128762876int, 4408982490554050317562241218542435974614int, 135390544127825361742217631480996309210int);
    let e654 = lemma_chain_square_mul(x, n, e653, 135390544127825361742217631480996309210int, 1365134379659797079229379278609933557int, 9477565158617616572179999909112401916767int, 4018792857296553453589025917354180852929int, 5634180333423928767300346105978655066414int);
    let e655 = lemma_chain_square(x, n, e654, 5634180333423928767300346105978655066414int, 2364069410294146987026312375662462467923int, 670784431246835615289541279015951708609int);
    let e656 = lemma_chain_square(x, n, e655, 670784431246835615289541279015951708609int, 33509248266659837475548135153822771932int, 12984388120391531088306523986786755347173int);
    let e657 = lemma_chain_square_mul(x, n, e656, 12984388120391531088306523986786755347173int, 12555722659131125612751975347451365728564int, 11876396400889058910619521046773564122213int, 5035974559659697717395862154460916708506int, 5467844527986303358072700046634255036171int);
    let e658 = lemma_chain_square_mul(x, n, e657, 5467844527986303358072700046634255036171int, 2226542819303448723816381952250798325002int, 1063077532274082567149775245770273642703int, 450779110663342447851549294045527894211int, 3443624214712032285691269251919655422076int);
    let e659 = lemma_chain_square_mul(x, n, e658, 3443624214712032285691269251919655422076int, 883141397293953635867137394162117942525int, 13244800462139053245003999532900170698051int, 5616221951812599259835027010788869204552int, 3164584211729066217600734739781548439707int);
    let e660 = lemma_chain_square(x, n, e659, 3164584211729066217600734739781548439707int, 745816609335195396895939304633392049895int, 5281976397995366772068801432840273406594int);
    let e661 = lemma_chain_square_mul(x, n, e660, 5281976397995366772068801432840273406594int, 2077742146101860759519457074448069848100int, 7663729597362573087507683091396462891936int, 3249668163782393626741749524672669176275int, 10408259802215180337223145830052774118045int);
    let e662 = lemma_chain_square(x, n, e661, 10408259802215180337223145830052774118045int, 8067797429163075289678778913073541061216int, 10339259616257513479602172645924633170921int);
    let e663 = lemma_chain_square_mul(x, n, e662, 10339259616257513479602172645924633170921int, 7961183198412319299858526224477721550453int, 8240965020115240123738927545617579831884int, 3494434573204297907179168940720640665079int, 7398960319341945602657666260901489526629int);
    let e664 = lemma_chain_square_mul(x, n, e663, 7398960319341945602657666260901489526629int, 4076994571681474023104093776907530357642int, 13292156205864061589176262081126483264943int, 5636302312268996098017608223059461980724int, 6726449942167032679483907434823245852379int);
    let e665 = lemma_chain_square(x, n, e664, 6726449942167032679483907434823245852379int, 3369539609176673460555552082572672051606int, 5489277163797794553055067081282286358627int);
    assert(e665 == 310109350218198nat);
}

/// `5693772440853184975873974442930081454945^2480874801745591 mod 13427688667394608761327070753331941386769`, by repeated squaring.
proof fn lemma_power_86()
    ensures
        pow(5693772440853184975873974442930081454945int, 2480874801745591nat) % 13427688667394608761327070753331941386769int == 811163896373400091891455174287469726571int,
{
    let n: int = 13427688667394608761327070753331941386769int;
    let x: int = 5693772440853184975873974442930081454945int;
    lemma_power_85();
    let e666: nat = 310109350218198nat;
    let e667 = lemma_chain_square_mul(x, n, e666, 5489277163797794553055067081282286358627int, 2244032054016824390982478084426359077712int, 8531915059970744940816052591618137732601int, 3617806760304301762709570819573210039984int, 1216959653999026861265420485738540590249int);
    let e668 = lemma_chain_square_mul(x, n, e667, 1216959653999026861265420485738540590249int, 110293799338497000863292683521555264286int, 9904042870353640412781388686574175250067int, 4199633142014881017285934033369442772057int, 6014597109158843280791587473340426017482int);
    let e669 = lemma_chain_square_mul(x, n, e668, 6014597109158843280791587473340426017482int, 2694088259086890826932475766806527145713int, 9126323236028302067413368192838416349027int, 3869854970185162140465196564392856807576int, 811163896373400091891455174287469726571int);
    lemma_chain_end(x, n, 2480874801745591nat, e669, 811163896373400091891455174287469726571int);
}

/// `811163896373400091891455174287469726571^21 mod 13427688667394608761327070753331941386769`, by repeated squaring.
proof fn lemma_power_87()
    ensures
        pow(811163896373400091891455174287469726571int, 21nat) % 13427688667394608761327070753331941386769int == 8086824990233952433573350983079694520657int,
{
    let n: int = 13427688667394608761327070753331941386769int;
    let x: int = 811163896373400091891455174287469726571int;
    let e670 = lemma_chain_start(x, n, 0int, 811163896373400091891455174287469726571int);
    let e671 = lemma_chain_square(x, n, e670, 811163896373400091891455174287469726571int, 49002243280886715559337649540415038426int, 2086655266374972612731262257856640432447int);
    let e672 = lemma_chain_square_mul(x, n, e671, 2086655266374972612731262257856640432447int, 324265054734490298744510391334083080812int, 11328504204634664336024227005187995831381int, 684352596960896498857384600590212271472int, 4648396053495978130563679696086714370583int);
    let e673 = lemma_chain_square(x, n, e672, 4648396053495978130563679696086714370583int, 1609181327135247864618036354915306434689int, 12578104433842182396911709309350068530048int);
    let e674 = lemma_chain_square_mul(x, n, e673, 12578104433842182396911709309350068530048int, 11782274304051004037249875762272182706448int, 12035168396198953222848996039078720695792int, 727042034678405782529647568659352636175int, 8086824990233952433573350983079694520657int);
    lemma_chain_end(x, n, 21nat, e674, 8086824990233952433573350983079694520657int);
}

/// `8086824990233952433573350983079694520657^2 mod 13427688667394608761327070753331941386769`, by repeated squaring.
proof fn lemma_power_88()
    ensures
        pow(8086824990233952433573350983079694520657int, 2nat) % 13427688667394608761327070753331941386769int == 3236340864352405644842122077993382124237int,
{
    let n: int = 13427688667394608761327070753331941386769int;
    let x: int = 8086824990233952433573350983079694520657int;
    let e675 = lemma_chain_start(x, n, 0int, 8086824990233952433573350983079694520657int);
    let e676 = lemma_chain_square(x, n, e675, 8086824990233952433573350983079694520657int, 4870290043398911771277077000830888902548int, 3236340864352405644842122077993382124237int);
    lemma_chain_end(x, n, 2nat, e676, 3236340864352405644842122077993382124237int);
}

/// `8086824990233952433573350983079694520657^11 mod 13427688667394608761327070753331941386769`, by repeated squaring.
proof fn lemma_power_89()
    ensures
        pow(8086824990233952433573350983079694520657int, 11nat) % 13427688667394608761327070753331941386769int == 13427688667394608761327070753331941386768int,
{
    let n: int = 13427688667394608761327070753331941386769int;
    let x: int = 8086824990233952433573350983079694520657int;
    let e677 = lemma_chain_start(x, n, 0int, 8086824990233952433573350983079694520657int);
    let e678 = lemma_chain_square(x, n, e677, 8086824990233952433573350983079694520657int, 4870290043398911771277077000830888902548int, 3236340864352405644842122077993382124237int);
    let e679 = lemma_chain_square_mul(x, n, e678, 3236340864352405644842122077993382124237int, 780022716471690464491462734196921303506int, 4996624088304543241017548217473721120055int, 3009216667513509316262291799713529793429int, 4325234432491701750544901622060010735234int);
    let e680 = lemma_chain_square_mul(x, n, e679, 4325234432491701750544901622060010735234int, 1393214674498532487515125759558556556253int, 11833209974212500465382298387787470618199int, 7126550257790178881761376302292534816775int, 13427688667394608761327070753331941386768int);
    lemma_chain_end(x, n, 11nat, e680, 13427688667394608761327070753331941386768int);
}

/// `811163896373400091891455174287469726571^22 mod 13427688667394608761327070753331941386769`, by repeated squaring.
proof fn lemma_power_90()
    ensures
        pow(811163896373400091891455174287469726571int, 22nat) % 13427688667394608761327070753331941386769int == 7387402157000336034463263788597198938679int,
{
    let n: int = 13427688667394608761327070753331941386769int;
    let x: int = 811163896373400091891455174287469726571int;
    let e681 = lemma_chain_start(x, n, 0int, 811163896373400091891455174287469726571int);
    let e682 = lemma_chain_square(x, n, e681, 811163896373400091891455174287469726571int, 49002243280886715559337649540415038426int, 2086655266374972612731262257856640432447int);
    let e683 = lemma_chain_square_mul(x, n, e682, 2086655266374972612731262257856640432447int, 324265054734490298744510391334083080812int, 11328504204634664336024227005187995831381int, 684352596960896498857384600590212271472int, 4648396053495978130563679696086714370583int);
    let e684 = lemma_chain_square_mul(x, n, e683, 4648396053495978130563679696086714370583int, 1609181327135247864618036354915306434689int, 12578104433842182396911709309350068530048int, 759840688466501848538639208194045463418int, 11729289865747152938516749475806278788966int);
    let e685 = lemma_chain_square(x, n, e684, 11729289865747152938516749475806278788966int, 10245712733032330216579209614649667595933int, 7387402157000336034463263788597198938679int);
    lemma_chain_end(x, n, 22nat, e685, 7387402157000336034463263788597198938679int);
}

/// `7387402157000336034463263788597198938679^3 mod 13427688667394608761327070753331941386769`, by repeated squaring.
proof fn lemma_power_91()
    ensures
        pow(7387402157000336034463263788597198938679int, 3nat) % 13427688667394608761327070753331941386769int == 3365167042067484594214394565332554156896int,
{
    let n: int = 13427688667394608761327070753331941386769int;
    let x: int = 7387402157000336034463263788597198938679int;
    let e686 = lemma_chain_start(x, n, 0int, 7387402157000336034463263788597198938679int);
    let e687 = lemma_chain_square_mul(x, n, e686, 7387402157000336034463263788597198938679int, 4064266902595845102513019536780742047757int, 1006161818480579120439616216996596337908int, 553551856335750888290420472845715335244int, 3365167042067484594214394565332554156896int);
    lemma_chain_end(x, n, 3nat, e687, 3365167042067484594214394565332554156896int);
}

/// `7387402157000336034463263788597198938679^7 mod 13427688667394608761327070753331941386769`, by repeated squaring.
proof fn lemma_power_92()
    ensures
        pow(7387402157000336034463263788597198938679int, 7nat) % 13427688667394608761327070753331941386769int == 2685568617321800533408078349748043375580int,
{
    let n: int = 13427688667394608761327070753331941386769int;
    let x: int = 7387402157000336034463263788597198938679int;
    let e688 = lemma_chain_start(x, n, 0int, 7387402157000336034463263788597198938679int);
    let e689 = lemma_chain_square_mul(x, n, e688, 7387402157000336034463263788597198938679int, 4064266902595845102513019536780742047757int, 1006161818480579120439616216996596337908int, 553551856335750888290420472845715335244int, 3365167042067484594214394565332554156896int);
    let e690 = lemma_chain_square_mul(x, n, e689, 3365167042067484594214394565332554156896int, 843358041843436729150337891371676998553int, 9964926297775224802560244830986958009559int, 5482322375055308997553862320075557343749int, 2685568617321800533408078349748043375580int);
    lemma_chain_end(x, n, 7nat, e690, 2685568617321800533408078349748043375580int);
}

/// `6975757441^559650467971905 mod 13427688667394608761327070753331941386769`, by repeated squaring.
proof fn lemma_power_93()
    ensures
        powmod(6975757441int, 559650467971905nat, 13427688667394608761327070753331941386769int) == 2106029366439793109765963802572584463984int,
{
    let n: int = 13427688667394608761327070753331941386769int;
    let x: int = 6975757441int;
    let e691 = lemma_chain_start(x, n, 0int, 6975757441int);
    let e692 = lemma_chain_square_mul(x, n, e691, 6975757441int, 0int, 48661191875666868481int, 0int, 339448671314611904643504117121int);
    let e693 = lemma_chain_square_mul(x, n, e692, 339448671314611904643504117121int, 8581179033220224012int, 12854518090527551551817456605357572431413int, 6677992202int, 8721710388118662326264716255761248918795int);
    let e694 = lemma_chain_square_mul(x, n, e693, 8721710388118662326264716255761248918795int, 5665027986456629822506867206135027922684int, 7435127685315920429451527442292231684029int, 3862589352int, 6978152987802555223215157944339204526101int);
    let e695 = lemma_chain_square_mul(x, n, e694, 6978152987802555223215157944339204526101int, 3626433433731525912846578648639310166713int, 5566632180213060837095646700170187841904int, 2891895754int, 9158924780382690980601061155555416728838int);
    let e696 = lemma_chain_square_mul(x, n, e695, 9158924780382690980601061155555416728838int, 6247233251423352444316849689299971660240int, 4243542325271753738951584000639521465684int, 2204543364int, 6150090577451229968381278349485832803728int);
    let e697 = lemma_chain_square_mul(x, n, e696, 6150090577451229968381278349485832803728int, 2816837286576243390786032877815510559637int, 9648150040076537239905776157540313455131int, 5012266526int, 4816807733520320095282937062606214885277int);
    let e698 = lemma_chain_square(x, n, e697, 4816807733520320095282937062606214885277int, 1727895047048555499714731210373558134631int, 6098144105457809715858046598151327269490int);
    let e699 = lemma_chain_square(x, n, e698, 6098144105457809715858046598151327269490int, 2769453660422508184942003876756479953474int, 11017626742679719849481065146190925674594int);
    let e700 = lemma_chain_square_mul(x, n, e699, 11017626742679719849481065146190925674594int, 9040133566379776552874348620883862870312int, 9011041840030031498435554066179897362908int, 4681285344int, 4282551229661785828088369092973003184892int);
    let e701 = lemma_chain_square_mul(x, n, e700, 4282551229661785828088369092973003184892int, 1365852715904252087757243176926577282519int, 6822561335689708384209160678967175460553int, 3544357795int, 7003138224082241737581297737027376710518int);
    let e702 = lemma_chain_square_mul(x, n, e701, 7003138224082241737581297737027376710518int, 3652448772117519814280217081763366364040int, 1432121078125441649655466909539478441564int, 743994704int, 11644085522416097728237035876204605006348int);
    let e703 = lemma_chain_square_mul(x, n, e702, 11644085522416097728237035876204605006348int, 10097398816117162921924903537169927861026int, 804436796699186305038325948004773132110int, 417909299int, 12207428002190943573729321740579487865579int);
    let e704 = lemma_chain_square_mul(x, n, e703, 12207428002190943573729321740579487865579int, 11098060293171092781645412749797369815434int, 5192738725709966713128999187401633412495int, 2697656067int, 5655946898886601085335725585860432247772int);
    let e705 = lemma_chain_square_mul(x, n, e704, 5655946898886601085335725585860432247772int, 2382370943757662211694493608076096813092int, 12126156139862107855696293751516524184236int, 6299604199int, 11387143845499771643203207411728856457045int);
    let e706 = lemma_chain_square_mul(x, n, e705, 11387143845499771643203207411728856457045int, 9656691346513233258902920351795306859242int, 6642202443406606055492609057502565962927int, 3450660368int, 800703310581332419323087300658602518815int);
    let e707 = lemma_chain_square_mul(x, n, e706, 800703310581332419323087300658602518815int, 47746548751364826278492433342832503995int, 6725988999727560406019102771873396362070int, 3494187940int, 9248763320217348327220385772217017297010int);
    let e708 = lemma_chain_square_mul(x, n, e707, 9248763320217348327220385772217017297010int, 6370390695839330104071373229781347265715int, 7017397360480310150201755215923126615265int, 3645576172int, 2936063842701317361831297044314265468597int);
    let e709 = lemma_chain_square_mul(x, n, e708, 2936063842701317361831297044314265468597int, 641992162757722533368574582931269452537int, 367967945137023477498909838752787865456int, 191161352int, 11444839559428388217661277691669681906408int);
    let e710 = lemma_chain_square(x, n, e709, 11444839559428388217661277691669681906408int, 9754795168815307451514105076435677325529int, 11377782103127713737556915225347964936663int);
    let e711 = lemma_chain_square(x, n, e710, 11377782103127713737556915225347964936663int, 9640819711630341811781662166407399673256int, 3553056308651212489723409565051480025705int);
    let e712 = lemma_chain_square(x, n, e711, 3553056308651212489723409565051480025705int, 940162484039456900231344688585990633079int, 4940479189566670913564514759699956415274int);
    let e713 = lemma_chain_square_mul(x, n, e712, 4940479189566670913564514759699956415274int, 1817761435131436447681974489430256594867int, 4421621181312863212825309556568553380353int, 2297056300int, 8949025064639775537874614715894674861973int);
    let e714 = lemma_chain_square_mul(x, n, e713, 8949025064639775537874614715894674861973int, 5964172359909945778956010805196294003198int, 5292889108239559808442163261423960565467int, 2749684736int, 12694827144592041434986160797801601231963int);
    let e715 = lemma_chain_square_mul(x, n, e714, 12694827144592041434986160797801601231963int, 12001964018007034712862749062361934415383int, 7880058859283475143184878267939026565842int, 4093733522int, 2471855370090928267274094652613585359904int);
    let e716 = lemma_chain_square(x, n, e715, 2471855370090928267274094652613585359904int, 455035048994243942463964684738946188641int, 2320929161207742094470655430360595398287int);
    let e717 = lemma_chain_square_mul(x, n, e716, 2320929161207742094470655430360595398287int, 401164511985193636149757685007971694996int, 3117195196648301593718280840888424626445int, 1619399892int, 10280394752917144278933060616807305298297int);
    let e718 = lemma_chain_square(x, n, e717, 10280394752917144278933060616807305298297int, 7870789894945697977856722335595948218397int, 426714172699873518056079949193092910916int);
    let e719 = lemma_chain_square_mul(x, n, e718, 426714172699873518056079949193092910916int, 13560411601222182610560956182473823557int, 12953138782986264995352385188461911641723int, 6729226189int, 11351810567996256487534108489774810417502int);
    let e720 = lemma_chain_square(x, n, e719, 11351810567996256487534108489774810417502int, 9596856641797240712209271163997496427671int, 11939900680142662994980135917388303035005int);
    let e721 = lemma_chain_square_mul(x, n, e720, 11939900680142662994980135917388303035005int, 10616959611064065572617967356827733170863int, 10377013241936333176186516950128410838378int, 5390914931int, 11915820161696738520100306990170533922759int);
    let e722 = lemma_chain_square_mul(x, n, e721, 11915820161696738520100306990170533922759int, 10574178002106475593007233374222362530106int, 4431095689406096244632644598723425604567int, 2301978359int, 3425662467411613876021439046269486900976int);
    let e723 = lemma_chain_square_mul(x, n, e722, 3425662467411613876021439046269486900976int, 873952593876278405867763726943629464234int, 10573868316378336308961845139725983432630int, 5493182215int, 11841206443836021358283541213989537586495int);
    let e724 = lemma_chain_square_mul(x, n, e723, 11841206443836021358283541213989537586495int, 10442167190397753401941550611533775761412int, 4865590196696244742061356394571448827197int, 2527700623int, 9437090523343937498022488593334710665790int);
    let e725 = lemma_chain_square(x, n, e724, 9437090523343937498022488593334710665790int, 6632465180849930951541244289540651150662int, 12681779342164266714189203297585243933022int);
    let e726 = lemma_chain_square(x, n, e725, 12681779342164266714189203297585243933022int, 11977305347708058517640750079998625685223int, 9153039055192619878410525720993731037997int);
    let e727 = lemma_chain_square(x, n, e726, 9153039055192619878410525720993731037997int, 6239206614114697210465150943810623139630int, 6154106180550147496217257885772136216539int);
    let e728 = lemma_chain_square(x, n, e727, 6154106180550147496217257885772136216539int, 2820516905001646470694285573496245688129int, 7402282951701171390115200251484556173320int);
    let e729 = lemma_chain_square(x, n, e728, 7402282951701171390115200251484556173320int, 4080657085094415930674290795873497227865int, 5753352288669408050882186886136590704215int);
    let e730 = lemma_chain_square_mul(x, n, e729, 5753352288669408050882186886136590704215int, 2465134795529941060598547458355098446675int, 11875849697952895003038619152132321723150int, 6169568639int, 2079029733380233419361303940073362521759int);
    let e731 = lemma_chain_square_mul(x, n, e730, 2079029733380233419361303940073362521759int, 321899378168838515186154582885584663924int, 9681489304957718896786578744548383232525int, 5029586456int, 2108112751255716019103773247726681967861int);
    let e732 = lemma_chain_square(x, n, e731, 2108112751255716019103773247726681967861int, 330968306019657389544069232969322611918int, 9239928591573666919507794059725310002379int);
    let e733 = lemma_chain_square_mul(x, n, e732, 9239928591573666919507794059725310002379int, 6358226087315606086752140718518405508996int, 8161537727094144983637134578203440785717int, 4239963328int, 224878724205280170032283181822224862965int);
    let e734 = lemma_chain_square(x, n, e733, 224878724205280170032283181822224862965int, 3766131450678525995803722373788635392int, 9012387729958867891660746223300434662777int);
    let e735 = lemma_chain_square(x, n, e734, 9012387729958867891660746223300434662777int, 6048928792364753416789920254302377298014int, 3540786739904742321027225641699359774963int);
    let e736 = lemma_chain_square(x, n, e735, 3540786739904742321027225641699359774963int, 933680475324712475401777651939517609641int, 13051292663459061985432939872168457411440int);
    let e737 = lemma_chain_square(x, n, e736, 13051292663459061985432939872168457411440int, 12685447541010860366923577912461243761695int, 7927106264713540266208224270476980860145int);
    let e738 = lemma_chain_square(x, n, e737, 7927106264713540266208224270476980860145int, 4679808661683350542716709557793478875877int, 736610119175824040592124100145448349612int);
    let e739 = lemma_chain_square_mul(x, n, e738, 736610119175824040592124100145448349612int, 40408627360400513340897375288159321272int, 12087485762681806021671126900413099500376int, 6279514728int, 2106029366439793109765963802572584463984int);
    assert(e739 == 559650467971905nat);
}

/// `6975757441^1146164158406463042 mod 13427688667394608761327070753331941386769`, by repeated squaring.
proof fn lemma_power_94()
    ensures
        pow(6975757441int, 1146164158406463042nat) % 13427688667394608761327070753331941386769int == 11601874884275734809707051420645867312199int,
{
    let n: int = 13427688667394608761327070753331941386769int;
    let x: int = 6975757441int;
    lemma_power_93();
    let e740: nat = 559650467971905nat;
    let e741 = lemma_chain_square_mul(x, n, e740, 2106029366439793109765963802572584463984int, 330314457102124244961173941800208941738int, 1756951177621903285518141563378948087734int, 912745711int, 10961969837111217052934801765686374430935int);
    let e742 = lemma_chain_square_mul(x, n, e741, 10961969837111217052934801765686374430935int, 8949029552757112421169467802276889772892int, 4441011484430597309656145381421141308277int, 2307129668int, 10869708694398021309279077810473935076465int);
    let e743 = lemma_chain_square(x, n, e742, 10869708694398021309279077810473935076465int, 8799024912453294124793346259716818601679int, 7499625305394772509726337842742705111074int);
    let e744 = lemma_chain_square(x, n, e743, 7499625305394772509726337842742705111074int, 4188686609773087792862065738066520766365int, 2979836117939593585349767828307926208791int);
    let e745 = lemma_chain_square_mul(x, n, e744, 2979836117939593585349767828307926208791int, 661277119966186489370782116904855497019int, 5389392599110363690286904939358920140070int, 2799818826int, 5076171511867023116979869215013671247676int);
    let e746 = lemma_chain_square(x, n, e745, 5076171511867023116979869215013671247676int, 1918983814426644941761025584048313135225int, 827590997571506181375490066273812562951int);
    let e747 = lemma_chain_square(x, n, e746, 827590997571506181375490066273812562951int, 51007055363482305503405037558097520821int, 11216761124948012023280540482131746411052int);
    let e748 = lemma_chain_square(x, n, e747, 11216761124948012023280540482131746411052int, 9369872451664250254439590234309628357683int, 1579444796316159552573705275779572050477int);
    let e749 = lemma_chain_square(x, n, e748, 1579444796316159552573705275779572050477int, 185783713519344948859901890982709166126int, 11628569969180387397256064552442196540635int);
    let e750 = lemma_chain_square_mul(x, n, e749, 11628569969180387397256064552442196540635int, 10070507507109305650149615571023372380226int, 2910142307434486569185751008250412573431int, 1511834788int, 5654498455988209295951472000336920030099int);
    let e751 = lemma_chain_square(x, n, e750, 5654498455988209295951472000336920030099int, 2381150887599248498277431460596894445058int, 11601874884275734809707051420645867312199int);
    lemma_chain_end(x, n, 1146164158406463042nat, e751, 11601874884275734809707051420645867312199int);
}

/// `11601874884275734809707051420645867312199^8456471508767 mod 13427688667394608761327070753331941386769`, by repeated squaring.
proof fn lemma_power_95()
    ensures
        pow(11601874884275734809707051420645867312199int, 8456471508767nat) % 13427688667394608761327070753331941386769int == 10302702663714691208296195508137108065110int,
{
    let n: int = 13427688667394608761327070753331941386769int;
    let x: int = 11601874884275734809707051420645867312199int;
    let e752 = lemma_chain_start(x, n, 0int, 11601874884275734809707051420645867312199int);
    let e753 = lemma_chain_square_mul(x, n, e752, 11601874884275734809707051420645867312199int, 10024323929794045539421219123221876557860int, 105886269931974143706865652579867261261int, 91488511995100874236431984257217794509int, 11296946471167674288706892446856251971518int);
    let e754 = lemma_chain_square_mul(x, n, e753, 11296946471167674288706892446856251971518int, 9504316247837926007774452181007588585332int, 10477051046461752874852591060742910952016int, 9052446657657321200936712899272269590266int, 9137908485690306311233034444850716852630int);
    let e755 = lemma_chain_square_mul(x, n, e754, 9137908485690306311233034444850716852630int, 6218596034000301456694253694239700008966int, 9903343557059724839799439319977364146046int, 8556748352678243637561666198104784082591int, 10160428930045760254261722875826942776675int);
    let e756 = lemma_chain_square(x, n, e755, 10160428930045760254261722875826942776675int, 7688167234111298178891861913898441088452int, 4601130466803550841523982860952252564037int);
    let e757 = lemma_chain_square_mul(x, n, e756, 4601130466803550841523982860952252564037int, 1576622909343606429264376217182764904798int, 8379413422741517660021275636688403919707int, 7240032781690261076520791597438446532568int, 13125520109589647228046692990734854812901int);
    let e758 = lemma_chain_square_mul(x, n, e757, 13125520109589647228046692990734854812901int, 12830151369652643945949792479910943068957int, 2613789674996562846185193474568341605868int, 2258382774152137738197859839214494226480int, 2443786933496044310581666656113404940612int);
    let e759 = lemma_chain_square(x, n, e758, 2443786933496044310581666656113404940612int, 444759684578297024482489119048339799530int, 1701933201018509916176754806087592515974int);
    let e760 = lemma_chain_square(x, n, e759, 1701933201018509916176754806087592515974int, 215716694993281972626284608982513898365int, 5185097910346458289802394602561023435991int);
    let e761 = lemma_chain_square(x, n, e760, 5185097910346458289802394602561023435991int, 2002223987003996067659361868787143916499int, 992078665220980523588115426687674750350int);
    let e762 = lemma_chain_square(x, n, e761, 992078665220980523588115426687674750350int, 73297802947766125436054974214566425371int, 8933055341971407457049370308217939806201int);
    let e763 = lemma_chain_square_mul(x, n, e762, 8933055341971407457049370308217939806201int, 5942904971910366162294177036427947546397int, 13197128503097794109648353302518288631108int, 11402664860441549432939871643182999858371int, 2294213900864200872279747978822645993193int);
    let e764 = lemma_chain_square_mul(x, n, e763, 2294213900864200872279747978822645993193int, 391982384555822500934954357058249638565int, 1145266189481329219766899842438279188764int, 989539999673804401814151465386786657681int, 10396964830781202941900849165385215309347int);
    let e765 = lemma_chain_square_mul(x, n, e764, 10396964830781202941900849165385215309347int, 8050296694395684138316990151420090369787int, 5921485896769982685531493419906106418206int, 5116318988698942727179251072986729231679int, 12903183604820785857469467609935113239843int);
    let e766 = lemma_chain_square(x, n, e765, 12903183604820785857469467609935113239843int, 12399166473377924225454199930295069551160int, 3162685881257279680308516448315250062609int);
    let e767 = lemma_chain_square_mul(x, n, e766, 3162685881257279680308516448315250062609int, 744922095773088049087687890831625836389int, 8508840372061807117691595908084256549740int, 7351861057565743603328508057740755417788int, 4303198590206880452165230973536461831288int);
    let e768 = lemma_chain_square_mul(x, n, e767, 4303198590206880452165230973536461831288int, 1379054769993521204833385522447236565956int, 9229436669315611539241093673634601502780int, 7974475141783497398987329745423341570173int, 12462197905720761192502749390773279172183int);
    let e769 = lemma_chain_square(x, n, e768, 12462197905720761192502749390773279172183int, 11566128802082601228365704934069698099496int, 1860373224990257463190172336159781017065int);
    let e770 = lemma_chain_square(x, n, e769, 1860373224990257463190172336159781017065int, 257750132728702225215434617535805320478int, 423826004760081626913677569650027258643int);
    let e771 = lemma_chain_square_mul(x, n, e770, 423826004760081626913677569650027258643int, 13377468510054923184835042479539229257int, 12448457339068881885584498124227620700816int, 10755793355621809742448655189368456636171int, 5017992720434241563228735754040019832885int);
    let e772 = lemma_chain_square_mul(x, n, e771, 5017992720434241563228735754040019832885int, 1875248344376217654215891993864645313366int, 1209291805020617803117138007116716168771int, 1044859809305620669464923542584216607761int, 5325205152746431350859009642623363023220int);
    let e773 = lemma_chain_square_mul(x, n, e772, 5325205152746431350859009642623363023220int, 2111890632949821334150539765300796799010int, 587078842100837747064602783922692869710int, 507251504110199030288512658893546529654int, 5995310880932466056046996101803658844364int);
    let e774 = lemma_chain_square_mul(x, n, e773, 5995310880932466056046996101803658844364int, 2676838393364495058730249782921945036440int, 6872738291551115486500300053790135702136int, 5938225985575997965558886478807412560230int, 5877155669139125967546094168593045560194int);
    let e775 = lemma_chain_square_mul(x, n, e774, 5877155669139125967546094168593045560194int, 2572368157683551130428955575181804218432int, 10263146220032775276902882792043006591428int, 8867627282197877934620558405595146280659int, 7395086749532169212371667576081970029401int);
    let e776 = lemma_chain_square(x, n, e775, 7395086749532169212371667576081970029401int, 4072726839869255831402711602590705895443int, 1317280294348132276949283049027466825134int);
    let e777 = lemma_chain_square_mul(x, n, e776, 1317280294348132276949283049027466825134int, 129227554857703619338075137680533233510int, 8891727677344227707423792958240632688766int, 7682685722978995175968993479211718063803int, 9648419524522286075753709569699480033927int);
    let e778 = lemma_chain_square(x, n, e777, 9648419524522286075753709569699480033927int, 6932838675894442975822425368303809129990int, 4389001825216641981845250404553083939019int);
    let e779 = lemma_chain_square_mul(x, n, e778, 4389001825216641981845250404553083939019int, 1434598127712824319256975745298347219421int, 11617008516059272723530669281491041441612int, 10037399784235297879890578563330379120166int, 10806402712272923835004322778840500341134int);
    let e780 = lemma_chain_square_mul(x, n, e779, 10806402712272923835004322778840500341134int, 8696831038642054848736048101875546971800int, 4329988717942801322978906880679836291756int, 3741223720645380954943707655681424532683int, 1143966956158921715691219780570117660217int);
    let e781 = lemma_chain_square_mul(x, n, e780, 1143966956158921715691219780570117660217int, 97459840572653769567839777675339681428int, 2664504127439596505064154820961670260957int, 2302201390046722150360191200667586954822int, 3576620529827278518340951447500087964325int);
    let e782 = lemma_chain_square_mul(x, n, e781, 3576620529827278518340951447500087964325int, 952674338171414565531673483442332510553int, 1752533508306175054771258810746325632368int, 1514234876717187584642440926684397562209int, 5829199939871009423876558580760748644511int);
    let e783 = lemma_chain_square(x, n, e782, 5829199939871009423876558580760748644511int, 2530560007807008438489098323860392652705int, 1964776412577985012208353328567551368976int);
    let e784 = lemma_chain_square_mul(x, n, e783, 1964776412577985012208353328567551368976int, 287491499620227955105735978689321521344int, 2765996018599280198727191843887502591040int, 2389893043626865202048304972602692684775int, 5890731565733403731640135978907827354985int);
    let e785 = lemma_chain_square_mul(x, n, e784, 5890731565733403731640135978907827354985int, 2584265932810083693205323206004324857136int, 3724775988327537941081203221759558716641int, 3218304062520056268954679394687876149258int, 4517796463246672851104667803224373236157int);
    let e786 = lemma_chain_square_mul(x, n, e785, 4517796463246672851104667803224373236157int, 1520029648355290454160224616695789233256int, 4215057707851966772585744787629038938785int, 3641920316133544099175422356245371298941int, 8542108079583713273173700393792843626586int);
    let e787 = lemma_chain_square(x, n, e786, 8542108079583713273173700393792843626586int, 5434115449851828502180716630169097401924int, 3515777432391621025490889478353077271840int);
    let e788 = lemma_chain_square(x, n, e787, 3515777432391621025490889478353077271840int, 920537499810276706963900521217759717396int, 6748639713778558726904970518123483452076int);
    let e789 = lemma_chain_square(x, n, e788, 6748639713778558726904970518123483452076int, 3391807712743620913444879743395693701186int, 8600356652719416131074504340166648701742int);
    let e790 = lemma_chain_square_mul(x, n, e789, 8600356652719416131074504340166648701742int, 5508478516751823185320117109543000516776int, 1037958408476607529557982648384984897820int, 896823264860827484456089169728237511033int, 5879952198826755803953696424711096783803int);
    let e791 = lemma_chain_square_mul(x, n, e790, 5879952198826755803953696424711096783803int, 2574816762354678979300775841562111641101int, 12920593687878198393592892430906165150140int, 11163731533433858722591982094721653392281int, 11029934470495835458822202620016788427771int);
    let e792 = lemma_chain_square_mul(x, n, e791, 11029934470495835458822202620016788427771int, 9060342210558414916871603631826836138677int, 3005702287989611487080064823853507063828int, 2597005541937620795242661737443632835022int, 3272225672865463662584257001985025413854int);
    let e793 = lemma_chain_square_mul(x, n, e792, 3272225672865463662584257001985025413854int, 797416526357206526287133334708392211065int, 6099076566253428918443216937969728734331int, 5269761980936674365058419259250513690358int, 10961376155598748137282760160446722330567int);
    let e794 = lemma_chain_square_mul(x, n, e793, 10961376155598748137282760160446722330567int, 8948060250777469724845462961953499779431int, 781647934537414247454378446950260793050int, 675364298702884529053150920947880835360int, 10302702663714691208296195508137108065110int);
    lemma_chain_end(x, n, 8456471508767nat, e794, 10302702663714691208296195508137108065110int);
}

/// `11601874884275734809707051420645867312199^173171039 mod 13427688667394608761327070753331941386769`, by repeated squaring.
proof fn lemma_power_96()
    ensures
        pow(11601874884275734809707051420645867312199int, 173171039nat) % 13427688667394608761327070753331941386769int == 13386793365792953975711664102037229133676int,
{
    let n: int = 13427688667394608761327070753331941386769int;
    let x: int = 11601874884275734809707051420645867312199int;
    let e795 = lemma_chain_start(x, n, 0int, 11601874884275734809707051420645867312199int);
    let e796 = lemma_chain_square(x, n, e795, 11601874884275734809707051420645867312199int, 10024323929794045539421219123221876557860int, 105886269931974143706865652579867261261int);
    let e797 = lemma_chain_square_mul(x, n, e796, 105886269931974143706865652579867261261int, 834983774037885184380569552741106679int, 6530716127716545181519454703073803179970int, 5642709873254049346945263291198775429709int, 11967893133623910992539151326753631333809int);
    let e798 = lemma_chain_square(x, n, e797, 11967893133623910992539151326753631333809int, 10666799745337969803927282379690925256605int, 6903032028995516602922443919541509589236int);
    let e799 = lemma_chain_square(x, n, e798, 6903032028995516602922443919541509589236int, 3548775397887141145894844974047948122225int, 4238458188593752979292246387205437222671int);
    let e800 = lemma_chain_square_mul(x, n, e799, 4238458188593752979292246387205437222671int, 1337871934734328146665095002851607922818int, 8479204167687098093489046437099597979199int, 7326254600362494034307318779599720289438int, 10703825570388336989445650254154257302779int);
    let e801 = lemma_chain_square(x, n, e800, 10703825570388336989445650254154257302779int, 8532509553897017283956547159132582555193int, 11160213439943945041372480360510178681424int);
    let e802 = lemma_chain_square_mul(x, n, e801, 11160213439943945041372480360510178681424int, 9275636865750487050712512049475824182936int, 12885805257468462523441262628529096693992int, 11133673417921086564088167898023510698822int, 9525054012724940707602858755106856922290int);
    let e803 = lemma_chain_square(x, n, e802, 9525054012724940707602858755106856922290int, 6756684355188531575988769698278822789114int, 12571348227568087981266367855989502011434int);
    let e804 = lemma_chain_square(x, n, e803, 12571348227568087981266367855989502011434int, 11769620235724736433447074703368431306780int, 9712736386931816575069329923263794742536int);
    let e805 = lemma_chain_square_mul(x, n, e804, 9712736386931816575069329923263794742536int, 7025576065901868488369324018821018680576int, 11349740911266295179631084681982444012352int, 9806473569885570012396035518681809249701int, 9149276315249671042849872950106057675979int);
    let e806 = lemma_chain_square(x, n, e805, 9149276315249671042849872950106057675979int, 6234077894288176840029514962164189757372int, 7033459890155143054318912084739232597373int);
    let e807 = lemma_chain_square(x, n, e806, 7033459890155143054318912084739232597373int, 3684145443924701693366755392762622428299int, 13109744714957878195300949657119596725198int);
    let e808 = lemma_chain_square_mul(x, n, e807, 13109744714957878195300949657119596725198int, 12799329113780627961629519631542127079534int, 13415069100358631087346244923542009853558int, 11590971247658015135292555605088862650164int, 4755878746247117695846080275472391673926int);
    let e809 = lemma_chain_square_mul(x, n, e808, 4755878746247117695846080275472391673926int, 1684458376215370594098794662298078579009int, 298560175994943995951845157227914521555int, 257963815897198676767323173636602813937int, 7862968466441933458293464313553439349892int);
    let e810 = lemma_chain_square(x, n, e809, 7862968466441933458293464313553439349892int, 4604386848377565191469601354941825923626int, 2220833578976093296472523613470879507270int);
    let e811 = lemma_chain_square(x, n, e810, 2220833578976093296472523613470879507270int, 367308321459969141786037581374854044452int, 8201013155618633388356993890472732197312int);
    let e812 = lemma_chain_square(x, n, e811, 8201013155618633388356993890472732197312int, 5008800728448806124398896570649203808764int, 6212171146885394247188003536592864181828int);
    let e813 = lemma_chain_square(x, n, e812, 6212171146885394247188003536592864181828int, 2873992040931290685835766610727601141134int, 9236271845784975852806256915856996165538int);
    let e814 = lemma_chain_square_mul(x, n, e813, 9236271845784975852806256915856996165538int, 6353194486582683184529214943759641692931int, 914614558716808838846065077768094599505int, 790250946414621608849238361896782666789int, 12987650812018161674380466149519005546754int);
    let e815 = lemma_chain_square(x, n, e814, 12987650812018161674380466149519005546754int, 12562033406725166952491475313823265629371int, 5694043041361924058018263500755162744217int);
    let e816 = lemma_chain_square_mul(x, n, e815, 5694043041361924058018263500755162744217int, 2414572378015453029401586328356372576122int, 10765268335449843594427468030972470813271int, 9301473948142883565014387662312743377503int, 3399151246521937267878418881149692935122int);
    let e817 = lemma_chain_square(x, n, e816, 3399151246521937267878418881149692935122int, 860477888855723782420286519104142611836int, 5476265862995710279021509175851787957000int);
    let e818 = lemma_chain_square_mul(x, n, e817, 5476265862995710279021509175851787957000int, 2233406548591884303643409620063272618719int, 7734416129777395426530329701142800671089int, 6682738218267957792467800598802045999533int, 4136656399847869535214296946953129935834int);
    let e819 = lemma_chain_square_mul(x, n, e818, 4136656399847869535214296946953129935834int, 1274376148737635688058920650920240394921int, 4735958916496133632635402296995993075307int, 4091992610737187765236581606299545086460int, 2771656659399111252823178567975881722353int);
    let e820 = lemma_chain_square_mul(x, n, e819, 2771656659399111252823178567975881722353int, 572107443647038677249525611208751320899int, 11801201285981484513218141569583188071278int, 10196547164261672079736109923623130114822int, 6344552985665151112043442889299809330204int);
    let e821 = lemma_chain_square_mul(x, n, e820, 6344552985665151112043442889299809330204int, 2997787153470172879520780878614564109929int, 304845217127528520969600562082684552215int, 263394256136689330735052241045297343816int, 3044706946398130072626724737244695600281int);
    let e822 = lemma_chain_square_mul(x, n, e821, 3044706946398130072626724737244695600281int, 690382434316876521455537532665594113308int, 11509916483798874798848810962138489257109int, 9944869461991161791930840889444457890935int, 13386793365792953975711664102037229133676int);
    lemma_chain_end(x, n, 173171039nat, e822, 13386793365792953975711664102037229133676int);
}

/// `13386793365792953975711664102037229133676^1853641 mod 13427688667394608761327070753331941386769`, by repeated squaring.
proof fn lemma_power_97()
    ensures
        pow(13386793365792953975711664102037229133676int, 1853641nat) % 13427688667394608761327070753331941386769int == 4447233623349539365335128882050056364534int,
{
    let n: int = 13427688667394608761327070753331941386769int;
    let x: int = 13386793365792953975711664102037229133676int;
    let e823 = lemma_chain_start(x, n, 0int, 13386793365792953975711664102037229133676int);
    let e824 = lemma_chain_square_mul(x, n, e823, 13386793365792953975711664102037229133676int, 13346022614717790865995691827820489882295int, 1672188530445651740522201841329596918121int, 1667095721401496892394677811235454663961int, 7584907698786774631725234613481109210787int);
    let e825 = lemma_chain_square_mul(x, n, e824, 7584907698786774631725234613481109210787int, 4284492009321933665996908213781077111601int, 2664679084147185264855254617729079352200int, 2656563550825175012123517952092376805612int, 3785727196399559784944971271327662939572int);
    let e826 = lemma_chain_square(x, n, e825, 3785727196399559784944971271327662939572int, 1067326682987510366026778363201712012027int, 11327282203031713256864883514756536872421int);
    let e827 = lemma_chain_square(x, n, e826, 11327282203031713256864883514756536872421int, 9555428732770478624099221603894139274542int, 3649367671325749581045702531449333066443int);
    let e828 = lemma_chain_square(x, n, e827, 3649367671325749581045702531449333066443int, 991822548943682799897847117426039398241int, 7412212853757277877473289948721653398920int);
    let e829 = lemma_chain_square_mul(x, n, e828, 7412212853757277877473289948721653398920int, 4091612544071954620120258774488402816225int, 1863111904496356248671503742177103639375int, 1857437620176894464015635330211535352312int, 199251516853779923372429003683701732572int);
    let e830 = lemma_chain_square(x, n, e829, 199251516853779923372429003683701732572int, 2956664244452981644217410578973012132int, 12483536338992436067763302319033464453676int);
    let e831 = lemma_chain_square(x, n, e830, 12483536338992436067763302319033464453676int, 11605770984648711528144419464171570061206int, 10037607263949478652588234969071301329562int);
    let e832 = lemma_chain_square_mul(x, n, e831, 10037607263949478652588234969071301329562int, 7503417906161558188799044529535939769696int, 10349825380928621132747258486760213559620int, 10318304004393782012909894516911625786857int, 10914457167924807337621347980707381868087int);
    let e833 = lemma_chain_square(x, n, e832, 10914457167924807337621347980707381868087int, 8871621782513315577432612369228104319454int, 3074954484235903278984997067694124135443int);
    let e834 = lemma_chain_square(x, n, e833, 3074954484235903278984997067694124135443int, 704167732387343352635555111946102338218int, 8235455525643458890801620080015820568607int);
    let e835 = lemma_chain_square(x, n, e834, 8235455525643458890801620080015820568607int, 5050960697319407579608150138190916011071int, 5622426576023030387427991454735297000850int);
    let e836 = lemma_chain_square_mul(x, n, e835, 5622426576023030387427991454735297000850int, 2354216081843645474857461596343014251962int, 2576896740329757813719434071207441631722int, 2569048556476046664907309264961682122735int, 4785056837868463682584895954734336976857int);
    let e837 = lemma_chain_square_mul(x, n, e836, 4785056837868463682584895954734336976857int, 1705190633234604885274639110691699907550int, 4140645155399045768336021455342060392499int, 4128034427175457113601670497188637481442int, 939230170321981856453494350141316855426int);
    let e838 = lemma_chain_square(x, n, e837, 939230170321981856453494350141316855426int, 65696586709306268051438033935473125268int, 3713458184533190473006221159902610862384int);
    let e839 = lemma_chain_square(x, n, e838, 3713458184533190473006221159902610862384int, 1026965401853644970450865301259046134489int, 5590633852705607784735099200160646987415int);
    let e840 = lemma_chain_square_mul(x, n, e839, 5590633852705607784735099200160646987415int, 2327666931309811971462004291191711357923int, 8151811975508599200226904759186432861438int, 8126984857633286573226802517886371964708int, 10213848122535487109998774824737841437636int);
    let e841 = lemma_chain_square(x, n, e840, 10213848122535487109998774824737841437636int, 7769221945362809614327530379656534962795int, 12288444784955444976660823122253157009141int);
    let e842 = lemma_chain_square(x, n, e841, 12288444784955444976660823122253157009141int, 11245857643361531058791176960609863721342int, 10710145721576452654334025512849895833883int);
    let e843 = lemma_chain_square_mul(x, n, e842, 10710145721576452654334025512849895833883int, 8542588692567533250298652716088281546615int, 11006017691381757872149709935184713120754int, 10972497818820582554776890211077125308930int, 4447233623349539365335128882050056364534int);
    lemma_chain_end(x, n, 1853641nat, e843, 4447233623349539365335128882050056364534int);
}

/// `13386793365792953975711664102037229133676^4562087 mod 13427688667394608761327070753331941386769`, by repeated squaring.
proof fn lemma_power_98()
    ensures
        pow(13386793365792953975711664102037229133676int, 4562087nat) % 13427688667394608761327070753331941386769int == 2667543545659835767658605482012024096425int,
{
    let n: int = 13427688667394608761327070753331941386769int;
    let x: int = 13386793365792953975711664102037229133676int;
    let e844 = lemma_chain_start(x, n, 0int, 13386793365792953975711664102037229133676int);
    let e845 = lemma_chain_square(x, n, e844, 13386793365792953975711664102037229133676int, 13346022614717790865995691827820489882295int, 1672188530445651740522201841329596918121int);
    let e846 = lemma_chain_square(x, n, e845, 1672188530445651740522201841329596918121int, 208242427316907799114289829708113224310int, 10907011262076298657825486358931815016251int);
    let e847 = lemma_chain_square(x, n, e846, 10907011262076298657825486358931815016251int, 8859521367957195319399167411912860335964int, 1416341861920583225850860429545989634685int);
    let e848 = lemma_chain_square_mul(x, n, e847, 1416341861920583225850860429545989634685int, 149394606884186557502490974280836417524int, 7251687888518165655285612447305301709269int, 7229602184070598995161028610733517213298int, 4947501391536338220038889270816401188682int);
    let e849 = lemma_chain_square(x, n, e848, 4947501391536338220038889270816401188682int, 1822932496096028075000502786733561186701int, 5530615183067454689004373280939304738055int);
    let e850 = lemma_chain_square_mul(x, n, e849, 5530615183067454689004373280939304738055int, 2277957514568382221351758135643366465797int, 8857433808424691680065123919245578343132int, 8830457652216081506633253833048499234617int, 13012655794339142154771817298389753930759int);
    let e851 = lemma_chain_square_mul(x, n, e850, 13012655794339142154771817298389753930759int, 12610451062446565452019025508000957629824int, 5848157542060002501035546810301452917425int, 5830346422632034644445197336667503390954int, 7973633224313015519356364857554784816674int);
    let e852 = lemma_chain_square(x, n, e851, 7973633224313015519356364857554784816674int, 4734904745762522613371969138211694478810int, 7759038279277700668799706128471703557386int);
    let e853 = lemma_chain_square(x, n, e852, 7759038279277700668799706128471703557386int, 4483472659407277013175499623323893831876int, 5169519011833289340162790432762618304352int);
    let e854 = lemma_chain_square_mul(x, n, e853, 5169519011833289340162790432762618304352int, 1990210487870292963917593607074363156204int, 8210872897217677665993901670844176275028int, 8185865903693920091028097709500537950137int, 9872169009637751553138118484136799105575int);
    let e855 = lemma_chain_square_mul(x, n, e854, 9872169009637751553138118484136799105575int, 7258115925155885816255213653714032380614int, 9407766256707722829841053768138404384459int, 9379114010740764206941966314158848644121int, 8361220044993908318348925521468508906235int);
    let e856 = lemma_chain_square_mul(x, n, e855, 8361220044993908318348925521468508906235int, 5206406133809524731075175137343607901236int, 3323436639871987012480245789452592728741int, 3313314797825441675947704728796698797177int, 9972894205284174947869169459956653830803int);
    let e857 = lemma_chain_square(x, n, e856, 9972894205284174947869169459956653830803int, 7406979808170422505330286508666052557621int, 8247483749086900733451462241300932108260int);
    let e858 = lemma_chain_square(x, n, e857, 8247483749086900733451462241300932108260int, 5065725745982068353312763571186996804027int, 88841480778334162047662221715056508837int);
    let e859 = lemma_chain_square_mul(x, n, e858, 88841480778334162047662221715056508837int, 587800991100769239077804823250303330int, 12498842157304057215321374672798560451799int, 12460775745998618089330804622468464743675int, 1641721340403846125436067317528304247049int);
    let e860 = lemma_chain_square(x, n, e859, 1641721340403846125436067317528304247049int, 200723223951569599033167964588053926526int, 10086249579700508037701374256014750673907int);
    let e861 = lemma_chain_square_mul(x, n, e860, 10086249579700508037701374256014750673907int, 7576317347231729187840724062033569233912int, 4008868602308661502538329293188427734321int, 3996659212097603889089714952101978152134int, 3300354496444667644606640889802305378950int);
    let e862 = lemma_chain_square(x, n, e861, 3300354496444667644606640889802305378950int, 811185012700774068619929488735912328713int, 7066757958304927345973360097705706104203int);
    let e863 = lemma_chain_square(x, n, e862, 7066757958304927345973360097705706104203int, 3719111254234625112071792288362513107040int, 6649173255912144430754538826578957511449int);
    let e864 = lemma_chain_square_mul(x, n, e863, 6649173255912144430754538826578957511449int, 3292562561008179926948349451524608112192int, 1721977207054357889166959144939349691953int, 1716732761865167563075511963086472047266int, 10775233636436886721770799668997103485674int);
    let e865 = lemma_chain_square_mul(x, n, e864, 10775233636436886721770799668997103485674int, 8646734579252724066263234461488247975675int, 9027912983913616664991383690524244390201int, 9000417617178823375358205031775686553467int, 4349511333949972066984017677784088630753int);
    let e866 = lemma_chain_square_mul(x, n, e865, 4349511333949972066984017677784088630753int, 1408898382496531097678496487012285821769int, 8412576017238684406187047162515748572648int, 8386954717699083350102689116480843168967int, 2667543545659835767658605482012024096425int);
    lemma_chain_end(x, n, 4562087nat, e866, 2667543545659835767658605482012024096425int);
}

/// `13427688667394608761327070753331941386768^2 mod 13427688667394608761327070753331941386769`, by repeated squaring.
proof fn lemma_power_99()
    ensures
        pow(13427688667394608761327070753331941386768int, 2nat) % 13427688667394608761327070753331941386769int == 1int,
{
    let n: int = 13427688667394608761327070753331941386769int;
    let x: int = 13427688667394608761327070753331941386768int;
    let e867 = lemma_chain_start(x, n, 0int, 13427688667394608761327070753331941386768int);
    let e868 = lemma_chain_square(x, n, e867, 13427688667394608761327070753331941386768int, 13427688667394608761327070753331941386767int, 1int);
    lemma_chain_end(x, n, 2nat, e868, 1int);
}

/// 13427688667394608761327070753331941386769 is prime, by Lucas's test with generator 17.
proof fn lemma_prime_of_134_bits()
    ensures
        is_prime(13427688667394608761327070753331941386769int),
{
    lemma_prime_2();
    lemma_prime_3();
    lemma_prime_7();
    lemma_prime_11();
    lemma_prime_1853641();
    lemma_prime_4562087();
    lemma_prime_173171039();
    lemma_prime_of_52_bits();
    let n: int = 13427688667394608761327070753331941386769int;
    let g: int = 17int;
    lemma_power_81();
    lemma_power_83();
    lemma_power_compose(g, 8nat, 1464415957447078998913nat, 11715327659576631991304nat, n, 6975757441int, 5693772440853184975873974442930081454945int);
    lemma_power_84();
    lemma_power_compose(g, 11715327659576631991304nat, 462nat, 5412481378724403979982448nat, n, 5693772440853184975873974442930081454945int, 10265023407933947886775309589286649233988int);
    lemma_power_86();
    lemma_power_compose(g, 11715327659576631991304nat, 2480874801745591nat, 29064261184836815500707945353532340664nat, n, 5693772440853184975873974442930081454945int, 811163896373400091891455174287469726571int);
    lemma_power_87();
    lemma_power_compose(g, 29064261184836815500707945353532340664nat, 21nat, 610349484881573125514866852424179153944nat, n, 811163896373400091891455174287469726571int, 8086824990233952433573350983079694520657int);
    lemma_power_88();
    lemma_power_compose(g, 610349484881573125514866852424179153944nat, 2nat, 1220698969763146251029733704848358307888nat, n, 8086824990233952433573350983079694520657int, 3236340864352405644842122077993382124237int);
    lemma_power_89();
    lemma_power_compose(g, 610349484881573125514866852424179153944nat, 11nat, 6713844333697304380663535376665970693384nat, n, 8086824990233952433573350983079694520657int, 13427688667394608761327070753331941386768int);
    lemma_power_90();
    lemma_power_compose(g, 29064261184836815500707945353532340664nat, 22nat, 639413746066409941015574797777711494608nat, n, 811163896373400091891455174287469726571int, 7387402157000336034463263788597198938679int);
    lemma_power_91();
    lemma_power_compose(g, 639413746066409941015574797777711494608nat, 3nat, 1918241238199229823046724393333134483824nat, n, 7387402157000336034463263788597198938679int, 3365167042067484594214394565332554156896int);
    lemma_power_92();
    lemma_power_compose(g, 639413746066409941015574797777711494608nat, 7nat, 4475896222464869587109023584443980462256nat, n, 7387402157000336034463263788597198938679int, 2685568617321800533408078349748043375580int);
    lemma_power_94();
    lemma_power_compose(g, 8nat, 1146164158406463042nat, 9169313267251704336nat, n, 6975757441int, 11601874884275734809707051420645867312199int);
    lemma_power_95();
    lemma_power_compose(g, 9169313267251704336nat, 8456471508767nat, 77540036399473290457806115913712nat, n, 11601874884275734809707051420645867312199int, 10302702663714691208296195508137108065110int);
    lemma_power_96();
    lemma_power_compose(g, 9169313267251704336nat, 173171039nat, 1587859505406462314385925104nat, n, 11601874884275734809707051420645867312199int, 13386793365792953975711664102037229133676int);
    lemma_power_97();
    lemma_power_compose(g, 1587859505406462314385925104nat, 1853641nat, 2943321481461140210900640595703664nat, n, 13386793365792953975711664102037229133676int, 4447233623349539365335128882050056364534int);
    lemma_power_98();
    lemma_power_compose(g, 1587859505406462314385925104nat, 4562087nat, 7243953207441251440449941899932048nat, n, 13386793365792953975711664102037229133676int, 2667543545659835767658605482012024096425int);
    lemma_power_99();
    lemma_power_compose(g, 6713844333697304380663535376665970693384nat, 2nat, 13427688667394608761327070753331941386768nat, n, 13427688667394608761327070753331941386768int, 1int);
    assert(product(Seq::<int>::empty()) == 1);
    assert(product(seq![2int]) == 2int) by {
        assert(seq![2int].drop_last() =~= Seq::<int>::empty());
    }
    assert(product(seq![2int, 2int]) == 4int) by {
        assert(seq![2int, 2int].drop_last() =~= seq![2int]);
    }
    assert(product(seq![2int, 2int, 2int]) == 8int) by {
        assert(seq![2int, 2int, 2int].drop_last() =~= seq![2int, 2int]);
    }
    assert(product(seq![2int, 2int, 2int, 2int]) == 16int) by {
        assert(seq![2int, 2int, 2int, 2int].drop_last() =~= seq![2int, 2int, 2int]);
    }
    assert(product(seq![2int, 2int, 2int, 2int, 3int]) == 48int) by {
        assert(seq![2int, 2int, 2int, 2int, 3int].drop_last() =~= seq![2int, 2int, 2int, 2int]);
    }
    assert(product(seq![2int, 2int, 2int, 2int, 3int, 7int]) == 336int) by {
        assert(seq![2int, 2int, 2int, 2int, 3int, 7int].drop_last() =~= seq![2int, 2int, 2int, 2int, 3int]);
    }
    assert(product(seq![2int, 2int, 2int, 2int, 3int, 7int, 11int]) == 3696int) by {
        assert(seq![2int, 2int, 2int, 2int, 3int, 7int, 11int].drop_last() =~= seq![2int, 2int, 2int, 2int, 3int, 7int]);
    }
    assert(product(seq![2int, 2int, 2int, 2int, 3int, 7int, 11int, 1853641int]) == 6851057136int) by {
        assert(seq![2int, 2int, 2int, 2int, 3int, 7int, 11int, 1853641int].drop_last() =~= seq![2int, 2int, 2int, 2int, 3int, 7int, 11int]);
    }
    assert(product(seq![2int, 2int, 2int, 2int, 3int, 7int, 11int, 1853641int, 4562087int]) == 31255118696402832int) by {
        assert(seq![2int, 2int, 2int, 2int, 3int, 7int, 11int, 1853641int, 4562087int].drop_last() =~= seq![2int, 2int, 2int, 2int, 3int, 7int, 11int, 1853641int]);
    }
    assert(product(seq![2int, 2int, 2int, 2int, 3int, 7int, 11int, 1853641int, 4562087int, 173171039int]) == 5412481378724403979982448int) by {
        assert(seq![2int, 2int, 2int, 2int, 3int, 7int, 11int, 1853641int, 4562087int, 173171039int].drop_last() =~= seq![2int, 2int, 2int, 2int, 3int, 7int, 11int, 1853641int, 4562087int]);
    }
    assert(product(seq![2int, 2int, 2int, 2int, 3int, 7int, 11int, 1853641int, 4562087int, 173171039int, 2480874801745591int]) == 13427688667394608761327070753331941386768int) by {
        assert(seq![2int, 2int, 2int, 2int, 3int, 7int, 11int, 1853641int, 4562087int, 173171039int, 2480874801745591int].drop_last() =~= seq![2int, 2int, 2int, 2int, 3int, 7int, 11int, 1853641int, 4562087int, 173171039int]);
    }
    let fs = seq![2int, 2int, 2int, 2int, 3int, 7int, 11int, 1853641int, 4562087int, 173171039int, 2480874801745591int];
    assert forall|i: int| 0 <= i < fs.len() implies is_prime(#[trigger] fs[i]) by {
        if i == 0 {
            assert(fs[0] == 2int);
        }
        if i == 1 {
            assert(fs[1] == 2int);
        }
        if i == 2 {
            assert(fs[2] == 2int);
        }
        if i == 3 {
            assert(fs[3] == 2int);
        }
        if i == 4 {
            assert(fs[4] == 3int);
        }
        if i == 5 {
            assert(fs[5] == 7int);
        }
        if i == 6 {
            assert(fs[6] == 11int);
        }
        if i == 7 {
            assert(fs[7] == 1853641int);
        }
        if i == 8 {
            assert(fs[8] == 4562087int);
        }
        if i == 9 {
            assert(fs[9] == 173171039int);
        }
        if i == 10 {
            assert(fs[10] == 2480874801745591int);
        }
    }
    assert forall|i: int| 0 <= i < fs.len() implies #[trigger] (pow(g, ((n - 1) / fs[i]) as nat) % n) != 1 by {
        if i == 0 {
            assert(fs[0] == 2int);
            lemma_fundamental_div_mod_converse(n - 1, 2int, 6713844333697304380663535376665970693384int, 0);
            assert(pow(g, 6713844333697304380663535376665970693384nat) % n == 13427688667394608761327070753331941386768int);
        }
        if i == 1 {
            assert(fs[1] == 2int);
            lemma_fundamental_div_mod_converse(n - 1, 2int, 6713844333697304380663535376665970693384int, 0);
            assert(pow(g, 6713844333697304380663535376665970693384nat) % n == 13427688667394608761327070753331941386768int);
        }
        if i == 2 {
            assert(fs[2] == 2int);
            lemma_fundamental_div_mod_converse(n - 1, 2int, 6713844333697304380663535376665970693384int, 0);
            assert(pow(g, 6713844333697304380663535376665970693384nat) % n == 13427688667394608761327070753331941386768int);
        }
        if i == 3 {
            assert(fs[3] == 2int);
            lemma_fundamental_div_mod_converse(n - 1, 2int, 6713844333697304380663535376665970693384int, 0);
            assert(pow(g, 6713844333697304380663535376665970693384nat) % n == 13427688667394608761327070753331941386768int);
        }
        if i == 4 {
            assert(fs[4] == 3int);
            lemma_fundamental_div_mod_converse(n - 1, 3int, 4475896222464869587109023584443980462256int, 0);
            assert(pow(g, 4475896222464869587109023584443980462256nat) % n == 2685568617321800533408078349748043375580int);
        }
        if i == 5 {
            assert(fs[5] == 7int);
            lemma_fundamental_div_mod_converse(n - 1, 7int, 1918241238199229823046724393333134483824int, 0);
            assert(pow(g, 1918241238199229823046724393333134483824nat) % n == 3365167042067484594214394565332554156896int);
        }
        if i == 6 {
            assert(fs[6] == 11int);
            lemma_fundamental_div_mod_converse(n - 1, 11int, 1220698969763146251029733704848358307888int, 0);
            assert(pow(g, 1220698969763146251029733704848358307888nat) % n == 3236340864352405644842122077993382124237int);
        }
        if i == 7 {
            assert(fs[7] == 1853641int);
            lemma_fundamental_div_mod_converse(n - 1, 1853641int, 7243953207441251440449941899932048int, 0);
            assert(pow(g, 7243953207441251440449941899932048nat) % n == 2667543545659835767658605482012024096425int);
        }
        if i == 8 {
            assert(fs[8] == 4562087int);
            lemma_fundamental_div_mod_converse(n - 1, 4562087int, 2943321481461140210900640595703664int, 0);
            assert(pow(g, 2943321481461140210900640595703664nat) % n == 4447233623349539365335128882050056364534int);
        }
        if i == 9 {
            assert(fs[9] == 173171039int);
            lemma_fundamental_div_mod_converse(n - 1, 173171039int, 77540036399473290457806115913712int, 0);
            assert(pow(g, 77540036399473290457806115913712nat) % n == 10302702663714691208296195508137108065110int);
        }
        if i == 10 {
            assert(fs[10] == 2480874801745591int);
            lemma_fundamental_div_mod_converse(n - 1, 2480874801745591int, 5412481378724403979982448int, 0);
            assert(pow(g, 5412481378724403979982448nat) % n == 10265023407933947886775309589286649233988int);
        }
    }
    lemma_lucas(n, g, fs);
}

/// `3^3 mod 21888242871839275222246405745257275088696311157297823662689037894645226208583`, by repeated squaring.
proof fn lemma_power_100()
    ensures
        pow(3int, 3nat) % 21888242871839275222246405745257275088696311157297823662689037894645226208583int == 27int,
{
    let n: int = 21888242871839275222246405745257275088696311157297823662689037894645226208583int;
    let x: int = 3int;
    let e869 = lemma_chain_start(x, n, 0int, 3int);
    let e870 = lemma_chain_square_mul(x, n, e869, 3int, 0int, 9int, 0int, 27int);
    lemma_chain_end(x, n, 3nat, e870, 27int);
}

/// `27^460244581903146 mod 21888242871839275222246405745257275088696311157297823662689037894645226208583`, by repeated squaring.
proof fn lemma_power_101()
    ensures
        powmod(27int, 460244581903146nat, 21888242871839275222246405745257275088696311157297823662689037894645226208583int) == 7649055501167847960261609337716466861493345261025063353957772315795763749454int,
{
    let n: int = 21888242871839275222246405745257275088696311157297823662689037894645226208583int;
    let x: int = 27int;
    let e871 = lemma_chain_start(x, n, 0int, 27int);
    let e872 = lemma_chain_square_mul(x, n, e871, 27int, 0int, 729int, 0int, 19683int);
    let e873 = lemma_chain_square(x, n, e872, 19683int, 0int, 387420489int);
    let e874 = lemma_chain_square_mul(x, n, e873, 387420489int, 0int, 150094635296999121int, 0int, 4052555153018976267int);
    let e875 = lemma_chain_square(x, n, e874, 4052555153018976267int, 0int, 16423203268260658146231467800709255289int);
    let e876 = lemma_chain_square(x, n, e875, 16423203268260658146231467800709255289int, 0int, 269721605590607563262106870407286853611938890184108047911269431464974473521int);
    let e877 = lemma_chain_square(x, n, e876, 269721605590607563262106870407286853611938890184108047911269431464974473521int, 3323690482984031489478697343567728885429478423807014916548834674822264552int, 11141139370626108770898660730299597205802887988119987864590347193849971087625int);
    let e878 = lemma_chain_square_mul(x, n, e877, 11141139370626108770898660730299597205802887988119987864590347193849971087625int, 5670852027844155104227205232821378388487610529831441430899397786862127094116int, 13565190139064955235234463971550313783739258874466995346582597853279540142997int, 16int, 16048247805325387795388035307742070741819011093843695754705535724223964523591int);
    let e879 = lemma_chain_square(x, n, e878, 16048247805325387795388035307742070741819011093843695754705535724223964523591int, 11766419951072547711582114216163938791673121938963389849580862290737262055258int, 19239262840491714738898231474590575766370987226344069677018855227114015655867int);
    let e880 = lemma_chain_square_mul(x, n, e879, 19239262840491714738898231474590575766370987226344069677018855227114015655867int, 16910870224386430120867596231635392898726577975573796747318123350863327977794int, 6663601279827583309313094141197726239895478830640044758130826639131135315787int, 8int, 4811291580630547573482295850280407767607439168898619168020016099378843857585int);
    let e881 = lemma_chain_square(x, n, e880, 4811291580630547573482295850280407767607439168898619168020016099378843857585int, 1057578116680556351893523526964118331869345092719882218613641410326936890544int, 1347634985510655374838726502137270526365153390262235653328443562263377693073int);
    let e882 = lemma_chain_square(x, n, e881, 1347634985510655374838726502137270526365153390262235653328443562263377693073int, 82972400516848579800217539507219352859875107035873079465412168711138085713int, 3773088945140585025902821071062986975115017368445334704089324070883921908650int);
    let e883 = lemma_chain_square_mul(x, n, e882, 3773088945140585025902821071062986975115017368445334704089324070883921908650int, 650403975837546100928482674839979666035440892754612718965356418005689259920int, 3458930264120146052828809165224197279845854606807630038118347809634122929140int, 4int, 5838145643886842537392224480024226201052829754614716378439239281540414252448int);
    let e884 = lemma_chain_square(x, n, e883, 5838145643886842537392224480024226201052829754614716378439239281540414252448int, 1557180480809003000900807603083614226073089026979605786062517912371844946031int, 11110064389090186334019579417277477536036374327758454518917941906598290008631int);
    let e885 = lemma_chain_square_mul(x, n, e884, 11110064389090186334019579417277477536036374327758454518917941906598290008631int, 5639261746704007623909567973283103156482770964769150541897537021825121220840int, 18800757812708795407663142452949740539306930044184886360541316652712608024441int, 23int, 4190874890834145895237514088725667521271954575141987492767678046400213862498int);
    let e886 = lemma_chain_square_mul(x, n, e885, 4190874890834145895237514088725667521271954575141987492767678046400213862498int, 802413992455313709715057783856417639840663514287488669611172326014004938098int, 3295620941083256270061777212988793684684112134308157420809860771155899504870int, 4int, 1428793921890818402682361769668329131685782997128955711110089242628381797158int);
    let e887 = lemma_chain_square_mul(x, n, e886, 1428793921890818402682361769668329131685782997128955711110089242628381797158int, 93267060457311267278424732922419872842473911898287500402927127649084073801int, 11524869272461693137446596461363871305210410009859158631269029346290465242981int, 14int, 4736070150715861599608424023222673998932714064027751766617261824809394640325int);
    let e888 = lemma_chain_square(x, n, e887, 4736070150715861599608424023222673998932714064027751766617261824809394640325int, 1024767524914480926090340580984606700629056325896836339139356291099459743990int, 14856668620162449101237985381339444143997468048079521698844553152532595439455int);
    let e889 = lemma_chain_square(x, n, e888, 14856668620162449101237985381339444143997468048079521698844553152532595439455int, 10083979960460498803234508567409520631634468061346945053849879633615668350825int, 17659934252122195470737100243891747223114507027364457075090718111901500566050int);
    let e890 = lemma_chain_square(x, n, e889, 17659934252122195470737100243891747223114507027364457075090718111901500566050int, 14248438287868464608445302082716683821319578751753085600803296783013233970304int, 4846401772763053361352135234015991173460083724915701401600240939720480683268int);
    let e891 = lemma_chain_square(x, n, e890, 4846401772763053361352135234015991173460083724915701401600240939720480683268int, 1073069696848954774257747210808992545967599112579381060783256891288013053959int, 4765173302969847106862331424063697229625058603485489872694843638947567229727int);
    let e892 = lemma_chain_square_mul(x, n, e891, 4765173302969847106862331424063697229625058603485489872694843638947567229727int, 1037400614580648475794433135315000630937138918195701553309024976726342319343int, 20193195473049859297310303064172229138164466621399153493300655011434678973560int, 24int, 19898448848203595693464444846475584601729131002629376414580775837250903280128int);
    let e893 = lemma_chain_square(x, n, e892, 19898448848203595693464444846475584601729131002629376414580775837250903280128int, 18089540987046958857547886728543228627804013938455119441965058594630378524528int, 18652791016519729074604333429319782424794634068756927415323868563642530072560int);
    let e894 = lemma_chain_square_mul(x, n, e893, 18652791016519729074604333429319782424794634068756927415323868563642530072560int, 15895593572455765449144087020950346345249005131766504059675234875920078406876int, 1034063909136380502985401352059029271009741926094201790791963367270547536892int, 1int, 6031482674842998358359430760336515228566720847245624688693973021659557287501int);
    let e895 = lemma_chain_square(x, n, e894, 6031482674842998358359430760336515228566720847245624688693973021659557287501int, 1662023921697938051253975680776863032220357193899469395786627656995186132826int, 5867252843600210873824303771158653720641023637592469583320981327978951579443int);
    let e896 = lemma_chain_square_mul(x, n, e895, 5867252843600210873824303771158653720641023637592469583320981327978951579443int, 1572746434343728890353169318809832424702972533285327659531167868904155290690int, 2339366819333032527232132299149483556092596920388365075930808529775402197979int, 2int, 19386418378313327790774760586521505837107494535890209724753754514645406928267int);
    let e897 = lemma_chain_square_mul(x, n, e896, 19386418378313327790774760586521505837107494535890209724753754514645406928267int, 17170552233890823365614593370117724097352747419270246387947772375990619626411int, 1753046351578664592030288799396829070370837185300339528369738774967061937676int, 2int, 3555765748945393540324986093199834722619981688513519940604871134820219900086int);
    let e898 = lemma_chain_square(x, n, e897, 3555765748945393540324986093199834722619981688513519940604871134820219900086int, 577637507743478409584967633001010376659759542466756594783704487107471936017int, 4013565416245611056936050022121256308249224332541498662436569620764150573485int);
    let e899 = lemma_chain_square_mul(x, n, e898, 4013565416245611056936050022121256308249224332541498662436569620764150573485int, 735952513173533966805885813772914184577103673743888338750560665171014831973int, 7624168133726193602956736577495290487692707927155233556914926155056789620966int, 9int, 8858353764053750279614235885057367369436313617510893072501665134726283888835int);
    let e900 = lemma_chain_square(x, n, e899, 8858353764053750279614235885057367369436313617510893072501665134726283888835int, 3585049374158893056684001015947779342578994384767899333300259662796781955461int, 13612092676646225104169046194559262427080046866679181890564126691840835735462int);
    let e901 = lemma_chain_square(x, n, e900, 13612092676646225104169046194559262427080046866679181890564126691840835735462int, 8465232596445321717422844959852745690981475928721552754354217603475300191355int, 1813552007421643022349230311142316221913093813940274543692933188161400953479int);
    let e902 = lemma_chain_square(x, n, e901, 1813552007421643022349230311142316221913093813940274543692933188161400953479int, 150261987811482009427676709872003245072969486206991448050863183920959112970int, 6046529577682819656334909720401525160378691082992585398199448297334441581931int);
    let e903 = lemma_chain_square(x, n, e902, 6046529577682819656334909720401525160378691082992585398199448297334441581931int, 1670326857567483973320042120309803917942642440527782576934814926183287168890int, 17005943764154522353110444246931109770080136235724239726871702155703097105891int);
    let e904 = lemma_chain_square(x, n, e903, 17005943764154522353110444246931109770080136235724239726871702155703097105891int, 13212669696829088071859216192233093369185672777745416995233690663476007595627int, 6411334049197168227707300854170054415069118714822473831539504272181046237340int);
    let e905 = lemma_chain_square_mul(x, n, e904, 6411334049197168227707300854170054415069118714822473831539504272181046237340int, 1877958159139380713289752809853050442241861527778741476949236145041043811486int, 7078668353897788355114887143172894898533797339691639478867747125064443091262int, 8int, 16018102580526083810130706903609961550842038913291676627916869219578153795410int);
    let e906 = lemma_chain_square_mul(x, n, e905, 16018102580526083810130706903609961550842038913291676627916869219578153795410int, 11722257094029399731853767866816206482590113334171813174162411331850712681596int, 20271594577289309391657060940132311860692386888392329792215609790324175729632int, 25int, 126981790829473018580501752140543021286667054147312822595516972622089485489int);
    let e907 = lemma_chain_square(x, n, e906, 126981790829473018580501752140543021286667054147312822595516972622089485489int, 736668324482325255005822018136069702956294466943931937482798061804880329int, 11904489112973387806446587592755852676719323274155465168872995605362033905314int);
    let e908 = lemma_chain_square_mul(x, n, e907, 11904489112973387806446587592755852676719323274155465168872995605362033905314int, 6474565449163138321238985026030094821191472094421182412698604536551473994802int, 5742560666317594380956768933611464201730403658762979523156404262690807653030int, 7int, 1831437887700121730107920990708607825846720685515681486399649830135223171729int);
    let e909 = lemma_chain_square(x, n, e908, 1831437887700121730107920990708607825846720685515681486399649830135223171729int, 153240475087145827374510747782281587178973496957545021976016179457347935844int, 6544738433622044902892851086248680945152234117271994296270206771565378700389int);
    let e910 = lemma_chain_square_mul(x, n, e909, 6544738433622044902892851086248680945152234117271994296270206771565378700389int, 1956922783401581392817217587972153729477881532267196641189082248101118705289int, 5701375738258240540374853626217828137191556197393837846255147911111409455834int, 7int, 719444830097568034396207691080434083297839228548856210065728337491471847437int);
    let e911 = lemma_chain_square_mul(x, n, e910, 719444830097568034396207691080434083297839228548856210065728337491471847437int, 23647437877256356909726593877310687712776713503547130039832848180464387484int, 11823382594507735883938872913909121500588427844519916909729415760583084893797int, 14int, 12795929845959015754899888241944429274139195599868225285047695010710125212357int);
    let e912 = lemma_chain_square(x, n, e911, 12795929845959015754899888241944429274139195599868225285047695010710125212357int, 7480537454806940081988613461038037185081707652934553854234356569387017279709int, 3297816451858284679091656686683882334930632472351190889114077749329857953102int);
    let e913 = lemma_chain_square(x, n, e912, 3297816451858284679091656686683882334930632472351190889114077749329857953102int, 496869182868002729434679338815580696016407477652999965276229742367003994358int, 15457774758555621070805002679885140075346260161327006705708650568212168247690int);
    let e914 = lemma_chain_square_mul(x, n, e913, 15457774758555621070805002679885140075346260161327006705708650568212168247690int, 10916490733646581580106300778848895887730789554456743672531788217256386430407int, 6167378848367259786642329726303146907657661306653558961913987375207394752819int, 7int, 13301528803041087683618062393384040885882677178561326332854393868083074866032int);
    let e915 = lemma_chain_square(x, n, e914, 13301528803041087683618062393384040885882677178561326332854393868083074866032int, 8083365555385220231924903371633171223182484116049911529130599736885848441019int, 4773968074801216338865874940499788389286393213661099239517677866384080358947int);
    let e916 = lemma_chain_square_mul(x, n, e915, 4773968074801216338865874940499788389286393213661099239517677866384080358947int, 1041233474640539612688781194663221453802448614134155523185521313906754655245int, 21061080651971911622553328954766886260131083395891624890808904505139737980974int, 25int, 21443105807259733252779738147274051806131472756628280484614474272642270271723int);
    let e917 = lemma_chain_square(x, n, e916, 21443105807259733252779738147274051806131472756628280484614474272642270271723int, 21007021411157176296273011237947325792419663475431811948367199218049808754310int, 7747519009707357827213959418556326334568980916567404231530098319452793145999int);
    let e918 = lemma_chain_square_mul(x, n, e917, 7747519009707357827213959418556326334568980916567404231530098319452793145999int, 2742296453727765155555168861351159458874642635643222580313278621106997048045int, 15490523743679047056302872974939934926457553034690159334483063513023287337766int, 19int, 2367526514388041297495861163490016329124019947975652439950994853369460156605int);
    let e919 = lemma_chain_square(x, n, e918, 2367526514388041297495861163490016329124019947975652439950994853369460156605int, 256081853127728169690335156843205729017709223718845498236643376420979773037int, 7649055501167847960261609337716466861493345261025063353957772315795763749454int);
    assert(e919 == 460244581903146nat);
}

/// `27^129547332972393782310023128547 mod 21888242871839275222246405745257275088696311157297823662689037894645226208583`, by repeated squaring.
proof fn lemma_power_102()
    ensures
        powmod(27int, 129547332972393782310023128547nat, 21888242871839275222246405745257275088696311157297823662689037894645226208583int) == 1386047975182988040070905485477685731550824447373429176425074694430735949812int,
{
    let n: int = 21888242871839275222246405745257275088696311157297823662689037894645226208583int;
    let x: int = 27int;
    lemma_power_101();
    let e920: nat = 460244581903146nat;
    let e921 = lemma_chain_square_mul(x, n, e920, 7649055501167847960261609337716466861493345261025063353957772315795763749454int, 2673035492274290073218848200921173857809038078743242317703942651727325421513int, 15999749300776621719490412904876394942772879937895054829649865681223151852037int, 19int, 16116616556022557203559439271774436769637846334507830809454653394765802041922int);
    let e922 = lemma_chain_square(x, n, e921, 16116616556022557203559439271774436769637846334507830809454653394765802041922int, 11866888115904477784147198267323950531181928261406249825027051652845273177616int, 1982872183938529357193197913289527221905868965859210038912216517828222775956int);
    let e923 = lemma_chain_square(x, n, e922, 1982872183938529357193197913289527221905868965859210038912216517828222775956int, 179629864345833816208408525612634075507994562229996965566369983745556433309int, 14490210386715044876761775142811010610497015824307472221514771032632208822789int);
    let e924 = lemma_chain_square(x, n, e923, 14490210386715044876761775142811010610497015824307472221514771032632208822789int, 9592647444596865058238368427653742338442508349646385028550538031202446421616int, 13460572356208946860756671741542606916676543400098179763256718270766029808393int);
    let e925 = lemma_chain_square_mul(x, n, e924, 13460572356208946860756671741542606916676543400098179763256718270766029808393int, 8277823360131204721558826609302690058866654778308078549183864083477819835957int, 15117227318686385996052277540393724179465140781614795105747887479330167823518int, 18int, 14176765911425467892976190175999601249025200272238641926790279838300459480492int);
    let e926 = lemma_chain_square_mul(x, n, e925, 14176765911425467892976190175999601249025200272238641926790279838300459480492int, 9182130008523005444511461556741294763254319574097980035526516085360210396889int, 16010399023415704268208907284866442466266789531060389704607282011655400263777int, 19int, 16404159067277786018958787531505719903973405349971872433304894316436509158902int);
    let e927 = lemma_chain_square(x, n, e926, 16404159067277786018958787531505719903973405349971872433304894316436509158902int, 12294108589719781068181108208325870230389391112939124017187914159391561873823int, 466812292336619854497186332992251206366460061142982934888789137862160222795int);
    let e928 = lemma_chain_square(x, n, e927, 466812292336619854497186332992251206366460061142982934888789137862160222795int, 9955742795458961603327787422989605233997062604055025716140616798791706092int, 7131506431933710495620920991084941095111003939628029172037704254636813824389int);
    let e929 = lemma_chain_square(x, n, e928, 7131506431933710495620920991084941095111003939628029172037704254636813824389int, 2323548047529419533472927459777900387816542182863346004132949469249294792396int, 4514862508447736531087696124820943518757697549227495393928668376786952888453int);
    let e930 = lemma_chain_square(x, n, e929, 4514862508447736531087696124820943518757697549227495393928668376786952888453int, 931275460965045292331452997582737585903275031671054548365053742685445972619int, 21136507028661857104962376007354648363588815725013756485466375227075659944332int);
    let e931 = lemma_chain_square(x, n, e930, 21136507028661857104962376007354648363588815725013756485466375227075659944332int, 20410589008378057934579718247349065155984315699998580139214078034304451416184int, 21715560072575682198929562559766153017610539434293566578108678624194013018952int);
    let e932 = lemma_chain_square_mul(x, n, e931, 21715560072575682198929562559766153017610539434293566578108678624194013018952int, 21544239618811273808649237831257294165993733360378161176701434153560038795322int, 13186031849815904081704943883556824973918484271178568094082039986864294529578int, 16int, 5810973995601006650090992931917872876658096805056159937190473331012332961278int);
    let e933 = lemma_chain_square_mul(x, n, e932, 5810973995601006650090992931917872876658096805056159937190473331012332961278int, 1542719485308490746391202786169867779128203796863031882468341093166981755855int, 877524084414658926299592071931239485345956824067668929080880148030835889819int, 1int, 1804907407356515787842580196886191015644523092529237422494726102187342816530int);
    let e934 = lemma_chain_square(x, n, e933, 1804907407356515787842580196886191015644523092529237422494726102187342816530int, 148832903956930323891420235285044099747648681558953591303835069511895128936int, 2511977908428439917460056085677255554797219461266805362641211778912026383212int);
    let e935 = lemma_chain_square(x, n, e934, 2511977908428439917460056085677255554797219461266805362641211778912026383212int, 288284128122080081135892446008337831743222979239951012768586214767923641792int, 10674415918897592776092524654666828928095415301064775327307064862059907536208int);
    let e936 = lemma_chain_square(x, n, e935, 10674415918897592776092524654666828928095415301064775327307064862059907536208int, 5205678494924323931723538663340282367827857289300316959575757603160941144278int, 5532994685071244460670145509783813056020261598058033117895138078009306081190int);
    let e937 = lemma_chain_square_mul(x, n, e936, 5532994685071244460670145509783813056020261598058033117895138078009306081190int, 1398651795133984369852338704484458269826318553633668924335508983740827368262int, 9914660881057971802451425045030283311269873359876366414903353431902705623354int, 12int, 5036929326493935999231607272730348339930846829088009250122087925630337327562int);
    let e938 = lemma_chain_square_mul(x, n, e937, 5036929326493935999231607272730348339930846829088009250122087925630337327562int, 1159099759110209116963913687218528391929861926908079682554620454312157271721int, 5512843597515183457216426566429671892742593958769384191667119047849931482501int, 6int, 17517319901874302011365082822057490571872169942986431198877986924076792776029int);
    let e939 = lemma_chain_square_mul(x, n, e938, 17517319901874302011365082822057490571872169942986431198877986924076792776029int, 14019238471599445839506428989687548407962158730694720864790729501027727120839int, 4728516607385506634729480350080082803493512895663390869706574839369497047704int, 5int, 18228734040212303026463940725875860250843292396422435168632331189750289245093int);
    let e940 = lemma_chain_square(x, n, e939, 18228734040212303026463940725875860250843292396422435168632331189750289245093int, 15181060748202151300830110367717623309184417775048945309781489059682460928364int, 11094319284170676470935719665130138676307380429765617737848666328885739630437int);
    let e941 = lemma_chain_square(x, n, e940, 11094319284170676470935719665130138676307380429765617737848666328885739630437int, 5623289228825089998445383838569735511457957271370906457082251819475312442286int, 6286902862993741925099717098590014348899930021330714759775150409151551470231int);
    let e942 = lemma_chain_square_mul(x, n, e941, 6286902862993741925099717098590014348899930021330714759775150409151551470231int, 1805770698002018270235477141052589944452971399322868792922444312777275820061int, 5753603493675890614512712267727161242166789372829334157002745255976517409798int, 7int, 2129594226374120036118391011832427917629134965307256600250856648849386604465int);
    let e943 = lemma_chain_square(x, n, e942, 2129594226374120036118391011832427917629134965307256600250856648849386604465int, 207196694387962767863700101293546512936605179524188687653627822745196044410int, 15844074883817780396958995111876809712671667526761182733200183332869166765195int);
    let e944 = lemma_chain_square_mul(x, n, e943, 15844074883817780396958995111876809712671667526761182733200183332869166765195int, 11468929250917567783150910349718466900060986924190322152344452473892678248139int, 2784318961791653948950319031950212485266539102236517348130768643298817810988int, 3int, 9511883352856830954919396626883911836107622288492497411463639685132402270927int);
    let e945 = lemma_chain_square_mul(x, n, e944, 9511883352856830954919396626883911836107622288492497411463639685132402270927int, 4133539884773408976965326757996138831263621306986421450663691169996004363940int, 2358960977781499122190861424150693674544089134098633122723871972498025742309int, 2int, 19915460656421925854660446961554179035297784306067446988166467468156242625177int);
    let e946 = lemma_chain_square_mul(x, n, e945, 19915460656421925854660446961554179035297784306067446988166467468156242625177int, 18120484841100499314284558907535497326960225461828369954316048531938456703101int, 5905482742451022554748750760437377760378959867083454840418330266040185365446int, 7int, 6230333943302682422491430315008273909357738310168515052471651920568421406961int);
    let e947 = lemma_chain_square_mul(x, n, e946, 6230333943302682422491430315008273909357738310168515052471651920568421406961int, 1773420610889253341077240084631374626376167271861543085934286833625052372370int, 16464392957021595563843994463457846753727639234539509010179677322418173203811int, 20int, 6773752402797575778859735608216360576720036186610270021070529812386152331237int);
    let e948 = lemma_chain_square_mul(x, n, e947, 6773752402797575778859735608216360576720036186610270021070529812386152331237int, 2096272500404245981907929583918399100238724584243313750219241961974938546337int, 7048572689052632740640110894906009240386860403877399775272550412325793339698int, 8int, 15205519629706882219311748200404048780874741646307204630846557975634610503182int);
    let e949 = lemma_chain_square(x, n, e948, 15205519629706882219311748200404048780874741646307204630846557975634610503182int, 10563105890371220174132076372914505912152035023481964269073740898628648436629int, 11786005056438287336092047101744569746991345733748252191795649491151220738417int);
    let e950 = lemma_chain_square(x, n, e949, 11786005056438287336092047101744569746991345733748252191795649491151220738417int, 6346325559513322290753321739190931962388837924601867888698144722912003144009int, 16853084624060114413856104425670541029420254097179841479047146424679918836642int);
    let e951 = lemma_chain_square_mul(x, n, e950, 16853084624060114413856104425670541029420254097179841479047146424679918836642int, 12976211156316753000522193140048237004338608681056884084494877587744193165523int, 14990877294689871434470407902366263028161954331576649662062568409824439552255int, 18int, 10765315263519574730265709949258150163839166121208714947286664961645796156391int);
    let e952 = lemma_chain_square(x, n, e951, 10765315263519574730265709949258150163839166121208714947286664961645796156391int, 5294715222301857261876973704662786081052773154017117469714614294992272550827int, 21267714559888012439692646661580645591150628626644932188682927520301558996740int);
    let e953 = lemma_chain_square_mul(x, n, e952, 21267714559888012439692646661580645591150628626644932188682927520301558996740int, 20664778129943344341126327163528922981426858726714754009919785292950949718024int, 14029196457661451886009064611023309443735626119552850462314354309136872027608int, 17int, 6688175535591522144055846828255678473024615553863960216773922137726699199505int);
    let e954 = lemma_chain_square_mul(x, n, e953, 6688175535591522144055846828255678473024615553863960216773922137726699199505int, 2043640152240604565016689385552151217132023695672557662607614457869656304328int, 14828627592780043000455546752983956405489890506631049110848081256348738597801int, 18int, 6384573311954207011864458915935871351693442847677500064495511817801870386133int);
    let e955 = lemma_chain_square_mul(x, n, e954, 6384573311954207011864458915935871351693442847677500064495511817801870386133int, 1862313782535829673379448747355013433702441039560879277343518352446760862366int, 11609257689638602490170271798612140057417449752421184092310253691400847806311int, 14int, 7014557414492414123147658128925930308522787113202439214730319142789723850235int);
    let e956 = lemma_chain_square(x, n, e955, 7014557414492414123147658128925930308522787113202439214730319142789723850235int, 2247965540647159054181028248123638639438219972395653725516276482732646248761int, 20220194175356191529590402502217575786995037952371326360355600709375218239562int);
    let e957 = lemma_chain_square(x, n, e956, 20220194175356191529590402502217575786995037952371326360355600709375218239562int, 18679263332514006785206803061116010765980811527328857333344221846680240214638int, 16574171947950730509658786640279169478438399926582514368541215009443544113890int);
    let e958 = lemma_chain_square_mul(x, n, e957, 16574171947950730509658786640279169478438399926582514368541215009443544113890int, 12550261680148906688076456213431207085643214924677934993673483097057305111399int, 1931365890888754360087583395660235091793447154669462828654195969062065994483int, 2int, 8370393310317817277871940192311797301030450861479849048285215375385329433875int);
    let e959 = lemma_chain_square(x, n, e958, 8370393310317817277871940192311797301030450861479849048285215375385329433875int, 3200964306712565867854555635908029195760572294893306542416904306170917267360int, 19978776135026937990708539081862281009089647153013440042313930222368259764745int);
    let e960 = lemma_chain_square_mul(x, n, e959, 19978776135026937990708539081862281009089647153013440042313930222368259764745int, 18235885730556182448685391833992875623962795554741532002235888983376607217914int, 20974409575967741690459880946660268487035815972329607194498279565400846759163int, 25int, 19102986755147145086256641928395371932559252320453802684227600899692207282826int);
    let e961 = lemma_chain_square_mul(x, n, e960, 19102986755147145086256641928395371932559252320453802684227600899692207282826int, 16672151579459451419685089192786350956612788552748186976336243194441499650801int, 17719244459215641024216659848152367683537367873582595807258910572306265521293int, 21int, 18766500090197527986675295249711150592886398283475789879520789664719418694668int);
    let e962 = lemma_chain_square_mul(x, n, e961, 18766500090197527986675295249711150592886398283475789879520789664719418694668int, 16089986194757072024629563039511944281055145237126159532416442542147784582755int, 15092063279482556670561136002060871949948811018998687208640739367779756844059int, 18int, 13497336852922076104715368641012591052084296681603728704897280826439363035099int);
    let e963 = lemma_chain_square_mul(x, n, e962, 13497336852922076104715368641012591052084296681603728704897280826439363035099int, 8323103100963532765117407802145071154049664079991304855777049756827470391047int, 4008116781341259878534853295217343669658146750612581028523126263456908183400int, 4int, 20666181608856915831455415989839178725984717637348393119368257534755616117468int);
    let e964 = lemma_chain_square(x, n, e963, 20666181608856915831455415989839178725984717637348393119368257534755616117468int, 19512350296502683115003306010837036826932905302078567577003237797302530957038int, 20522262657854904298178142733612231240513547611668948361855412789799174873870int);
    let e965 = lemma_chain_square(x, n, e964, 20522262657854904298178142733612231240513547611668948361855412789799174873870int, 19241529211092647787367040801821549394649882404797553849055550366316415261842int, 547999544370945383398004461626347292636143842488138026592674023019555987014int);
    let e966 = lemma_chain_square(x, n, e965, 547999544370945383398004461626347292636143842488138026592674023019555987014int, 13719854187890284049055031598557145821279282872668282463708628288091676836int, 14697174787477891336718549298770728184538508178205536481473633394880571152808int);
    let e967 = lemma_chain_square_mul(x, n, e966, 14697174787477891336718549298770728184538508178205536481473633394880571152808int, 9868628925512497098808016554034477198797303079646258013434326963347572966293int, 14494419797399947695942992370863416321960056832011264500313078243430839992045int, 17int, 19249205708530909012271896343938564185084244790241139242739468363663834239304int);
    let e968 = lemma_chain_square_mul(x, n, e967, 19249205708530909012271896343938564185084244790241139242739468363663834239304int, 16928353846349797609869846128435593817562479575138072273466039834960174616545int, 20318226658191291429490038856181835664776244569622926694209297113354125598681int, 25int, 1386047975182988040070905485477685731550824447373429176425074694430735949812int);
    assert(e968 == 129547332972393782310023128547nat);
}

/// `27^543360896875443130718059248159185826 mod 21888242871839275222246405745257275088696311157297823662689037894645226208583`, by repeated squaring.
proof fn lemma_power_103()
    ensures
        pow(27int, 543360896875443130718059248159185826nat) % 21888242871839275222246405745257275088696311157297823662689037894645226208583int == 3079850386165776373304302593529140662833478451685277064343379560295587684005int,
{
    let n: int = 21888242871839275222246405745257275088696311157297823662689037894645226208583int;
    let x: int = 27int;
    lemma_power_102();
    let e969: nat = 129547332972393782310023128547nat;
    let e970 = lemma_chain_square(x, n, e969, 1386047975182988040070905485477685731550824447373429176425074694430735949812int, 87769904635905020865511320358817347000834088230467418961278319383199387644int, 3852590341472681806033613790353073992302589406880438656832691782580365886892int);
    let e971 = lemma_chain_square_mul(x, n, e970, 3852590341472681806033613790353073992302589406880438656832691782580365886892int, 678101592079116926635671086871228662090761668929595919430664009393679625872int, 1386126627831179233045638163529416257511069125066839460256210543173262160288int, 1int, 15537176079602564069985824670036963864102555219506841764228646771032852119193int);
    let e972 = lemma_chain_square_mul(x, n, e971, 15537176079602564069985824670036963864102555219506841764228646771032852119193int, 11028927353467769226222564412996473670173771721053710492116883504774362221456int, 21434626689221735814293626122859691014811586917336020248393844625506785014401int, 26int, 9640605941165711207521355940522505093808756678329131476718819627907313965669int);
    let e973 = lemma_chain_square_mul(x, n, e972, 9640605941165711207521355940522505093808756678329131476718819627907313965669int, 4246173777266284790935823986834676759194184912290082546846833687932130486813int, 2991677897938366063320630708051375007348137900330140603749155970029241701582int, 3int, 15110574628818058042917811881615299932310789837020325313160097506853847316965int);
    let e974 = lemma_chain_square_mul(x, n, e973, 15110574628818058042917811881615299932310789837020325313160097506853847316965int, 10431603256140834442524389920099228544178029633436162200845849633702503131290int, 7105989759651610293474767595514253647192387931582079843178684049397002949155int, 8int, 16755780535879276145847479116826647764623984894333566464312166176557269958521int);
    let e975 = lemma_chain_square(x, n, e974, 16755780535879276145847479116826647764623984894333566464312166176557269958521int, 12826803092895267265249388315670137093757746731319621046798053788764795292057int, 3339693310595593248791851517515998331290287648109399398830741063930775382210int);
    let e976 = lemma_chain_square(x, n, e975, 3339693310595593248791851517515998331290287648109399398830741063930775382210int, 509568149172301175515912101569504644237010788031824395072501759156958976742int, 14254971679938241331940836684568473150077898085865134444931086276863646707514int);
    let e977 = lemma_chain_square_mul(x, n, e976, 14254971679938241331940836684568473150077898085865134444931086276863646707514int, 9283715407657388560032758912075385713974880448755310425888992783457217740417int, 4301433164382553782606460366160400822269419449435875622511703694625472661085int, 5int, 6697481079132576019142401160044446757792769348279523494370810281661630806380int);
    let e978 = lemma_chain_square(x, n, e977, 6697481079132576019142401160044446757792769348279523494370810281661630806380int, 2049330915596221700058678703414323345909779593627390886173101596209343167518int, 8131122431310051183559033933266873570533451045714883996092285680654070297406int);
    let e979 = lemma_chain_square_mul(x, n, e978, 8131122431310051183559033933266873570533451045714883996092285680654070297406int, 3020578325088632532963847708179888438571703394480881690585952236071844591239int, 12744513261905657907733528640562976937762900938820461485659180642437901924499int, 15int, 15778214993863635175109187116341250989153657988685105172462308926144958832728int);
    let e980 = lemma_chain_square_mul(x, n, e979, 15778214993863635175109187116341250989153657988685105172462308926144958832728int, 11373780428618924606299193824064285498768986607913477799889952948511420131861int, 8571919387264043381604693640316571193074299380876365807412557350173333959021int, 10int, 12559394737736419080862670835974671326042971710683640173248669508227754807737int);
    let e981 = lemma_chain_square(x, n, e980, 12559394737736419080862670835974671326042971710683640173248669508227754807737int, 7206535357903146891769409191840768209068411977464446756213324031511665592603int, 16307558961907345406672825576492836365187167405033021677715512706710255149620int);
    let e982 = lemma_chain_square_mul(x, n, e981, 16307558961907345406672825576492836365187167405033021677715512706710255149620int, 12149740883871043212342808418240807094226983754599011782433774907986025555357int, 558979221682694805850178364925133057725949242482478502913865413784491115269int, 0int, 15092438985432759757954815852978592558600629547026919578674366172181260112263int);
    let e983 = lemma_chain_square_mul(x, n, e982, 15092438985432759757954815852978592558600629547026919578674366172181260112263int, 10406578356368085611896656912006845423160235801210599875359360608419488466389int, 14354961113874590374326296559685686056177872164278622181481366827123664164382int, 17int, 15483821253346261328621109442139847008965258761459796634283260123370086892403int);
    let e984 = lemma_chain_square_mul(x, n, e983, 15483821253346261328621109442139847008965258761459796634283260123370086892403int, 10953310505980840956937408005830850698267969491109062525850690644736453740060int, 19982456865579914363525848734979166551333552907375868211791713478825676179429int, 24int, 14208506446515082481284177958262894757294460724000673813839354456807827838591int);
    let e985 = lemma_chain_square(x, n, e984, 14208506446515082481284177958262894757294460724000673813839354456807827838591int, 9223292003050425032980597423288639368590163207962709205992693306821140901328int, 6290623829552255086158911936709226502786738830936533997762640688313999167057int);
    let e986 = lemma_chain_square_mul(x, n, e985, 6290623829552255086158911936709226502786738830936533997762640688313999167057int, 1807908857583205228973585004328747085268187062852917116548245316300353545127int, 5554696704248516439556936460879671114593328774842372646543538421732588816208int, 6int, 18647353783674292534558849972207469561842009976957119480541310018908540786118int);
    let e987 = lemma_chain_square(x, n, e986, 18647353783674292534558849972207469561842009976957119480541310018908540786118int, 15886327887054033987179682057444667155580800679058455499827112936748207308981int, 9997030875326096251608573651451535370306228311568367637311799378013586326001int);
    let e988 = lemma_chain_square(x, n, e987, 9997030875326096251608573651451535370306228311568367637311799378013586326001int, 4565950172766207760807394389688300864272631524037448174770192328134282625554int, 9726957704600570027958331056840722054039553427664497802702879145427358722019int);
    let e989 = lemma_chain_square(x, n, e988, 9726957704600570027958331056840722054039553427664497802702879145427358722019int, 4322581156517383513458365401774186461390340113868741221007904451678676271009int, 11975860925005385697155724280055412112231957552002159268275829618327245566114int);
    let e990 = lemma_chain_square_mul(x, n, e989, 11975860925005385697155724280055412112231957552002159268275829618327245566114int, 6552432999525609004894284854179982045294187973965943824959032321619395817818int, 13695526428704278635672345023531198895310094536579448641168967867397609129102int, 16int, 19567327625587119607210823711225968754231573970879934708537526105411827148426int);
    let e991 = lemma_chain_square(x, n, e990, 19567327625587119607210823711225968754231573970879934708537526105411827148426int, 17492510141125427103166538154268905436975768376657839515456456514640692347337int, 3079850386165776373304302593529140662833478451685277064343379560295587684005int);
    lemma_chain_end(x, n, 543360896875443130718059248159185826nat, e991, 3079850386165776373304302593529140662833478451685277064343379560295587684005int);
}

/// `27^347097616783338 mod 21888242871839275222246405745257275088696311157297823662689037894645226208583`, by repeated squaring.
proof fn lemma_power_104()
    ensures
        powmod(27int, 347097616783338nat, 21888242871839275222246405745257275088696311157297823662689037894645226208583int) == 7788900081111272145133707518622987450054658619435075279692048878166729019577int,
{
    let n: int = 21888242871839275222246405745257275088696311157297823662689037894645226208583int;
    let x: int = 27int;
    let e992 = lemma_chain_start(x, n, 0int, 27int);
    let e993 = lemma_chain_square(x, n, e992, 27int, 0int, 729int);
    let e994 = lemma_chain_square(x, n, e993, 729int, 0int, 531441int);
    let e995 = lemma_chain_square_mul(x, n, e994, 531441int, 0int, 282429536481int, 0int, 7625597484987int);
    let e996 = lemma_chain_square_mul(x, n, e995, 7625597484987int, 0int, 58149737003040059690390169int, 0int, 1570042899082081611640534563int);
    let e997 = lemma_chain_square_mul(x, n, e996, 1570042899082081611640534563int, 0int, 2465034704958067503996131453373943813074726512397600969int, 0int, 66555937033867822607895549241096482953017615834735226163int);
    let e998 = lemma_chain_square(x, n, e997, 66555937033867822607895549241096482953017615834735226163int, 202377723072292920203788841064132470int, 15184643460692982993086931419977538895043637627814771887781468334626596712559int);
    let e999 = lemma_chain_square_mul(x, n, e998, 15184643460692982993086931419977538895043637627814771887781468334626596712559int, 10534120914978271317086790494287498383563274695363651884961724045417800879697int, 3597968419886410097713844922834788088154062335514253593539859699208656489130int, 4int, 9592175849575971749288189935510178025374438429693552374820060300052820372178int);
    let e1000 = lemma_chain_square_mul(x, n, e999, 9592175849575971749288189935510178025374438429693552374820060300052820372178int, 4203619178932150747293813042901439924067503430462586857703025568188988031775int, 5502469574335235464402419525269243895552285154409198669653495313275654738859int, 6int, 17237221276015706205386892710725934647733832225261422104510146090571320697695int);
    let e1001 = lemma_chain_square_mul(x, n, e1000, 17237221276015706205386892710725934647733832225261422104510146090571320697695int, 13574492893652787873029714126639746500315431760835963059328096970694713505594int, 14859322574691146167246834861722688924288478559710665114995230902880196999723int, 18int, 7213337823553992515229237851881649359255320280827132176468552274151247238027int);
    let e1002 = lemma_chain_square(x, n, e1001, 7213337823553992515229237851881649359255320280827132176468552274151247238027int, 2377177686732345986562374304159427232953554331466478692988971115091218390546int, 12091333733889578780035943011143616450581400298362730562122047352757043596411int);
    let e1003 = lemma_chain_square_mul(x, n, e1002, 12091333733889578780035943011143616450581400298362730562122047352757043596411int, 6679401006299727993738024590232968674524456189960209343442977012230291791184int, 18878123661572229859340529927759761245778341273114199447465994425460787548649int, 23int, 6279752810146876090526975908596226596000057756233440839733977910601061016114int);
    let e1004 = lemma_chain_square(x, n, e1003, 6279752810146876090526975908596226596000057756233440839733977910601061016114int, 1801665651621757073122171208953615644063235769344551571024955482011311027693int, 20036902324589679681639051011639006873377786982898905031854556510462460371977int);
    let e1005 = lemma_chain_square_mul(x, n, e1004, 20036902324589679681639051011639006873377786982898905031854556510462460371977int, 18342150949068441398371641204064163082364607796607416444019857525709750164938int, 17660951355446815891294276247416079579589763956353569019229730578000565625675int, 21int, 17192586288439249397770938029831371786301092518292066602732929818465521512982int);
    let e1006 = lemma_chain_square_mul(x, n, e1005, 17192586288439249397770938029831371786301092518292066602732929818465521512982int, 13504282870769845053900262070202448477190273699441269875786545493798167589047int, 12214044504874504963514066634552539952489295403793383418236512869420546341923int, 15int, 1455558554022505681183712954059452386766308542953997352050279054676358103176int);
    let e1007 = lemma_chain_square_mul(x, n, e1006, 1455558554022505681183712954059452386766308542953997352050279054676358103176int, 96794005649209829572264642671140699232490828190280792383285295020050303124int, 8843641153072371265291263518721772343456366380421763373281385833198260773684int, 10int, 19895882414561271940400057552915102386358780698409374451707038549900778803638int);
    let e1008 = lemma_chain_square(x, n, e1007, 19895882414561271940400057552915102386358780698409374451707038549900778803638int, 18084875034136781117759908417670940264747650490551282641444150917531289738552int, 4582262806350744728776563292235301860273158834144485635681861843546273643228int);
    let e1009 = lemma_chain_square_mul(x, n, e1008, 4582262806350744728776563292235301860273158834144485635681861843546273643228int, 959288168968540311435783605834543151655165806459775037147764635573960840701int, 699914461174324762665972450972094108958305738754931043830028673974768323301int, 0int, 18897690451706768591981256176246540941874254946383138183410774197318744729127int);
    let e1010 = lemma_chain_square_mul(x, n, e1009, 18897690451706768591981256176246540941874254946383138183410774197318744729127int, 16315731989066697063961163957652182527764214559247361454116986645100223394475int, 4924809874183149962049163690427797388283013595871518630402703870821962403204int, 6int, 1640409371909397641848985170006878951463500144744061044738777144321627635010int);
    let e1011 = lemma_chain_square_mul(x, n, e1010, 1640409371909397641848985170006878951463500144744061044738777144321627635010int, 122940106394299332700358805787233094453784479046191036507936839263936425078int, 15584947076774384335221768868821670256709921098709245124232464753096797655626int, 19int, 4916956507962147828306050298296870245937957676490968763184828335354238738825int);
    let e1012 = lemma_chain_square_mul(x, n, e1011, 4916956507962147828306050298296870245937957676490968763184828335354238738825int, 1104540983154750796943446756918680815767358642052034186108523677901022043136int, 6065264546415560672511863865114326206959393607954591900968544816977002944337int, 7int, 10544442650345211602095484141285881967029449313689215687327444795862496037018int);
    let e1013 = lemma_chain_square(x, n, e1012, 10544442650345211602095484141285881967029449313689215687327444795862496037018int, 5079680057345609155081761727277987196879993450777974546004474051349629692064int, 17871285541796775657145720931116081052482780737131281960267962924258702547012int);
    let e1014 = lemma_chain_square_mul(x, n, e1013, 17871285541796775657145720931116081052482780737131281960267962924258702547012int, 14591525175707109765504457969498250818281365425895910122457550623927726846424int, 7248722781294950240182264590992709391704073388059334401165310022675438470952int, 8int, 20609572120249454706949897994744952866439492219219439529951067455075029047040int);
    let e1015 = lemma_chain_square_mul(x, n, e1014, 20609572120249454706949897994744952866439492219219439529951067455075029047040int, 19405598954050319646244928705441752255994880877951855851836633718225327751711int, 8280871364864997411688491709276798849114504374186274667517015146710411626087int, 10int, 4701098132962177893125218697900818039128506530051179396069030014728851818519int);
    let e1016 = lemma_chain_square(x, n, e1015, 4701098132962177893125218697900818039128506530051179396069030014728851818519int, 1009689255786450362364545405614121245985253214119099598537429672496874936635int, 15171013806887591539743508395007291319429627004000323162283178919533893215156int);
    let e1017 = lemma_chain_square(x, n, e1016, 15171013806887591539743508395007291319429627004000323162283178919533893215156int, 10515218662201985677344224175905632322296197560492847333066575007426986390685int, 4969134109004258106029788198547090282226734156492006245909845468388769854981int);
    let e1018 = lemma_chain_square(x, n, e1017, 4969134109004258106029788198547090282226734156492006245909845468388769854981int, 1128107630103002492348951643053993669691137717527461332152362182822432998592int, 8626986416554885119811847974319102143271543015043138820217173508883833195225int);
    let e1019 = lemma_chain_square_mul(x, n, e1018, 8626986416554885119811847974319102143271543015043138820217173508883833195225int, 3400222442120981132484267949307777639326973505351386930410019365993499956445int, 20685873619085157892079712306228441797557769145846554345339368832249977633190int, 25int, 11312515919317382529992088636736051316651988005411375756937011104618740881555int);
    let e1020 = lemma_chain_square(x, n, e1019, 11312515919317382529992088636736051316651988005411375756937011104618740881555int, 5846655538963123527383089055317742756787836324330159111350505025394367444221int, 16549274220670823138689903166940769599430810383972831706711700975174975269182int);
    let e1021 = lemma_chain_square(x, n, e1020, 16549274220670823138689903166940769599430810383972831706711700975174975269182int, 12512583985593622703624133992042243863306622065425117713085317277605068157318int, 322047852340183308258769036264961373131872037916073774453219861718033088730int);
    let e1022 = lemma_chain_square_mul(x, n, e1021, 322047852340183308258769036264961373131872037916073774453219861718033088730int, 4738380316967367697484224327893791806213517398696056015549740510634613679int, 7772147740013852418844114548477445080770267317811188817786043369797974006043int, 9int, 12853803133820538308573441101575541382530417165221685116021829932738262285914int);
    let e1023 = lemma_chain_square_mul(x, n, e1022, 12853803133820538308573441101575541382530417165221685116021829932738262285914int, 7548356255475485174167578077591445404684447621747564360567106639381580508816int, 16619929789275687637260224649487168485129482414102498543916657485444996447668int, 20int, 10973246873658061761097950631008047324569802034810987431968994214110379915376int);
    let e1024 = lemma_chain_square(x, n, e1023, 10973246873658061761097950631008047324569802034810987431968994214110379915376int, 5501224911258861583646520390398009521487350623729420613146088527719760182360int, 20342012297614582158368114801247501497243127395587024011007284012261444025496int);
    let e1025 = lemma_chain_square_mul(x, n, e1024, 20342012297614582158368114801247501497243127395587024011007284012261444025496int, 18905010636951661995817838069933275510012690431699425428253958729940080173778int, 15001681721486686955023134420451022483535721625090434671496237541726382909442int, 18int, 11057034787033593785189325937546655458930883046080910201995731522998266800440int);
    let e1026 = lemma_chain_square(x, n, e1025, 11057034787033593785189325937546655458930883046080910201995731522998266800440int, 5585556547298931488511429522065805219819907524606312773826766696859387735121int, 6206670814533326358995537555200316165338309577264658909442627243860483450057int);
    let e1027 = lemma_chain_square(x, n, e1026, 6206670814533326358995537555200316165338309577264658909442627243860483450057int, 1759975107437333834866821887891896154363657639236038227719337138549313623229int, 16762995876741913658355049362790253508529596874258104024810531904959385328742int);
    let e1028 = lemma_chain_square_mul(x, n, e1027, 16762995876741913658355049362790253508529596874258104024810531904959385328742int, 12837852376226582631336056206100280164434831301309784394735780357416915338498int, 14967230349870681106760999498832759665924233863726578327338628039232813374230int, 18int, 10126847753401435882111683053853559383420713489256788909740274955671889349716int);
    let e1029 = lemma_chain_square(x, n, e1028, 10126847753401435882111683053853559383420713489256788909740274955671889349716int, 4685302791139677618085958122199725553692450823464274501702836276498827946192int, 5431394141532633797342955552650538889479150550722816752004802809080456714720int);
    let e1030 = lemma_chain_square_mul(x, n, e1029, 5431394141532633797342955552650538889479150550722816752004802809080456714720int, 1347757446470444759678726257428021067607884938819052977543061965403192239704int, 2204474662468138256198214154026201884972139413794864029087190778235426498968int, 2int, 15744330142961182472858970668192900716855141857865681459976075223066063054970int);
    let e1031 = lemma_chain_square_mul(x, n, e1030, 15744330142961182472858970668192900716855141857865681459976075223066063054970int, 11324980863104171679441568259350617099179813727666656272576284279537749342839int, 17240768331811060599547548740324648446596913701444893252376066480961450313763int, 21int, 5847644650273856520609295338362731195494135635757820897683999198409408091358int);
    let e1032 = lemma_chain_square_mul(x, n, e1031, 5847644650273856520609295338362731195494135635757820897683999198409408091358int, 1562251851649115158673553838532299460316811338312623648928591382904198602682int, 15845353749973794075280467069841567780927219420197094174911547408847199064558int, 19int, 11947936684346210809890901725834103399805012356662893131520060040615076779989int);
    let e1033 = lemma_chain_square_mul(x, n, e1032, 11947936684346210809890901725834103399805012356662893131520060040615076779989int, 6521911870632963906918475038620066858443317308599328095712116468556497669401int, 8126014745288989220792903707951351217081151010212232041423116750753708171338int, 10int, 519969404409956738944342662113731974227965702752028491533773323897858540296int);
    let e1034 = lemma_chain_square_mul(x, n, e1033, 519969404409956738944342662113731974227965702752028491533773323897858540296int, 12352210412937821355822740627748675900473073150774728228883704379755095747int, 20408940307250572078219184939474745882228789270963301622937796729552897571115int, 25int, 3835316499783565555757849734386261602769531383563552252094564331797579205530int);
    let e1035 = lemma_chain_square_mul(x, n, e1034, 3835316499783565555757849734386261602769531383563552252094564331797579205530int, 672034422298787501907662667245969969022576652662795517726623787775226413149int, 18544078217165296550040371355079599808456315498266237946255858577338374723033int, 22int, 19148768682998951961669100191489142877001672992636303969749347905941140933065int);
    let e1036 = lemma_chain_square(x, n, e1035, 19148768682998951961669100191489142877001672992636303969749347905941140933065int, 16752159788337983878742419979489965579731720277391325839364540241287683035691int, 1488229349271702608365414324598200548710964341988987466715015890907010758372int);
    let e1037 = lemma_chain_square_mul(x, n, e1036, 1488229349271702608365414324598200548710964341988987466715015890907010758372int, 101187957800084611791450612046885762633002719309285594782178323382592174136int, 2201970949364407005829188510860036902163859818310959507021224118252374281096int, 2int, 15676729889160438712895278302706446181031592779800259364194975403523653172426int);
    let e1038 = lemma_chain_square(x, n, e1037, 15676729889160438712895278302706446181031592779800259364194975403523653172426int, 11227939193505713814163173496992798175886890014594219008445014738564871871404int, 5676175101234049361279296640731084292278667092678803762370104996627229664944int);
    let e1039 = lemma_chain_square_mul(x, n, e1038, 5676175101234049361279296640731084292278667092678803762370104996627229664944int, 1471975798538003059943863696454969683367346662496561505199998820249476805843int, 16956042510091224703297234143791430216921811195542932428227512768286391372667int, 20int, 20048290335677562544097206977223114082962679133702702308362086850828042890349int);
    let e1040 = lemma_chain_square(x, n, e1039, 20048290335677562544097206977223114082962679133702702308362086850828042890349int, 18363006465938749455911510714507578199337223460275363078117735424050561029328int, 7788900081111272145133707518622987450054658619435075279692048878166729019577int);
    assert(e1040 == 347097616783338nat);
}

/// `27^97699293600414303082849588487 mod 21888242871839275222246405745257275088696311157297823662689037894645226208583`, by repeated squaring.
proof fn lemma_power_105()
    ensures
        powmod(27int, 97699293600414303082849588487nat, 21888242871839275222246405745257275088696311157297823662689037894645226208583int) == 8559906549585719454797926768150289293953101965065402418329821594878405715787int,
{
    let n: int = 21888242871839275222246405745257275088696311157297823662689037894645226208583int;
    let x: int = 27int;
    lemma_power_104();
    let e1041: nat = 347097616783338nat;
    let e1042 = lemma_chain_square(x, n, e1041, 7788900081111272145133707518622987450054658619435075279692048878166729019577int, 2771669011019033875754268293132675611247982752220706707795061159399221488015int, 13196137567255901345982578047330513295235907083749965927238599977325624626184int);
    let e1043 = lemma_chain_square(x, n, e1042, 13196137567255901345982578047330513295235907083749965927238599977325624626184int, 7955780083104936282119307955421081897952250373307391497619645594650388692124int, 8496496214232606274210901012573387542630965921196725635339282631045145101564int);
    let e1044 = lemma_chain_square_mul(x, n, e1043, 8496496214232606274210901012573387542630965921196725635339282631045145101564int, 3298138107346523003563333640673833959461803998593010622119505441650584210472int, 7810391647593119935202707629339751219216766025328016588307340405410830364920int, 9int, 13886388638460761250255454284857807120585882268176034920096849894285383975593int);
    let e1045 = lemma_chain_square(x, n, e1044, 13886388638460761250255454284857807120585882268176034920096849894285383975593int, 8809834144634032241558483647227710558433138036094439648062482598804081408948int, 14805524298853878848797297080832362511762454562788857457552474775671249100965int);
    let e1046 = lemma_chain_square(x, n, e1045, 14805524298853878848797297080832362511762454562788857457552474775671249100965int, 10014670937609753631953628303546620075826810572422307829464394798784444674500int, 4255153250969223814557721967793668748324932643366180420408753891560222697725int);
    let e1047 = lemma_chain_square(x, n, e1046, 4255153250969223814557721967793668748324932643366180420408753891560222697725int, 827217118123674871355345908470555383445509109564316484464790103887812276095int, 13870553804740805218700516162053671548925483964402103788793520179056265452240int);
    let e1048 = lemma_chain_square_mul(x, n, e1047, 13870553804740805218700516162053671548925483964402103788793520179056265452240int, 8789753658012240961225050714878280388903734324406676346461355307960761573856int, 17773387790900765223170814718530286992845810798632970668139056139428905411552int, 21int, 20228370045695881358437476749914971944214357259835911123284719977030695731661int);
    let e1049 = lemma_chain_square(x, n, e1048, 20228370045695881358437476749914971944214357259835911123284719977030695731661int, 18694372001511983317070505355528078980176259073509197477967392534237471690872int, 13060203461886048799975000317797887715946379115398470436372629899069348664545int);
    let e1050 = lemma_chain_square_mul(x, n, e1049, 13060203461886048799975000317797887715946379115398470436372629899069348664545int, 7792718468292808180870159947848937771377802960001199901990820289362337796575int, 1547904642067846394135306684131133916979502086079191081175102936769367053800int, 1int, 19905182463992577419406874726283340669750245166840335529038741398127684244017int);
    let e1051 = lemma_chain_square_mul(x, n, e1050, 19905182463992577419406874726283340669750245166840335529038741398127684244017int, 18101786024797679391797776315320138228540956425097970610243784537073407644765int, 2037017161599800937107990493152256019404041177176221654474355408464142278294int, 2int, 11222977619516074857422931824596362346516489469162337345429520239241389096772int);
    let e1052 = lemma_chain_square_mul(x, n, e1051, 11222977619516074857422931824596362346516489469162337345429520239241389096772int, 5754469528945547975303382609855508608018053549108103142882685244889297916190int, 12475636266157588449711839373714931661830920090636918005051157180365788161214int, 15int, 8518536108665759808523576911444028538990175087729431196045675450197887224033int);
    let e1053 = lemma_chain_square(x, n, e1052, 8518536108665759808523576911444028538990175087729431196045675450197887224033int, 3315271027442902717798773834817963038252102554948549557593658853237471726907int, 2993752973365893494211433557227507827769361093454170165387601980625537342308int);
    let e1054 = lemma_chain_square_mul(x, n, e1053, 2993752973365893494211433557227507827769361093454170165387601980625537342308int, 409468997489427163870243274179435449387737300419632706791138459773170540346int, 10553698075034242068693757455840966575908948129069508579847145045236953777146int, 13int, 402690692013957965528176619361521396489554440005024040915423591009811271363int);
    let e1055 = lemma_chain_square(x, n, e1054, 402690692013957965528176619361521396489554440005024040915423591009811271363int, 7408534087645291940902524093041580905143480881673266153038313474608093604int, 11706983803409821457690158563642898810587763790102338577469058857843931674637int);
    let e1056 = lemma_chain_square(x, n, e1055, 11706983803409821457690158563642898810587763790102338577469058857843931674637int, 6261510829159729961542956288503072261439590375031927360827203462334578010421int, 13462683136966719224041487228411773811031122333628624202808782414425935438326int);
    let e1057 = lemma_chain_square(x, n, e1056, 13462683136966719224041487228411773811031122333628624202808782414425935438326int, 8280419689583702655688900396071374153936843193489862708439107938563222750631int, 3538037405044914183655434689911288354531316023762718128805272604633148816403int);
    let e1058 = lemma_chain_square(x, n, e1057, 3538037405044914183655434689911288354531316023762718128805272604633148816403int, 571891894328431469818395186318775331733567559174199266531488624638123336668int, 1719593410747156123903542176470362425500382700495771293379612425892901636965int);
    let e1059 = lemma_chain_square(x, n, e1058, 1719593410747156123903542176470362425500382700495771293379612425892901636965int, 135095426142654087080978578764872129341229610761793111495084079015258867534int, 723754354462854263446809011409896186924077565030980272505708845543603566903int);
    let e1060 = lemma_chain_square(x, n, e1059, 723754354462854263446809011409896186924077565030980272505708845543603566903int, 23931585951007227654161552529452775092623847119077604687386910219207303135int, 15636878113294284318824445970641816161806157443687180526415408704163977203704int);
    let e1061 = lemma_chain_square_mul(x, n, e1060, 15636878113294284318824445970641816161806157443687180526415408704163977203704int, 11170926719047110431357485355111619100698756938656018981782505953463447491454int, 18675017540713989946794905655302247308041244653376154478440982303416397369934int, 23int, 795887546974398451795120552243350277098449023306226676058650615402526190809int);
    let e1062 = lemma_chain_square(x, n, e1061, 795887546974398451795120552243350277098449023306226676058650615402526190809int, 28939599726567608827043468537570001070018386774844703369843926217137581725int, 4793807761090251152353121870656069190289541894403361119556366751900417128806int);
    let e1063 = lemma_chain_square_mul(x, n, e1062, 4793807761090251152353121870656069190289541894403361119556366751900417128806int, 1049905786629187780533208992953607326298128290283511505696012470021488219894int, 7770321628213442416942024067384249734263617814198450452812008561837380835434int, 9int, 12804498115209468257216998112059267026850880567677749261722890117802246679471int);
    let e1064 = lemma_chain_square(x, n, e1063, 12804498115209468257216998112059267026850880567677749261722890117802246679471int, 7490558878681960900961124087162447242906528981884251197950581331552930633250int, 15339995811491490932088373360840178856616577975423876555561635361950637655091int);
    let e1065 = lemma_chain_square_mul(x, n, e1064, 15339995811491490932088373360840178856616577975423876555561635361950637655091int, 10750770305062996587529962228936402705257557271146631054981036769351264634574int, 20679118470616790953063046319716125837274077762706958425586413120440080869639int, 25int, 11130126910671475176542107000903520388992320660642285923607206885751528265678int);
    let e1066 = lemma_chain_square(x, n, e1065, 11130126910671475176542107000903520388992320660642285923607206885751528265678int, 5659646860325783095956921528428380470241403329881731498368062467870401153092int, 13020038919063085920661478423629951759508674151257865170971861708160045411048int);
    let e1067 = lemma_chain_square(x, n, e1066, 13020038919063085920661478423629951759508674151257865170971861708160045411048int, 7744861679692816687862623927171095781257803339393774803049423729329951071205int, 5902001227129109624736615668886045357043859831657483848223246597021665305789int);
    let e1068 = lemma_chain_square(x, n, e1067, 5902001227129109624736615668886045357043859831657483848223246597021665305789int, 1591430554247429047733768088344546478348833487473927178977619638667492583111int, 5772088015977498668597051815986871052500380031636802848054615694947327870808int);
    let e1069 = lemma_chain_square_mul(x, n, e1068, 5772088015977498668597051815986871052500380031636802848054615694947327870808int, 1522141373305742198786792551423655550668571178303182362636813597198996516819int, 20709024680493598442982585190829759624988650511973031503763006008272176915387int, 25int, 11937594577345277404369656520971632657285784890826259034375214857218121500874int);
    let e1070 = lemma_chain_square_mul(x, n, e1069, 11937594577345277404369656520971632657285784890826259034375214857218121500874int, 6510626052875506086189598105573588251697914710958922556028477893887944092838int, 7992818269526153831460194962253088042210719953418311873120399932992278335322int, 9int, 18811907430652676449207612273517901341422638326614007610049457138984479176447int);
    let e1071 = lemma_chain_square(x, n, e1070, 18811907430652676449207612273517901341422638326614007610049457138984479176447int, 16167942911248777001419533764064713059647823895781662440867942857798464506224int, 21703248717505725205643432994915533741110635354106479270198486303754633823217int);
    let e1072 = lemma_chain_square(x, n, e1071, 21703248717505725205643432994915533741110635354106479270198486303754633823217int, 21519818089186481954073633019169363006938450568467153311520804262265591461831int, 6098262147120439162218210419398245978897472194377105612760424035873719133616int);
    let e1073 = lemma_chain_square_mul(x, n, e1072, 6098262147120439162218210419398245978897472194377105612760424035873719133616int, 1699030910464171184587665092227839891976679375739752300583538412784145099718int, 19841991102097679266130826393561145725773088841889977869984571808710058755862int, 24int, 10415930832494734851618574739976332467161930955881634585046529363686157402282int);
    let e1074 = lemma_chain_square(x, n, e1073, 10415930832494734851618574739976332467161930955881634585046529363686157402282int, 4956616012649254709008394999769154050298645399948772471619576739245167362122int, 12552284091082427303570853429011007055920058903224080482188784003108913314398int);
    let e1075 = lemma_chain_square_mul(x, n, e1074, 12552284091082427303570853429011007055920058903224080482188784003108913314398int, 7198377541120604382794915547248171590600005129885413703289749411963596766116int, 18062205050764972329083959804769495044083847187630867076761578120291111328776int, 22int, 6138193190190197995845988333116314238945028605481290493403775565665029288126int);
    let e1076 = lemma_chain_square(x, n, e1075, 6138193190190197995845988333116314238945028605481290493403775565665029288126int, 1721354055723307876578670475695024861801491165652803039511865669086996095736int, 18022381102534049539971559070035092747331725438215324257552018421111351689788int);
    let e1077 = lemma_chain_square_mul(x, n, e1076, 18022381102534049539971559070035092747331725438215324257552018421111351689788int, 14839300829527156317893406806029263331117379779078014850657201009502216912754int, 243412804978557650578984785779139016750221838333695758072893489120266517362int, 0int, 6572145734421056565632589216036753452255989635009785467968124206247195968774int);
    let e1078 = lemma_chain_square(x, n, e1077, 6572145734421056565632589216036753452255989635009785467968124206247195968774int, 1973347052450691335046465430878673098769821619339256930402944848394024229108int, 11351681807301436519432718700852645809174472354067155475687125492922195029112int);
    let e1079 = lemma_chain_square_mul(x, n, e1078, 11351681807301436519432718700852645809174472354067155475687125492922195029112int, 5887209887460016514433951655926973220276460140199007825612175262349178985132int, 21281047280629438757667993416994751998023197049357608030243619479302439720588int, 26int, 5493961909173690678629272882169151640522230242912001586662740680389991032718int);
    let e1080 = lemma_chain_square(x, n, e1079, 5493961909173690678629272882169151640522230242912001586662740680389991032718int, 1378987689244106342333171870163709115842023731313512314361039782298379324087int, 2681213584778350640495584358377935816901067703951789464887180396238928428803int);
    let e1081 = lemma_chain_square_mul(x, n, e1080, 2681213584778350640495584358377935816901067703951789464887180396238928428803int, 328436884097672105848526222954769237627635387479911166295855582198629377553int, 10252269883650043339667102817942047729617793240578066953505752186546803875410int, 12int, 14152372396479867504054907141347987635324683608033923792386854301020990133074int);
    let e1082 = lemma_chain_square(x, n, e1081, 14152372396479867504054907141347987635324683608033923792386854301020990133074int, 9150558389788869915642561956175069396155793982352074397291062010317210849037int, 10222140984279056589022158850842217086184294902385705033992694880926342004905int);
    let e1083 = lemma_chain_square(x, n, e1082, 10222140984279056589022158850842217086184294902385705033992694880926342004905int, 4773894684662601865581430265243255247238159977860938206767662847564267093692int, 3769907981837160343914676598176004671202681190582526687408384911377448500589int);
    let e1084 = lemma_chain_square(x, n, e1083, 3769907981837160343914676598176004671202681190582526687408384911377448500589int, 649307771059343860002620329290450965300365368745666980953308284336850784319int, 3698602016754057347208022734367437486488466464513116617869055572526093736944int);
    let e1085 = lemma_chain_square(x, n, e1084, 3698602016754057347208022734367437486488466464513116617869055572526093736944int, 624977388931342522140487324409532012653926682771163126358705442348295813673int, 4280465778631796097778459183992545508839558486031812653006403318141869103777int);
    let e1086 = lemma_chain_square(x, n, e1085, 4280465778631796097778459183992545508839558486031812653006403318141869103777int, 837088083740651268804499279045728384386553593702011457022605186173893092833int, 1487627753147624356357051354626397706057863991692947840754400651080955280090int);
    let e1087 = lemma_chain_square_mul(x, n, e1086, 1487627753147624356357051354626397706057863991692947840754400651080955280090int, 101106166670978972051152551252799480246549207400136405027544172980650498798int, 9101868374447229793490794843522425057099009545630177076437551581989011624866int, 11int, 4979774519843176979540997577275450566013835001738720774234475872605825576969int);
    let e1088 = lemma_chain_square_mul(x, n, e1087, 4979774519843176979540997577275450566013835001738720774234475872605825576969int, 1132944038207099259014030331319768064090486890522659555623389648161298759875int, 6551045782682913388941083925742180005131183675287121481356574328535762219836int, 8int, 1772293157724459723438020032980659428971469974369690695115203713303770266908int);
    let e1089 = lemma_chain_square_mul(x, n, e1088, 1772293157724459723438020032980659428971469974369690695115203713303770266908int, 143502749640907818496292191266558571813710379251121087411431156870557258334int, 7613114533190340609445021425017250558971107495583178347501154172099460799742int, 9int, 8559906549585719454797926768150289293953101965065402418329821594878405715787int);
    assert(e1089 == 97699293600414303082849588487nat);
}

/// `27^13427688667394608761327070753331941386769 mod 21888242871839275222246405745257275088696311157297823662689037894645226208583`, by repeated squaring.
proof fn lemma_power_106()
    ensures
        pow(27int, 13427688667394608761327070753331941386769nat) % 21888242871839275222246405745257275088696311157297823662689037894645226208583int == 893063546348579724036028309637317000017722597909560269288968862101068323439int,
{
    let n: int = 21888242871839275222246405745257275088696311157297823662689037894645226208583int;
    let x: int = 27int;
    lemma_power_105();
    let e1090: nat = 97699293600414303082849588487nat;
    let e1091 = lemma_chain_square_mul(x, n, e1090, 8559906549585719454797926768150289293953101965065402418329821594878405715787int, 3347550580769091683462340765587161535530126529431547465350407863088086040288int, 13109988424692486986189990360223588289314181325562264022915827078156191637465int, 16int, 3757801517268745071187247801920482392341917273415950015702724795893554874227int);
    let e1092 = lemma_chain_square(x, n, e1091, 3757801517268745071187247801920482392341917273415950015702724795893554874227int, 645144168303934982695185018620513817009185529734567942103593377717811929524int, 2265921037707019451913070006520972949959516183456420612815223175411668943037int);
    let e1093 = lemma_chain_square_mul(x, n, e1092, 2265921037707019451913070006520972949959516183456420612815223175411668943037int, 234573335977051452744304953708787266597141454988553354248306922197489942345int, 9255391528037434006984076371537505066751170950386647334525263922661136636234int, 11int, 9124899666778690743859598833682610826622192930163417742602709070753200883905int);
    let e1094 = lemma_chain_square(x, n, e1093, 9124899666778690743859598833682610826622192930163417742602709070753200883905int, 3804041942348073976976249917507968565451278777093651779332463376562242766961int, 4518522444327631977711439767006095957104050726853943755934263043812041022762int);
    let e1095 = lemma_chain_square_mul(x, n, e1094, 4518522444327631977711439767006095957104050726853943755934263043812041022762int, 932785934414154641943715049157039958987103041524427446096698920919831077678int, 14327359087530531259004422174155712004212903970805173640157912901364098798370int, 17int, 14738566542056665214930501032830547605911117537676686018550004127861822010079int);
    let e1096 = lemma_chain_square_mul(x, n, e1095, 14738566542056665214930501032830547605911117537676686018550004127861822010079int, 9924293374600089995416655439800888149140275499795923733619848977843313832572int, 8945204217674740412144558768131189304385041152453855105139529327577566220765int, 11int, 749842286985963683192623541712085242736688385978027549187875003496799666242int);
    let e1097 = lemma_chain_square(x, n, e1096, 749842286985963683192623541712085242736688385978027549187875003496799666242int, 25687921074547779104799407682436133654990870716966112477608365334220719419int, 9576409121157892776665262444224781135883748906549971468283177828558581829287int);
    let e1098 = lemma_chain_square(x, n, e1097, 9576409121157892776665262444224781135883748906549971468283177828558581829287int, 4189811498015869184296734579328181875761860006863745617925037360301730743246int, 12169195896070430267066200310340745749274443074265507070141749000063996447951int);
    let e1099 = lemma_chain_square_mul(x, n, e1098, 12169195896070430267066200310340745749274443074265507070141749000063996447951int, 6765702008335464626761205733045311763582866045147531788222113234742526967122int, 14751514441360125699306848134708835612408343811327620984331475093583096890275int, 18int, 4302518223616439880849596222507609938491682074484940648547145423129544282931int);
    let e1100 = lemma_chain_square_mul(x, n, e1099, 4302518223616439880849596222507609938491682074484940648547145423129544282931int, 845735455922233427877056441290408625278550789731824805833949724507033572995int, 1110397691641687531689073265321951746614969498365681334528367316251351934676int, 1int, 8092494802486288133358572418435422069907865298575572369576879644141276027669int);
    let e1101 = lemma_chain_square(x, n, e1100, 8092494802486288133358572418435422069907865298575572369576879644141276027669int, 2991947435512194351066805453393632280868654109373534057097866724633493602614int, 11946056345316010257736119301873817807615354604180027648483633281715175537599int);
    let e1102 = lemma_chain_square_mul(x, n, e1101, 11946056345316010257736119301873817807615354604180027648483633281715175537599int, 6519859224929785155896306071476490573413833926371326000330253897862629552247int, 7119235402926485417393065173878075698438248210198654411264873041035944348800int, 8int, 17113412904300904491641513732649843148262212416981079802639268950808687748936int);
    let e1103 = lemma_chain_square_mul(x, n, e1102, 17113412904300904491641513732649843148262212416981079802639268950808687748936int, 13380192414160783773325070849785513526280953809237550203949026673092061531640int, 20483098029926282976668846400699238634156085203270532246367536143753875065976int, 25int, 5837575012027759813898709187447565904806521555858779084697528515223971566777int);
    let e1104 = lemma_chain_square(x, n, e1103, 5837575012027759813898709187447565904806521555858779084697528515223971566777int, 1556876091908394313058515196526188796617736368987269143928692928919693518175int, 3517213301357877097398718834721192496437658914998072766083468770128518671704int);
    let e1105 = lemma_chain_square_mul(x, n, e1104, 3517213301357877097398718834721192496437658914998072766083468770128518671704int, 565179648256034535318590671472350551220220317536976241350441514965047161766int, 4424257046225967746440334721628196782895753259044503862948420380499271626038int, 5int, 10013725888904753042657008757674937694703782207712485986162160800254202860111int);
    let e1106 = lemma_chain_square_mul(x, n, e1105, 10013725888904753042657008757674937694703782207712485986162160800254202860111int, 4581213154717483936275417160299291032490180780376598355792717998062414847706int, 21233893066492963965889718474594291120562541676972551352403948145984899871723int, 26int, 4220798127488871300615849437356707949084535188515471284991614680816415113363int);
    let e1107 = lemma_chain_square(x, n, e1106, 4220798127488871300615849437356707949084535188515471284991614680816415113363int, 813913521397094736104271923827852944263873335377374907447072025645294181568int, 7154719626402487585339905363457763081149022756846188874060328446729499171625int);
    let e1108 = lemma_chain_square(x, n, e1107, 7154719626402487585339905363457763081149022756846188874060328446729499171625int, 2338699055568704967639503754138170609754614811206279770191746168716976598200int, 3501368859418402002175508820301144754341369166643254764432888058238222790025int);
    let e1109 = lemma_chain_square_mul(x, n, e1108, 3501368859418402002175508820301144754341369166643254764432888058238222790025int, 560099043193536396964624097280989546084665050119534940901844592184486959775int, 1658279597988252759264439495522768518177467417349716897171072012667558751800int, 2int, 997063402004274055647054888600199813398997953846708898240868552733633881434int);
    let e1110 = lemma_chain_square_mul(x, n, e1109, 997063402004274055647054888600199813398997953846708898240868552733633881434int, 45418695024412397364011437871587315244589014483259915366164948443103504379int, 16373470583714202530558026901129633867269985600991460216253918473613462011399int, 20int, 4318848323497963880138611425354612642363388080812952585075040894658950136113int);
    let e1111 = lemma_chain_square(x, n, e1110, 4318848323497963880138611425354612642363388080812952585075040894658950136113int, 852167574647064511547072294175729824549963901607118461588196596407761619683int, 4116479959447819847858233441127910972241717540435873883889356983615950409580int);
    let e1112 = lemma_chain_square_mul(x, n, e1111, 4116479959447819847858233441127910972241717540435873883889356983615950409580int, 774178510159760356669039106152413884687382933275579530009450351680703486522int, 19292893807125681133461543060730359689911669508748188612468544262950454558074int, 23int, 17478546740090060491794330498802384587599920118351148294802823522822070270589int);
    let e1113 = lemma_chain_square(x, n, e1112, 17478546740090060491794330498802384587599920118351148294802823522822070270589int, 13957246268432038071505515097038903904389748802879362733909717572105999132344int, 17676656038542176319106692977281382332042401805358567024884736414864912698369int);
    let e1114 = lemma_chain_square_mul(x, n, e1113, 17676656038542176319106692977281382332042401805358567024884736414864912698369int, 14275434101059622143392247437885806108298374334659120659601329565647492636328int, 7588204241730977043280924094188322797666846431768605215632504881618084056937int, 9int, 7887328680182903168367298835769239738738053242071927857876290751881233660052int);
    let e1115 = lemma_chain_square(x, n, e1114, 7887328680182903168367298835769239738738053242071927857876290751881233660052int, 2842162985557563728465887916334750912324530620831508620671466540723939608506int, 4764077563824622201143271620761040256836806362269402529655473689256183635706int);
    let e1116 = lemma_chain_square_mul(x, n, e1115, 4764077563824622201143271620761040256836806362269402529655473689256183635706int, 1036923574314759939655053307455985268694397788174199934725806443003711840099int, 257724997486411832078881471071793797979340030844751599839945782600400748719int, 0int, 6958574932133119466129799718938432545442180832808293195678536130210820215413int);
    let e1117 = lemma_chain_square(x, n, e1116, 6958574932133119466129799718938432545442180832808293195678536130210820215413int, 2212227147223835314017244532578752207139665149718022131648666962382791196032int, 16363178926396707468420344702004738648930646182420343414721623058104448817913int);
    let e1118 = lemma_chain_square_mul(x, n, e1117, 16363178926396707468420344702004738648930646182420343414721623058104448817913int, 12232760123552754212257518909887762110035518614052524828695772206222402246373int, 2968937634302777948715487755500328861685109009750785978607170703829976456110int, 3int, 14496587510657178948578952162737053999409009791377750434326495319473685689221int);
    let e1119 = lemma_chain_square(x, n, e1118, 14496587510657178948578952162737053999409009791377750434326495319473685689221int, 9601092727480442673646926844652149939347879804699136396789813616982757391025int, 7147379746644113539977434908751761190241178034843272452457852324792253419266int);
    let e1120 = lemma_chain_square(x, n, e1119, 7147379746644113539977434908751761190241178034843272452457852324792253419266int, 2333903070331098832857031471497164560030461079360094339483088027775567189928int, 12486101364598448960636207262932578571170689288949469757479083875053475226732int);
    let e1121 = lemma_chain_square(x, n, e1120, 12486101364598448960636207262932578571170689288949469757479083875053475226732int, 7122669836947340995782148391509668632475288647238013022288086165026140710385int, 2726976583460832495211010015010594055364756885144259197022338037659003165369int);
    let e1122 = lemma_chain_square(x, n, e1121, 2726976583460832495211010015010594055364756885144259197022338037659003165369int, 339744095964466600322047047465228560253645847393020959916676789895517694779int, 18504591887252711903666223876059351361566185971778707116967730938119176818004int);
    let e1123 = lemma_chain_square_mul(x, n, e1122, 18504591887252711903666223876059351361566185971778707116967730938119176818004int, 15644011395465900160559744350735327055630164482559073406180601202398297215484int, 9002152533692242621008731196336802130837087227194146953791659755651057244844int, 11int, 2287446819458523322525279103263631556941932403965907462795396561481057316375int);
    let e1124 = lemma_chain_square(x, n, e1123, 2287446819458523322525279103263631556941932403965907462795396561481057316375int, 239051301764509023657619674457672759073745022636328001564306475470003926046int, 4695703408750271704052851262515302039689452588158145852730201117131540687807int);
    let e1125 = lemma_chain_square(x, n, e1124, 4695703408750271704052851262515302039689452588158145852730201117131540687807int, 1007373256595086592688551266335741407232158336233128340308424040453096024329int, 20755142165942424814121704293059310292430796616430276821714425038907241853442int);
    let e1126 = lemma_chain_square(x, n, e1125, 20755142165942424814121704293059310292430796616430276821714425038907241853442int, 19680699307421518327985599156915496436343771306717128436184617184659825272260int, 4559524632886204474435528228961175453186524772665631416736672769309883439784int);
    let e1127 = lemma_chain_square_mul(x, n, e1126, 4559524632886204474435528228961175453186524772665631416736672769309883439784int, 949791401695514441890827133470238626114935726389980977680206627832954097015int, 21110643637561842055646021395789869233560067136579739833303850152699146286911int, 26int, 893063546348579724036028309637317000017722597909560269288968862101068323439int);
    lemma_chain_end(x, n, 13427688667394608761327070753331941386769nat, e1127, 893063546348579724036028309637317000017722597909560269288968862101068323439int);
}

/// `893063546348579724036028309637317000017722597909560269288968862101068323439^511402397130441 mod 21888242871839275222246405745257275088696311157297823662689037894645226208583`, by repeated squaring.
proof fn lemma_power_107()
    ensures
        powmod(893063546348579724036028309637317000017722597909560269288968862101068323439int, 511402397130441nat, 21888242871839275222246405745257275088696311157297823662689037894645226208583int) == 5517547010347824929218700963150820970327854945639323662764095544506354202583int,
{
    let n: int = 21888242871839275222246405745257275088696311157297823662689037894645226208583int;
    let x: int = 893063546348579724036028309637317000017722597909560269288968862101068323439int;
    let e1128 = lemma_chain_start(x, n, 0int, 893063546348579724036028309637317000017722597909560269288968862101068323439int);
    let e1129 = lemma_chain_square_mul(x, n, e1128, 893063546348579724036028309637317000017722597909560269288968862101068323439int, 36437940792534819095542625374747645602154829589722634301226044622065944370int, 7841269120807608957011644570986838897736750534238797511271175632311822259011int, 319932104641966167670014292965143986375119016745237187642235527044546362256int, 3078376494023335080591200893092136270709946416021826876451769329599645815581int);
    let e1130 = lemma_chain_square_mul(x, n, e1129, 3078376494023335080591200893092136270709946416021826876451769329599645815581int, 432944841412895727967838596585114604683309146801207737300524151254106925676int, 4271893617387207755191822561443688170105718983687220954030331836195008090453int, 174297794752452913364901652704458439003579569866119547053242978733045620144int, 6734065672312508492935013880820877629085644230603811632518256135238441531915int);
    let e1131 = lemma_chain_square(x, n, e1130, 6734065672312508492935013880820877629085644230603811632518256135238441531915int, 2071780761230521835533883073950336441896826755155292507750389322921765051745int, 4656787980643077358337618693023036882085606569094115546197715894232805439890int);
    let e1132 = lemma_chain_square_mul(x, n, e1131, 4656787980643077358337618693023036882085606569094115546197715894232805439890int, 990745324950772391429914727655755517053214558008543742078850274426994148976int, 13702689969457621411292335566178919344902072838561390813023782045467251351092int, 559084297916995155586616145594140954105446262713837770565285135892050822246int, 2741384300976689043890002079609376267161374547769962648036787208341749307970int);
    let e1133 = lemma_chain_square(x, n, e1132, 2741384300976689043890002079609376267161374547769962648036787208341749307970int, 343343589964923788558932082879082595011570858587898741164987897946451646824int, 5890207065571870461953222532867854890516107636908752143580808723587832030508int);
    let e1134 = lemma_chain_square(x, n, e1133, 5890207065571870461953222532867854890516107636908752143580808723587832030508int, 1585076494191760271468437996721134618648762294873066240565552458389288631968int, 13595084298155330325351966234250074370014051025416524242556168203982752956720int);
    let e1135 = lemma_chain_square(x, n, e1134, 13595084298155330325351966234250074370014051025416524242556168203982752956720int, 8444091111202961673971451865386993842873361736415325558375622420659613013378int, 783284685192709311132950756533630519670549253621627825659941716007595735026int);
    let e1136 = lemma_chain_square_mul(x, n, e1135, 783284685192709311132950756533630519670549253621627825659941716007595735026int, 28030340381812759857978333275842251843098521250479530065159769998029497856int, 9413856814438672350233847055402369852282988994971242352192542875962995922628int, 384095352045675070450554164591501039710566677255936101736254575761826380184int, 8781508705231342090972758431590880529155865828520115238841483233971480958420int);
    let e1137 = lemma_chain_square(x, n, e1136, 8781508705231342090972758431590880529155865828520115238841483233971480958420int, 3523119493491523735412645874703646361212513900014318802034624201507214816997int, 4075963536418853372125152192702528096605767693354547089253301483547273211149int);
    let e1138 = lemma_chain_square(x, n, e1137, 4075963536418853372125152192702528096605767693354547089253301483547273211149int, 759013816115429924150743698448564305092735975876223123190232771221068736606int, 16708256885173660836855483627782621997079518924919895497489271561814694410903int);
    let e1139 = lemma_chain_square(x, n, e1138, 16708256885173660836855483627782621997079518924919895497489271561814694410903int, 12754146131123163017572842683969031386979235218332549477635776660335589057772int, 10207020774461217868350389287230849536367383862101597741142301986417296018333int);
    let e1140 = lemma_chain_square_mul(x, n, e1139, 10207020774461217868350389287230849536367383862101597741142301986417296018333int, 4759782395521652487038122221880091924990689930131264538504404779135904588834int, 15997038232450050601788352081020059643592367315083731327372089257182135336667int, 652696142792076474601019636031404375062017414909854490365387575158308917635int, 10404485630022414916070525280967353916831909288571469304339691267422035176608int);
    let e1141 = lemma_chain_square_mul(x, n, e1140, 10404485630022414916070525280967353916831909288571469304339691267422035176608int, 4945729168814105502849177754762774841011466991054997492671889134106575066556int, 18081369626529062837840883209237069676538081361036242654837918657136986935516int, 737739076455643977456474304529179896344666910308685508324159642824608361357int, 8692699432354318650504530286707705782639971344973709132459648112431005432393int);
    let e1142 = lemma_chain_square_mul(x, n, e1141, 8692699432354318650504530286707705782639971344973709132459648112431005432393int, 3452219708255800778080246402190124847870552870232526821800347752672491540398int, 16818120169129469872528564717963760314598574056198645607687702641133974870415int, 686197157492397394778576817716917273385060734243130906523180256583209144728int, 20518753579238055416671140681681810363044092046749686572815650321019769356761int);
    let e1143 = lemma_chain_square_mul(x, n, e1142, 20518753579238055416671140681681810363044092046749686572815650321019769356761int, 19234949598771340017962835643933135307631181371206350929557853993036607447038int, 19568234937603157617817676960274305965189224163296318115859603879511982883967int, 798404759645723381250432354405922558907525964498551722672438674648006447127int, 2949425238640210223843803357695617218371439468269677700837194649914300311472int);
    let e1144 = lemma_chain_square(x, n, e1143, 2949425238640210223843803357695617218371439468269677700837194649914300311472int, 397432963863895230304164725021355641007692130026880091341595345901371798395int, 10369477974444591880391548430647452795262030061923338197104551946750120182499int);
    let e1145 = lemma_chain_square(x, n, e1144, 10369477974444591880391548430647452795262030061923338197104551946750120182499int, 4912503671129818280245210436959786860298209448680111341741874417694403849284int, 2768766071405298185850275724955055337320264231423215316149622394376786680429int);
    let e1146 = lemma_chain_square(x, n, e1145, 2768766071405298185850275724955055337320264231423215316149622394376786680429int, 350236681996435976191569896080570654552707869013845374555517388622217045540int, 13091943196105092227490219680939148744963896605699601921742277427215321754221int);
    let e1147 = lemma_chain_square_mul(x, n, e1146, 13091943196105092227490219680939148744963896605699601921742277427215321754221int, 7830641210152092624745387887490076165712014178686765564616930303174273600576int, 8307844649088958345220485406168004429528159729002339207162484426048126373033int, 338968881525618777979133157485287081314789416693030329612841786730625380247int, 7879082505348467853726467832128217667420535272336904380390838248360701360486int);
    let e1148 = lemma_chain_square(x, n, e1147, 7879082505348467853726467832128217667420535272336904380390838248360701360486int, 2836223149093360457669965630043236618385852288213142506722523859402852486775int, 17387506313429965304179828795316233149583165820764632515866892205384923166371int);
    let e1149 = lemma_chain_square(x, n, e1148, 17387506313429965304179828795316233149583165820764632515866892205384923166371int, 13812226845697569521232298813524505106957190001901719639490956140566588903814int, 1266256381733164907110307354963482244818972865777253568952232549971257074079int);
    let e1150 = lemma_chain_square_mul(x, n, e1149, 1266256381733164907110307354963482244818972865777253568952232549971257074079int, 73254177307346007724441987538341698226830552359507202149878915926368076477int, 14948589619379865325728381080493189356291524253416291762152590069918795896150int, 609918326316119701748423950856792970881177383889228993546773730668471891124int, 11557560372941761101701449175656696423829535136250330671589408097267564542558int);
    let e1151 = lemma_chain_square_mul(x, n, e1150, 11557560372941761101701449175656696423829535136250330671589408097267564542558int, 6102691867790352694550804825215058797459654347083786356176594940565901005902int, 21486751459365366661924789074511156660788816161665189667691187806818427126498int, 876682270485008337123739438472696791028226202489617877798743987388813944320int, 12071157787955460219954777413000374560970040164372920871236898003355963288062int);
    let e1152 = lemma_chain_square(x, n, e1151, 12071157787955460219954777413000374560970040164372920871236898003355963288062int, 6657128724078045082700739178437210502937671203869751687310029932123204361977int, 16259852419537331873018741950515426765155109071034928242767196666603155467253int);
    let e1153 = lemma_chain_square(x, n, e1152, 16259852419537331873018741950515426765155109071034928242767196666603155467253int, 12078758548740366026362206559759735162803362117887758949378293256164809633579int, 14316188817907462600473480013203396528128086116102526123220520787053100557452int);
    let e1154 = lemma_chain_square(x, n, e1153, 14316188817907462600473480013203396528128086116102526123220520787053100557452int, 9363623360268223801846130621190767983666250817967652425980567887793547661658int, 21270500529769992820603928395870067795240247401502756186002987215216533121690int);
    let e1155 = lemma_chain_square_mul(x, n, e1154, 21270500529769992820603928395870067795240247401502756186002987215216533121690int, 20670192460676372804043657570866946394848881046049885477538405882582746914783int, 6679999762604926281014061829635323456085124725466190073379524891940664273611int, 272551081990910387019944479480781229159422969610606167619296526725630691618int, 10995633066775537490513798925288196267249495234247219628208486749686322710935int);
    let e1156 = lemma_chain_square_mul(x, n, e1155, 10995633066775537490513798925288196267249495234247219628208486749686322710935int, 5523693575911423490906207623683177020009600107433031735812521304299639809819int, 10452537617923676888732430787817662572423201100908328601033772327123023097748int, 426474631520773622303508695858809005660093453031475412369222938417152031668int, 7793155397990940511350476257040534752904527563761548620798205720823387108928int);
    let e1157 = lemma_chain_square(x, n, e1156, 7793155397990940511350476257040534752904527563761548620798205720823387108928int, 2774698335213232239737557377667838287587734097808561411721925077215469960921int, 1893077526101770199375038510273106546861910860319469778156325255226132524241int);
    let e1158 = lemma_chain_square_mul(x, n, e1157, 1893077526101770199375038510273106546861910860319469778156325255226132524241int, 163729109769808376388740975631951693157405532912980140356473185390528587495int, 12643702743365554955929289892891204203762900260027175423286769191933217156496int, 515876494841656060332925245664708585333451404486000565740135256307749867511int, 6328864455163090984553521709305276915790292705573575743557244524518506862831int);
    let e1159 = lemma_chain_square_mul(x, n, e1158, 6328864455163090984553521709305276915790292705573575743557244524518506862831int, 1829956179048054186601333180593174259546053314436657534318691453585720155319int, 11911261219616817185763719106216813326115972972169397973561147298721198431584int, 485992103092075678918226851883179827017601993814232667249894502296395096682int, 8778774963217419985818739266869552109462666833312714160958108728312641875770int);
    let e1160 = lemma_chain_square_mul(x, n, e1159, 8778774963217419985818739266869552109462666833312714160958108728312641875770int, 3520926293903877042151841353077163105653907953976419182926431371366544267714int, 4605994214598382695110956149038865981234970971388157008191003861047756503638int, 187929453809309765753495163779487302633120570743716949108397060483797943630int, 6986064386335735139427896782281047555879783800388106764995193602364307994792int);
    let e1161 = lemma_chain_square_mul(x, n, e1160, 6986064386335735139427896782281047555879783800388106764995193602364307994792int, 2229740226101913024303413134617634801065897841180902200985249155918129328902int, 20681031463620371859323803237386873255480472737618613144692741008076236757398int, 843808039283482800276014346550116397075033921668603189259800511482932359204int, 1852752285896315844972901641748437260467272039198134592145871422401256203790int);
    let e1162 = lemma_chain_square_mul(x, n, e1161, 1852752285896315844972901641748437260467272039198134592145871422401256203790int, 156828076743904189409529331458781220791660988941025105131050981428364031144int, 14751871141609833251936428132113306066983320892618520281428079472588758255148int, 601892003581204047346414971919937001593898919126829429886310779046400645061int, 4089917363056756501341447642289028548833633577725427914993285563164816055409int);
    let e1163 = lemma_chain_square(x, n, e1162, 4089917363056756501341447642289028548833633577725427914993285563164816055409int, 764219591978034480285433867812292751982177631804792095985397942606032460061int, 11241907170328600113213136709401247181935620604110988259650338451195155253718int);
    let e1164 = lemma_chain_square_mul(x, n, e1163, 11241907170328600113213136709401247181935620604110988259650338451195155253718int, 5773897775452900286806848819823038415583727844695552474049723271477173709624int, 11627149424076276388567765448880550515400370543246718461989284344558054320732int, 474400040212906019542183554425301310172093204924278320548801687017448601942int, 2490584369936498904768281836108289656322314576209934514459035639162588369162int);
    let e1165 = lemma_chain_square_mul(x, n, e1164, 2490584369936498904768281836108289656322314576209934514459035639162588369162int, 283394630628509035145192803423988833359611124297767374038238939909578940621int, 21100585974144933479271703957060228392583057992235612392592429947929275032201int, 860926308723816468643865183217320694578354766390695966232430562181249400535int, 7343030211667717167078137660086257926677097274269883312980572062138186267334int);
    let e1166 = lemma_chain_square_mul(x, n, e1165, 7343030211667717167078137660086257926677097274269883312980572062138186267334int, 2463427192633938394559783074437124248143698488236714752931194714723406754168int, 13381117914145511597020593193680000029911899871718833371856220186550742843612int, 545963816670274493184158283237354794299153302632115298346418222303527833952int, 8480916076642813546965484028022527364081798137932399423879115033632869811652int);
    let e1167 = lemma_chain_square_mul(x, n, e1166, 8480916076642813546965484028022527364081798137932399423879115033632869811652int, 3286053518329522101553435612910367965663885434686537413571496721606566140922int, 21821818528682084238189479607831518642951589440802168347406701559514211035578int, 890353362629805443957581846091112742941337151477367343534576403775001627717int, 7493204940092760600559764254994398290561672849758094116571224052206884217731int);
    let e1168 = lemma_chain_square(x, n, e1167, 7493204940092760600559764254994398290561672849758094116571224052206884217731int, 2565218259089630139740612791386083579086445310317621681665058190304574429159int, 5737988248567226270600270750669359231773452571810921796843811496574723516664int);
    let e1169 = lemma_chain_square_mul(x, n, e1168, 5737988248567226270600270750669359231773452571810921796843811496574723516664int, 1504209786663835984015323706319938698283151620451711079582273834162145278755int, 16318513033540117030456977342347025118568490346869186547653016651912777134731int, 665812655963289934822131913834194269285133450556840786003939507130592048193int, 1896470354972881860291704325797192329428941895005397727802357342058582019390int);
    let e1170 = lemma_chain_square_mul(x, n, e1169, 1896470354972881860291704325797192329428941895005397727802357342058582019390int, 164316515873379708741778397713033226703239310743279193231907307721648561331int, 15779359772248162766052413202396306501742680357844980344365117703832661868127int, 643814630522231098081384887792034906634054403711825792306114916337272301482int, 10217030113765965472826041625390079494607813460283194830026929812888209108747int);
    let e1171 = lemma_chain_square(x, n, e1170, 10217030113765965472826041625390079494607813460283194830026929812888209108747int, 4769122170144708794202877645510385662827629185880241933334621484963313416123int, 8679329626795404476556085062478908971002292197286800513774326692958998726300int);
    let e1172 = lemma_chain_square(x, n, e1171, 8679329626795404476556085062478908971002292197286800513774326692958998726300int, 3441608502411431343439185181179490548987293691526424891776470399728731153148int, 3104899557483422794857654797659361846319074227101306875678292294020746620716int);
    let e1173 = lemma_chain_square_mul(x, n, e1172, 3104899557483422794857654797659361846319074227101306875678292294020746620716int, 440437421976151028300306270529203978966842217781687314087637775174679568770int, 4068557089313480560596143397465333312090979558959293520120718199753047599746int, 166001448539237165879937470271781731459666791605650687716461034844720994807int, 3121791233531439346861945943512217639141342851450960797335737719310700418013int);
    let e1174 = lemma_chain_square(x, n, e1173, 3121791233531439346861945943512217639141342851450960797335737719310700418013int, 445242706909658015796099079605190335358923513079910871840206697391420429019int, 6482892712043777175811054512703873880033095793354071855858568732592294798092int);
    let e1175 = lemma_chain_square(x, n, e1174, 6482892712043777175811054512703873880033095793354071855858568732592294798092int, 1920112919157256422379765685869364062649338107916565891217222985235583214247int, 10088371698463832223948229389059201156751169317230543252762026327454647558463int);
    let e1176 = lemma_chain_square_mul(x, n, e1175, 10088371698463832223948229389059201156751169317230543252762026327454647558463int, 4649767645684654473395094461641952890556703051850843010965041176208850471812int, 15018320297753786233293165953431029326453037274833767784897457594339528959973int, 612763412021835517602493961513793751260173870798105168600425484844458467308int, 5517547010347824929218700963150820970327854945639323662764095544506354202583int);
    assert(e1176 == 511402397130441nat);
}

/// `893063546348579724036028309637317000017722597909560269288968862101068323439^523676054661572059 mod 21888242871839275222246405745257275088696311157297823662689037894645226208583`, by repeated squaring.
proof fn lemma_power_108()
    ensures
        pow(893063546348579724036028309637317000017722597909560269288968862101068323439int, 523676054661572059nat) % 21888242871839275222246405745257275088696311157297823662689037894645226208583int == 11285525676527606624114408103559105419192630852167477967765193701506551924732int,
{
    let n: int = 21888242871839275222246405745257275088696311157297823662689037894645226208583int;
    let x: int = 893063546348579724036028309637317000017722597909560269288968862101068323439int;
    lemma_power_107();
    let e1177: nat = 511402397130441nat;
    let e1178 = lemma_chain_square(x, n, e1177, 5517547010347824929218700963150820970327854945639323662764095544506354202583int, 1390852851444080294468028922891016202991988717113430300560122332737601794455int, 11817701542709094843662943962995559017872589864287090640239296171248881064624int);
    let e1179 = lemma_chain_square_mul(x, n, e1178, 11817701542709094843662943962995559017872589864287090640239296171248881064624int, 6380506218351067356667183482352840533107988859932254015363329547616204273056int, 1923876049752636064043282654589776391797378282757930507908060954809121421728int, 78496185271120837124293085640775570083079413783717096074655571119902202863int, 21517912930061086989634911417511266411163692459665875420562379725585808509463int);
    let e1180 = lemma_chain_square_mul(x, n, e1179, 21517912930061086989634911417511266411163692459665875420562379725585808509463int, 21153848647275283284361661880714256720286519140817158674373536401991438171902int, 20535958381086184683673576523056286875859426066763196682860208237473698713503int, 837888903502401507814575010248627218799958851838937837082158143735941630757int, 11674200928305814488932240911707671220358055536022990191022170139230150509486int);
    let e1181 = lemma_chain_square_mul(x, n, e1180, 11674200928305814488932240911707671220358055536022990191022170139230150509486int, 6226491916799720180598649096449354036846106556580433600009651927250018260601int, 6009667601153447637228558213246744958385112271281962444315696025565699045813int, 245200818160113376047830000296541635211714908577078131481059887217130476722int, 8538222902901012757220452537880204354475407543301210265131771060206564605981int);
    let e1182 = lemma_chain_square(x, n, e1181, 8538222902901012757220452537880204354475407543301210265131771060206564605981int, 3330612272829622732246034353047266212189327766131770349354272810496870351700int, 18901087066079486227335717039115047926207420764015890235519734949393012331261int);
    let e1183 = lemma_chain_square_mul(x, n, e1182, 18901087066079486227335717039115047926207420764015890235519734949393012331261int, 16321597597911582864007740392345645384801766802421952426544046691466794911306int, 8789252104612857891435370091682972659066461628349046139624284676397856910723int, 358610816786760777983041045665289789316358785772133041318442519285906942924int, 12579240991795287249583119887006203968880670624903471036855203501984811419705int);
    let e1184 = lemma_chain_square_mul(x, n, e1183, 12579240991795287249583119887006203968880670624903471036855203501984811419705int, 7229328770526665703964795792443152049557644443784219265792207525158752656192int, 13850304728714357808300057401524214581752606754582308285301005611132983791089int, 565107136806672332528822310683374468132838429216163195965440408708730846981int, 13472958088597040994325608550723381714788887247903640446795498575558496197148int);
    let e1185 = lemma_chain_square(x, n, e1184, 13472958088597040994325608550723381714788887247903640446795498575558496197148int, 8293064030764713693201155318507781313336053045735318302253365634260820719642int, 17564683139694003861519615895202455007128960001908321253199615804280426246618int);
    let e1186 = lemma_chain_square_mul(x, n, e1185, 17564683139694003861519615895202455007128960001908321253199615804280426246618int, 14095151246461198770941771512471969732625226162389335520908985174152231615749int, 3913383658791275024725171230480286621831468547406195659037012232067974664257int, 159670207837429706218557972127122651310535054901893784464100541468101946773int, 4668417408700487931227584527072633905775449684565108898473952923119846867164int);
    let e1187 = lemma_chain_square_mul(x, n, e1186, 4668417408700487931227584527072633905775449684565108898473952923119846867164int, 995699893749690124193921843291854830185815731985159948320473774793922648847int, 13320251977955470363368396459737492697333346804216449548901001229303174949095int, 543480421856721926883328400325268561644638247505580976830220549038482884331int, 11285525676527606624114408103559105419192630852167477967765193701506551924732int);
    lemma_chain_end(x, n, 523676054661572059nat, e1187, 11285525676527606624114408103559105419192630852167477967765193701506551924732int);
}

/// `11285525676527606624114408103559105419192630852167477967765193701506551924732^90493014 mod 21888242871839275222246405745257275088696311157297823662689037894645226208583`, by repeated squaring.
proof fn lemma_power_109()
    ensures
        pow(11285525676527606624114408103559105419192630852167477967765193701506551924732int, 90493014nat) % 21888242871839275222246405745257275088696311157297823662689037894645226208583int == 5730636994510773491206367835236806183028292339446643256980404715002489681200int,
{
    let n: int = 21888242871839275222246405745257275088696311157297823662689037894645226208583int;
    let x: int = 11285525676527606624114408103559105419192630852167477967765193701506551924732int;
    let e1188 = lemma_chain_start(x, n, 0int, 11285525676527606624114408103559105419192630852167477967765193701506551924732int);
    let e1189 = lemma_chain_square(x, n, e1188, 11285525676527606624114408103559105419192630852167477967765193701506551924732int, 5818790048214662231755693174106007496109215770190544026186662150238406028977int, 11244188705708528274886524133180447674293625855251816473807772645535249162233int);
    let e1190 = lemma_chain_square_mul(x, n, e1189, 11244188705708528274886524133180447674293625855251816473807772645535249162233int, 5776241628433608941032379234826623199798991555322987369108908054222997380692int, 14535846319493365165086065781281342572132878069562842025472373643289304666853int, 7494647598220704550352087496137154589280638475271325654314988360403930849612int, 12860934175494669131081076088925321171815309851221565202196505824476474688600int);
    let e1191 = lemma_chain_square(x, n, e1190, 12860934175494669131081076088925321171815309851221565202196505824476474688600int, 7556733943189649530277892480184630367423621132411339455944896320370259213280int, 6041118305716249238669810799185573645017579567790520749922846418888206377760int);
    let e1192 = lemma_chain_square_mul(x, n, e1191, 6041118305716249238669810799185573645017579567790520749922846418888206377760int, 1667338515811766089912010846431577300633418344085665362281855898174019622002int, 12915473127117733710238375541633960269755359369803805815539359608142554574434int, 6659187055536423106479937075396157206815036670889424145794196000860966024175int, 20935048111545678628423034147808377497677258353701374295543560401679089007663int);
    let e1193 = lemma_chain_square_mul(x, n, e1192, 20935048111545678628423034147808377497677258353701374295543560401679089007663int, 20023363318789043068644136592270678473955482078170201811481738956967071540390int, 4263372838670037028565072668441659126275000173705779009892484612356823554199int, 2198184839282991080027372211411317079260108362626316690858662558794107940713int, 11699854633577063972664875710925588539847760233760726629086813124313834809989int);
    let e1194 = lemma_chain_square(x, n, e1193, 11699854633577063972664875710925588539847760233760726629086813124313834809989int, 6253887041017289041087064409490049782775014274745426274079134936734253307310int, 12953952040481680243177586352761344357665132576603180121760240789672075538391int);
    let e1195 = lemma_chain_square(x, n, e1194, 12953952040481680243177586352761344357665132576603180121760240789672075538391int, 7666438756625455713877376850654300048634702426283616317214122058234002589646int, 13645369218655770204713898697271405717933857790169127390092917247660362737263int);
    let e1196 = lemma_chain_square_mul(x, n, e1195, 13645369218655770204713898697271405717933857790169127390092917247660362737263int, 8506671924450931211774217285746855670200929617132366286442045235628755383007int, 14257304910364900124641941023834069570577573030930160984576123520723332982088int, 7351032313837151597988289648283516267436594255698582246032066707471144177214int, 16565902425083630065425594174179586752243784318281966501820173970067400372654int);
    let e1197 = lemma_chain_square(x, n, e1196, 16565902425083630065425594174179586752243784318281966501820173970067400372654int, 12537741140951226068371450836990054539826610558505513821076913709311854171758int, 10937581180638435078423269327657981191587222400135097521174796120692055204802int);
    let e1198 = lemma_chain_square(x, n, e1197, 10937581180638435078423269327657981191587222400135097521174796120692055204802int, 5465522416921329758580125679191999594204525139224135567285853715301285037547int, 12804256737984837399861521522458948957911233161007186040022098631300555193303int);
    let e1199 = lemma_chain_square_mul(x, n, e1198, 12804256737984837399861521522458948957911233161007186040022098631300555193303int, 7490276472725077591848027733303318712923999131837371742655717147847081265779int, 9946235591588170285616180168536120208718472791499535042759625000130982068652int, 5128255283482642217366908300615130581458692305717988962537843649377099161749int, 712968597284766422931511904781584695520915422590206372628261664914831609597int);
    let e1200 = lemma_chain_square_mul(x, n, e1199, 712968597284766422931511904781584695520915422590206372628261664914831609597int, 23223619350834296343797722845003813132622997501806761497238860391137116932int, 15646654066998896786773502969653918293177008627030905041973977151717929475053int, 8067377416212991102087069585391866372560737857514262640653655699697372660290int, 6189866844778164380203119024426230371345574766912090069697785749574386441726int);
    let e1201 = lemma_chain_square(x, n, e1200, 6189866844778164380203119024426230371345574766912090069697785749574386441726int, 1750458078358503427822293711457015117823330978321794831201561098026290790172int, 5577683181361334704341657124245157974259389116100636322322521221324835412800int);
    let e1202 = lemma_chain_square_mul(x, n, e1201, 5577683181361334704341657124245157974259389116100636322322521221324835412800int, 1421336095994574072611221948192486608511689926255744470321400978699722528152int, 15411510391331771085066226385118764845820857319483389488610803047319962311384int, 7946137899411547914453637082743630797221706015980910204946363351358638735966int, 13252500916479102061628427798575210958119505150773626124664526165922934752910int);
    let e1203 = lemma_chain_square(x, n, e1202, 13252500916479102061628427798575210958119505150773626124664526165922934752910int, 8023886685177360886586618369215880768177570242197368768097472190092823713599int, 15105378134061713453155043701562574346930673442708208255430118360965725847883int);
    let e1204 = lemma_chain_square(x, n, e1203, 15105378134061713453155043701562574346930673442708208255430118360965725847883int, 10424429677109861895303850880276308903956029837381871362856992761882603908351int, 12981983830013088537639151296971438209278585484991620877788983106485914005056int);
    let e1205 = lemma_chain_square(x, n, e1204, 12981983830013088537639151296971438209278585484991620877788983106485914005056int, 7699654337240069002653206510536570284178800119902870440010894159853018355763int, 1122499902379489511350630913885808035309426762116660894137138821897255449307int);
    let e1206 = lemma_chain_square(x, n, e1205, 1122499902379489511350630913885808035309426762116660894137138821897255449307int, 57565426252787408904579183554466613165223315355766728553215599209462161060int, 15703718101234057077343527867814667629341212330492247548276865525760946402269int);
    let e1207 = lemma_chain_square(x, n, e1206, 15703718101234057077343527867814667629341212330492247548276865525760946402269int, 11266631298225527371459404229356789064184223696219302640687511602672174987979int, 794181484654837028660086274438171732290051163003999641660304386120996724604int);
    let e1208 = lemma_chain_square_mul(x, n, e1207, 794181484654837028660086274438171732290051163003999641660304386120996724604int, 28815663014230854421845614474441082087060000820377129982306775139859881574int, 7886216514730329584727316815790318632006174149567679599227157551036816607174int, 4066114374221875736954871809930476809416886983617912000729604467598063444320int, 4954067042991099479881851121892909096016896944729264936687374520407932628808int);
    let e1209 = lemma_chain_square(x, n, e1208, 4954067042991099479881851121892909096016896944729264936687374520407932628808int, 1121276861288237320896862133905777485905937931650499571367321726474490395004int, 13210966790223702118043801564418311142973986316442828639801879554724546381532int);
    let e1210 = lemma_chain_square_mul(x, n, e1209, 13210966790223702118043801564418311142973986316442828639801879554724546381532int, 7973670822016412111906759463295011132755913465837425119518106158519524776037int, 21070133714986934136359633044722996437073061184991399233943550747828788541453int, 10863710551854530828299790656713730888325359603540502015870375664721431454180int, 1086224367473768632210887302130597417174715768919044433141490260762430688656int);
    let e1211 = lemma_chain_square(x, n, e1210, 1086224367473768632210887302130597417174715768919044433141490260762430688656int, 53904892384568228320244106680015582710064297647701652475106818262408877240int, 12161630631982252159945623226117187726204581829973482261392899710375325735416int);
    let e1212 = lemma_chain_square_mul(x, n, e1211, 12161630631982252159945623226117187726204581829973482261392899710375325735416int, 6757292510631782540578588703242009737109846225102622594127469709280883056826int, 14061143911234735049686288243758321099710186399341102215684879783517918755498int, 7249892171826713329085337829697122816163809310947705378098811287848817669296int, 8232699282674008626548370760850449144605655292424527642265568223197196408968int);
    let e1213 = lemma_chain_square_mul(x, n, e1212, 8232699282674008626548370760850449144605655292424527642265568223197196408968int, 3096517974320420513989813119783847465741299485243499853238177581343157945521int, 6180214288931761360027328412515769475199799830671099702441020807228214218281int, 3186503706696184887702563557517696296751118306475519902556052930050783345625int, 12949465000367728124180966927289293875859682757362581682713340729670499926317int);
    let e1214 = lemma_chain_square(x, n, e1213, 12949465000367728124180966927289293875859682757362581682713340729670499926317int, 7661128614919185649161503933581966308555615053632859195866031687185459152383int, 5730636994510773491206367835236806183028292339446643256980404715002489681200int);
    lemma_chain_end(x, n, 90493014nat, e1214, 5730636994510773491206367835236806183028292339446643256980404715002489681200int);
}

/// `11285525676527606624114408103559105419192630852167477967765193701506551924732^11465965001 mod 21888242871839275222246405745257275088696311157297823662689037894645226208583`, by repeated squaring.
proof fn lemma_power_110()
    ensures
        pow(11285525676527606624114408103559105419192630852167477967765193701506551924732int, 11465965001nat) % 21888242871839275222246405745257275088696311157297823662689037894645226208583int == 19527535402229586708184589351625843332144868505475204990149676826052143313306int,
{
    let n: int = 21888242871839275222246405745257275088696311157297823662689037894645226208583int;
    let x: int = 11285525676527606624114408103559105419192630852167477967765193701506551924732int;
    let e1215 = lemma_chain_start(x, n, 0int, 11285525676527606624114408103559105419192630852167477967765193701506551924732int);
    let e1216 = lemma_chain_square(x, n, e1215, 11285525676527606624114408103559105419192630852167477967765193701506551924732int, 5818790048214662231755693174106007496109215770190544026186662150238406028977int, 11244188705708528274886524133180447674293625855251816473807772645535249162233int);
    let e1217 = lemma_chain_square_mul(x, n, e1216, 11244188705708528274886524133180447674293625855251816473807772645535249162233int, 5776241628433608941032379234826623199798991555322987369108908054222997380692int, 14535846319493365165086065781281342572132878069562842025472373643289304666853int, 7494647598220704550352087496137154589280638475271325654314988360403930849612int, 12860934175494669131081076088925321171815309851221565202196505824476474688600int);
    let e1218 = lemma_chain_square(x, n, e1217, 12860934175494669131081076088925321171815309851221565202196505824476474688600int, 7556733943189649530277892480184630367423621132411339455944896320370259213280int, 6041118305716249238669810799185573645017579567790520749922846418888206377760int);
    let e1219 = lemma_chain_square_mul(x, n, e1218, 6041118305716249238669810799185573645017579567790520749922846418888206377760int, 1667338515811766089912010846431577300633418344085665362281855898174019622002int, 12915473127117733710238375541633960269755359369803805815539359608142554574434int, 6659187055536423106479937075396157206815036670889424145794196000860966024175int, 20935048111545678628423034147808377497677258353701374295543560401679089007663int);
    let e1220 = lemma_chain_square(x, n, e1219, 20935048111545678628423034147808377497677258353701374295543560401679089007663int, 20023363318789043068644136592270678473955482078170201811481738956967071540390int, 4263372838670037028565072668441659126275000173705779009892484612356823554199int);
    let e1221 = lemma_chain_square_mul(x, n, e1220, 4263372838670037028565072668441659126275000173705779009892484612356823554199int, 830416039694740737978641915247366891811543268624901364025268725235514686368int, 14347722113883569287588123803454617711118964650953440244320076589367695835057int, 7397651207728473725979008570267470503530753434798936713240652898003046238399int, 3743250023758948677801376464055435682007187245360294531325879976436632951107int);
    let e1222 = lemma_chain_square(x, n, e1221, 3743250023758948677801376464055435682007187245360294531325879976436632951107int, 640157404247312438053095734078530145681747286166972909561011738046652717358int, 14790314069888987243015398074172147074592012213945897308630533609411199841735int);
    let e1223 = lemma_chain_square_mul(x, n, e1222, 14790314069888987243015398074172147074592012213945897308630533609411199841735int, 9994104669196510461155366986711085610994007443154736965183715648363860238515int, 10594598291500874531304516682250599007045283770102552154987596727749527635980int, 5462549540925369872643464945559828664988934166407117232320906250333596717652int, 11971050719011618231835716343431143305503799595958714596284786825161345050244int);
    let e1224 = lemma_chain_square_mul(x, n, e1223, 11971050719011618231835716343431143305503799595958714596284786825161345050244int, 6547170376180430859656607545300607110595165142060229838984230281428946292640int, 1713127831584556741810765028713768981414168548474452838189303769397686730416int, 883284612827259484996676098376296685187168617621022249322567712117432363629int, 12906669426669616955090199009597522872282356535782001532837335085320950220805int);
    let e1225 = lemma_chain_square(x, n, e1224, 12906669426669616955090199009597522872282356535782001532837335085320950220805int, 7610575077437921204510948072597022091521199757520994558890541694194824645976int, 10508820998431186069643267194591036941268179702002916341049189277158547236017int);
    let e1226 = lemma_chain_square_mul(x, n, e1225, 10508820998431186069643267194591036941268179702002916341049189277158547236017int, 5045417278293765545363341152705515111737076568028171130692747250269288794013int, 18387494599207707620045447857765444936548069263311974741117242519733842410710int, 9480548239591693642612658980237480325090364821849842650435589146836056022643int, 7792584896545121395331581151237091473428145137951871778673171600195661734851int);
    let e1227 = lemma_chain_square_mul(x, n, e1226, 7792584896545121395331581151237091473428145137951871778673171600195661734851int, 2774292104003890449961166823796335831163682591736344935222550752246612950743int, 4314384831928908246091263633561965565360452672390724137671278831531005165032int, 2224486501006350252120211297378864068666237040945411586628443061074209250730int, 5099031545187598190956454112463029800550865523981359509306591440289777355834int);
    let e1228 = lemma_chain_square(x, n, e1227, 5099031545187598190956454112463029800550865523981359509306591440289777355834int, 1187857922221301977360974002145368408335969513447218589291134646386631646263int, 11740954600770108759828866445710177700878365406133856842038609897665543360227int);
    let e1229 = lemma_chain_square_mul(x, n, e1228, 11740954600770108759828866445710177700878365406133856842038609897665543360227int, 6297902291403129352078158760893231847582199120070079060086026440351105813294int, 10735802383513925595206812077216223267469520638935958168854127501107987189127int, 5535354033061843823629543698702250656890078934915218915881236889782781462960int, 16095989523594550780760237447291290361915123862436822423243922235945504203284int);
    let e1230 = lemma_chain_square_mul(x, n, e1229, 16095989523594550780760237447291290361915123862436822423243922235945504203284int, 11836531614741484933506667633052061071014949826576979478622658345524633770263int, 21540182589925123741499336837756873957336236853751812603113058169311455617327int, 11106066627597950842569743654483671991933171548510407523738831830979159909945int, 21289911099615852674826333734928714839393915624369658576229346350301032973429int);
    let e1231 = lemma_chain_square(x, n, e1230, 21289911099615852674826333734928714839393915624369658576229346350301032973429int, 20707935181617376356908717499966596524842037045256146152820490664837658458432int, 5328216246701823097355305005760225385397078933644124129577936849945152896185int);
    let e1232 = lemma_chain_square(x, n, e1231, 5328216246701823097355305005760225385397078933644124129577936849945152896185int, 1297038256467027800635886494073254511917773554857409552125398621457198795530int, 9894866690975843217977241921498791307869089489682908940389016025357239520235int);
    let e1233 = lemma_chain_square_mul(x, n, e1232, 9894866690975843217977241921498791307869089489682908940389016025357239520235int, 4473104004074675357628530122919578289747784214351311416310357454402586512922int, 12698372390823391974517608699962457939817610981473776678842743258419977645699int, 6547250435123870077906139980759449050035592102555985181106295690134158518166int, 8143643747378204313075872117850794116282741789666560518003601928880700908890int);
    let e1234 = lemma_chain_square(x, n, e1233, 8143643747378204313075872117850794116282741789666560518003601928880700908890int, 3029888414183121849712099791732541067363150493792178466927115256216205720582int, 9013342004928451052045713319751818541990975760199192311933996838592732876794int);
    let e1235 = lemma_chain_square_mul(x, n, e1234, 9013342004928451052045713319751818541990975760199192311933996838592732876794int, 3711596886670555367442576443821075581815039040528581153362516126769143411033int, 11818516818444063498428735236950961429013081629177366435208137059072622222197int, 6093599006278571646503162520908976868511370024294233385818211717410930238040int, 20992133254827719840958603139933330548714364916567863799821736463546442578884int);
    let e1236 = lemma_chain_square_mul(x, n, e1235, 20992133254827719840958603139933330548714364916567863799821736463546442578884int, 20132710568347885076643882767199286790222955783776401081358733754517927457472int, 13874681740589150727337401932918781638072883158421672393444362345705028803280int, 7153752722587086578936621255975186334503070424527787130613855622207510468555int, 20304166304042848796841107032136867211609583920253436054332033449958102113395int);
    let e1237 = lemma_chain_square_mul(x, n, e1236, 20304166304042848796841107032136867211609583920253436054332033449958102113395int, 18834731125568271087675812712081589844652550834618193769511324465327671781187int, 12000898975111888079338960131245482321215266387203290714998954094039041098004int, 6187634810069077431446903716581861650669898223284102381200850117992376411037int, 2439730907035375946710952673345934795017244506656427784290009479968538104357int);
    let e1238 = lemma_chain_square_mul(x, n, e1237, 2439730907035375946710952673345934795017244506656427784290009479968538104357int, 271939914665406208695251027484689785677541653602302663423535629880808705295int, 21453698648307950052915311250341781927184598347192176986368045756057175836464int, 11061475714136201906700234778533170155992877365897935372097411858710396359845int, 10956490697107844955991743506686364992916431245254540246268587167047373478013int);
    let e1239 = lemma_chain_square(x, n, e1238, 10956490697107844955991743506686364992916431245254540246268587167047373478013int, 5484436969139102087173876872063729278894972145890366432242111675035150754836int, 16795058046654885101857549348834693956537489848638262389823714580385362470781int);
    let e1240 = lemma_chain_square_mul(x, n, e1239, 16795058046654885101857549348834693956537489848638262389823714580385362470781int, 12887008630254852844304256325311480901497388248672832103441904333218442666616int, 4664269233792424802968304851643107852815126547004241016004437430035131984833int, 2404886061819310805498658432695696124055848281454486283979708891327039770094int, 8960915025066612970144175166920705804238402239588141323184645827203972072954int);
    let e1241 = lemma_chain_square_mul(x, n, e1240, 8960915025066612970144175166920705804238402239588141323184645827203972072954int, 3668544732285178336348538797811195456788943825836886015726860660482581357859int, 1538339163951689817673835347829450963571031477833312479459038870953397982319int, 793163993822495451548580259620084623586471467061439218174292313790558634967int, 1615451501112501234952144322598570632458816306422175344438975758985455491747int);
    let e1242 = lemma_chain_square_mul(x, n, e1241, 1615451501112501234952144322598570632458816306422175344438975758985455491747int, 119227640506683629180573042770132413852435979489887132391643450181211912363int, 20909092119586399932389894990450091696156056326428299635824174630268230700380int, 10780677890415089346139133560318476730443456486885216728616859226532263708443int, 11790644297141926527265198855538437423571091661475914530201862724697187631891int);
    let e1243 = lemma_chain_square(x, n, e1242, 11790644297141926527265198855538437423571091661475914530201862724697187631891int, 6351322660101843260038148335213729506939323685608363487373840792743380873618int, 11940259469925863129732521376614941868588790486192443021222035384120090372587int);
    let e1244 = lemma_chain_square(x, n, e1243, 11940259469925863129732521376614941868588790486192443021222035384120090372587int, 6513533180526796383140091164914352328699242008838609470797291006435158533043int, 17997185633960716239734248597512251200777561972703329792977208056209465364500int);
    let e1245 = lemma_chain_square_mul(x, n, e1244, 17997185633960716239734248597512251200777561972703329792977208056209465364500int, 14797838850735700437850613912313515619092639426957986717377108141952083509359int, 4525771300929836200007967168260434876158053135529215801251305778013093621703int, 2333476858868731561139654775613573503028862526606464567695423553854504594271int, 15366948493964309184386612561974438321271288695882418506545773323135304830603int);
    let e1246 = lemma_chain_square(x, n, e1245, 15366948493964309184386612561974438321271288695882418506545773323135304830603int, 10788582135113561008345898564136335104349604101110346467132603133105083421004int, 16518847167455145242768888189142573971529805405793040455078811288164418066277int);
    let e1247 = lemma_chain_square(x, n, e1246, 16518847167455145242768888189142573971529805405793040455078811288164418066277int, 12466615677625261016498177264337042419136926194600673548952730455676671687136int, 2122235522106562504271088216691374594558145088658076777123636075044710752441int);
    let e1248 = lemma_chain_square_mul(x, n, e1247, 2122235522106562504271088216691374594558145088658076777123636075044710752441int, 205767253116762009757375785124464905435473696283205794354857988280707532031int, 4254461673399405180692439170201880796309222765905753711873519202787227836408int, 2193590263781506519386681822322892584714137854108805880734822794090072549450int, 19527535402229586708184589351625843332144868505475204990149676826052143313306int);
    lemma_chain_end(x, n, 11465965001nat, e1248, 19527535402229586708184589351625843332144868505475204990149676826052143313306int);
}

/// `19527535402229586708184589351625843332144868505475204990149676826052143313306^15343 mod 21888242871839275222246405745257275088696311157297823662689037894645226208583`, by repeated squaring.
proof fn lemma_power_111()
    ensures
        pow(19527535402229586708184589351625843332144868505475204990149676826052143313306int, 15343nat) % 21888242871839275222246405745257275088696311157297823662689037894645226208583int == 14453272593708641966296292124668779843903577428799502852231226944323129894749int,
{
    let n: int = 21888242871839275222246405745257275088696311157297823662689037894645226208583int;
    let x: int = 19527535402229586708184589351625843332144868505475204990149676826052143313306int;
    let e1249 = lemma_chain_start(x, n, 0int, 19527535402229586708184589351625843332144868505475204990149676826052143313306int);
    let e1250 = lemma_chain_square_mul(x, n, e1249, 19527535402229586708184589351625843332144868505475204990149676826052143313306int, 17421436755708248854383812043285592084762637221366626541834381133046000155428int, 13603792717371210710074935084007907381410927631152495201010059582490529011112int, 12136586086352066571075504789110935563438792473488195221886165423094938367806int, 7607686193789650747553559512779600045982308291996332242953307234571643377374int);
    let e1251 = lemma_chain_square_mul(x, n, e1250, 7607686193789650747553559512779600045982308291996332242953307234571643377374int, 2644199882195214882616372897854399214196769767314207771808433154013121836525int, 15994890172351045970532484108724046581103108577325544676147005964881697241801int, 14269797074355702347814818127955265438363627795731252413005100788601005319111int, 17816413108212355385998191913583371380688904783121593462553937104059020574393int);
    let e1252 = lemma_chain_square(x, n, e1251, 17816413108212355385998191913583371380688904783121593462553937104059020574393int, 14502058383629757557271169522442177228459828206505348808657182965928074976318int, 10513474776222113478249973313168859298941481911486359059476102808258993981055int);
    let e1253 = lemma_chain_square_mul(x, n, e1252, 10513474776222113478249973313168859298941481911486359059476102808258993981055int, 5049886942385270012757121907374969667013983480068522297543377322913895766022int, 13911308993300571794643199298947770483304027575022182263817394558286162746199int, 12410935882273706757891682528723605816843346712898981163872901292738006267884int, 13349229881825877962461191437496651593976035661396007206710375184276659575522int);
    let e1254 = lemma_chain_square_mul(x, n, e1253, 13349229881825877962461191437496651593976035661396007206710375184276659575522int, 8141445591646918004103420982525305259537370963394284335105630433731642020936int, 17668095623122142780173622787648329526860102977452134401855250392474032678796int, 15762542694296392308201842895328466961301559146136307411773786292941433229152int, 6800304414249143678410510008223427645698361270525202856706708731946702647960int);
    let e1255 = lemma_chain_square_mul(x, n, e1254, 6800304414249143678410510008223427645698361270525202856706708731946702647960int, 2112738806729554576154807644049748729631860534575554470579311928064765702899int, 13434678888037874943065951104956848877230909150330456755455519516740910379483int, 11985711650763540641796216677323146245208415620524278123016912259399487782112int, 19612429818623879321598423335516556706078240475277266100802904750692055033502int);
    let e1256 = lemma_chain_square_mul(x, n, e1255, 19612429818623879321598423335516556706078240475277266100802904750692055033502int, 17573242660118795645683104919815888443816962555319937922154957634765093035107int, 20411489646148512570150499304600432725701427170820309044604442860104618660623int, 18210054092108785048074372593113973547043386315360904007440506481196922601638int, 21669557597212531258558878612590645818576186887619124856854260922331968690684int);
    let e1257 = lemma_chain_square_mul(x, n, e1256, 21669557597212531258558878612590645818576186887619124856854260922331968690684int, 21453057205566965391883015582720774373313725105913349325781290678927557468651int, 12588758786949945640717255787615840177064674425079050909974573881919658756323int, 11231026369803658079965903655634519458060370304472941107746264409947416539861int, 10890437640179216969698329729443169717804678999786756277923788905218777706875int);
    let e1258 = lemma_chain_square(x, n, e1257, 10890437640179216969698329729443169717804678999786756277923788905218777706875int, 5418508588792268982905159937633895977133658321634784924301695435386054301933int, 17884919278307300704848200874833071342506891001263193910302407525097104174686int);
    let e1259 = lemma_chain_square_mul(x, n, e1258, 17884919278307300704848200874833071342506891001263193910302407525097104174686int, 14613796980620278689152966675908196299088460233903648702411400402767641985610int, 14518888144214679272087655487917378001829884303273575513373561411183058707966int, 12952985943057541951065077094070261477367899162850346595000462942980157178892int, 20152436626082470885659424048448811567527271512137831734759653258968259165560int);
    let e1260 = lemma_chain_square_mul(x, n, e1259, 20152436626082470885659424048448811567527271512137831734759653258968259165560int, 18554285254700474973943289721086961702961680256156149970390091967385702938453int, 1546347839452203527926075777922513926509496820011519497329465290596100771501int, 1379569952502392384028797214217179855564510132068440650354823725512826107982int, 5567086975485880143928573242227455947272118328698832803356006957722945682800int);
    let e1261 = lemma_chain_square_mul(x, n, e1260, 5567086975485880143928573242227455947272118328698832803356006957722945682800int, 1415940858025586214187282263119303454078939130744904374954122413948568898790int, 20527874826451514811297558949007430789236226352091874508225406294135059525430int, 18313886809150944444471714313637507826465782898764729387852985534651814439189int, 13040835691536163792723536727166889216265395871083169555544458707883281012393int);
    let e1262 = lemma_chain_square_mul(x, n, e1261, 13040835691536163792723536727166889216265395871083169555544458707883281012393int, 7769623013112747877500857669123064852522821513318946190152976101459689205761int, 20494243393540670587042607679636326107292852683158084127737152979302428339786int, 18283882619201135382174834694945999533841567764664306385466214579154624668449int, 14453272593708641966296292124668779843903577428799502852231226944323129894749int);
    lemma_chain_end(x, n, 15343nat, e1262, 14453272593708641966296292124668779843903577428799502852231226944323129894749int);
}

/// `14453272593708641966296292124668779843903577428799502852231226944323129894749^6 mod 21888242871839275222246405745257275088696311157297823662689037894645226208583`, by repeated squaring.
proof fn lemma_power_112()
    ensures
        pow(14453272593708641966296292124668779843903577428799502852231226944323129894749int, 6nat) % 21888242871839275222246405745257275088696311157297823662689037894645226208583int == 16688597666022887646690163467638290937986941906618104641626128998084292531986int,
{
    let n: int = 21888242871839275222246405745257275088696311157297823662689037894645226208583int;
    let x: int = 14453272593708641966296292124668779843903577428799502852231226944323129894749int;
    let e1263 = lemma_chain_start(x, n, 0int, 14453272593708641966296292124668779843903577428799502852231226944323129894749int);
    let e1264 = lemma_chain_square_mul(x, n, e1263, 14453272593708641966296292124668779843903577428799502852231226944323129894749int, 9543803488073031117062905841709252936444901373108529055693193562353299490616int, 143952718888002429673035045313107847008999048303006682434526818032950615873int, 95055043882514151950952184239165547814029785456919830404119771291527109797int, 4846596432152152695671684996522893951522865456203864675544116068478953963226int);
    let e1265 = lemma_chain_square(x, n, e1264, 4846596432152152695671684996522893951522865456203864675544116068478953963226int, 1073155899890476086976560223909032414772055145834596525229900643480995787230int, 16688597666022887646690163467638290937986941906618104641626128998084292531986int);
    lemma_chain_end(x, n, 6nat, e1265, 16688597666022887646690163467638290937986941906618104641626128998084292531986int);
}

/// `14453272593708641966296292124668779843903577428799502852231226944323129894749^983 mod 21888242871839275222246405745257275088696311157297823662689037894645226208583`, by repeated squaring.
proof fn lemma_power_113()
    ensures
        pow(14453272593708641966296292124668779843903577428799502852231226944323129894749int, 983nat) % 21888242871839275222246405745257275088696311157297823662689037894645226208583int == 21888242871839275220042445260109153167277707414472061641714758635765020556617int,
{
    let n: int = 21888242871839275222246405745257275088696311157297823662689037894645226208583int;
    let x: int = 14453272593708641966296292124668779843903577428799502852231226944323129894749int;
    let e1266 = lemma_chain_start(x, n, 0int, 14453272593708641966296292124668779843903577428799502852231226944323129894749int);
    let e1267 = lemma_chain_square_mul(x, n, e1266, 14453272593708641966296292124668779843903577428799502852231226944323129894749int, 9543803488073031117062905841709252936444901373108529055693193562353299490616int, 143952718888002429673035045313107847008999048303006682434526818032950615873int, 95055043882514151950952184239165547814029785456919830404119771291527109797int, 4846596432152152695671684996522893951522865456203864675544116068478953963226int);
    let e1268 = lemma_chain_square_mul(x, n, e1267, 4846596432152152695671684996522893951522865456203864675544116068478953963226int, 1073155899890476086976560223909032414772055145834596525229900643480995787230int, 16688597666022887646690163467638290937986941906618104641626128998084292531986int, 11019836205494831404592454742270498667065414430825082206713906331946334261254int, 2554602831183492483717547008629946755459301680833545518787433784650276798432int);
    let e1269 = lemma_chain_square_mul(x, n, e1268, 2554602831183492483717547008629946755459301680833545518787433784650276798432int, 298150731573197960622801757834176229469029944340475229476597237183935105099int, 20279627912277112026073691560070458426735698820436645183883110789628556793907int, 13391069901377319823123010023773600098761965512500341840543450755340960129038int, 11938885126492233492073707515510617420311614748443346374408260353778611361189int);
    let e1270 = lemma_chain_square(x, n, e1269, 11938885126492233492073707515510617420311614748443346374408260353778611361189int, 6512033830132662980640829227682247326806051696861671907128576660113880286941int, 12419691126650185249935813086697784648766920315276185593412570397301858479118int);
    let e1271 = lemma_chain_square_mul(x, n, e1270, 12419691126650185249935813086697784648766920315276185593412570397301858479118int, 7047104172982515144224300709455873396535331587532993378739471570325680463980int, 14580250599646393476731021652708449970811178225004591346299366694064343717584int, 9627649767738771171460794655008407051491216372912204080853837175799814569054int, 4078065975147575563643336127705497270171999038154362920898324531518839575934int);
    let e1272 = lemma_chain_square(x, n, e1271, 4078065975147575563643336127705497270171999038154362920898324531518839575934int, 759797037845042448080614226897298763956865265471719973032018683357285521021int, 4148008023172101656094934506779893757530923914477047471049871390391374849113int);
    let e1273 = lemma_chain_square_mul(x, n, e1272, 4148008023172101656094934506779893757530923914477047471049871390391374849113int, 786082768774317061947646296155605055656254381375005806785270894430839800921int, 14735302435346300956308466412782672350841690915860629469608311827312175381826int, 9730033794663513330129291488454627565007960252213265092691226051454470523310int, 17136233140127977892065683928302861947817103656321093722248216898621043861944int);
    let e1274 = lemma_chain_square_mul(x, n, e1273, 17136233140127977892065683928302861947817103656321093722248216898621043861944int, 13415900396948804708058749463295698758653526271872561870093450704996210119725int, 3108327838701992955621505383833529005385151648904591278140407798139878859461int, 2052495023306456384880337768933949059215560912732646597165326855456171736910int, 18674907858192656544316229313970168360979036128783002735526586747082032971759int);
    let e1275 = lemma_chain_square_mul(x, n, e1274, 18674907858192656544316229313970168360979036128783002735526586747082032971759int, 15933311118394040838890067629301678047100634879657002264791759150250639622905int, 2806217194970614307676591694069954052477111337559019658825364273946897160466int, 1853004935734000032110314117032165074614236796124117959381143760769312914999int, 21888242871839275220042445260109153167277707414472061641714758635765020556617int);
    lemma_chain_end(x, n, 983nat, e1275, 21888242871839275220042445260109153167277707414472061641714758635765020556617int);
}

/// `21888242871839275220042445260109153167277707414472061641714758635765020556617^2 mod 21888242871839275222246405745257275088696311157297823662689037894645226208583`, by repeated squaring.
proof fn lemma_power_114()
    ensures
        pow(21888242871839275220042445260109153167277707414472061641714758635765020556617int, 2nat) % 21888242871839275222246405745257275088696311157297823662689037894645226208583int == 21888242871839275220042445260109153167277707414472061641714758635765020556616int,
{
    let n: int = 21888242871839275222246405745257275088696311157297823662689037894645226208583int;
    let x: int = 21888242871839275220042445260109153167277707414472061641714758635765020556617int;
    let e1276 = lemma_chain_start(x, n, 0int, 21888242871839275220042445260109153167277707414472061641714758635765020556617int);
    let e1277 = lemma_chain_square(x, n, e1276, 21888242871839275220042445260109153167277707414472061641714758635765020556617int, 21888242871839275217838484774961031246081023806968983599271420891293677114031int, 21888242871839275220042445260109153167277707414472061641714758635765020556616int);
    lemma_chain_end(x, n, 2nat, e1277, 21888242871839275220042445260109153167277707414472061641714758635765020556616int);
}

/// `21888242871839275220042445260109153167277707414472061641714758635765020556617^3 mod 21888242871839275222246405745257275088696311157297823662689037894645226208583`, by repeated squaring.
proof fn lemma_power_115()
    ensures
        pow(21888242871839275220042445260109153167277707414472061641714758635765020556617int, 3nat) % 21888242871839275222246405745257275088696311157297823662689037894645226208583int == 21888242871839275222246405745257275088696311157297823662689037894645226208582int,
{
    let n: int = 21888242871839275222246405745257275088696311157297823662689037894645226208583int;
    let x: int = 21888242871839275220042445260109153167277707414472061641714758635765020556617int;
    let e1278 = lemma_chain_start(x, n, 0int, 21888242871839275220042445260109153167277707414472061641714758635765020556617int);
    let e1279 = lemma_chain_square_mul(x, n, e1278, 21888242871839275220042445260109153167277707414472061641714758635765020556617int, 21888242871839275217838484774961031246081023806968983599271420891293677114031int, 21888242871839275220042445260109153167277707414472061641714758635765020556616int, 21888242871839275217838484774961031246081023806968983599271420891293677114030int, 21888242871839275222246405745257275088696311157297823662689037894645226208582int);
    lemma_chain_end(x, n, 3nat, e1279, 21888242871839275222246405745257275088696311157297823662689037894645226208582int);
}

/// `19527535402229586708184589351625843332144868505475204990149676826052143313306^5898 mod 21888242871839275222246405745257275088696311157297823662689037894645226208583`, by repeated squaring.
proof fn lemma_power_116()
    ensures
        pow(19527535402229586708184589351625843332144868505475204990149676826052143313306int, 5898nat) % 21888242871839275222246405745257275088696311157297823662689037894645226208583int == 13477402492780953613858904612321015936573319179382394511247438949242460430558int,
{
    let n: int = 21888242871839275222246405745257275088696311157297823662689037894645226208583int;
    let x: int = 19527535402229586708184589351625843332144868505475204990149676826052143313306int;
    let e1280 = lemma_chain_start(x, n, 0int, 19527535402229586708184589351625843332144868505475204990149676826052143313306int);
    let e1281 = lemma_chain_square(x, n, e1280, 19527535402229586708184589351625843332144868505475204990149676826052143313306int, 17421436755708248854383812043285592084762637221366626541834381133046000155428int, 13603792717371210710074935084007907381410927631152495201010059582490529011112int);
    let e1282 = lemma_chain_square_mul(x, n, e1281, 13603792717371210710074935084007907381410927631152495201010059582490529011112int, 8454912410319535087238048416691253791027312196693614439977631000284562103387int, 18796014368210613902529910781051002060796289241080415618136314057718946705923int, 16768812286356281667793725450318388937742308934168567585344011849039894498805int, 11539182990998488512142571501795943978982722739639784035940053332990460668123int);
    let e1283 = lemma_chain_square_mul(x, n, e1282, 11539182990998488512142571501795943978982722739639784035940053332990460668123int, 6083299828103559450668788297772545865973053887794145902108839487299799994739int, 13156522041554816282048436326700389866274942144275144344217836245011231698292int, 11737554788704103910802517335434044372320266264485402828450958769589463435535int, 20527207263897301688592390179657820255544805675730667633454079899440536876447int);
    let e1284 = lemma_chain_square_mul(x, n, e1283, 20527207263897301688592390179657820255544805675730667633454079899440536876447int, 19250802383827469966995162223532273201532669428139969247925801710414267723099int, 8058606265540974228620359128542515962931163679843919296166634466199482185092int, 7189463314364125295392224698523720414603075396599696931086453618984485856916int, 366455382632114811060108399024382315823426802307811659907689604721129324124int);
    let e1285 = lemma_chain_square(x, n, e1284, 366455382632114811060108399024382315823426802307811659907689604721129324124int, 6135236539833098304752730466846482639862794944026942523778081374617727358int, 14857532141564356516523208812612383999542702080690963565784766737354714853662int);
    let e1286 = lemma_chain_square(x, n, e1285, 14857532141564356516523208812612383999542702080690963565784766737354714853662int, 10085152226706289441159111142405250691274883778270221237639694991090704208470int, 14437410175454239803126920064307240223650095674160996890246306729833939512234int);
    let e1287 = lemma_chain_square(x, n, e1286, 14437410175454239803126920064307240223650095674160996890246306729833939512234int, 9522866398859290943354319926541906034743928789423544395617470549611640062002int, 4443188419319709722276184703603766837407957374462771645411931159060331107590int);
    let e1288 = lemma_chain_square(x, n, e1287, 4443188419319709722276184703603766837407957374462771645411931159060331107590int, 901941898450702874821237445627034346978776858393077056868535979530049397512int, 9716827917447583366476618032717159626465929444200753990511445559664962362604int);
    let e1289 = lemma_chain_square_mul(x, n, e1288, 9716827917447583366476618032717159626465929444200753990511445559664962362604int, 4313582653944431232264471599729145956757258245119016126024744441694800820553int, 4326966189780488001753758021654672048654080695693110888551423301124046254417int, 3860290931068639340570484497584167236313868115635108932711927131723715335042int, 19561258203288644596904490416838090648412052874947154688758017612976196307116int);
    let e1290 = lemma_chain_square(x, n, e1289, 19561258203288644596904490416838090648412052874947154688758017612976196307116int, 17481660119370454878623670784587321199485544409215154992695641595160220538016int, 19605860507322852046943902350756923971828361515298679699586205540723695246128int);
    let e1291 = lemma_chain_square_mul(x, n, e1290, 19605860507322852046943902350756923971828361515298679699586205540723695246128int, 17561472087243040581558996986745389363957868176494765108236952137598866529195int, 4790816836983377922207754313365034786316171583751563095362820227516169911699int, 4274114004379612914230408333963789581932344679206765183597942107533157106827int, 748409013909948647742807296782615547122138473194511718979891924784596470753int);
    let e1292 = lemma_chain_square(x, n, e1291, 748409013909948647742807296782615547122138473194511718979891924784596470753int, 25589813462015692567156339152338339355706411491486635811216358165469803397int, 13477402492780953613858904612321015936573319179382394511247438949242460430558int);
    lemma_chain_end(x, n, 5898nat, e1292, 13477402492780953613858904612321015936573319179382394511247438949242460430558int);
}

/// `13477402492780953613858904612321015936573319179382394511247438949242460430558^67 mod 21888242871839275222246405745257275088696311157297823662689037894645226208583`, by repeated squaring.
proof fn lemma_power_117()
    ensures
        pow(13477402492780953613858904612321015936573319179382394511247438949242460430558int, 67nat) % 21888242871839275222246405745257275088696311157297823662689037894645226208583int == 10247490365858481317912223827250247247828105120952384175173060052493082761774int,
{
    let n: int = 21888242871839275222246405745257275088696311157297823662689037894645226208583int;
    let x: int = 13477402492780953613858904612321015936573319179382394511247438949242460430558int;
    let e1293 = lemma_chain_start(x, n, 0int, 13477402492780953613858904612321015936573319179382394511247438949242460430558int);
    let e1294 = lemma_chain_square(x, n, e1293, 13477402492780953613858904612321015936573319179382394511247438949242460430558int, 8298536297132880371566242518315901373942913377651710259341668628743420346508int, 15590737390115942232551383335082888348482202252140442434012767633553796513200int);
    let e1295 = lemma_chain_square(x, n, e1294, 15590737390115942232551383335082888348482202252140442434012767633553796513200int, 11105098467282034935167589928716383691669072303027115889150810370400102668766int, 15623663654576409829084408996905741142298880513762188023564736706651699021422int);
    let e1296 = lemma_chain_square(x, n, e1295, 15623663654576409829084408996905741142298880513762188023564736706651699021422int, 11152053978045986555260964580016667356911773077473906499692468330362939210133int, 7137240560770488451297882332280089856472761817559358832333699594168089730545int);
    let e1297 = lemma_chain_square(x, n, e1296, 7137240560770488451297882332280089856472761817559358832333699594168089730545int, 2327286074107186514448560334072265214802724955982090847753414633315633220512int, 17963234357145787357887697823678137265054553216316118956902652033890959942529int);
    let e1298 = lemma_chain_square_mul(x, n, e1297, 17963234357145787357887697823678137265054553216316118956902652033890959942529int, 14742059947849442097044847512599022407801325727027117608559429693184607400122int, 15567058978111225170088221399040248914501795234401603805406231161196071268715int, 9585215254843090180335687381623007844568606536379863050382049073616908045152int, 11355309949603729480137758247682565238543598283495634204935900140917081453354int);
    let e1299 = lemma_chain_square_mul(x, n, e1298, 11355309949603729480137758247682565238543598283495634204935900140917081453354int, 5890973743601115812385015553569899408554405939917966885241621780989430714138int, 11032642482995715692631469839605372970725751635620373945416619755053042802862int, 6793206936386343702929491616725391962742375709493469363773313213122522439834int, 10247490365858481317912223827250247247828105120952384175173060052493082761774int);
    lemma_chain_end(x, n, 67nat, e1299, 10247490365858481317912223827250247247828105120952384175173060052493082761774int);
}

/// `13477402492780953613858904612321015936573319179382394511247438949242460430558^229 mod 21888242871839275222246405745257275088696311157297823662689037894645226208583`, by repeated squaring.
proof fn lemma_power_118()
    ensures
        pow(13477402492780953613858904612321015936573319179382394511247438949242460430558int, 229nat) % 21888242871839275222246405745257275088696311157297823662689037894645226208583int == 21416043524944433016670818817864259343946572146370358017997215485720702071283int,
{
    let n: int = 21888242871839275222246405745257275088696311157297823662689037894645226208583int;
    let x: int = 13477402492780953613858904612321015936573319179382394511247438949242460430558int;
    let e1300 = lemma_chain_start(x, n, 0int, 13477402492780953613858904612321015936573319179382394511247438949242460430558int);
    let e1301 = lemma_chain_square_mul(x, n, e1300, 13477402492780953613858904612321015936573319179382394511247438949242460430558int, 8298536297132880371566242518315901373942913377651710259341668628743420346508int, 15590737390115942232551383335082888348482202252140442434012767633553796513200int, 9599794930829235346771871231378926622050334937895216352533742377018474499175int, 19438455453887859402491623366340191020078756971609667132777706746836118946575int);
    let e1302 = lemma_chain_square_mul(x, n, e1301, 19438455453887859402491623366340191020078756971609667132777706746836118946575int, 17262854430353436848469776812833622733946185120458870941094347395418220171776int, 1212858246734064439633201770336110740521571995730213979444495904728238677217int, 746801780921121648688510375968642265380380004873329502904557531304628689749int, 1885788238464596660517713820037645871781505043950895812886970900667937281419int);
    let e1303 = lemma_chain_square(x, n, e1302, 1885788238464596660517713820037645871781505043950895812886970900667937281419int, 162470660671748029600380057890947958874039340426902833975093301870201697296int, 3297071818727343197878000831874347354990958793129271558217347153614879561993int);
    let e1304 = lemma_chain_square(x, n, e1303, 3297071818727343197878000831874347354990958793129271558217347153614879561993int, 496644826242855195476857433247826496631714653426458707244695209077428277886int, 4580570090892329369459008502564277235326683614210197785138242506208807836511int);
    let e1305 = lemma_chain_square_mul(x, n, e1304, 4580570090892329369459008502564277235326683614210197785138242506208807836511int, 958579566227842705604383708671174588207525529362485116168461164615187519677int, 20258836377904133432701413159445574236330314598119094183580863981634085865430int, 12474116515386751084543566533940406521024103184936231971128782596135043938625int, 11461931169580509598161493744814423874280112613022865898063930681775747591565int);
    let e1306 = lemma_chain_square(x, n, e1305, 11461931169580509598161493744814423874280112613022865898063930681775747591565int, 6002120266365706567500698190793020570564880373125135711460537972861897276719int, 11396249353896817877827796763617349664069005213163850943527421841484895270048int);
    let e1307 = lemma_chain_square_mul(x, n, e1306, 11396249353896817877827796763617349664069005213163850943527421841484895270048int, 5933527880544768832717076918857586986581470697629983585425190968785759743679int, 12513570611190693586544448163492640180976960588485673564013629009771776125447int, 7705069280176540366068674631401830244627072076387651423747945579724800201321int, 21416043524944433016670818817864259343946572146370358017997215485720702071283int);
    lemma_chain_end(x, n, 229nat, e1307, 21416043524944433016670818817864259343946572146370358017997215485720702071283int);
}

/// `893063546348579724036028309637317000017722597909560269288968862101068323439^506635611015138 mod 21888242871839275222246405745257275088696311157297823662689037894645226208583`, by repeated squaring.
proof fn lemma_power_119()
    ensures
        powmod(893063546348579724036028309637317000017722597909560269288968862101068323439int, 506635611015138nat, 21888242871839275222246405745257275088696311157297823662689037894645226208583int) == 20495008002343523879748521668443305748191963700399646705871234727606691228386int,
{
    let n: int = 21888242871839275222246405745257275088696311157297823662689037894645226208583int;
    let x: int = 893063546348579724036028309637317000017722597909560269288968862101068323439int;
    let e1308 = lemma_chain_start(x, n, 0int, 893063546348579724036028309637317000017722597909560269288968862101068323439int);
    let e1309 = lemma_chain_square_mul(x, n, e1308, 893063546348579724036028309637317000017722597909560269288968862101068323439int, 36437940792534819095542625374747645602154829589722634301226044622065944370int, 7841269120807608957011644570986838897736750534238797511271175632311822259011int, 319932104641966167670014292965143986375119016745237187642235527044546362256int, 3078376494023335080591200893092136270709946416021826876451769329599645815581int);
    let e1310 = lemma_chain_square_mul(x, n, e1309, 3078376494023335080591200893092136270709946416021826876451769329599645815581int, 432944841412895727967838596585114604683309146801207737300524151254106925676int, 4271893617387207755191822561443688170105718983687220954030331836195008090453int, 174297794752452913364901652704458439003579569866119547053242978733045620144int, 6734065672312508492935013880820877629085644230603811632518256135238441531915int);
    let e1311 = lemma_chain_square(x, n, e1310, 6734065672312508492935013880820877629085644230603811632518256135238441531915int, 2071780761230521835533883073950336441896826755155292507750389322921765051745int, 4656787980643077358337618693023036882085606569094115546197715894232805439890int);
    let e1312 = lemma_chain_square(x, n, e1311, 4656787980643077358337618693023036882085606569094115546197715894232805439890int, 990745324950772391429914727655755517053214558008543742078850274426994148976int, 13702689969457621411292335566178919344902072838561390813023782045467251351092int);
    let e1313 = lemma_chain_square_mul(x, n, e1312, 13702689969457621411292335566178919344902072838561390813023782045467251351092int, 8578290797414597213509930625221867752740191206209849999994697920814244200234int, 1345904083964512159846209686656090478015517904680810737967698643618548184042int, 54914315475583961390813278744512292563142010060660840981392753629622142462int, 4322191829731273552363736742867053138652339175747554003448559560701201209092int);
    let e1314 = lemma_chain_square_mul(x, n, e1313, 4322191829731273552363736742867053138652339175747554003448559560701201209092int, 853487523981680669817947515899149672368966419998657061411219885708729086128int, 9653273417510364240430735396051425518042745628564452716274586130218803627840int, 393863803622435583349696716068387462597893139087993673953864396271637817454int, 15288102717531067667544614153281971612446185793130580958291983170554222934078int);
    let e1315 = lemma_chain_square(x, n, e1314, 15288102717531067667544614153281971612446185793130580958291983170554222934078int, 10678156582522457517394152346480418231550085772353246516960845420602553302038int, 18221936291177393134188587986607166406202513039375156100021144802881146717930int);
    let e1316 = lemma_chain_square(x, n, e1315, 18221936291177393134188587986607166406202513039375156100021144802881146717930int, 15169740400994847048353403040976124043336029772071261173512388498321712612080int, 12247493554045934595786292377567509124262269206480130930081291439099138002260int);
    let e1317 = lemma_chain_square_mul(x, n, e1316, 12247493554045934595786292377567509124262269206480130930081291439099138002260int, 6853044314003999519943848260183296865675985070151595980189739804822775135385int, 19542061009953575585092916517310249325659358502468772722106749729275691098145int, 797336835610638756395704564762196732776863728662585195772851948541313062427int, 6581256759691365716952851140823106063501433485653055581266342749345950709714int);
    let e1318 = lemma_chain_square_mul(x, n, e1317, 6581256759691365716952851140823106063501433485653055581266342749345950709714int, 1978822182785095168615674165126626007310683141278075587702038218563550646081int, 1853134420695583883097694846657520526835999331111522650022555900276576448573int, 75609851704279434804626795756174160321470686480099811133375955542693770566int, 20817139848601775220367584409759855779413371159752592738089298213073252034569int);
    let e1319 = lemma_chain_square(x, n, e1318, 20817139848601775220367584409759855779413371159752592738089298213073252034569int, 19798451342742668495879610404697578178842388417710085054148053674680016614377int, 6485826763492403257563386949362312482185179246301950328711483114578292417970int);
    let e1320 = lemma_chain_square(x, n, e1319, 6485826763492403257563386949362312482185179246301950328711483114578292417970int, 1921851336004456947908231342723667278961727592348777064806190331960537408780int, 6505168588521190103409713177879666660081099312231154121036407079330563362160int);
    let e1321 = lemma_chain_square_mul(x, n, e1320, 6505168588521190103409713177879666660081099312231154121036407079330563362160int, 1933330994765540306130249960647265976639160549292929035333895747712872842307int, 19449018066810243935370451989421737081393398720963173759829378479990870944619int, 793540584753371533343351197578155706278688512874793351988948001280310980818int, 4310871786630225076967271945404819108179088568420821047740986723680368663847int);
    let e1322 = lemma_chain_square(x, n, e1321, 4310871786630225076967271945404819108179088568420821047740986723680368663847int, 849022722818630819836497914995085012123087907054877398649258348093455705689int, 8197762008004071884400575477300927903729968638053541279221275004789911110722int);
    let e1323 = lemma_chain_square(x, n, e1322, 8197762008004071884400575477300927903729968638053541279221275004789911110722int, 3070292226441648594761327794475491212077495929787396327865076324172304659926int, 15937905131227060349838458777761633364058335720176115433857941436827586016426int);
    let e1324 = lemma_chain_square(x, n, e1323, 15937905131227060349838458777761633364058335720176115433857941436827586016426int, 11605171847704774429028010897456025549651807491135067812961659099234159894704int, 9878850856899514702481619244226150021169513264631654594676808900799120769044int);
    let e1325 = lemma_chain_square(x, n, e1324, 9878850856899514702481619244226150021169513264631654594676808900799120769044int, 4458635388152727415324914504102644547290963542509610086549326532490916787601int, 13602506460189734713642304080021204126614967458478937947242632673934854494553int);
    let e1326 = lemma_chain_square_mul(x, n, e1325, 13602506460189734713642304080021204126614967458478937947242632673934854494553int, 8453313638873904573692671581053270858224886280500356647613943937253760627797int, 7614395571548074588644306510240562905717509689084305725743627773844956888158int, 310675422976802271794072316527811484147799989941577557999776362772551134819int, 11554067133634607303508207205023612621816709665316145717635197719606244983885int);
    let e1327 = lemma_chain_square(x, n, e1326, 11554067133634607303508207205023612621816709665316145717635197719606244983885int, 6099003383240405567642694648724451972465306732374981784309751004553782202766int, 4362548644895484560706494894508061360140812842739298129842423908275594152647int);
    let e1328 = lemma_chain_square(x, n, e1327, 4362548644895484560706494894508061360140812842739298129842423908275594152647int, 869500159995263180705442781207427924898217569878098581474315161713314672381int, 1247516588566056537459196331979624868516001576027318164201951861200521860486int);
    let e1329 = lemma_chain_square_mul(x, n, e1328, 1247516588566056537459196331979624868516001576027318164201951861200521860486int, 71101990591934411189428637021333057888946899295988954243425632107034300268int, 8040435723154011378855794078388036336407545175032554124100854626510827355952int, 328058313458596004889606457394033716299382774468346493668224987865863215671int, 19284649883531569561700549754293881795780139814233426624308469776962157454735int);
    let e1330 = lemma_chain_square(x, n, e1329, 19284649883531569561700549754293881795780139814233426624308469776962157454735int, 16990752675212046797713459036235941168832809473478070831382617785288923486851int, 2538873821585547370461004431976158491385801502204040603071959981682590078092int);
    let e1331 = lemma_chain_square_mul(x, n, e1330, 2538873821585547370461004431976158491385801502204040603071959981682590078092int, 294490531728586977378781817901393897939230067790749938021152722173167059792int, 1373911390368804679978433529043410027887135727953097442252990798584833765728int, 56057043310227500129833577262863028611496695060173286145042944083554498293int, 14876996419368656404397562166695650044020734918450000335274388612998721849773int);
    let e1332 = lemma_chain_square_mul(x, n, e1331, 14876996419368656404397562166695650044020734918450000335274388612998721849773int, 10111593870637173696235682448912619334865615334552634147306842495178630842589int, 18549942045814289843125850124581838736370012961818103177791799915315626410142int, 756857328612210747673231301829469465365230060206327992378867664199505022024int, 16685059217772330880303448395185906294318595518786768428987131673308693086346int);
    let e1333 = lemma_chain_square_mul(x, n, e1332, 16685059217772330880303448395185906294318595518786768428987131673308693086346int, 12718755120299710695094785576326746884300031010410974930700065633217058206514int, 97980924457641717792271422776530509123654071967258578089082087964958322054int, 3997725737191661790235952594659225652961255485033310853392329316093142815int, 17284093986898511940000020152831936330944715299135796976911168024901201042561int);
    let e1334 = lemma_chain_square(x, n, e1333, 17284093986898511940000020152831936330944715299135796976911168024901201042561int, 13648418774276790513310146100034117199632612366059072357061398466596663085325int, 17990845358640371723014449511105207653370905223926534402400658467348557094246int);
    let e1335 = lemma_chain_square_mul(x, n, e1334, 17990845358640371723014449511105207653370905223926534402400658467348557094246int, 14787414349049283947016561333391580266722516695733020461123250476846760618036int, 5980138311697340467015941318918304610242370051075573540099774868448798505528int, 243995991801175556701228818783806603691411714400829999871791341790292743576int, 13116981359639981419450489185019551803993687309879858632267773348444224157984int);
    let e1336 = lemma_chain_square(x, n, e1335, 13116981359639981419450489185019551803993687309879858632267773348444224157984int, 7860621841440892628174464356732413236264204961937938775256465871304321990332int, 1619699429547420311315370183098667505736768476418219367175387789245049524700int);
    let e1337 = lemma_chain_square(x, n, e1336, 1619699429547420311315370183098667505736768476418219367175387789245049524700int, 119855497649446153351461099312703450846882171146912028209898170362753133572int, 20252238985551102003289520086147145641327571865931486687297646651431778241524int);
    let e1338 = lemma_chain_square(x, n, e1337, 20252238985551102003289520086147145641327571865931486687297646651431778241524int, 18738515756126139943770199285725708464652827675439541890954772580763932642063int, 21468850666311314636062459852265090967707010551090390524744170388454160415847int);
    let e1339 = lemma_chain_square(x, n, e1338, 21468850666311314636062459852265090967707010551090390524744170388454160415847int, 21057494273575065231339188810346889538347164172803609722298443800882195359285int, 17301615089737554658464358649829275705778596524002437439839912503341932984254int);
    let e1340 = lemma_chain_square(x, n, e1339, 17301615089737554658464358649829275705778596524002437439839912503341932984254int, 13676103946130972934158482013124587916616737012427025049345020362590923405138int, 10290562933978803529350056555797502931689816317195759501921886566698410037062int);
    let e1341 = lemma_chain_square(x, n, e1340, 10290562933978803529350056555797502931689816317195759501921886566698410037062int, 4838016743428066540116753842028225117452767909903882647734080746994486089949int, 5194208555418257304390137602784445086173447071154875419034138422618639759577int);
    let e1342 = lemma_chain_square(x, n, e1341, 5194208555418257304390137602784445086173447071154875419034138422618639759577int, 1232616189209577193764524413484373324196548837009505033703277050479502007952int, 8888335708964354060144549563162128371246480782618533210209971280683886566913int);
    let e1343 = lemma_chain_square(x, n, e1342, 8888335708964354060144549563162128371246480782618533210209971280683886566913int, 3609358327108706062230629717594275388313638133601047457708050568581942975211int, 3122332148758232646598341587489280983430146106050533555111223399144941913556int);
    let e1344 = lemma_chain_square(x, n, e1343, 3122332148758232646598341587489280983430146106050533555111223399144941913556int, 445397015386370050196108534737469111700124165133368321370072069901986979579int, 13281114159474964001493335471446494082720716261616217916675978115284961038579int);
    let e1345 = lemma_chain_square(x, n, e1344, 13281114159474964001493335471446494082720716261616217916675978115284961038579int, 8058572556499801242468464189741206409525147032147620478255447316860310920100int, 19860662895120929648912623429143612142018666480779838027967254871347079120941int);
    let e1346 = lemma_chain_square_mul(x, n, e1345, 19860662895120929648912623429143612142018666480779838027967254871347079120941int, 18020904324901977122473237614985543157428776634689232209736941711582689566656int, 7561487862459019016362869715911451656605179643477432145036275563855166917033int, 308516732277648835020693073353035311062363919133179038347706069038736238701int, 20077299999536160734875101413312674647378624121446218608539571815211419265804int);
    let e1347 = lemma_chain_square_mul(x, n, e1346, 20077299999536160734875101413312674647378624121446218608539571815211419265804int, 18416187065887682343972864743977190507977663139078115455790169377188173159255int, 4220013353355693838241428294918549203622544937744031843454308608913696880751int, 172181024902411900904100529370845320907134705149192148630062521652415208141int, 16450158759776440259691003141207761213848360044408937693299346175241255548486int);
    let e1348 = lemma_chain_square_mul(x, n, e1347, 16450158759776440259691003141207761213848360044408937693299346175241255548486int, 12363154265343287825558533037626748797333138317086824755432108435267944559492int, 19652972592624786617062668630881614557350553291047737693032582090815452372360int, 801862145930496428646618595980640750684479879255428991801271886605372467852int, 10136009791142786862982731650656718631010809452874972866067702510100329772324int);
    let e1349 = lemma_chain_square_mul(x, n, e1348, 10136009791142786862982731650656718631010809452874972866067702510100329772324int, 4693784470855027582561270537969641541993201734772881279272842527829711951300int, 3921533378429561091244234637012349159794832598053034427043461700283938353076int, 160002725050644584452370024547494889002495734616266675905927155632384546546int, 11034610272712299806391012756485402238591930100971442836766210294066880344046int);
    let e1350 = lemma_chain_square_mul(x, n, e1349, 11034610272712299806391012756485402238591930100971442836766210294066880344046int, 5562923647347854372441163493328367107325538032687135138818786529082627116741int, 7236256112616995694933940917909076183352479599290877763758056345770970462113int, 295246931608872508285632729948192813687041755324088613467422512734209912651int, 10225913628984376036663830492375862345008835481087157359972292153891642883074int);
    let e1351 = lemma_chain_square_mul(x, n, e1350, 10225913628984376036663830492375862345008835481087157359972292153891642883074int, 4777419099364252552540146899826135687689520054696226829731563673957090134587int, 15768924600880576140559421608155389482200719147473490619934183631751631129255int, 643388864452160578556060690410028344682673508113153428203528941825402685376int, 5497924444413488132734006051906312442516880478418346905547598910981855325737int);
    let e1352 = lemma_chain_square(x, n, e1351, 5497924444413488132734006051906312442516880478418346905547598910981855325737int, 1380977603979746240417069742428901702076171027978763567918923020379503355056int, 6542490380442744584003754489005988563359075025222981650765890366799410947521int);
    let e1353 = lemma_chain_square(x, n, e1352, 6542490380442744584003754489005988563359075025222981650765890366799410947521int, 1955578646893413304541523750148624866623488086762878199218197908067748512580int, 15954004433226790139983826883573615375832279766708118951537761595291936571301int);
    let e1354 = lemma_chain_square(x, n, e1353, 15954004433226790139983826883573615375832279766708118951537761595291936571301int, 11628629074784741912927752581523886597270316176207195537977533911459734778421int, 9679814515999504533989603764902756588443015725872119283303760331656423445158int);
    let e1355 = lemma_chain_square_mul(x, n, e1354, 9679814515999504533989603764902756588443015725872119283303760331656423445158int, 4280782592407390665242655710419438074210072499897580491123071033201018117844int, 19050534360302866843904980842377276766329133734902493118841579141123015389912int, 777282026486300329306567696840735636290739152532659642149150509350337968313int, 11051060761801697383115852743677914333676155320830622172923554672332531116889int);
    let e1356 = lemma_chain_square(x, n, e1355, 11051060761801697383115852743677914333676155320830622172923554672332531116889int, 5579522517001879127525015014092076937851035375810545445402060746451146653945int, 20495008002343523879748521668443305748191963700399646705871234727606691228386int);
    assert(e1356 == 506635611015138nat);
}

/// `893063546348579724036028309637317000017722597909560269288968862101068323439^1037589731359003014 mod 21888242871839275222246405745257275088696311157297823662689037894645226208583`, by repeated squaring.
proof fn lemma_power_120()
    ensures
        pow(893063546348579724036028309637317000017722597909560269288968862101068323439int, 1037589731359003014nat) % 21888242871839275222246405745257275088696311157297823662689037894645226208583int == 9750196019604170314214255535389273905512778539305224359316559023020650180070int,
{
    let n: int = 21888242871839275222246405745257275088696311157297823662689037894645226208583int;
    let x: int = 893063546348579724036028309637317000017722597909560269288968862101068323439int;
    lemma_power_119();
    let e1357: nat = 506635611015138nat;
    let e1358 = lemma_chain_square(x, n, e1357, 20495008002343523879748521668443305748191963700399646705871234727606691228386int, 19190455601008622755756692075830733001938083653628681880949997260877908209056int, 5865051281486978163638158229339264637789850138442545694671131987418986637348int);
    let e1359 = lemma_chain_square(x, n, e1358, 5865051281486978163638158229339264637789850138442545694671131987418986637348int, 1571566376336608223593585755814243175520044814952048380777187309616303404505int, 5974788940049907354075181836435128486882983131013887201468208585628316606689int);
    let e1360 = lemma_chain_square_mul(x, n, e1359, 5974788940049907354075181836435128486882983131013887201468208585628316606689int, 1630925930745713338321015414990240180116584825500835507003732556925681688429int, 44749789014300573256288522296042800979730098187326830538065517425947956614int, 1825838899424810865132888475817927031566428560110207122217157804038249536int, 16750989714612176421900932067169490982944662632522946554129825059419552308058int);
    let e1361 = lemma_chain_square_mul(x, n, e1360, 16750989714612176421900932067169490982944662632522946554129825059419552308058int, 12819469249404595606829852071770929135249708282763792164230395758291108775756int, 15643946566672570991964878108119984034438844723435658282846289596512302217616int, 638289627976259016661412778413114743316960448368946665108729287230890159326int, 3345731613935130788433237563090957565645536755919151593707287998491072806366int);
    let e1362 = lemma_chain_square(x, n, e1361, 3345731613935130788433237563090957565645536755919151593707287998491072806366int, 511412455445965489441131491301228149121895708687180750526096836577553941576int, 7735271404021822883384800489420031528014336302754539141480727380928958379148int);
    let e1363 = lemma_chain_square(x, n, e1362, 7735271404021822883384800489420031528014336302754539141480727380928958379148int, 2733633030491398214638955257621945922480443072906804846567824890381970142649int, 6176650721668611554482682912536312426125458788376502394730295659957383049537int);
    let e1364 = lemma_chain_square(x, n, e1363, 6176650721668611554482682912536312426125458788376502394730295659957383049537int, 1742991173886016892632053585952444731884631799266207184148421246210538559418int, 9649059638616260993342563159124069464895240275511178685926086742962988829675int);
    let e1365 = lemma_chain_square(x, n, e1364, 9649059638616260993342563159124069464895240275511178685926086742962988829675int, 4253623849786430309624129950509043654199081456079073564336321900097299748307int, 5782354834173184175626252369156924723805892723248137220178262924620377486644int);
    let e1366 = lemma_chain_square_mul(x, n, e1365, 5782354834173184175626252369156924723805892723248137220178262924620377486644int, 1527561057507417317080309512919969710794879742776460549641253199404768836079int, 10111886528504350664155425042014273167742512679621428923366153947919408516679int, 412575705427636449825901177465122889909472118786795633426220093940327171272int, 9841562343448388136243447346551008471612394744927638160380615432874560711505int);
    let e1367 = lemma_chain_square_mul(x, n, e1366, 9841562343448388136243447346551008471612394744927638160380615432874560711505int, 4425039959904395143752423053566419016918122935561864193092301766034425433618int, 16874009062552101392538035581205494320494098274482903945171358345963951021731int, 688477483677270313703132384803271528688134327492798927142823792631442910026int, 12348958835509726679561415361476598561993104496550172227623955467970847699751int);
    let e1368 = lemma_chain_square(x, n, e1367, 12348958835509726679561415361476598561993104496550172227623955467970847699751int, 6967063789177490837665664772075936430602784571204763719150042094885355996957int, 9750196019604170314214255535389273905512778539305224359316559023020650180070int);
    lemma_chain_end(x, n, 1037589731359003014nat, e1368, 9750196019604170314214255535389273905512778539305224359316559023020650180070int);
}

/// `9750196019604170314214255535389273905512778539305224359316559023020650180070^1290068741 mod 21888242871839275222246405745257275088696311157297823662689037894645226208583`, by repeated squaring.
proof fn lemma_power_121()
    ensures
        pow(9750196019604170314214255535389273905512778539305224359316559023020650180070int, 1290068741nat) % 21888242871839275222246405745257275088696311157297823662689037894645226208583int == 4037977894466302416077673003712391021526016837688049215215365469034689108930int,
{
    let n: int = 21888242871839275222246405745257275088696311157297823662689037894645226208583int;
    let x: int = 9750196019604170314214255535389273905512778539305224359316559023020650180070int;
    let e1369 = lemma_chain_start(x, n, 0int, 9750196019604170314214255535389273905512778539305224359316559023020650180070int);
    let e1370 = lemma_chain_square(x, n, e1369, 9750196019604170314214255535389273905512778539305224359316559023020650180070int, 4343259665809645525884041093784647441785338081994224430132453178302074288205int, 13031605954249949529922159032363458436029042782908366088955258424002838541385int);
    let e1371 = lemma_chain_square(x, n, e1370, 13031605954249949529922159032363458436029042782908366088955258424002838541385int, 7758628901424122574336843169000102675775544167335694751718780946575310170860int, 2213635914157855080453452413337753165699956414754286260153983135958629226845int);
    let e1372 = lemma_chain_square_mul(x, n, e1371, 2213635914157855080453452413337753165699956414754286260153983135958629226845int, 223872879570150662637307892454171915234263042741787401314590660520178463255int, 11727278749892121316529112869912926575731629243988138061970515328887437536360int, 5223958234450019819449019043971505867902815536631617001575198002134997899542int, 10035366117573076567824692600577424195912700857922292411945155564557800176214int);
    let e1373 = lemma_chain_square_mul(x, n, e1372, 10035366117573076567824692600577424195912700857922292411945155564557800176214int, 4601035071814842039325462344960706088614483836653027037527410974155235915983int, 18135353125165857602643537928502720297924430642450384358489414826749229891707int, 8078457868475291096611709353026328097099633784968999695983763191600841442463int, 16498310357367885243235646076645529713045843822138408601713165103633918419561int);
    let e1374 = lemma_chain_square(x, n, e1373, 16498310357367885243235646076645529713045843822138408601713165103633918419561int, 12435637078855196298106160047774915982441834717500581353263605719437222426460int, 4205984224587677985824898165551616095023325715470513513646792275470689126541int);
    let e1375 = lemma_chain_square(x, n, e1374, 4205984224587677985824898165551616095023325715470513513646792275470689126541int, 808210298152356424165197999913095706418405926600409200824481451564530698931int, 6678118338300417710513928663144809712833976791500356382226007646969329499908int);
    let e1376 = lemma_chain_square_mul(x, n, e1375, 6678118338300417710513928663144809712833976791500356382226007646969329499908int, 2037498615191344117660255669079568179238705294482736413678062806366223711110int, 15856140981935727379339092780277767572257446557511509628802069677192177551334int, 7063174672977354783928224913325919759075973448980562373854723739866017480867int, 15653424132287859014932570324395452987494853026953443365112823431043615031919int);
    let e1377 = lemma_chain_square_mul(x, n, e1376, 15653424132287859014932570324395452987494853026953443365112823431043615031919int, 11194580053775782971730051812299275475946415301069602879497252094691512534275int, 19214331483158006218545190024078881973851033882840105394246108857415302140236int, 8559092634497058623970341525812778183735998682483380806790753284271322927927int, 2089227978846613951448789855808514875848716552789764329690326999353014499079int);
    let e1378 = lemma_chain_square_mul(x, n, e1377, 2089227978846613951448789855808514875848716552789764329690326999353014499079int, 199416352109799393743401349677286446161422342897010087859174526046701762968int, 169852468606693625999078726391151948663037749799810721240636898012698693897int, 75661389222777952930255868913228923288680101525448988323845559787875360768int, 21430261758649317463551781807177219244483699726081778455415828453326916961046int);
    let e1379 = lemma_chain_square(x, n, e1378, 21430261758649317463551781807177219244483699726081778455415828453326916961046int, 20981863264825693875388557201717423902693112410319442224110439685877911030135int, 9487659600652778427041657343583037953924248538094685227620625603349972765411int);
    let e1380 = lemma_chain_square(x, n, e1379, 9487659600652778427041657343583037953924248538094685227620625603349972765411int, 4112513061232073017733588951509010451362821832142004657640088342545294194143int, 7746679251996157272470981791001053254366177597425824591643172518212623069552int);
    let e1381 = lemma_chain_square_mul(x, n, e1380, 7746679251996157272470981791001053254366177597425824591643172518212623069552int, 2741702007999740281512264048750242409967106199328817890158838024355527340146int, 9762009648722996625281724929744614430742424837353854097153903331712443807586int, 4348522089124568345694981832112137250247860260930562222110355180882797452484int, 5970203606323576266112678103915321686352689564663994068420062715424916540848int);
    let e1382 = lemma_chain_square(x, n, e1381, 5970203606323576266112678103915321686352689564663994068420062715424916540848int, 1628423592960795598654388311142981565218857146449187256188084768951229561788int, 345378395721068598124840919316424172960442796429921871034829465690278132700int);
    let e1383 = lemma_chain_square(x, n, e1382, 345378395721068598124840919316424172960442796429921871034829465690278132700int, 5449785847557867474196787477882895534328870941345856456477590531575476842int, 11212436438499125948905993944930184669249120610529095443714876267334831155114int);
    let e1384 = lemma_chain_square_mul(x, n, e1383, 11212436438499125948905993944930184669249120610529095443714876267334831155114int, 5743664835203776381584924407806156876911969190453583064863268685269023101920int, 19510065335657998137996819821152337941759186709554120881633425402895940573636int, 8690828336096815672596350425442313178181761490864723144991563822352884874399int, 17288984976676064495256485000087479494435690286121449845824460438847563867903int);
    let e1385 = lemma_chain_square_mul(x, n, e1384, 17288984976676064495256485000087479494435690286121449845824460438847563867903int, 13656144226556329812495427773049093361000671670067291484965134166736004199772int, 14827658832674118130939889287508659503739119282885991117888446936641560574333int, 6605033623616738054524413913876995080123021074558352345680823833740423410100int, 17034718051737234480470335857623386224624510751794288111582985880870321255010int);
    let e1386 = lemma_chain_square_mul(x, n, e1385, 17034718051737234480470335857623386224624510751794288111582985880870321255010int, 13257419556300745594079287982137568900268219571771958447007869568577018981520int, 14362881129932088294581790609529290318194383965925913885178013771607707713940int, 6397996734734880003150735815928425085101786029079520761433075110330761461083int, 4014015348631437437394471740350223345198931840180876402673986500831454100411int);
    let e1387 = lemma_chain_square(x, n, e1386, 4014015348631437437394471740350223345198931840180876402673986500831454100411int, 736117527267497717866866355876745987035678999611629966198136385068017661250int, 4496749150739298210850987626182489658072508745042060968349046450244933860171int);
    let e1388 = lemma_chain_square(x, n, e1387, 4496749150739298210850987626182489658072508745042060968349046450244933860171int, 923818007826018065897334838633894199454957254076254390288974330592965436628int, 13505106967203653950247713301682653434802702968347091389703385440019383971117int);
    let e1389 = lemma_chain_square(x, n, e1388, 13505106967203653950247713301682653434802702968347091389703385440019383971117int, 8332688707062330215277998729497564605849083859362734934688731549810844328711int, 21406276453988582904454693775737411024608191706458809695716539630038388701176int);
    let e1390 = lemma_chain_square_mul(x, n, e1389, 21406276453988582904454693775737411024608191706458809695716539630038388701176int, 20934922657228397913232125051659971653486689301906548841668624730968781964602int, 7360684685982230769902425975689618599594960601039134525776702396241649204010int, 3278843301723407069199585485975962915127759607941883965851360404647162948643int, 6955401824325965452302338997073102955896498005032505116343308464261031277831int);
    let e1391 = lemma_chain_square_mul(x, n, e1390, 6955401824325965452302338997073102955896498005032505116343308464261031277831int, 2210210057568306933916546578554028593732900169905938145710075651366493709714int, 21376286869733080089161022386900678578455921156856537509484289536801894789299int, 9522143388647191332784697826769111822817536612993916910481829647288252797903int, 4835547078999473599086516328985430225109717905719750535884057805824636069481int);
    let e1392 = lemma_chain_square(x, n, e1391, 4835547078999473599086516328985430225109717905719750535884057805824636069481int, 1068268279465390544209926833970009373637384700956107512584324146122613268212int, 3780926046082914734892696814800261843845034695097604036979080682673424145765int);
    let e1393 = lemma_chain_square(x, n, e1392, 3780926046082914734892696814800261843845034695097604036979080682673424145765int, 653108696282797433844731324375333661966169446124365324770216092232584655151int, 9833870692322169659963358753988370252512560122683026558421178711655716074192int);
    let e1394 = lemma_chain_square(x, n, e1393, 9833870692322169659963358753988370252512560122683026558421178711655716074192int, 4418125902547003258682071211390569491193042162620729684084949121393613760169int, 14561233252085416499680857790423842119832616595855238996770159228826317122337int);
    let e1395 = lemma_chain_square(x, n, e1394, 14561233252085416499680857790423842119832616595855238996770159228826317122337int, 9686913429420528665948271632723576460071260444063322716577872384622981061954int, 8273313253993979677528008626088704277653558852675116349520072967710174790387int);
    let e1396 = lemma_chain_square(x, n, e1395, 8273313253993979677528008626088704277653558852675116349520072967710174790387int, 3127145134467377733661085931149997089512831691864678220235350618469975944276int, 3609655624305144568206458461045691681620804316604449191045423670800626688861int);
    let e1397 = lemma_chain_square_mul(x, n, e1396, 3609655624305144568206458461045691681620804316604449191045423670800626688861int, 595279109536985911245959218920093503865472331004774125375005984848462300287int, 13993434609709350450960137810121617488841755546270660362175225266736658714000int, 6233425461836277600543492282669795302649391307288139445729196801545971738976int, 19282858097100256882070873565969031490619054039045720112303831054282823148992int);
    let e1398 = lemma_chain_square(x, n, e1397, 19282858097100256882070873565969031490619054039045720112303831054282823148992int, 16987595512807834462648166589634152947554819349464840054714021075181024962980int, 10120482237202231343059368025310891560728327288716444513088627374287697358724int);
    let e1399 = lemma_chain_square_mul(x, n, e1398, 10120482237202231343059368025310891560728327288716444513088627374287697358724int, 4679414483530863274145294317256337271648186230113310250070492691249381048826int, 15572983499781914007874466866591349432382683087735086571429623845313955634618int, 6937041160498412897037012570416557088057157174343263604761855873313353719510int, 4037977894466302416077673003712391021526016837688049215215365469034689108930int);
    lemma_chain_end(x, n, 1290068741nat, e1399, 4037977894466302416077673003712391021526016837688049215215365469034689108930int);
}

/// `9750196019604170314214255535389273905512778539305224359316559023020650180070^405928799 mod 21888242871839275222246405745257275088696311157297823662689037894645226208583`, by repeated squaring.
proof fn lemma_power_122()
    ensures
        pow(9750196019604170314214255535389273905512778539305224359316559023020650180070int, 405928799nat) % 21888242871839275222246405745257275088696311157297823662689037894645226208583int == 11199992687374838374156481933662476184197259774797173339818278919332742566634int,
{
    let n: int = 21888242871839275222246405745257275088696311157297823662689037894645226208583int;
    let x: int = 9750196019604170314214255535389273905512778539305224359316559023020650180070int;
    let e1400 = lemma_chain_start(x, n, 0int, 9750196019604170314214255535389273905512778539305224359316559023020650180070int);
    let e1401 = lemma_chain_square_mul(x, n, e1400, 9750196019604170314214255535389273905512778539305224359316559023020650180070int, 4343259665809645525884041093784647441785338081994224430132453178302074288205int, 13031605954249949529922159032363458436029042782908366088955258424002838541385int, 5804975449520901446011825371678602729004866867409483235550360104755747811927int, 10350021903813887762453417889646661156316028979432996580441663221180040027509int);
    let e1402 = lemma_chain_square(x, n, e1401, 10350021903813887762453417889646661156316028979432996580441663221180040027509int, 4894086475404029622587681497654926937322915221830781970574415054629085741627int, 16285300379869633505211349461173039931707997792432331398103474519827528960540int);
    let e1403 = lemma_chain_square(x, n, e1402, 16285300379869633505211349461173039931707997792432331398103474519827528960540int, 12116596568096115679664889329340436858011735636790671278917498937283218309124int, 21687326050253601404036283765809307554421293155993696720472544128046281080308int);
    let e1404 = lemma_chain_square(x, n, e1403, 21687326050253601404036283765809307554421293155993696720472544128046281080308int, 21488253486767239208939239110240776473037284500803339006995720950385117779309int, 5202468019965252081022541955657313499160758127417073719544467545024949765717int);
    let e1405 = lemma_chain_square(x, n, e1404, 5202468019965252081022541955657313499160758127417073719544467545024949765717int, 1236539344763165740008163463056525720022177201720831813236464583780002129836int, 905978237313109273424917156824690435460873050542079297902862145586004941701int);
    let e1406 = lemma_chain_square(x, n, e1405, 905978237313109273424917156824690435460873050542079297902862145586004941701int, 37499427034455085848416573165922180093430004283062579165435407996999553785int, 8863900525111823256886879382995618884669212140235342873689539869354071636746int);
    let e1407 = lemma_chain_square_mul(x, n, e1406, 8863900525111823256886879382995618884669212140235342873689539869354071636746int, 3589540420357895239374686270995806742024428028124920549075455157906764538181int, 11054092629921357710859426987424822998875270364680961592939488102949804060993int, 4924085071226106565461826186438062473204626430376675249911121787014900546639int, 13284714053519325870595537338429882703887143855753680362335382569026579406973int);
    let e1408 = lemma_chain_square_mul(x, n, e1407, 13284714053519325870595537338429882703887143855753680362335382569026579406973int, 8062941759058794160565297070092691504928038927898849583269526148784176825678int, 11578211051681632648422308863411828690133749173636869731142761642168302628455int, 5157555495488574377418179735398901388135490971286553261393704754066077521557int, 20942137685965087375844820422769724353446206845475392806378620742065494968119int);
    let e1409 = lemma_chain_square(x, n, e1408, 20942137685965087375844820422769724353446206845475392806378620742065494968119int, 20036927286756925534034044768715365009571565759384302834655587582364165477962int, 8879975966487172284831997894411465817184736989266401453888220468671524650315int);
    let e1410 = lemma_chain_square(x, n, e1409, 8879975966487172284831997894411465817184736989266401453888220468671524650315int, 3602572103530559367878412119712970401597588081014350223422987420853773638603int, 4098184237995939064082096516355543102302508808609690267086275054756890869676int);
    let e1411 = lemma_chain_square(x, n, e1410, 4098184237995939064082096516355543102302508808609690267086275054756890869676int, 767312120342305830152025394957794279591931039140620057067697696304999935665int, 16393485565876968241338582492783550604595872079870685145265947221704745532281int);
    let e1412 = lemma_chain_square_mul(x, n, e1411, 16393485565876968241338582492783550604595872079870685145265947221704745532281int, 12278115268191633897371584442958525137127290616119061374522995745291002533487int, 2382064884337041488194707362182361108880947115040497533560850389165508744040int, 1061099316637390572807034100553696358580788143097745404396751002577975349362int, 6012774815978637003407666588636887017852628282565075680658988400307431308754int);
    let e1413 = lemma_chain_square_mul(x, n, e1412, 6012774815978637003407666588636887017852628282565075680658988400307431308754int, 1651729707101378967660880336434786810488601215409494795235775176589518989999int, 4371283268916102134297066722104003450606685783445365632162256283463012071099int, 1947203755856654629678318183961260887604031441983619441763184683266947499744int, 17104409374259548950573347827650387658498762016053524820184582254245509694178int);
    let e1414 = lemma_chain_square_mul(x, n, e1413, 17104409374259548950573347827650387658498762016053524820184582254245509694178int, 13366117223537275500615440588633415129437253993014841089011725730260866129074int, 10914042986579801264059341858040286560373214188197744893560110203234562453542int, 4861699457038105596543638013445955226835570088660483652091547332687289322111int, 19297333192529080075861537283162983756270568712182909719819112284042549429227int);
    let e1415 = lemma_chain_square_mul(x, n, e1414, 19297333192529080075861537283162983756270568712182909719819112284042549429227int, 17013109299083393599762417453111266043278833755462909023074886206608947040276int, 14014094133333613911484581447315697782574307439437242266096787996420603928621int, 6242628320475395274296872774070567302035153925272432339339772129340157585258int, 19806064938572816567859526102436465931675635741722868424305144951405162914056int);
    let e1416 = lemma_chain_square_mul(x, n, e1415, 19806064938572816567859526102436465931675635741722868424305144951405162914056int, 17921959777578071600249389136716670227476448395082535818129864117540463956437int, 268233986397079939814443200286299403543681014321757059558800061736454872365int, 119485787954965283380550050530312160351076261486712931990819291678318151396int, 20177253920858551541944299945044850409479327845169654557071185677495648133682int);
    let e1417 = lemma_chain_square_mul(x, n, e1416, 20177253920858551541944299945044850409479327845169654557071185677495648133682int, 18600011804080975572912018090311691806272331597648857136733092562482892804231int, 20889173689216189572383977387730133413291139121791487197230935464468751962451int, 9305157081359683787702869398937742536939923069174127959708888434035374317532int, 11040471697983220877876728014110633225796154523213549751728836873395522774414int);
    let e1418 = lemma_chain_square(x, n, e1417, 11040471697983220877876728014110633225796154523213549751728836873395522774414int, 5568835106028128786514523374695484682332794717057387815641277135364655081314int, 6551352313280948163671304526961313317129425526899493212505621946390143325334int);
    let e1419 = lemma_chain_square_mul(x, n, e1418, 6551352313280948163671304526961313317129425526899493212505621946390143325334int, 1960879974881466253635484422081861309970126956647968451865960205114551382967int, 8237806948892539895904162921709056216977987701233722825600028697934710805795int, 3669560548722579373078468698917687141054990977418461687873785181494064461539int, 3146885670663612372288836442218283114340090966710084095027046824631154316413int);
    let e1420 = lemma_chain_square_mul(x, n, e1419, 3146885670663612372288836442218283114340090966710084095027046824631154316413int, 452429620879651306543045162793460322906289307566357361947160836442920038168int, 10362774315512698883690007259640730188860706318047887889034605238185031990625int, 4616134857182252416622216928550100431477236748090363804877950789615246358541int, 2656494627818508523528327588762194840939906909776223820725260053210332286347int);
    let e1421 = lemma_chain_square(x, n, e1420, 2656494627818508523528327588762194840939906909776223820725260053210332286347int, 322408872605660989207918845331219812637203682697182484077966265081490861945int, 5041322682129262702198120715190894379799291301961908138777427250023375530474int);
    let e1422 = lemma_chain_square_mul(x, n, e1421, 5041322682129262702198120715190894379799291301961908138777427250023375530474int, 1161122641692222734561557182185358871719144834559290646161313802190544004379int, 2078862615574988336110883348352379642824834878519692584786762519256183279719int, 926036782320294550065428452767972933565800493977028478926732340495062433024int, 21818371935772120090519467164968081862488801984638758192497439376169637555338int);
    let e1423 = lemma_chain_square(x, n, e1422, 21818371935772120090519467164968081862488801984638758192497439376169637555338int, 21748724039431611150213541533739083906055518307829187532441784007396029696976int, 10763509120020818248703397039277325441392757786150853429231797865954151949236int);
    let e1424 = lemma_chain_square_mul(x, n, e1423, 10763509120020818248703397039277325441392757786150853429231797865954151949236int, 5292938736796653524527756796575590343511652648179455065421997752933622388779int, 4240563886877231022226109786082669183335198045753241530954173508780548293539int, 1888974339913892931496409084469544411948912235930321674737787395672052376177int, 14600206714316737326831896805197419365872878387342691477865231599029785440539int);
    let e1425 = lemma_chain_square_mul(x, n, e1424, 14600206714316737326831896805197419365872878387342691477865231599029785440539int, 9738837299499826709900361087315983398691204164191325193123302057916758622682int, 11892283008801079564348473066739894966228552227033240873586398952222377730915int, 5297459971334606514590773100528238453759595506668735981818328265710292591201int, 14557361545915435197773850722913200114569296823074988376166858077736779385867int);
    let e1426 = lemma_chain_square_mul(x, n, e1425, 14557361545915435197773850722913200114569296823074988376166858077736779385867int, 9681762781019891110385222542078199602200425625516728417282604893305363663681int, 11463160123274833376833032683622910549522887502116692030557495567647711767666int, 5106305648217966307282155329338486068168732609424063299993860799445598150004int, 12136331728013049622941620568445340432777018958746005112499170372081077332288int);
    let e1427 = lemma_chain_square_mul(x, n, e1426, 12136331728013049622941620568445340432777018958746005112499170372081077332288int, 6729208400820314399815898000630749191918416678906100769662440597051401102192int, 15461588859404360595711599189305618879043122880410073274921830099607276801008int, 6887420019798634453080069950765675030842544702750309892535003237479293610688int, 10509293771840931462978717058489999012517352059044837313983803941874071375456int);
    let e1428 = lemma_chain_square_mul(x, n, e1427, 10509293771840931462978717058489999012517352059044837313983803941874071375456int, 5045871257438850139855692783258988478454933944290968885506145141379604867636int, 1427349896080299114537547412598711210110980464618542897680560292115877088148int, 635818112802908334385083493221273632806234560928369435235786428131426760322int, 11199992687374838374156481933662476184197259774797173339818278919332742566634int);
    lemma_chain_end(x, n, 405928799nat, e1428, 11199992687374838374156481933662476184197259774797173339818278919332742566634int);
}

/// `11199992687374838374156481933662476184197259774797173339818278919332742566634^9019 mod 21888242871839275222246405745257275088696311157297823662689037894645226208583`, by repeated squaring.
proof fn lemma_power_123()
    ensures
        pow(11199992687374838374156481933662476184197259774797173339818278919332742566634int, 9019nat) % 21888242871839275222246405745257275088696311157297823662689037894645226208583int == 8726284244201884837823186526194282900602489374997955829194215915552638638647int,
{
    let n: int = 21888242871839275222246405745257275088696311157297823662689037894645226208583int;
    let x: int = 11199992687374838374156481933662476184197259774797173339818278919332742566634int;
    let e1429 = lemma_chain_start(x, n, 0int, 11199992687374838374156481933662476184197259774797173339818278919332742566634int);
    let e1430 = lemma_chain_square(x, n, e1429, 11199992687374838374156481933662476184197259774797173339818278919332742566634int, 5730923077367567113945193132676650684947736405189196887309890955789133434276int, 11167441707494384998540086957513944464399258527500262474320497569196432499048int);
    let e1431 = lemma_chain_square(x, n, e1430, 11167441707494384998540086957513944464399258527500262474320497569196432499048int, 5697659470451843595815700387019478654973799746621787757932332344194194184293int, 13272319181996296771396825330293055015544825778434476724526270552001760519485int);
    let e1432 = lemma_chain_square(x, n, e1431, 13272319181996296771396825330293055015544825778434476724526270552001760519485int, 8047903045493963837643176026188790563926585020505213086645830152724131866780int, 17025309556652983579937446898047031450418191847946066609207296016267616092485int);
    let e1433 = lemma_chain_square_mul(x, n, e1432, 17025309556652983579937446898047031450418191847946066609207296016267616092485int, 13242779111921572752953786383066780700051126566509711739531382252578026181066int, 12977617977358577205305967091823896460783649502282596234081227286014232185747int, 6640515974581132240709198144476700144498883158579250363634180181899259805788int, 15386732474142209126777395742746085468145841341924170436802777816592453887194int);
    let e1434 = lemma_chain_square_mul(x, n, e1433, 15386732474142209126777395742746085468145841341924170436802777816592453887194int, 10816379259726668497413055142670837388645088939813646681278390068135124669974int, 19532336158153252070100017350572266225066996657957958796301458165927716006794int, 9994499029436296332350587848322836488558355791810880513312825294500066226592int, 7705362474528396280179553104625764534370816349660370538340836429717408472260int);
    let e1435 = lemma_chain_square(x, n, e1434, 7705362474528396280179553104625764534370816349660370538340836429717408472260int, 2712534359725024066143249260702292954893415907234906388694014489460260030199int, 16236741128457571754455593165551807130755152424455474334757480909829336509583int);
    let e1436 = lemma_chain_square(x, n, e1435, 16236741128457571754455593165551807130755152424455474334757480909829336509583int, 12044446144725760221505369655236593520500450168376865986140096259824254883162int, 15607854707333089306899811431724619001313464557944402965211763027672544254443int);
    let e1437 = lemma_chain_square_mul(x, n, e1436, 15607854707333089306899811431724619001313464557944402965211763027672544254443int, 11129496780147408296662867110011288996492346274405896499039578712267062433406int, 20884464587256507285190077683962743675365385286654599840671878684787422116551int, 10686369482766821982585383778977314646713178562585843781284922294664623568447int, 16080736132931196586896322717950407435920468120618167650178248886594632378733int);
    let e1438 = lemma_chain_square_mul(x, n, e1437, 16080736132931196586896322717950407435920468120618167650178248886594632378733int, 11814108427572906299851258168760990481322693964244051586341033860748579679946int, 20633307937175175369309816976803003754776720782115053410547625895832772508771int, 10557855162966600149642002549261476601988358884589198591212550483140997314876int, 8666177594435678462305989026801636251767075235233377957327678338872912166106int);
    let e1439 = lemma_chain_square_mul(x, n, e1438, 8666177594435678462305989026801636251767075235233377957327678338872912166106int, 3431186072725995257843966441709415383257940091086144260328217137589478021886int, 5646973796525776404959215436826627497861711475307589114724569332358460155698int, 2889499426573725674277575778421109431421673094901348907316249179319381121093int, 918724748551179861873160623013607889329094107069362612359679838151380839313int);
    let e1440 = lemma_chain_square(x, n, e1439, 918724748551179861873160623013607889329094107069362612359679838151380839313int, 38562033898406869707729175767709047546190765118501454617883234269423596659int, 17333209531038747143801153598236336529893422399833601485239341756026330387772int);
    let e1441 = lemma_chain_square_mul(x, n, e1440, 17333209531038747143801153598236336529893422399833601485239341756026330387772int, 13726097357656302080194743833245226997354304537812041520627909023892548593921int, 18287336374567412153178792681708316605512209492757292200487572569489375300041int, 9357445221435812184000040860473469742715512166519726104618858167644369891985int, 15430344335118951228643945954862523863958218358043632201927922526407395524739int);
    let e1442 = lemma_chain_square_mul(x, n, e1441, 15430344335118951228643945954862523863958218358043632201927922526407395524739int, 10877781633475189725343677241662393964557270156853604504901245993696931757582int, 10578440759150244135751686677258232553429469653270254902078449192644837291815int, 5412881236745656132709262913790374473173997258989778165899630703223385809561int, 8726284244201884837823186526194282900602489374997955829194215915552638638647int);
    lemma_chain_end(x, n, 9019nat, e1442, 8726284244201884837823186526194282900602489374997955829194215915552638638647int);
}

/// `8726284244201884837823186526194282900602489374997955829194215915552638638647^13 mod 21888242871839275222246405745257275088696311157297823662689037894645226208583`, by repeated squaring.
proof fn lemma_power_124()
    ensures
        pow(8726284244201884837823186526194282900602489374997955829194215915552638638647int, 13nat) % 21888242871839275222246405745257275088696311157297823662689037894645226208583int == 6812761850782926297230824150434286700974771477980891240950366507765396668150int,
{
    let n: int = 21888242871839275222246405745257275088696311157297823662689037894645226208583int;
    let x: int = 8726284244201884837823186526194282900602489374997955829194215915552638638647int;
    let e1443 = lemma_chain_start(x, n, 0int, 8726284244201884837823186526194282900602489374997955829194215915552638638647int);
    let e1444 = lemma_chain_square_mul(x, n, e1443, 8726284244201884837823186526194282900602489374997955829194215915552638638647int, 3478946992523357334803816083661151910365052533530904551559246314648399107377int, 6900217555054828214016856059846094536463179027572343279642444134146225973818int, 2750940771481875561959847445281723245971330038674085050161560892921420576450int, 5496054192787610375114237370490590546491844859775653707803645884415587273896int);
    let e1445 = lemma_chain_square(x, n, e1444, 5496054192787610375114237370490590546491844859775653707803645884415587273896int, 1380038218093840137106713403363333974835361936478767477736715357565217211762int, 16566480772280599994308433627109926203308423963535665588600093422259030065570int);
    let e1446 = lemma_chain_square_mul(x, n, e1445, 16566480772280599994308433627109926203308423963535665588600093422259030065570int, 12538616589065692233486735592780890860680707213648270094071124785506624171163int, 13108447911549777389474604523242192708698805989597677940300662436191167732871int, 5226003893792040396114339666476105245084630252180892635210597982923877474589int, 6812761850782926297230824150434286700974771477980891240950366507765396668150int);
    lemma_chain_end(x, n, 13nat, e1446, 6812761850782926297230824150434286700974771477980891240950366507765396668150int);
}

/// `8726284244201884837823186526194282900602489374997955829194215915552638638647^11003 mod 21888242871839275222246405745257275088696311157297823662689037894645226208583`, by repeated squaring.
proof fn lemma_power_125()
    ensures
        pow(8726284244201884837823186526194282900602489374997955829194215915552638638647int, 11003nat) % 21888242871839275222246405745257275088696311157297823662689037894645226208583int == 19285204852924686474994479317461708819641446017783043034637969515423763351953int,
{
    let n: int = 21888242871839275222246405745257275088696311157297823662689037894645226208583int;
    let x: int = 8726284244201884837823186526194282900602489374997955829194215915552638638647int;
    let e1447 = lemma_chain_start(x, n, 0int, 8726284244201884837823186526194282900602489374997955829194215915552638638647int);
    let e1448 = lemma_chain_square(x, n, e1447, 8726284244201884837823186526194282900602489374997955829194215915552638638647int, 3478946992523357334803816083661151910365052533530904551559246314648399107377int, 6900217555054828214016856059846094536463179027572343279642444134146225973818int);
    let e1449 = lemma_chain_square_mul(x, n, e1448, 6900217555054828214016856059846094536463179027572343279642444134146225973818int, 2175277503355201815764052475276135698185540748594222087644560003825070934105int, 98531810329905005374712336383811264533081497473339161388931399419043073909int, 39282120043576067049255428124670534269883523554194830903896479391275676780int, 9666803021197146802846630228909598162426757719911071952591130771017194958383int);
    let e1450 = lemma_chain_square(x, n, e1449, 9666803021197146802846630228909598162426757719911071952591130771017194958383int, 4269281970132575585555319357608219615648216168472491998522653010871432872781int, 8521676530700601555475040314417288613262278178495931356352796596716692695366int);
    let e1451 = lemma_chain_square_mul(x, n, e1450, 8521676530700601555475040314417288613262278178495931356352796596716692695366int, 3317715876925083112345569448802805464587604167856415215088841542466861163122int, 2872978043113155767386997691837124714271033159972640364496209593124518397830int, 1145383079781662705469955884724195902896122422848448525664272563127089809089int, 458541737787568550819640003589545658312063637919004406052780521243995725123int);
    let e1452 = lemma_chain_square(x, n, e1451, 458541737787568550819640003589545658312063637919004406052780521243995725123int, 9606094309368151714651646836803111748360472323256687045201208132951962535int, 1438966672451271418237023745469002750167452628469723816784411780171461927224int);
    let e1453 = lemma_chain_square_mul(x, n, e1452, 1438966672451271418237023745469002750167452628469723816784411780171461927224int, 94599877045840246383568008571455883963773466532188656963015496737331417693int, 377654596044417351989325829336089373225634176144209461693974110185557687157int, 150561256584590474759929575458171199572098407408636697796311905036050674227int, 1469158892033293090296865092315456997002652534646049318121202044582311466238int);
    let e1454 = lemma_chain_square_mul(x, n, e1453, 1469158892033293090296865092315456997002652534646049318121202044582311466238int, 98611289297116614197489768501130082958763477800537679645300045319016102365int, 16796179935496205104261825251610556586862719718812693160156968905354244273849int, 6696208608068327524438963129464206124901997804873783470669932613286515703013int, 15965462683259060598012316720736612245891143747731507990006818862835603281724int);
    let e1455 = lemma_chain_square_mul(x, n, e1454, 15965462683259060598012316720736612245891143747731507990006818862835603281724int, 11645338558376413905552451894010267557213916428831804935896683577413975228099int, 5368497085573702940107815365927438267545477337341283213914208833318135838459int, 2140282881873421599019688058644763833677088779934301827485903871883840756626int, 11407316686618577820298146692193811924049936311155497245247669780879651004015int);
    let e1456 = lemma_chain_square_mul(x, n, e1455, 11407316686618577820298146692193811924049936311155497245247669780879651004015int, 5945058027303954657466686603671426142921548620964576672917512426222154925112int, 126742276633965202068146001254645863882080253300573646123495730541489483929int, 50528913542355566129079721695085772262428255746226098197094678403623469347int, 20925155283977196745919310789393558821656178813404869878227921271307615998762int);
    let e1457 = lemma_chain_square_mul(x, n, e1456, 20925155283977196745919310789393558821656178813404869878227921271307615998762int, 20004443765648197946817845596482328035958528621535627564838477172049893157675int, 19823869717783509058771971700118453154963180090596503345626259011468728208119int, 7903271312836488520067524884953381990960876809315697482667808441149697870916int, 9732086514539595077772749721545739370966979804787849577648401141253827302965int);
    let e1458 = lemma_chain_square(x, n, e1457, 9732086514539595077772749721545739370966979804787849577648401141253827302965int, 4327140761414835368622457522584844786720822715042591304767215587354239365609int, 19050504675915414257141761803571230040183822046996966957868972390743666969178int);
    let e1459 = lemma_chain_square_mul(x, n, e1458, 19050504675915414257141761803571230040183822046996966957868972390743666969178int, 16580669838692202321755610028647080817313548780062047669542011174780139602138int, 13289800140418603918123438830766177389139102265432878207193910419440581245230int, 5298304402640330355286888227309401612861243381889034116467393490042136892657int, 13679499186226917963128499110205752239594512698093703657947921601762299328779int);
    let e1460 = lemma_chain_square_mul(x, n, e1459, 13679499186226917963128499110205752239594512698093703657947921601762299328779int, 8549279130429277510442517631889212823450983032706059022819526240452085425648int, 1930458428797075521814465644556425684603393718259064182159788636423151694057int, 769624545466453650018396856848744062382706960389745272002647577327234584722int, 19285204852924686474994479317461708819641446017783043034637969515423763351953int);
    lemma_chain_end(x, n, 11003nat, e1460, 19285204852924686474994479317461708819641446017783043034637969515423763351953int);
}

/// `11199992687374838374156481933662476184197259774797173339818278919332742566634^143039 mod 21888242871839275222246405745257275088696311157297823662689037894645226208583`, by repeated squaring.
proof fn lemma_power_126()
    ensures
        pow(11199992687374838374156481933662476184197259774797173339818278919332742566634int, 143039nat) % 21888242871839275222246405745257275088696311157297823662689037894645226208583int == 8215835942123410896464956702704990205048049002095311534150222576890622159770int,
{
    let n: int = 21888242871839275222246405745257275088696311157297823662689037894645226208583int;
    let x: int = 11199992687374838374156481933662476184197259774797173339818278919332742566634int;
    let e1461 = lemma_chain_start(x, n, 0int, 11199992687374838374156481933662476184197259774797173339818278919332742566634int);
    let e1462 = lemma_chain_square(x, n, e1461, 11199992687374838374156481933662476184197259774797173339818278919332742566634int, 5730923077367567113945193132676650684947736405189196887309890955789133434276int, 11167441707494384998540086957513944464399258527500262474320497569196432499048int);
    let e1463 = lemma_chain_square(x, n, e1462, 11167441707494384998540086957513944464399258527500262474320497569196432499048int, 5697659470451843595815700387019478654973799746621787757932332344194194184293int, 13272319181996296771396825330293055015544825778434476724526270552001760519485int);
    let e1464 = lemma_chain_square(x, n, e1463, 13272319181996296771396825330293055015544825778434476724526270552001760519485int, 8047903045493963837643176026188790563926585020505213086645830152724131866780int, 17025309556652983579937446898047031450418191847946066609207296016267616092485int);
    let e1465 = lemma_chain_square_mul(x, n, e1464, 17025309556652983579937446898047031450418191847946066609207296016267616092485int, 13242779111921572752953786383066780700051126566509711739531382252578026181066int, 12977617977358577205305967091823896460783649502282596234081227286014232185747int, 6640515974581132240709198144476700144498883158579250363634180181899259805788int, 15386732474142209126777395742746085468145841341924170436802777816592453887194int);
    let e1466 = lemma_chain_square(x, n, e1465, 15386732474142209126777395742746085468145841341924170436802777816592453887194int, 10816379259726668497413055142670837388645088939813646681278390068135124669974int, 19532336158153252070100017350572266225066996657957958796301458165927716006794int);
    let e1467 = lemma_chain_square_mul(x, n, e1466, 19532336158153252070100017350572266225066996657957958796301458165927716006794int, 17430003770925919409112617577020159453158496042054701629912870510528736617104int, 17927531264485045424685801822519590548689020222295995886441686182789744754804int, 9173336582592662339527195662009879552423782547218419095140312756031214884306int, 15242529822350823087298483652307741250921778694465463944658787199104592411338int);
    let e1468 = lemma_chain_square_mul(x, n, e1467, 15242529822350823087298483652307741250921778694465463944658787199104592411338int, 10614589610761709478396400722883845499396056601942410949417659243877921977801int, 17919563686979881790164333746365070460710011285671532942663354102269469284261int, 9169259653699081108404829187611053248880869619187741199040842799910700905897int, 8766536236956030542612411511220948081256525062201462883674230401007303233523int);
    let e1469 = lemma_chain_square_mul(x, n, e1468, 8766536236956030542612411511220948081256525062201462883674230401007303233523int, 3511115901073026242727537412428146209171780155130330615582509776287205496892int, 15484498356470913887261216407792929836993919774157062562658855966069720767493int, 7923261331464241040183386615214482739854625581265487452145968843717999769718int, 8907413445762480897474580187272713194679077210349156228799743094700938538968int);
    let e1470 = lemma_chain_square(x, n, e1469, 8907413445762480897474580187272713194679077210349156228799743094700938538968int, 3624869056795288628893562147679095402786746184604757496724142016104410584204int, 2464740956969098427481531152168214915378336437474149821598214308711465482092int);
    let e1471 = lemma_chain_square_mul(x, n, e1470, 2464740956969098427481531152168214915378336437474149821598214308711465482092int, 277543886027360565078602793360623328172556000899350435629975939388231686273int, 12004097398834376072510186148743419090269076831339965946688304395689456815305int, 6142375332396099821506746700839059649755478229552867267535800962410096940304int, 1267922032709659327737601594588484706552743598607143408231011467050590104138int);
    let e1472 = lemma_chain_square(x, n, e1471, 1267922032709659327737601594588484706552743598607143408231011467050590104138int, 73447023155016057639918943679578301164268781070240303893446610668049134383int, 3404124635388841231224207863962674922697527392794352944301286371595529713755int);
    let e1473 = lemma_chain_square_mul(x, n, e1472, 3404124635388841231224207863962674922697527392794352944301286371595529713755int, 529419588457237496038348085908818155431262809193135558935533053596582358400int, 17719022396548728394179415548966568230348553788327469234792529458175774052825int, 9066644701941791212020215387773205164224457511800962192844901762142710024781int, 16234045486346444003053635576449464073907027286602295513125787355420193545727int);
    let e1474 = lemma_chain_square_mul(x, n, e1473, 16234045486346444003053635576449464073907027286602295513125787355420193545727int, 12040447211586502986520106514041590759640489370903701723643739888761857243183int, 20186235488191301097624805722539141425542575393648625722788884234164727118840int, 10329092708681689557375701677531643399529472223092015880087178858205371954545int, 3780337839561343790714806889051068685198430359673169070650872608694971924825int);
    let e1475 = lemma_chain_square_mul(x, n, e1474, 3780337839561343790714806889051068685198430359673169070650872608694971924825int, 652905501135754500884771284226300311980093318250359573798872569800040787545int, 14667695254772664501966891664078819946690269011402038812094789478547692781890int, 7505311438473275947683642846616473732361827806051282048683031859294895507648int, 3299094114574964315878253789732647310491210448277495994828386498116033715476int);
    let e1476 = lemma_chain_square_mul(x, n, e1475, 3299094114574964315878253789732647310491210448277495994828386498116033715476int, 497254258395780507905826281499021114937578982495703367653806298270077011697int, 5336179419761717042417212199471667051145759266339697014645841088483469111225int, 2730469084694931240177599366423845015082886108687189347221690211720329153749int, 16714676154291731834125976255878907594268839091240910260485882099997169438983int);
    let e1477 = lemma_chain_square_mul(x, n, e1476, 16714676154291731834125976255878907594268839091240910260485882099997169438983int, 12763948233701786600024961865189371347205496060444979705945918076760533241950int, 9347986632820111330604189106540123687392497230804562734229340862935054417439int, 4783270294572770092177829141864106349388732337668976079634337772441227417592int, 2951021112708217713430294014322266302957461313320557025336851650358273538190int);
    let e1478 = lemma_chain_square_mul(x, n, e1477, 2951021112708217713430294014322266302957461313320557025336851650358273538190int, 397863166022054813294523078787839430024775488619349365582534695364195125342int, 7919237303003771539693124272642455060004917637227867382028718325352267265714int, 4052193700634644819430347767518588533427537969746541948927300215883894805782int, 8215835942123410896464956702704990205048049002095311534150222576890622159770int);
    lemma_chain_end(x, n, 143039nat, e1478, 8215835942123410896464956702704990205048049002095311534150222576890622159770int);
}

/// `8215835942123410896464956702704990205048049002095311534150222576890622159770^29 mod 21888242871839275222246405745257275088696311157297823662689037894645226208583`, by repeated squaring.
proof fn lemma_power_127()
    ensures
        pow(8215835942123410896464956702704990205048049002095311534150222576890622159770int, 29nat) % 21888242871839275222246405745257275088696311157297823662689037894645226208583int == 4896153894909549175696450898459562220401524575804930873880135265551520772785int,
{
    let n: int = 21888242871839275222246405745257275088696311157297823662689037894645226208583int;
    let x: int = 8215835942123410896464956702704990205048049002095311534150222576890622159770int;
    let e1479 = lemma_chain_start(x, n, 0int, 8215835942123410896464956702704990205048049002095311534150222576890622159770int);
    let e1480 = lemma_chain_square_mul(x, n, e1479, 8215835942123410896464956702704990205048049002095311534150222576890622159770int, 3083845543158249597075661328513403700196616884859786852683948787038590270484int, 20132970380076965329875329909519669702724292206987698766836753083795634088728int, 7556987677761590015473774852819676323412693420910975145625703007863563443816int, 15920439220583293630821974739611516394977765909590263766258105418290954599832int);
    let e1481 = lemma_chain_square_mul(x, n, e1480, 15920439220583293630821974739611516394977765909590263766258105418290954599832int, 11579750209295281012861382097583648303085842940234406122300173423567714283766int, 2026977607052969790024076093958006913375743777718223222158505429649687664646int, 760833821856514799606345633941671590280793681215227279252181068508080830723int, 289741350347285722623114376292149846165361929104236996397678421845679795911int);
    let e1482 = lemma_chain_square(x, n, e1481, 289741350347285722623114376292149846165361929104236996397678421845679795911int, 3835394672501375709974161390212502739011174912203270379547446820817743131int, 5069782462627263711780110540636681515008818709630254939780534804000690826548int);
    let e1483 = lemma_chain_square_mul(x, n, e1482, 5069782462627263711780110540636681515008818709630254939780534804000690826548int, 1174269418009393548440223852232335099352516906943575621770268867580345363241int, 11709175926802291676685862015346396298258206390477215988852052117605054698801int, 4395084109553500202041802785855913931106498366976627927095405402962051357295int, 4896153894909549175696450898459562220401524575804930873880135265551520772785int);
    lemma_chain_end(x, n, 29nat, e1483, 4896153894909549175696450898459562220401524575804930873880135265551520772785int);
}

/// `8215835942123410896464956702704990205048049002095311534150222576890622159770^311 mod 21888242871839275222246405745257275088696311157297823662689037894645226208583`, by repeated squaring.
proof fn lemma_power_128()
    ensures
        pow(8215835942123410896464956702704990205048049002095311534150222576890622159770int, 311nat) % 21888242871839275222246405745257275088696311157297823662689037894645226208583int == 19433260757112203149040899379563167323735763231524821801948606396997821674113int,
{
    let n: int = 21888242871839275222246405745257275088696311157297823662689037894645226208583int;
    let x: int = 8215835942123410896464956702704990205048049002095311534150222576890622159770int;
    let e1484 = lemma_chain_start(x, n, 0int, 8215835942123410896464956702704990205048049002095311534150222576890622159770int);
    let e1485 = lemma_chain_square(x, n, e1484, 8215835942123410896464956702704990205048049002095311534150222576890622159770int, 3083845543158249597075661328513403700196616884859786852683948787038590270484int, 20132970380076965329875329909519669702724292206987698766836753083795634088728int);
    let e1486 = lemma_chain_square(x, n, e1485, 20132970380076965329875329909519669702724292206987698766836753083795634088728int, 18518457543549537820861502109633802300423213070761197980806492259037072266495int, 16846866422301467012706238591645256143852446903667910283582281512887544331399int);
    let e1487 = lemma_chain_square_mul(x, n, e1486, 16846866422301467012706238591645256143852446903667910283582281512887544331399int, 12966637382117983425807538664955063566397993092855699679161541634119133578020int, 17461416387248497969990819854608806225464160677174711218236289411726313151541int, 6554209636412168235942153219672791860231833614566798934650958635262475580124int, 580514481530185489547784074353260431663073998254400823798866310768770701278int);
    let e1488 = lemma_chain_square_mul(x, n, e1487, 580514481530185489547784074353260431663073998254400823798866310768770701278int, 15396259317819882706723446846545148632905257890153331714389880504672591053int, 16405453357766577995811829280508334010397409208241361505369994580581873225385int, 6157849861807653972591217334860239251238174512233499971770663802986352032320int, 9203732012798336413986968313013756271814083529729086005353798276754412358890int);
    let e1489 = lemma_chain_square(x, n, e1488, 9203732012798336413986968313013756271814083529729086005353798276754412358890int, 3870054049536906588705264774921151366624387477101282981312896284308256248283int, 1766796897361030763591631739670671673524445959151115803704502600314168419111int);
    let e1490 = lemma_chain_square_mul(x, n, e1489, 1766796897361030763591631739670671673524445959151115803704502600314168419111int, 142614064308500527889762663629088298414822027265125263386081520369275330214int, 6941546261715136905477373651910966678311669938496611142243236053490384003559int, 2605536022459135156412094182632586503203184330843324201834931311206356503941int, 10141211614282571929580858106495117704709683135436684012743588939081619095827int);
    let e1491 = lemma_chain_square_mul(x, n, e1490, 10141211614282571929580858106495117704709683135436684012743588939081619095827int, 4698603428691656490132725446991714480304874840569393131241357763236553645972int, 11529905414562822425521677564431633291518139485659535230174836995618199036253int, 4327794234964487944782246045652007491615286295214344400923277995540870535418int, 68325388067952811142906630212605862251638523345582455802494034366031049116int);
    let e1492 = lemma_chain_square_mul(x, n, e1491, 68325388067952811142906630212605862251638523345582455802494034366031049116int, 213281563164785227192896698814470918694579857796828111033897655273709491int, 2357030688674947447172990511789463249420741091993475687129115740963491620203int, 884720512381462091511113775325525417444862500617934040472206302195257641659int, 19433260757112203149040899379563167323735763231524821801948606396997821674113int);
    lemma_chain_end(x, n, 311nat, e1492, 19433260757112203149040899379563167323735763231524821801948606396997821674113int);
}

/// `21888242871839275222246405745257275088696311157297823662689037894645226208582^2 mod 21888242871839275222246405745257275088696311157297823662689037894645226208583`, by repeated squaring.
proof fn lemma_power_129()
    ensures
        pow(21888242871839275222246405745257275088696311157297823662689037894645226208582int, 2nat) % 21888242871839275222246405745257275088696311157297823662689037894645226208583int == 1int,
{
    let n: int = 21888242871839275222246405745257275088696311157297823662689037894645226208583int;
    let x: int = 21888242871839275222246405745257275088696311157297823662689037894645226208582int;
    let e1493 = lemma_chain_start(x, n, 0int, 21888242871839275222246405745257275088696311157297823662689037894645226208582int);
    let e1494 = lemma_chain_square(x, n, e1493, 21888242871839275222246405745257275088696311157297823662689037894645226208582int, 21888242871839275222246405745257275088696311157297823662689037894645226208581int, 1int);
    lemma_chain_end(x, n, 2nat, e1494, 1int);
}

/// The base-field modulus is prime, and 3 generates its nonzero residues.
pub proof fn lemma_modulus_prime()
    ensures
        is_prime(p()),
        generates(3, p()),
        pow(3, ((p() - 1) / 2) as nat) % p() != 1,
        pow(3, (p() - 1) as nat) % p() == 1,
{
    lemma_prime_2();
    lemma_prime_3();
    lemma_prime_13();
    lemma_prime_29();
    lemma_prime_67();
    lemma_prime_229();
    lemma_prime_311();
    lemma_prime_983();
    lemma_prime_11003();
    lemma_prime_405928799();
    lemma_prime_11465965001();
    lemma_prime_of_134_bits();
    let n: int = 21888242871839275222246405745257275088696311157297823662689037894645226208583int;
    let g: int = 3int;
    lemma_power_100();
    lemma_power_103();
    lemma_power_compose(g, 3nat, 543360896875443130718059248159185826nat, 1630082690626329392154177744477557478nat, n, 27int, 3079850386165776373304302593529140662833478451685277064343379560295587684005int);
    lemma_power_106();
    lemma_power_compose(g, 3nat, 13427688667394608761327070753331941386769nat, 40283066002183826283981212259995824160307nat, n, 27int, 893063546348579724036028309637317000017722597909560269288968862101068323439int);
    lemma_power_108();
    lemma_power_compose(g, 40283066002183826283981212259995824160307nat, 523676054661572059nat, 21095277073695332448914417097642804564908913909714248062113nat, n, 893063546348579724036028309637317000017722597909560269288968862101068323439int, 11285525676527606624114408103559105419192630852167477967765193701506551924732int);
    lemma_power_109();
    lemma_power_compose(g, 21095277073695332448914417097642804564908913909714248062113nat, 90493014nat, 1908975203563790751034266631218829680491566255156566185884264578582nat, n, 11285525676527606624114408103559105419192630852167477967765193701506551924732int, 5730636994510773491206367835236806183028292339446643256980404715002489681200int);
    lemma_power_110();
    lemma_power_compose(g, 21095277073695332448914417097642804564908913909714248062113nat, 11465965001nat, 241877708613388379596312326885888396740728639641705642191219732107113nat, n, 11285525676527606624114408103559105419192630852167477967765193701506551924732int, 19527535402229586708184589351625843332144868505475204990149676826052143313306int);
    lemma_power_111();
    lemma_power_compose(g, 241877708613388379596312326885888396740728639641705642191219732107113nat, 15343nat, 3711129683255217908146220031410185671192999518022689668139884349719434759nat, n, 19527535402229586708184589351625843332144868505475204990149676826052143313306int, 14453272593708641966296292124668779843903577428799502852231226944323129894749int);
    lemma_power_112();
    lemma_power_compose(g, 3711129683255217908146220031410185671192999518022689668139884349719434759nat, 6nat, 22266778099531307448877320188461114027157997108136138008839306098316608554nat, n, 14453272593708641966296292124668779843903577428799502852231226944323129894749int, 16688597666022887646690163467638290937986941906618104641626128998084292531986int);
    lemma_power_113();
    lemma_power_compose(g, 3711129683255217908146220031410185671192999518022689668139884349719434759nat, 983nat, 3648040478639879203707734290876212514782718526216303943781506315774204368097nat, n, 14453272593708641966296292124668779843903577428799502852231226944323129894749int, 21888242871839275220042445260109153167277707414472061641714758635765020556617int);
    lemma_power_114();
    lemma_power_compose(g, 3648040478639879203707734290876212514782718526216303943781506315774204368097nat, 2nat, 7296080957279758407415468581752425029565437052432607887563012631548408736194nat, n, 21888242871839275220042445260109153167277707414472061641714758635765020556617int, 21888242871839275220042445260109153167277707414472061641714758635765020556616int);
    lemma_power_115();
    lemma_power_compose(g, 3648040478639879203707734290876212514782718526216303943781506315774204368097nat, 3nat, 10944121435919637611123202872628637544348155578648911831344518947322613104291nat, n, 21888242871839275220042445260109153167277707414472061641714758635765020556617int, 21888242871839275222246405745257275088696311157297823662689037894645226208582int);
    lemma_power_116();
    lemma_power_compose(g, 241877708613388379596312326885888396740728639641705642191219732107113nat, 5898nat, 1426594725401764662859050103972969763976817516606779877643813979967752474nat, n, 19527535402229586708184589351625843332144868505475204990149676826052143313306int, 13477402492780953613858904612321015936573319179382394511247438949242460430558int);
    lemma_power_117();
    lemma_power_compose(g, 1426594725401764662859050103972969763976817516606779877643813979967752474nat, 67nat, 95581846601918232411556356966188974186446773612654251802135536657839415758nat, n, 13477402492780953613858904612321015936573319179382394511247438949242460430558int, 10247490365858481317912223827250247247828105120952384175173060052493082761774int);
    lemma_power_118();
    lemma_power_compose(g, 1426594725401764662859050103972969763976817516606779877643813979967752474nat, 229nat, 326690192117004107794722473809810075950691211302952591980433401412615316546nat, n, 13477402492780953613858904612321015936573319179382394511247438949242460430558int, 21416043524944433016670818817864259343946572146370358017997215485720702071283int);
    lemma_power_120();
    lemma_power_compose(g, 40283066002183826283981212259995824160307nat, 1037589731359003014nat, 41797295631522903834491719855904644372328493508381232165298nat, n, 893063546348579724036028309637317000017722597909560269288968862101068323439int, 9750196019604170314214255535389273905512778539305224359316559023020650180070int);
    lemma_power_121();
    lemma_power_compose(g, 41797295631522903834491719855904644372328493508381232165298nat, 1290068741nat, 53921384552563552462426805409431605981462554858784049127514694749818nat, n, 9750196019604170314214255535389273905512778539305224359316559023020650180070int, 4037977894466302416077673003712391021526016837688049215215365469034689108930int);
    lemma_power_122();
    lemma_power_compose(g, 41797295631522903834491719855904644372328493508381232165298nat, 405928799nat, 16966726017152038894527718616551825348581414203336490006999586617102nat, n, 9750196019604170314214255535389273905512778539305224359316559023020650180070int, 11199992687374838374156481933662476184197259774797173339818278919332742566634int);
    lemma_power_123();
    lemma_power_compose(g, 16966726017152038894527718616551825348581414203336490006999586617102nat, 9019nat, 153022901948694238789745494202680912818855774699891803373129271699642938nat, n, 11199992687374838374156481933662476184197259774797173339818278919332742566634int, 8726284244201884837823186526194282900602489374997955829194215915552638638647int);
    lemma_power_124();
    lemma_power_compose(g, 153022901948694238789745494202680912818855774699891803373129271699642938nat, 13nat, 1989297725333025104266691424634851866645125071098593443850680532095358194nat, n, 8726284244201884837823186526194282900602489374997955829194215915552638638647int, 6812761850782926297230824150434286700974771477980891240950366507765396668150int);
    lemma_power_125();
    lemma_power_compose(g, 153022901948694238789745494202680912818855774699891803373129271699642938nat, 11003nat, 1683710990141482709403569672712098083745870089022909512514541376511171246814nat, n, 8726284244201884837823186526194282900602489374997955829194215915552638638647int, 19285204852924686474994479317461708819641446017783043034637969515423763351953int);
    lemma_power_126();
    lemma_power_compose(g, 16966726017152038894527718616551825348581414203336490006999586617102nat, 143039nat, 2426903522767410491434350343192956546035736906231048194111213870123652978nat, n, 11199992687374838374156481933662476184197259774797173339818278919332742566634int, 8215835942123410896464956702704990205048049002095311534150222576890622159770int);
    lemma_power_127();
    lemma_power_compose(g, 2426903522767410491434350343192956546035736906231048194111213870123652978nat, 29nat, 70380202160254904251596159952595739835036370280700397629225202233585936362nat, n, 8215835942123410896464956702704990205048049002095311534150222576890622159770int, 4896153894909549175696450898459562220401524575804930873880135265551520772785int);
    lemma_power_128();
    lemma_power_compose(g, 2426903522767410491434350343192956546035736906231048194111213870123652978nat, 311nat, 754766995580664662836082956733009485817114177837855988368587513608456076158nat, n, 8215835942123410896464956702704990205048049002095311534150222576890622159770int, 19433260757112203149040899379563167323735763231524821801948606396997821674113int);
    lemma_power_129();
    lemma_power_compose(g, 10944121435919637611123202872628637544348155578648911831344518947322613104291nat, 2nat, 21888242871839275222246405745257275088696311157297823662689037894645226208582nat, n, 21888242871839275222246405745257275088696311157297823662689037894645226208582int, 1int);
    assert(product(Seq::<int>::empty()) == 1);
    assert(product(seq![2int]) == 2int) by {
        assert(seq![2int].drop_last() =~= Seq::<int>::empty());
    }
    assert(product(seq![2int, 3int]) == 6int) by {
        assert(seq![2int, 3int].drop_last() =~= seq![2int]);
    }
    assert(product(seq![2int, 3int, 3int]) == 18int) by {
        assert(seq![2int, 3int, 3int].drop_last() =~= seq![2int, 3int]);
    }
    assert(product(seq![2int, 3int, 3int, 13int]) == 234int) by {
        assert(seq![2int, 3int, 3int, 13int].drop_last() =~= seq![2int, 3int, 3int]);
    }
    assert(product(seq![2int, 3int, 3int, 13int, 29int]) == 6786int) by {
        assert(seq![2int, 3int, 3int, 13int, 29int].drop_last() =~= seq![2int, 3int, 3int, 13int]);
    }
    assert(product(seq![2int, 3int, 3int, 13int, 29int, 67int]) == 454662int) by {
        assert(seq![2int, 3int, 3int, 13int, 29int, 67int].drop_last() =~= seq![2int, 3int, 3int, 13int, 29int]);
    }
    assert(product(seq![2int, 3int, 3int, 13int, 29int, 67int, 229int]) == 104117598int) by {
        assert(seq![2int, 3int, 3int, 13int, 29int, 67int, 229int].drop_last() =~= seq![2int, 3int, 3int, 13int, 29int, 67int]);
    }
    assert(product(seq![2int, 3int, 3int, 13int, 29int, 67int, 229int, 311int]) == 32380572978int) by {
        assert(seq![2int, 3int, 3int, 13int, 29int, 67int, 229int, 311int].drop_last() =~= seq![2int, 3int, 3int, 13int, 29int, 67int, 229int]);
    }
    assert(product(seq![2int, 3int, 3int, 13int, 29int, 67int, 229int, 311int, 983int]) == 31830103237374int) by {
        assert(seq![2int, 3int, 3int, 13int, 29int, 67int, 229int, 311int, 983int].drop_last() =~= seq![2int, 3int, 3int, 13int, 29int, 67int, 229int, 311int]);
    }
    assert(product(seq![2int, 3int, 3int, 13int, 29int, 67int, 229int, 311int, 983int, 11003int]) == 350226625920826122int) by {
        assert(seq![2int, 3int, 3int, 13int, 29int, 67int, 229int, 311int, 983int, 11003int].drop_last() =~= seq![2int, 3int, 3int, 13int, 29int, 67int, 229int, 311int, 983int]);
    }
    assert(product(seq![2int, 3int, 3int, 13int, 29int, 67int, 229int, 311int, 983int, 11003int, 405928799int]) == 142167073637863216791287478int) by {
        assert(seq![2int, 3int, 3int, 13int, 29int, 67int, 229int, 311int, 983int, 11003int, 405928799int].drop_last() =~= seq![2int, 3int, 3int, 13int, 29int, 67int, 229int, 311int, 983int, 11003int]);
    }
    assert(product(seq![2int, 3int, 3int, 13int, 29int, 67int, 229int, 311int, 983int, 11003int, 405928799int, 11465965001int]) == 1630082690626329392154177744477557478int) by {
        assert(seq![2int, 3int, 3int, 13int, 29int, 67int, 229int, 311int, 983int, 11003int, 405928799int, 11465965001int].drop_last() =~= seq![2int, 3int, 3int, 13int, 29int, 67int, 229int, 311int, 983int, 11003int, 405928799int]);
    }
    assert(product(seq![2int, 3int, 3int, 13int, 29int, 67int, 229int, 311int, 983int, 11003int, 405928799int, 11465965001int, 13427688667394608761327070753331941386769int]) == 21888242871839275222246405745257275088696311157297823662689037894645226208582int) by {
        assert(seq![2int, 3int, 3int, 13int, 29int, 67int, 229int, 311int, 983int, 11003int, 405928799int, 11465965001int, 13427688667394608761327070753331941386769int].drop_last() =~= seq![2int, 3int, 3int, 13int, 29int, 67int, 229int, 311int, 983int, 11003int, 405928799int, 11465965001int]);
    }
    let fs = seq![2int, 3int, 3int, 13int, 29int, 67int, 229int, 311int, 983int, 11003int, 405928799int, 11465965001int, 13427688667394608761327070753331941386769int];
    assert forall|i: int| 0 <= i < fs.len() implies is_prime(#[trigger] fs[i]) by {
        if i == 0 {
            assert(fs[0] == 2int);
        }
        if i == 1 {
            assert(fs[1] == 3int);
        }
        if i == 2 {
            assert(fs[2] == 3int);
        }
        if i == 3 {
            assert(fs[3] == 13int);
        }
        if i == 4 {
            assert(fs[4] == 29int);
        }
        if i == 5 {
            assert(fs[5] == 67int);
        }
        if i == 6 {
            assert(fs[6] == 229int);
        }
        if i == 7 {
            assert(fs[7] == 311int);
        }
        if i == 8 {
            assert(fs[8] == 983int);
        }
        if i == 9 {
            assert(fs[9] == 11003int);
        }
        if i == 10 {
            assert(fs[10] == 405928799int);
        }
        if i == 11 {
            assert(fs[11] == 11465965001int);
        }
        if i == 12 {
            assert(fs[12] == 13427688667394608761327070753331941386769int);
        }
    }
    assert forall|i: int| 0 <= i < fs.len() implies #[trigger] (pow(g, ((n - 1) / fs[i]) as nat) % n) != 1 by {
        if i == 0 {
            assert(fs[0] == 2int);
            lemma_fundamental_div_mod_converse(n - 1, 2int, 10944121435919637611123202872628637544348155578648911831344518947322613104291int, 0);
            assert(pow(g, 10944121435919637611123202872628637544348155578648911831344518947322613104291nat) % n == 21888242871839275222246405745257275088696311157297823662689037894645226208582int);
        }
        if i == 1 {
            assert(fs[1] == 3int);
            lemma_fundamental_div_mod_converse(n - 1, 3int, 7296080957279758407415468581752425029565437052432607887563012631548408736194int, 0);
            assert(pow(g, 7296080957279758407415468581752425029565437052432607887563012631548408736194nat) % n == 21888242871839275220042445260109153167277707414472061641714758635765020556616int);
        }
        if i == 2 {
            assert(fs[2] == 3int);
            lemma_fundamental_div_mod_converse(n - 1, 3int, 7296080957279758407415468581752425029565437052432607887563012631548408736194int, 0);
            assert(pow(g, 7296080957279758407415468581752425029565437052432607887563012631548408736194nat) % n == 21888242871839275220042445260109153167277707414472061641714758635765020556616int);
        }
        if i == 3 {
            assert(fs[3] == 13int);
            lemma_fundamental_div_mod_converse(n - 1, 13int, 1683710990141482709403569672712098083745870089022909512514541376511171246814int, 0);
            assert(pow(g, 1683710990141482709403569672712098083745870089022909512514541376511171246814nat) % n == 19285204852924686474994479317461708819641446017783043034637969515423763351953int);
        }
        if i == 4 {
            assert(fs[4] == 29int);
            lemma_fundamental_div_mod_converse(n - 1, 29int, 754766995580664662836082956733009485817114177837855988368587513608456076158int, 0);
            assert(pow(g, 754766995580664662836082956733009485817114177837855988368587513608456076158nat) % n == 19433260757112203149040899379563167323735763231524821801948606396997821674113int);
        }
        if i == 5 {
            assert(fs[5] == 67int);
            lemma_fundamental_div_mod_converse(n - 1, 67int, 326690192117004107794722473809810075950691211302952591980433401412615316546int, 0);
            assert(pow(g, 326690192117004107794722473809810075950691211302952591980433401412615316546nat) % n == 21416043524944433016670818817864259343946572146370358017997215485720702071283int);
        }
        if i == 6 {
            assert(fs[6] == 229int);
            lemma_fundamental_div_mod_converse(n - 1, 229int, 95581846601918232411556356966188974186446773612654251802135536657839415758int, 0);
            assert(pow(g, 95581846601918232411556356966188974186446773612654251802135536657839415758nat) % n == 10247490365858481317912223827250247247828105120952384175173060052493082761774int);
        }
        if i == 7 {
            assert(fs[7] == 311int);
            lemma_fundamental_div_mod_converse(n - 1, 311int, 70380202160254904251596159952595739835036370280700397629225202233585936362int, 0);
            assert(pow(g, 70380202160254904251596159952595739835036370280700397629225202233585936362nat) % n == 4896153894909549175696450898459562220401524575804930873880135265551520772785int);
        }
        if i == 8 {
            assert(fs[8] == 983int);
            lemma_fundamental_div_mod_converse(n - 1, 983int, 22266778099531307448877320188461114027157997108136138008839306098316608554int, 0);
            assert(pow(g, 22266778099531307448877320188461114027157997108136138008839306098316608554nat) % n == 16688597666022887646690163467638290937986941906618104641626128998084292531986int);
        }
        if i == 9 {
            assert(fs[9] == 11003int);
            lemma_fundamental_div_mod_converse(n - 1, 11003int, 1989297725333025104266691424634851866645125071098593443850680532095358194int, 0);
            assert(pow(g, 1989297725333025104266691424634851866645125071098593443850680532095358194nat) % n == 6812761850782926297230824150434286700974771477980891240950366507765396668150int);
        }
        if i == 10 {
            assert(fs[10] == 405928799int);
            lemma_fundamental_div_mod_converse(n - 1, 405928799int, 53921384552563552462426805409431605981462554858784049127514694749818int, 0);
            assert(pow(g, 53921384552563552462426805409431605981462554858784049127514694749818nat) % n == 4037977894466302416077673003712391021526016837688049215215365469034689108930int);
        }
        if i == 11 {
            assert(fs[11] == 11465965001int);
            lemma_fundamental_div_mod_converse(n - 1, 11465965001int, 1908975203563790751034266631218829680491566255156566185884264578582int, 0);
            assert(pow(g, 1908975203563790751034266631218829680491566255156566185884264578582nat) % n == 5730636994510773491206367835236806183028292339446643256980404715002489681200int);
        }
        if i == 12 {
            assert(fs[12] == 13427688667394608761327070753331941386769int);
            lemma_fundamental_div_mod_converse(n - 1, 13427688667394608761327070753331941386769int, 1630082690626329392154177744477557478int, 0);
            assert(pow(g, 1630082690626329392154177744477557478nat) % n == 3079850386165776373304302593529140662833478451685277064343379560295587684005int);
        }
    }
    lemma_lucas(n, g, fs);
    lemma_fundamental_div_mod_converse(n - 1, 2, 10944121435919637611123202872628637544348155578648911831344518947322613104291int, 0);
}

} // verus!

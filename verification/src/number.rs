//! Greatest-common-divisor facts.
//!
//! The enumerator never reduces a fraction; instead, one proves that its
//! successor step sends a coprime numerator/denominator pair to another
//! coprime pair.  This module defines `gcd` by Euclid's recursion and proves
//! the handful of divisibility facts that the step proof needs.

use vstd::arithmetic::div_mod::{
    lemma_add_mod_noop, lemma_div_pos_is_pos, lemma_fundamental_div_mod, lemma_mod_bound,
    lemma_mod_self_0, lemma_mul_mod_noop_left, lemma_mul_mod_noop_right, lemma_small_mod,
    lemma_sub_mod_noop,
};
use vstd::arithmetic::mul::lemma_mul_nonnegative;
use vstd::prelude::*;

verus! {

/// Greatest common divisor, by Euclid's recursion on the second argument.
pub open spec fn gcd(a: nat, b: nat) -> nat
    decreases b,
{
    if b == 0 {
        a
    } else {
        gcd(b, a % b)
    }
}

/// `gcd` of a pair with a positive member is positive.
pub proof fn lemma_gcd_pos(a: nat, b: nat)
    requires
        a > 0 || b > 0,
    ensures
        gcd(a, b) > 0,
    decreases b,
{
    if b > 0 {
        lemma_mod_bound(a as int, b as int);
        lemma_gcd_pos(b, a % b);
    }
}

/// `gcd(a, b)` divides both `a` and `b`.
pub proof fn lemma_gcd_divides(a: nat, b: nat)
    requires
        a > 0 || b > 0,
    ensures
        a % gcd(a, b) == 0,
        b % gcd(a, b) == 0,
    decreases b,
{
    lemma_gcd_pos(a, b);
    let g = gcd(a, b);
    if b == 0 {
        lemma_mod_self_0(a as int);
        lemma_small_mod(0, g);
    } else {
        lemma_mod_bound(a as int, b as int);
        lemma_gcd_divides(b, a % b);
        // g divides b and a % b; a is their combination b * q + (a % b).
        let q = a as int / b as int;
        lemma_fundamental_div_mod(a as int, b as int);
        lemma_mul_mod_noop_left(b as int, q, g as int);
        assert((b as int % g as int) * q == 0) by (nonlinear_arith)
            requires
                b as int % g as int == 0,
        ;
        lemma_small_mod(0, g);
        lemma_add_mod_noop(b as int * q, (a % b) as int, g as int);
    }
}

/// Every common divisor of `a` and `b` divides `gcd(a, b)`.
pub proof fn lemma_gcd_greatest(a: nat, b: nat, d: nat)
    requires
        d > 0,
        a % d == 0,
        b % d == 0,
    ensures
        gcd(a, b) % d == 0,
    decreases b,
{
    if b > 0 {
        lemma_mod_bound(a as int, b as int);
        // d divides a and b, hence also a % b == a - b * q.
        let q = a as int / b as int;
        lemma_fundamental_div_mod(a as int, b as int);
        lemma_mul_mod_noop_left(b as int, q, d as int);
        assert((b as int % d as int) * q == 0) by (nonlinear_arith)
            requires
                b as int % d as int == 0,
        ;
        lemma_small_mod(0, d);
        lemma_sub_mod_noop(a as int, b as int * q, d as int);
        assert(a as int - b as int * q == (a % b) as int);
        lemma_gcd_greatest(b, a % b, d);
    }
}

/// A positive divisor of a positive number does not exceed it.
pub proof fn lemma_divisor_le(n: nat, d: nat)
    requires
        n > 0,
        d > 0,
        n % d == 0,
    ensures
        d <= n,
{
    if n < d {
        lemma_small_mod(n, d);
    }
}

/// The successor step keeps the fraction coprime: for coprime `a / b`, the
/// next denominator `a + b - 2 * (a % b)` is positive and coprime to the next
/// numerator `b`.
pub proof fn lemma_successor_coprime(a: int, b: int)
    requires
        a >= 1,
        b >= 1,
        gcd(a as nat, b as nat) == 1,
    ensures
        a + b - 2 * (a % b) >= 1,
        gcd(b as nat, (a + b - 2 * (a % b)) as nat) == 1,
{
    let m = a % b;
    let q = a / b;
    lemma_fundamental_div_mod(a, b);
    lemma_mod_bound(a, b);
    lemma_div_pos_is_pos(a, b);
    lemma_mul_nonnegative(b, q);
    // a == b * q + m with b * q >= 0, so m <= a; and m < b.
    let c = a + b - 2 * m;
    assert(c >= 1);
    // c == (2 * q + 1) * b - a, a multiple of b shifted by -a.
    assert((2 * q + 1) * b == 2 * (b * q) + b) by (nonlinear_arith);
    assert(c == (2 * q + 1) * b - a);
    let g = gcd(b as nat, c as nat);
    lemma_gcd_pos(b as nat, c as nat);
    lemma_gcd_divides(b as nat, c as nat);
    // g divides b and c, hence also a == (2 * q + 1) * b - c.
    lemma_mul_mod_noop_right(2 * q + 1, b, g as int);
    assert((2 * q + 1) * (b % g as int) == 0) by (nonlinear_arith)
        requires
            b % g as int == 0,
    ;
    lemma_small_mod(0, g);
    lemma_sub_mod_noop((2 * q + 1) * b, c, g as int);
    assert(a % g as int == 0);
    // A common divisor of a and b divides gcd(a, b) == 1.
    lemma_gcd_greatest(a as nat, b as nat, g);
    lemma_divisor_le(1, g);
}

} // verus!

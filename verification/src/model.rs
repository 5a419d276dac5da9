//! The mathematical model of the enumeration.
//!
//! A state is a pair of unbounded integers `(numerator, denominator)`.  The
//! successor of `a / b` under the recurrence `next = 1 / (n + 1 - y)` — with
//! `n` the integer part and `y` the fractional part of `a / b` — works out,
//! writing `m = a % b`, to the pair `(b, a + b - 2 * m)`: the new numerator is
//! the old denominator, and the new denominator is `(n + 1) * b - m`.
//!
//! This module defines that successor, the canonical sequence it generates
//! from `1/1`, and proves the laws of the enumeration: every state is a
//! positive fraction in lowest terms, no state ever repeats, and any run of
//! the recurrence from a fresh start follows the canonical sequence.

use crate::number::gcd;
use crate::number::lemma_successor_coprime;
use vstd::arithmetic::div_mod::{lemma_fundamental_div_mod, lemma_mod_bound};
use vstd::arithmetic::mul::lemma_mul_inequality;
use vstd::prelude::*;

verus! {

/// Numerator of the successor of `a / b`.
pub open spec fn successor_num(a: int, b: int) -> int {
    b
}

/// Denominator of the successor of `a / b`.
pub open spec fn successor_den(a: int, b: int) -> int {
    a + b - 2 * (a % b)
}

/// A well-formed state: a positive fraction in lowest terms.
pub open spec fn reduced_positive(a: int, b: int) -> bool {
    a >= 1 && b >= 1 && gcd(a as nat, b as nat) == 1
}

/// The state after `k` steps of the recurrence, starting from `1/1`.
pub open spec fn value_at(k: nat) -> (int, int)
    decreases k,
{
    if k == 0 {
        (1int, 1int)
    } else {
        let p = value_at((k - 1) as nat);
        (successor_num(p.0, p.1), successor_den(p.0, p.1))
    }
}

/// The start state `1/1` is a positive fraction in lowest terms.
pub proof fn lemma_start_reduced()
    ensures
        reduced_positive(1, 1),
{
    reveal_with_fuel(gcd, 3);
    assert(1nat % 1nat == 0);
}

/// The successor of a well-formed state is well-formed.
pub proof fn lemma_successor_reduced(a: int, b: int)
    requires
        reduced_positive(a, b),
    ensures
        reduced_positive(successor_num(a, b), successor_den(a, b)),
{
    lemma_successor_coprime(a, b);
}

/// Law: every value of the enumeration is a positive fraction in lowest
/// terms — its numerator and denominator are at least 1 and have greatest
/// common divisor 1.
pub proof fn lemma_value_at_reduced(k: nat)
    ensures
        reduced_positive(value_at(k).0, value_at(k).1),
    decreases k,
{
    if k == 0 {
        lemma_start_reduced();
    } else {
        lemma_value_at_reduced((k - 1) as nat);
        let p = value_at((k - 1) as nat);
        lemma_successor_reduced(p.0, p.1);
    }
}

/// The successor step is injective on positive states: equal successors come
/// from equal states.
pub proof fn lemma_successor_injective(a1: int, b1: int, a2: int, b2: int)
    requires
        a1 >= 1,
        b1 >= 1,
        a2 >= 1,
        b2 >= 1,
        successor_num(a1, b1) == successor_num(a2, b2),
        successor_den(a1, b1) == successor_den(a2, b2),
    ensures
        a1 == a2,
        b1 == b2,
{
    let b = b1;
    let q1 = a1 / b;
    let m1 = a1 % b;
    let q2 = a2 / b;
    let m2 = a2 % b;
    lemma_fundamental_div_mod(a1, b);
    lemma_fundamental_div_mod(a2, b);
    lemma_mod_bound(a1, b);
    lemma_mod_bound(a2, b);
    // Equal denominators mean b * q1 - m1 == b * q2 - m2 with both remainders
    // in [0, b); the quotients must then agree, and so must the remainders.
    if q1 > q2 {
        lemma_mul_inequality(1, q1 - q2, b);
        assert((q1 - q2) * b == b * q1 - b * q2) by (nonlinear_arith);
        assert(false);
    }
    if q2 > q1 {
        lemma_mul_inequality(1, q2 - q1, b);
        assert((q2 - q1) * b == b * q2 - b * q1) by (nonlinear_arith);
        assert(false);
    }
}

/// No state has the start state `1/1` as its successor.
pub proof fn lemma_successor_not_start(a: int, b: int)
    requires
        a >= 1,
        b >= 1,
    ensures
        !(successor_num(a, b) == 1 && successor_den(a, b) == 1),
{
    if b == 1 {
        lemma_mod_bound(a, b);
        assert(a % b == 0);
    }
}

/// Distinctness for an ordered pair of positions.
proof fn lemma_values_distinct_ordered(i: nat, j: nat)
    requires
        i < j,
    ensures
        value_at(i) != value_at(j),
    decreases i,
{
    let pj = value_at((j - 1) as nat);
    lemma_value_at_reduced((j - 1) as nat);
    if i == 0 {
        lemma_successor_not_start(pj.0, pj.1);
    } else {
        let pi = value_at((i - 1) as nat);
        lemma_value_at_reduced((i - 1) as nat);
        if value_at(i) == value_at(j) {
            lemma_successor_injective(pi.0, pi.1, pj.0, pj.1);
            lemma_values_distinct_ordered((i - 1) as nat, (j - 1) as nat);
            assert(false);
        }
    }
}

/// Law: the enumeration never repeats — any two distinct positions hold
/// distinct rationals, so every prefix of the sequence is pairwise distinct.
pub proof fn lemma_values_pairwise_distinct(i: nat, j: nat)
    requires
        i != j,
    ensures
        value_at(i) != value_at(j),
{
    if i < j {
        lemma_values_distinct_ordered(i, j);
    } else {
        lemma_values_distinct_ordered(j, i);
    }
}

/// A run of the recurrence: a sequence of states that starts at `1/1` and
/// advances by the successor at every step.
pub open spec fn is_run(s: Seq<(int, int)>) -> bool {
    &&& s.len() > 0 ==> s[0] == (1int, 1int)
    &&& forall|i: int|
        1 <= i < s.len() ==> #[trigger] s[i] == (
            successor_num(s[i - 1].0, s[i - 1].1),
            successor_den(s[i - 1].0, s[i - 1].1),
        )
}

/// Every run follows the canonical sequence, position by position.
pub proof fn lemma_run_is_canonical(s: Seq<(int, int)>, i: int)
    requires
        is_run(s),
        0 <= i < s.len(),
    ensures
        s[i] == value_at(i as nat),
    decreases i,
{
    if i > 0 {
        lemma_run_is_canonical(s, i - 1);
        assert(value_at(i as nat) == (
            successor_num(value_at((i - 1) as nat).0, value_at((i - 1) as nat).1),
            successor_den(value_at((i - 1) as nat).0, value_at((i - 1) as nat).1),
        ));
    }
}

/// Law: the enumeration is deterministic — two runs of the recurrence from a
/// fresh start that take the same number of steps pass through exactly the
/// same states, so independently constructed enumerators produce identical
/// sequences.
pub proof fn lemma_runs_agree(s1: Seq<(int, int)>, s2: Seq<(int, int)>)
    requires
        is_run(s1),
        is_run(s2),
        s1.len() == s2.len(),
    ensures
        s1 == s2,
{
    assert forall|i: int| 0 <= i < s1.len() implies s1[i] == s2[i] by {
        lemma_run_is_canonical(s1, i);
        lemma_run_is_canonical(s2, i);
    }
    assert(s1 =~= s2);
}

} // verus!

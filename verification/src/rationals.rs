//! The rational value type and the enumerator.
//!
//! `Rationals<T>` holds one fraction and walks the Gibbons–Lester–Bird
//! successor on demand.  Its contract ties the fraction to the canonical
//! sequence of `crate::model`: after `k` produced values the state is exactly
//! `value_at(k)`, so everything proved of the model — positivity, lowest
//! terms, distinctness, determinism — holds of the values produced here.
//!
//! Overflow policy: the sequence is conceptually infinite, but a fixed-width
//! type exhausts its range eventually.  Each step checks the one addition
//! that could overflow; when the next denominator does not fit in `T`, the
//! enumerator returns `None` and stays where it is, rather than wrapping or
//! panicking.

use crate::arith::Arith;
use crate::model::lemma_value_at_reduced;
use crate::model::reduced_positive;
use crate::model::successor_den;
use crate::model::successor_num;
use crate::model::value_at;
use vstd::arithmetic::div_mod::{lemma_div_pos_is_pos, lemma_fundamental_div_mod, lemma_mod_bound};
use vstd::arithmetic::mul::lemma_mul_nonnegative;
use vstd::prelude::*;

verus! {

/// A positive rational number, as a numerator/denominator pair in lowest
/// terms.
#[derive(Clone, Copy)]
pub struct Rational<T: Arith> {
    num: T,
    den: T,
}

impl<T: Arith> Rational<T> {
    /// The numerator, as an unbounded integer.
    pub closed spec fn num_int(self) -> int {
        self.num.as_int()
    }

    /// The denominator, as an unbounded integer.
    pub closed spec fn den_int(self) -> int {
        self.den.as_int()
    }

    /// Well-formed: numerator and denominator are positive and coprime.
    pub open spec fn wf(self) -> bool {
        reduced_positive(self.num_int(), self.den_int())
    }

    /// The numerator.
    pub fn numer(&self) -> (r: T)
        ensures
            r.as_int() == self.num_int(),
    {
        self.num
    }

    /// The denominator.
    pub fn denom(&self) -> (r: T)
        ensures
            r.as_int() == self.den_int(),
    {
        self.den
    }
}

/// A lazy enumerator of all positive rationals over the integer type `T`.
///
/// Fresh enumerators start at `1/1` and yield `1/1, 1/2, 2/1, 1/3, 3/2, ...`;
/// every positive rational representable along the walk appears exactly once,
/// in lowest terms.
pub struct Rationals<T: Arith> {
    state: Rational<T>,
    pos: Ghost<nat>,
}

impl<T: Arith> Rationals<T> {
    /// How many values have been produced so far.
    pub closed spec fn position(self) -> nat {
        self.pos@
    }

    /// The enumerator's invariant: its state is the canonical sequence's
    /// entry at its position.
    pub closed spec fn wf(self) -> bool {
        self.state.num_int() == value_at(self.position()).0
            && self.state.den_int() == value_at(self.position()).1
    }

    /// Create a new enumerator over the rationals, holding `1/1`.
    pub fn new() -> (r: Self)
        ensures
            r.wf(),
            r.position() == 0,
    {
        let unit = T::one();
        let r = Rationals { state: Rational { num: unit, den: unit }, pos: Ghost(0) };
        proof {
            assert(value_at(0) == (1int, 1int));
        }
        r
    }

    /// Produce the current value and advance the state to its successor.
    ///
    /// Returns `None`, leaving the enumerator unchanged, exactly when the
    /// next denominator would not fit in `T`.
    pub fn next(&mut self) -> (produced: Option<Rational<T>>)
        requires
            old(self).wf(),
        ensures
            final(self).wf(),
            match produced {
                Some(v) => {
                    &&& v.num_int() == value_at(old(self).position()).0
                    &&& v.den_int() == value_at(old(self).position()).1
                    &&& v.wf()
                    &&& final(self).position() == old(self).position() + 1
                },
                None => {
                    &&& *final(self) == *old(self)
                    &&& successor_den(
                        value_at(old(self).position()).0,
                        value_at(old(self).position()).1,
                    ) > T::max_int()
                },
            },
    {
        let a = self.state.num;
        let b = self.state.den;
        proof {
            lemma_value_at_reduced(self.pos@);
            lemma_fundamental_div_mod(a.as_int(), b.as_int());
            lemma_mod_bound(a.as_int(), b.as_int());
            lemma_div_pos_is_pos(a.as_int(), b.as_int());
            lemma_mul_nonnegative(b.as_int(), a.as_int() / b.as_int());
        }
        let m = a.modulo(b);
        let t1 = a.minus(m);
        let t2 = b.minus(m);
        match t1.checked_plus(t2) {
            Some(d) => {
                let current = self.state;
                self.state = Rational { num: b, den: d };
                proof {
                    let p = value_at(self.pos@);
                    assert(value_at(self.pos@ + 1) == (
                        successor_num(p.0, p.1),
                        successor_den(p.0, p.1),
                    ));
                    lemma_value_at_reduced(self.pos@ + 1);
                }
                self.pos = Ghost(self.pos@ + 1);
                Some(current)
            },
            None => None,
        }
    }

    /// Skip `k` values and produce the one after them: the value at offset
    /// `k` (zero-based) from the current position.
    ///
    /// Returns `None`, with the enumerator parked at the first position whose
    /// successor does not fit in `T`, when the walk exhausts the type's range
    /// on the way.
    pub fn nth(&mut self, k: usize) -> (produced: Option<Rational<T>>)
        requires
            old(self).wf(),
        ensures
            final(self).wf(),
            match produced {
                Some(v) => {
                    &&& v.num_int() == value_at((old(self).position() + k) as nat).0
                    &&& v.den_int() == value_at((old(self).position() + k) as nat).1
                    &&& v.wf()
                    &&& final(self).position() == old(self).position() + k + 1
                },
                None => {
                    &&& old(self).position() <= final(self).position() <= old(self).position() + k
                    &&& successor_den(
                        value_at(final(self).position()).0,
                        value_at(final(self).position()).1,
                    ) > T::max_int()
                },
            },
    {
        let mut i: usize = 0;
        while i < k
            invariant
                self.wf(),
                i <= k,
                self.position() == old(self).position() + i,
            decreases k - i,
        {
            match self.next() {
                Some(_) => {
                },
                None => {
                    return None;
                },
            }
            i = i + 1;
        }
        self.next()
    }

    /// Produce the next `n` values, in order.
    ///
    /// The result is shorter than `n` only when the walk exhausts the range
    /// of `T`; the enumerator is then parked at the first position whose
    /// successor does not fit.
    pub fn take(&mut self, n: usize) -> (values: Vec<Rational<T>>)
        requires
            old(self).wf(),
        ensures
            final(self).wf(),
            values@.len() <= n,
            final(self).position() == old(self).position() + values@.len(),
            forall|i: int|
                0 <= i < values@.len() ==> {
                    &&& (#[trigger] values@[i]).wf()
                    &&& values@[i].num_int() == value_at((old(self).position() + i) as nat).0
                    &&& values@[i].den_int() == value_at((old(self).position() + i) as nat).1
                },
            values@.len() < n ==> successor_den(
                value_at(final(self).position()).0,
                value_at(final(self).position()).1,
            ) > T::max_int(),
    {
        let mut values: Vec<Rational<T>> = Vec::new();
        let mut i: usize = 0;
        while i < n
            invariant
                self.wf(),
                i <= n,
                values@.len() == i,
                self.position() == old(self).position() + i,
                forall|j: int|
                    0 <= j < i ==> {
                        &&& (#[trigger] values@[j]).wf()
                        &&& values@[j].num_int() == value_at((old(self).position() + j) as nat).0
                        &&& values@[j].den_int() == value_at((old(self).position() + j) as nat).1
                    },
            decreases n - i,
        {
            match self.next() {
                Some(v) => {
                    values.push(v);
                },
                None => {
                    return values;
                },
            }
            i = i + 1;
        }
        values
    }
}

} // verus!

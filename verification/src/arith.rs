//! The integer capability the enumerator is generic over.
//!
//! The recurrence needs nothing from its number type but the constant one,
//! remainder, exact subtraction and overflow-checked addition.  Each built-in
//! fixed-width integer type, signed and unsigned, provides these below; the
//! contracts relate every operation to the unbounded integer the value
//! denotes, so the generic enumerator can be verified once, against this
//! trait alone.
//!
//! Every operation is only required to work on non-negative values: the
//! enumerator never holds a negative numerator or denominator, which is what
//! lets one trait serve signed and unsigned types alike.

use vstd::prelude::*;

verus! {

/// Arithmetic capability of a numerator/denominator type.
pub trait Arith: Sized + Copy {
    /// The unbounded integer this value denotes.
    spec fn as_int(self) -> int;

    /// The largest integer the type can hold.
    spec fn max_int() -> int;

    /// The constant one.
    fn one() -> (r: Self)
        ensures
            r.as_int() == 1,
    ;

    /// Remainder of a non-negative value by a positive one.
    fn modulo(self, rhs: Self) -> (r: Self)
        requires
            0 <= self.as_int(),
            1 <= rhs.as_int(),
        ensures
            r.as_int() == self.as_int() % rhs.as_int(),
    ;

    /// Subtraction that cannot underflow.
    fn minus(self, rhs: Self) -> (r: Self)
        requires
            0 <= rhs.as_int() <= self.as_int(),
        ensures
            r.as_int() == self.as_int() - rhs.as_int(),
    ;

    /// Checked addition of non-negative values: `None` exactly when the sum
    /// does not fit in the type.
    fn checked_plus(self, rhs: Self) -> (r: Option<Self>)
        requires
            0 <= self.as_int(),
            0 <= rhs.as_int(),
        ensures
            match r {
                Some(s) => s.as_int() == self.as_int() + rhs.as_int(),
                None => self.as_int() + rhs.as_int() > Self::max_int(),
            },
    ;
}

impl Arith for u8 {
    open spec fn as_int(self) -> int {
        self as int
    }

    open spec fn max_int() -> int {
        u8::MAX as int
    }

    fn one() -> (r: Self) {
        1
    }

    fn modulo(self, rhs: Self) -> (r: Self) {
        self % rhs
    }

    fn minus(self, rhs: Self) -> (r: Self) {
        self - rhs
    }

    fn checked_plus(self, rhs: Self) -> (r: Option<Self>) {
        if rhs <= u8::MAX - self {
            Some(self + rhs)
        } else {
            None
        }
    }
}

impl Arith for u16 {
    open spec fn as_int(self) -> int {
        self as int
    }

    open spec fn max_int() -> int {
        u16::MAX as int
    }

    fn one() -> (r: Self) {
        1
    }

    fn modulo(self, rhs: Self) -> (r: Self) {
        self % rhs
    }

    fn minus(self, rhs: Self) -> (r: Self) {
        self - rhs
    }

    fn checked_plus(self, rhs: Self) -> (r: Option<Self>) {
        if rhs <= u16::MAX - self {
            Some(self + rhs)
        } else {
            None
        }
    }
}

impl Arith for u32 {
    open spec fn as_int(self) -> int {
        self as int
    }

    open spec fn max_int() -> int {
        u32::MAX as int
    }

    fn one() -> (r: Self) {
        1
    }

    fn modulo(self, rhs: Self) -> (r: Self) {
        self % rhs
    }

    fn minus(self, rhs: Self) -> (r: Self) {
        self - rhs
    }

    fn checked_plus(self, rhs: Self) -> (r: Option<Self>) {
        if rhs <= u32::MAX - self {
            Some(self + rhs)
        } else {
            None
        }
    }
}

impl Arith for u64 {
    open spec fn as_int(self) -> int {
        self as int
    }

    open spec fn max_int() -> int {
        u64::MAX as int
    }

    fn one() -> (r: Self) {
        1
    }

    fn modulo(self, rhs: Self) -> (r: Self) {
        self % rhs
    }

    fn minus(self, rhs: Self) -> (r: Self) {
        self - rhs
    }

    fn checked_plus(self, rhs: Self) -> (r: Option<Self>) {
        if rhs <= u64::MAX - self {
            Some(self + rhs)
        } else {
            None
        }
    }
}

impl Arith for u128 {
    open spec fn as_int(self) -> int {
        self as int
    }

    open spec fn max_int() -> int {
        u128::MAX as int
    }

    fn one() -> (r: Self) {
        1
    }

    fn modulo(self, rhs: Self) -> (r: Self) {
        self % rhs
    }

    fn minus(self, rhs: Self) -> (r: Self) {
        self - rhs
    }

    fn checked_plus(self, rhs: Self) -> (r: Option<Self>) {
        if rhs <= u128::MAX - self {
            Some(self + rhs)
        } else {
            None
        }
    }
}

impl Arith for usize {
    open spec fn as_int(self) -> int {
        self as int
    }

    open spec fn max_int() -> int {
        usize::MAX as int
    }

    fn one() -> (r: Self) {
        1
    }

    fn modulo(self, rhs: Self) -> (r: Self) {
        self % rhs
    }

    fn minus(self, rhs: Self) -> (r: Self) {
        self - rhs
    }

    fn checked_plus(self, rhs: Self) -> (r: Option<Self>) {
        if rhs <= usize::MAX - self {
            Some(self + rhs)
        } else {
            None
        }
    }
}

impl Arith for i8 {
    open spec fn as_int(self) -> int {
        self as int
    }

    open spec fn max_int() -> int {
        i8::MAX as int
    }

    fn one() -> (r: Self) {
        1
    }

    fn modulo(self, rhs: Self) -> (r: Self) {
        self % rhs
    }

    fn minus(self, rhs: Self) -> (r: Self) {
        self - rhs
    }

    fn checked_plus(self, rhs: Self) -> (r: Option<Self>) {
        if rhs <= i8::MAX - self {
            Some(self + rhs)
        } else {
            None
        }
    }
}

impl Arith for i16 {
    open spec fn as_int(self) -> int {
        self as int
    }

    open spec fn max_int() -> int {
        i16::MAX as int
    }

    fn one() -> (r: Self) {
        1
    }

    fn modulo(self, rhs: Self) -> (r: Self) {
        self % rhs
    }

    fn minus(self, rhs: Self) -> (r: Self) {
        self - rhs
    }

    fn checked_plus(self, rhs: Self) -> (r: Option<Self>) {
        if rhs <= i16::MAX - self {
            Some(self + rhs)
        } else {
            None
        }
    }
}

impl Arith for i32 {
    open spec fn as_int(self) -> int {
        self as int
    }

    open spec fn max_int() -> int {
        i32::MAX as int
    }

    fn one() -> (r: Self) {
        1
    }

    fn modulo(self, rhs: Self) -> (r: Self) {
        self % rhs
    }

    fn minus(self, rhs: Self) -> (r: Self) {
        self - rhs
    }

    fn checked_plus(self, rhs: Self) -> (r: Option<Self>) {
        if rhs <= i32::MAX - self {
            Some(self + rhs)
        } else {
            None
        }
    }
}

impl Arith for i64 {
    open spec fn as_int(self) -> int {
        self as int
    }

    open spec fn max_int() -> int {
        i64::MAX as int
    }

    fn one() -> (r: Self) {
        1
    }

    fn modulo(self, rhs: Self) -> (r: Self) {
        self % rhs
    }

    fn minus(self, rhs: Self) -> (r: Self) {
        self - rhs
    }

    fn checked_plus(self, rhs: Self) -> (r: Option<Self>) {
        if rhs <= i64::MAX - self {
            Some(self + rhs)
        } else {
            None
        }
    }
}

impl Arith for i128 {
    open spec fn as_int(self) -> int {
        self as int
    }

    open spec fn max_int() -> int {
        i128::MAX as int
    }

    fn one() -> (r: Self) {
        1
    }

    fn modulo(self, rhs: Self) -> (r: Self) {
        self % rhs
    }

    fn minus(self, rhs: Self) -> (r: Self) {
        self - rhs
    }

    fn checked_plus(self, rhs: Self) -> (r: Option<Self>) {
        if rhs <= i128::MAX - self {
            Some(self + rhs)
        } else {
            None
        }
    }
}

impl Arith for isize {
    open spec fn as_int(self) -> int {
        self as int
    }

    open spec fn max_int() -> int {
        isize::MAX as int
    }

    fn one() -> (r: Self) {
        1
    }

    fn modulo(self, rhs: Self) -> (r: Self) {
        self % rhs
    }

    fn minus(self, rhs: Self) -> (r: Self) {
        self - rhs
    }

    fn checked_plus(self, rhs: Self) -> (r: Option<Self>) {
        if rhs <= isize::MAX - self {
            Some(self + rhs)
        } else {
            None
        }
    }
}

} // verus!

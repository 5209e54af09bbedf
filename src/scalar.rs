use vstd::prelude::*;

verus! {

/// The arithmetic that values flowing through a computation support.
///
/// Each operation is a function of its arguments: its result is named by the
/// matching `spec_` function, and the contracts of the engines are stated over
/// those names. The engines never assume algebraic laws of them, so rounding
/// arithmetic (IEEE-754 floats, with their infinities and NaNs) is as valid an
/// instance as exact arithmetic.
///
/// In compiled code the `spec_` functions are ordinary methods. An instance
/// written outside verified code (a float type, say) defines each of them as
/// its executable counterpart, which then meets its contract as long as it is
/// deterministic.
pub trait Scalar: Sized + Copy {
    spec fn spec_zero() -> Self;

    spec fn spec_one() -> Self;

    spec fn spec_from_u8(n: u8) -> Self;

    spec fn spec_plus(self, rhs: Self) -> Self;

    spec fn spec_minus(self, rhs: Self) -> Self;

    spec fn spec_times(self, rhs: Self) -> Self;

    spec fn spec_divide(self, rhs: Self) -> Self;

    spec fn spec_negate(self) -> Self;

    spec fn spec_is_positive(self) -> bool;

    fn zero() -> (r: Self)
        ensures
            r == Self::spec_zero(),
    ;

    fn one() -> (r: Self)
        ensures
            r == Self::spec_one(),
    ;

    fn from_u8(n: u8) -> (r: Self)
        ensures
            r == Self::spec_from_u8(n),
    ;

    fn plus(self, rhs: Self) -> (r: Self)
        ensures
            r == self.spec_plus(rhs),
    ;

    fn minus(self, rhs: Self) -> (r: Self)
        ensures
            r == self.spec_minus(rhs),
    ;

    fn times(self, rhs: Self) -> (r: Self)
        ensures
            r == self.spec_times(rhs),
    ;

    fn divide(self, rhs: Self) -> (r: Self)
        ensures
            r == self.spec_divide(rhs),
    ;

    fn negate(self) -> (r: Self)
        ensures
            r == self.spec_negate(),
    ;

    fn is_positive(self) -> (r: bool)
        ensures
            r == self.spec_is_positive(),
    ;
}

/// Two's-complement integers: addition, subtraction, multiplication and
/// negation wrap around, division truncates toward zero, wraps on
/// `i64::MIN / -1` and gives zero for a zero divisor.
impl Scalar for i64 {
    open spec fn spec_zero() -> i64 {
        0
    }

    open spec fn spec_one() -> i64 {
        1
    }

    open spec fn spec_from_u8(n: u8) -> i64 {
        n as i64
    }

    open spec fn spec_plus(self, rhs: i64) -> i64 {
        self.wrapping_add(rhs)
    }

    open spec fn spec_minus(self, rhs: i64) -> i64 {
        self.wrapping_sub(rhs)
    }

    open spec fn spec_times(self, rhs: i64) -> i64 {
        self.wrapping_mul(rhs)
    }

    open spec fn spec_divide(self, rhs: i64) -> i64 {
        match self.checked_div(rhs) {
            Some(q) => q,
            None => if rhs == 0 { 0 } else { self },
        }
    }

    open spec fn spec_negate(self) -> i64 {
        0i64.wrapping_sub(self)
    }

    open spec fn spec_is_positive(self) -> bool {
        self > 0
    }

    fn zero() -> (r: i64) {
        0
    }

    fn one() -> (r: i64) {
        1
    }

    fn from_u8(n: u8) -> (r: i64) {
        n as i64
    }

    fn plus(self, rhs: i64) -> (r: i64) {
        self.wrapping_add(rhs)
    }

    fn minus(self, rhs: i64) -> (r: i64) {
        self.wrapping_sub(rhs)
    }

    fn times(self, rhs: i64) -> (r: i64) {
        self.wrapping_mul(rhs)
    }

    fn divide(self, rhs: i64) -> (r: i64) {
        match self.checked_div(rhs) {
            Some(q) => q,
            None => if rhs == 0 { 0 } else { self },
        }
    }

    fn negate(self) -> (r: i64) {
        0i64.wrapping_sub(self)
    }

    fn is_positive(self) -> (r: bool) {
        self > 0
    }
}

} // verus!

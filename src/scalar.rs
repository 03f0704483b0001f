//! The capabilities that the components of a perplex number provide.
//!
//! Each operation of a scalar type has a name at the level of specifications
//! (`plus_spec`, `spec_exp`, ...), and its executable counterpart returns exactly
//! that value. The contracts of the perplex operations are stated over these
//! names, so they hold exactly for any scalar type, floating point included.

use vstd::prelude::*;

verus! {

/// An ordered ring: `+ - *`, negation, zero, one, equality and `<`.
pub trait Ring: Copy + Sized {
    spec fn zero_spec() -> Self;

    spec fn one_spec() -> Self;

    spec fn plus_spec(a: Self, b: Self) -> Self;

    spec fn minus_spec(a: Self, b: Self) -> Self;

    spec fn times_spec(a: Self, b: Self) -> Self;

    spec fn negated_spec(a: Self) -> Self;

    spec fn is_equal_spec(a: Self, b: Self) -> bool;

    spec fn is_less_spec(a: Self, b: Self) -> bool;

    spec fn absolute_spec(a: Self) -> Self;

    spec fn maximum_spec(a: Self, b: Self) -> Self;

    /// The two values can be compared: for a floating-point type, neither is NaN.
    spec fn comparable(a: Self, b: Self) -> bool;

    /// Comparable values are equal, less or greater, and exactly one of these.
    proof fn lemma_trichotomy(a: Self, b: Self)
        requires
            Self::comparable(a, b),
        ensures
            Self::is_equal_spec(a, b) || Self::is_less_spec(a, b) || Self::is_less_spec(b, a),
            !(Self::is_equal_spec(a, b) && Self::is_less_spec(a, b)),
            !(Self::is_equal_spec(a, b) && Self::is_less_spec(b, a)),
            !(Self::is_less_spec(a, b) && Self::is_less_spec(b, a)),
    ;

    fn zero() -> (r: Self)
        ensures
            r == Self::zero_spec(),
    ;

    fn one() -> (r: Self)
        ensures
            r == Self::one_spec(),
    ;

    fn plus(self, o: Self) -> (r: Self)
        ensures
            r == Self::plus_spec(self, o),
    ;

    fn minus(self, o: Self) -> (r: Self)
        ensures
            r == Self::minus_spec(self, o),
    ;

    fn times(self, o: Self) -> (r: Self)
        ensures
            r == Self::times_spec(self, o),
    ;

    fn negated(self) -> (r: Self)
        ensures
            r == Self::negated_spec(self),
    ;

    fn is_equal(self, o: Self) -> (r: bool)
        ensures
            r == Self::is_equal_spec(self, o),
    ;

    fn is_less(self, o: Self) -> (r: bool)
        ensures
            r == Self::is_less_spec(self, o),
    ;

    fn absolute(self) -> (r: Self)
        ensures
            r == Self::absolute_spec(self),
    ;

    fn maximum(self, o: Self) -> (r: Self)
        ensures
            r == Self::maximum_spec(self, o),
    ;
}

/// Machine integers form the ring of integers modulo 2^64: the operations wrap.
impl Ring for i64 {
    open spec fn zero_spec() -> i64 {
        0
    }

    open spec fn one_spec() -> i64 {
        1
    }

    open spec fn plus_spec(a: i64, b: i64) -> i64 {
        a.wrapping_add(b)
    }

    open spec fn minus_spec(a: i64, b: i64) -> i64 {
        a.wrapping_sub(b)
    }

    open spec fn times_spec(a: i64, b: i64) -> i64 {
        a.wrapping_mul(b)
    }

    open spec fn negated_spec(a: i64) -> i64 {
        0i64.wrapping_sub(a)
    }

    open spec fn is_equal_spec(a: i64, b: i64) -> bool {
        a == b
    }

    open spec fn is_less_spec(a: i64, b: i64) -> bool {
        a < b
    }

    open spec fn absolute_spec(a: i64) -> i64 {
        if a < 0 {
            Self::negated_spec(a)
        } else {
            a
        }
    }

    open spec fn maximum_spec(a: i64, b: i64) -> i64 {
        if a < b {
            b
        } else {
            a
        }
    }

    open spec fn comparable(a: i64, b: i64) -> bool {
        true
    }

    proof fn lemma_trichotomy(a: i64, b: i64) {
    }

    fn zero() -> (r: i64) {
        0
    }

    fn one() -> (r: i64) {
        1
    }

    fn plus(self, o: i64) -> (r: i64) {
        self.wrapping_add(o)
    }

    fn minus(self, o: i64) -> (r: i64) {
        self.wrapping_sub(o)
    }

    fn times(self, o: i64) -> (r: i64) {
        self.wrapping_mul(o)
    }

    fn negated(self) -> (r: i64) {
        0i64.wrapping_sub(self)
    }

    fn is_equal(self, o: i64) -> (r: bool) {
        self == o
    }

    fn is_less(self, o: i64) -> (r: bool) {
        self < o
    }

    fn absolute(self) -> (r: i64) {
        if self < 0 {
            0i64.wrapping_sub(self)
        } else {
            self
        }
    }

    fn maximum(self, o: i64) -> (r: i64) {
        if self < o {
            o
        } else {
            self
        }
    }
}

/// A field with the elementary functions of a floating-point type.
///
/// Each function is named at the level of specifications and depends on its
/// arguments alone; its executable form returns that value.
pub trait Field: Ring {
    spec fn divided_by_spec(a: Self, b: Self) -> Self;

    spec fn sqrt_spec(a: Self) -> Self;

    spec fn exp_spec(a: Self) -> Self;

    spec fn ln_spec(a: Self) -> Self;

    spec fn atanh_spec(a: Self) -> Self;

    spec fn sin_spec(a: Self) -> Self;

    spec fn cos_spec(a: Self) -> Self;

    spec fn sinh_spec(a: Self) -> Self;

    spec fn cosh_spec(a: Self) -> Self;

    spec fn powi_spec(a: Self, n: i32) -> Self;

    spec fn from_u32_spec(n: u32) -> Self;

    spec fn infinity_spec() -> Self;

    spec fn neg_infinity_spec() -> Self;

    spec fn is_nan_spec(a: Self) -> bool;

    spec fn is_infinite_spec(a: Self) -> bool;

    spec fn is_finite_spec(a: Self) -> bool;

    spec fn is_normal_spec(a: Self) -> bool;

    fn divided_by(self, o: Self) -> (r: Self)
        ensures
            r == Self::divided_by_spec(self, o),
    ;

    fn sqrt(self) -> (r: Self)
        ensures
            r == Self::sqrt_spec(self),
    ;

    fn exp(self) -> (r: Self)
        ensures
            r == Self::exp_spec(self),
    ;

    fn ln(self) -> (r: Self)
        ensures
            r == Self::ln_spec(self),
    ;

    fn atanh(self) -> (r: Self)
        ensures
            r == Self::atanh_spec(self),
    ;

    fn sin(self) -> (r: Self)
        ensures
            r == Self::sin_spec(self),
    ;

    fn cos(self) -> (r: Self)
        ensures
            r == Self::cos_spec(self),
    ;

    fn sinh(self) -> (r: Self)
        ensures
            r == Self::sinh_spec(self),
    ;

    fn cosh(self) -> (r: Self)
        ensures
            r == Self::cosh_spec(self),
    ;

    /// `self` raised to the integer power `n`.
    fn powi(self, n: i32) -> (r: Self)
        ensures
            r == Self::powi_spec(self, n),
    ;

    /// The scalar nearest to the integer `n`.
    fn from_u32(n: u32) -> (r: Self)
        ensures
            r == Self::from_u32_spec(n),
    ;

    fn infinity() -> (r: Self)
        ensures
            r == Self::infinity_spec(),
    ;

    fn neg_infinity() -> (r: Self)
        ensures
            r == Self::neg_infinity_spec(),
    ;

    fn is_nan(self) -> (r: bool)
        ensures
            r == Self::is_nan_spec(self),
    ;

    fn is_infinite(self) -> (r: bool)
        ensures
            r == Self::is_infinite_spec(self),
    ;

    fn is_finite(self) -> (r: bool)
        ensures
            r == Self::is_finite_spec(self),
    ;

    fn is_normal(self) -> (r: bool)
        ensures
            r == Self::is_normal_spec(self),
    ;
}

} // verus!

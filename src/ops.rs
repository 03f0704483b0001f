//! Addition, subtraction, multiplication and division of perplex numbers,
//! with each other and with scalars, as named methods and as the operators
//! `+ - * /` and unary `-`. A scalar right operand is added to or subtracted
//! from the time component only, and scales both components in `*` and `/`.
//!
//! Division by a light-like number has no result: `div` returns `None`. The
//! in-place `div_assign` always divides by the squared distance, so that for a
//! floating-point scalar a light-like divisor leaves NaN or infinite components.

use vstd::prelude::*;

use crate::perplex::Perplex;
use crate::scalar::{Field, Ring};

verus! {

impl<T: Ring> Perplex<T> {
    /// `self · o + a`, with the sums formed as in the product.
    pub open spec fn mul_add_spec(self, o: Self, a: Self) -> Self {
        Perplex {
            t: T::plus_spec(
                T::plus_spec(T::times_spec(self.t, o.t), T::times_spec(self.x, o.x)),
                a.t,
            ),
            x: T::plus_spec(
                T::plus_spec(T::times_spec(o.t, self.x), T::times_spec(self.t, o.x)),
                a.x,
            ),
        }
    }

    /// Componentwise sum.
    pub fn add(self, o: Self) -> (r: Self)
        ensures
            r == self.add_spec(o),
    {
        Perplex { t: self.t.plus(o.t), x: self.x.plus(o.x) }
    }

    /// Adds `o` to `self` in place.
    pub fn add_assign(&mut self, o: Self)
        ensures
            *final(self) == old(self).add_spec(o),
    {
        self.t = self.t.plus(o.t);
        self.x = self.x.plus(o.x);
    }

    /// Componentwise difference.
    pub fn sub(self, o: Self) -> (r: Self)
        ensures
            r == self.sub_spec(o),
    {
        Perplex { t: self.t.minus(o.t), x: self.x.minus(o.x) }
    }

    /// Subtracts `o` from `self` in place.
    pub fn sub_assign(&mut self, o: Self)
        ensures
            *final(self) == old(self).sub_spec(o),
    {
        self.t = self.t.minus(o.t);
        self.x = self.x.minus(o.x);
    }

    /// The product `(t1 t2 + x1 x2) + (t2 x1 + t1 x2) h`.
    pub fn mul(self, o: Self) -> (r: Self)
        ensures
            r == self.mul_spec(o),
    {
        Perplex {
            t: self.t.times(o.t).plus(self.x.times(o.x)),
            x: o.t.times(self.x).plus(self.t.times(o.x)),
        }
    }

    /// Multiplies `self` by `o` in place.
    pub fn mul_assign(&mut self, o: Self)
        ensures
            *final(self) == old(self).mul_spec(o),
    {
        *self = self.mul(o);
    }

    /// `self · o + a`.
    pub fn mul_add(self, o: Self, a: Self) -> (r: Self)
        ensures
            r == self.mul_add_spec(o, a),
    {
        let t = self.t.times(o.t).plus(self.x.times(o.x)).plus(a.t);
        let x = o.t.times(self.x).plus(self.t.times(o.x)).plus(a.x);
        Perplex { t, x }
    }

    /// Replaces `self` by `self · o + a`.
    pub fn mul_add_assign(&mut self, o: Self, a: Self)
        ensures
            *final(self) == old(self).mul_add_spec(o, a),
    {
        *self = self.mul_add(o, a);
    }

    /// Adds the scalar `s` to the time component only.
    pub fn add_scalar(self, s: T) -> (r: Self)
        ensures
            r == (Perplex { t: T::plus_spec(self.t, s), x: self.x }),
    {
        Perplex { t: self.t.plus(s), x: self.x }
    }

    /// Adds the scalar `s` to the time component in place.
    pub fn add_scalar_assign(&mut self, s: T)
        ensures
            *final(self) == (Perplex { t: T::plus_spec(old(self).t, s), x: old(self).x }),
    {
        self.t = self.t.plus(s);
    }

    /// Subtracts the scalar `s` from the time component only.
    pub fn sub_scalar(self, s: T) -> (r: Self)
        ensures
            r == (Perplex { t: T::minus_spec(self.t, s), x: self.x }),
    {
        Perplex { t: self.t.minus(s), x: self.x }
    }

    /// Subtracts the scalar `s` from the time component in place.
    pub fn sub_scalar_assign(&mut self, s: T)
        ensures
            *final(self) == (Perplex { t: T::minus_spec(old(self).t, s), x: old(self).x }),
    {
        self.t = self.t.minus(s);
    }

    /// Multiplies both components by the scalar `s`.
    pub fn mul_scalar(self, s: T) -> (r: Self)
        ensures
            r == (Perplex { t: T::times_spec(self.t, s), x: T::times_spec(self.x, s) }),
    {
        Perplex { t: self.t.times(s), x: self.x.times(s) }
    }

    /// Multiplies both components by the scalar `s` in place.
    pub fn mul_scalar_assign(&mut self, s: T)
        ensures
            *final(self) == (Perplex {
                t: T::times_spec(old(self).t, s),
                x: T::times_spec(old(self).x, s),
            }),
    {
        *self = self.mul_scalar(s);
    }

    /// The componentwise negation.
    pub fn neg(self) -> (r: Self)
        ensures
            r == self.neg_spec(),
    {
        Perplex { t: self.t.negated(), x: self.x.negated() }
    }
}

impl<T: Field> Perplex<T> {
    /// `self / o` computed through the squared distance `D` of `o`:
    /// `((t1 t2 − x1 x2) / D) + ((t2 x1 − t1 x2) / D) h`.
    pub open spec fn quotient_spec(self, o: Self) -> Self {
        Perplex {
            t: T::divided_by_spec(
                T::minus_spec(T::times_spec(self.t, o.t), T::times_spec(self.x, o.x)),
                o.distance_spec(),
            ),
            x: T::divided_by_spec(
                T::minus_spec(T::times_spec(o.t, self.x), T::times_spec(self.t, o.x)),
                o.distance_spec(),
            ),
        }
    }

    /// The quotient, or `None` where `o` is light-like.
    pub open spec fn div_spec(self, o: Self) -> Option<Self> {
        if o.light_like_spec() {
            None
        } else {
            Some(self.quotient_spec(o))
        }
    }

    /// The inverse `conj(z) / D(z)`, or `None` where `z` is light-like.
    pub open spec fn inverse_spec(self) -> Option<Self> {
        if self.light_like_spec() {
            None
        } else {
            Some(
                Perplex {
                    t: T::divided_by_spec(self.t, self.distance_spec()),
                    x: T::divided_by_spec(T::negated_spec(self.x), self.distance_spec()),
                },
            )
        }
    }

    /// Both components divided by the scalar `s`.
    pub open spec fn div_scalar_spec(self, s: T) -> Self {
        Perplex { t: T::divided_by_spec(self.t, s), x: T::divided_by_spec(self.x, s) }
    }

    /// `self / o`, or `None` where `o` is light-like (a zero divisor).
    pub fn div(self, o: Self) -> (r: Option<Self>)
        ensures
            r == self.div_spec(o),
    {
        let d = o.squared_distance();
        if d.is_equal(T::zero()) {
            None
        } else {
            Some(self.quotient(o))
        }
    }

    /// `self / o` through the squared distance of `o`, whatever it is.
    fn quotient(self, o: Self) -> (r: Self)
        ensures
            r == self.quotient_spec(o),
    {
        let d = o.squared_distance();
        let t = self.t.times(o.t).minus(self.x.times(o.x)).divided_by(d);
        let x = o.t.times(self.x).minus(self.t.times(o.x)).divided_by(d);
        Perplex { t, x }
    }

    /// Divides `self` by `o` in place. The squared distance of `o` is the
    /// divisor even where it is zero: for a floating-point scalar a light-like
    /// `o` leaves NaN or infinite components.
    pub fn div_assign(&mut self, o: Self)
        ensures
            *final(self) == old(self).quotient_spec(o),
    {
        *self = self.quotient(o);
    }

    /// Divides both components by the scalar `s`.
    pub fn div_scalar(self, s: T) -> (r: Self)
        ensures
            r == self.div_scalar_spec(s),
    {
        Perplex { t: self.t.divided_by(s), x: self.x.divided_by(s) }
    }

    /// Divides both components by the scalar `s` in place.
    pub fn div_scalar_assign(&mut self, s: T)
        ensures
            *final(self) == old(self).div_scalar_spec(s),
    {
        *self = self.div_scalar(s);
    }

    /// The multiplicative inverse `conj(self) / D(self)`, or `None` where
    /// `self` is light-like.
    pub fn try_inverse(&self) -> (r: Option<Self>)
        ensures
            r == self.inverse_spec(),
    {
        let d = self.squared_distance();
        if d.is_equal(T::zero()) {
            None
        } else {
            Some(Perplex { t: self.t.divided_by(d), x: self.x.negated().divided_by(d) })
        }
    }

    /// The multiplicative inverse, as `try_inverse`.
    pub fn inv(self) -> (r: Option<Self>)
        ensures
            r == self.inverse_spec(),
    {
        self.try_inverse()
    }
}

impl<T: Ring> core::ops::Add for Perplex<T> {
    type Output = Self;

    fn add(self, o: Self) -> (r: Self) {
        Perplex::add(self, o)
    }
}

impl<T: Ring> vstd::std_specs::ops::AddSpecImpl for Perplex<T> {
    open spec fn obeys_add_spec() -> bool {
        true
    }

    open spec fn add_req(self, o: Self) -> bool {
        true
    }

    open spec fn add_spec(self, o: Self) -> Self {
        Perplex::add_spec(self, o)
    }
}

impl<T: Ring> core::ops::Sub for Perplex<T> {
    type Output = Self;

    fn sub(self, o: Self) -> (r: Self) {
        Perplex::sub(self, o)
    }
}

impl<T: Ring> vstd::std_specs::ops::SubSpecImpl for Perplex<T> {
    open spec fn obeys_sub_spec() -> bool {
        true
    }

    open spec fn sub_req(self, o: Self) -> bool {
        true
    }

    open spec fn sub_spec(self, o: Self) -> Self {
        Perplex::sub_spec(self, o)
    }
}

impl<T: Ring> core::ops::Mul for Perplex<T> {
    type Output = Self;

    fn mul(self, o: Self) -> (r: Self) {
        Perplex::mul(self, o)
    }
}

impl<T: Ring> vstd::std_specs::ops::MulSpecImpl for Perplex<T> {
    open spec fn obeys_mul_spec() -> bool {
        true
    }

    open spec fn mul_req(self, o: Self) -> bool {
        true
    }

    open spec fn mul_spec(self, o: Self) -> Self {
        Perplex::mul_spec(self, o)
    }
}

impl<T: Field> core::ops::Div for Perplex<T> {
    type Output = Option<Self>;

    fn div(self, o: Self) -> (r: Option<Self>) {
        Perplex::div(self, o)
    }
}

impl<T: Field> vstd::std_specs::ops::DivSpecImpl for Perplex<T> {
    open spec fn obeys_div_spec() -> bool {
        true
    }

    open spec fn div_req(self, o: Self) -> bool {
        true
    }

    open spec fn div_spec(self, o: Self) -> Option<Self> {
        Perplex::div_spec(self, o)
    }
}

impl<T: Ring> core::ops::Add<T> for Perplex<T> {
    type Output = Self;

    fn add(self, o: T) -> (r: Self) {
        self.add_scalar(o)
    }
}

impl<T: Ring> vstd::std_specs::ops::AddSpecImpl<T> for Perplex<T> {
    open spec fn obeys_add_spec() -> bool {
        true
    }

    open spec fn add_req(self, o: T) -> bool {
        true
    }

    open spec fn add_spec(self, o: T) -> Self {
        (Perplex { t: T::plus_spec(self.t, o), x: self.x })
    }
}

impl<T: Ring> core::ops::Sub<T> for Perplex<T> {
    type Output = Self;

    fn sub(self, o: T) -> (r: Self) {
        self.sub_scalar(o)
    }
}

impl<T: Ring> vstd::std_specs::ops::SubSpecImpl<T> for Perplex<T> {
    open spec fn obeys_sub_spec() -> bool {
        true
    }

    open spec fn sub_req(self, o: T) -> bool {
        true
    }

    open spec fn sub_spec(self, o: T) -> Self {
        (Perplex { t: T::minus_spec(self.t, o), x: self.x })
    }
}

impl<T: Ring> core::ops::Mul<T> for Perplex<T> {
    type Output = Self;

    fn mul(self, o: T) -> (r: Self) {
        self.mul_scalar(o)
    }
}

impl<T: Ring> vstd::std_specs::ops::MulSpecImpl<T> for Perplex<T> {
    open spec fn obeys_mul_spec() -> bool {
        true
    }

    open spec fn mul_req(self, o: T) -> bool {
        true
    }

    open spec fn mul_spec(self, o: T) -> Self {
        (Perplex { t: T::times_spec(self.t, o), x: T::times_spec(self.x, o) })
    }
}

impl<T: Field> core::ops::Div<T> for Perplex<T> {
    type Output = Self;

    fn div(self, o: T) -> (r: Self) {
        self.div_scalar(o)
    }
}

impl<T: Field> vstd::std_specs::ops::DivSpecImpl<T> for Perplex<T> {
    open spec fn obeys_div_spec() -> bool {
        true
    }

    open spec fn div_req(self, o: T) -> bool {
        true
    }

    open spec fn div_spec(self, o: T) -> Self {
        self.div_scalar_spec(o)
    }
}

impl<T: Ring> core::ops::Neg for Perplex<T> {
    type Output = Self;

    fn neg(self) -> (r: Self) {
        Perplex::neg(self)
    }
}

impl<T: Ring> vstd::std_specs::ops::NegSpecImpl for Perplex<T> {
    open spec fn obeys_neg_spec() -> bool {
        true
    }

    open spec fn neg_req(self) -> bool {
        true
    }

    open spec fn neg_spec(self) -> Self {
        Perplex::neg_spec(self)
    }
}

/// Division by a light-like number has no result.
pub proof fn lemma_div_by_light_like<T: Field>(z: Perplex<T>, w: Perplex<T>)
    requires
        w.light_like_spec(),
    ensures
        z.div_spec(w) is None,
{
}

} // verus!

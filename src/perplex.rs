//! The perplex number type, its components, its classification by the
//! squared distance `t² − x²`, its norms and its elementary functions.

use vstd::prelude::*;

use crate::scalar::{Field, Ring};

verus! {

/// A perplex number `t + x h` with `h² = 1`: `t` is the time (real) component,
/// `x` the space (hyperbolic) component.
#[derive(Copy, Clone, PartialEq, Eq, PartialOrd, Ord, Hash, Debug)]
pub struct Perplex<T> {
    /// The time component.
    pub t: T,
    /// The space component.
    pub x: T,
}

impl<T> Perplex<T> {
    /// The perplex number `t + x h`.
    pub fn new(t: T, x: T) -> (r: Self)
        ensures
            r.t == t,
            r.x == x,
    {
        Perplex { t, x }
    }
}

impl<T: Ring> Perplex<T> {
    /// `1 + 0 h`, the neutral element of multiplication.
    pub open spec fn one_spec() -> Self {
        Perplex { t: T::one_spec(), x: T::zero_spec() }
    }

    /// `0 + 0 h`, the neutral element of addition.
    pub open spec fn zero_spec() -> Self {
        Perplex { t: T::zero_spec(), x: T::zero_spec() }
    }

    /// `0 + 1 h`, the hyperbolic unit.
    pub open spec fn h_spec() -> Self {
        Perplex { t: T::zero_spec(), x: T::one_spec() }
    }

    /// The squared distance `D(z) = t·t − x·x`.
    pub open spec fn distance_spec(self) -> T {
        T::minus_spec(T::times_spec(self.t, self.t), T::times_spec(self.x, self.x))
    }

    pub open spec fn time_like_spec(self) -> bool {
        T::is_less_spec(T::zero_spec(), self.distance_spec())
    }

    pub open spec fn space_like_spec(self) -> bool {
        T::is_less_spec(self.distance_spec(), T::zero_spec())
    }

    pub open spec fn light_like_spec(self) -> bool {
        T::is_equal_spec(self.distance_spec(), T::zero_spec())
    }

    /// `factor · (t + x h)`.
    pub open spec fn scale_spec(self, factor: T) -> Self {
        Perplex { t: T::times_spec(factor, self.t), x: T::times_spec(factor, self.x) }
    }

    /// The hyperbolic conjugate `t − x h`.
    pub open spec fn conj_spec(self) -> Self {
        Perplex { t: self.t, x: T::negated_spec(self.x) }
    }

    /// The componentwise negation.
    pub open spec fn neg_spec(self) -> Self {
        Perplex { t: T::negated_spec(self.t), x: T::negated_spec(self.x) }
    }

    pub open spec fn add_spec(self, o: Self) -> Self {
        Perplex { t: T::plus_spec(self.t, o.t), x: T::plus_spec(self.x, o.x) }
    }

    pub open spec fn sub_spec(self, o: Self) -> Self {
        Perplex { t: T::minus_spec(self.t, o.t), x: T::minus_spec(self.x, o.x) }
    }

    /// The product `(t1 t2 + x1 x2) + (t2 x1 + t1 x2) h`.
    pub open spec fn mul_spec(self, o: Self) -> Self {
        Perplex {
            t: T::plus_spec(T::times_spec(self.t, o.t), T::times_spec(self.x, o.x)),
            x: T::plus_spec(T::times_spec(o.t, self.x), T::times_spec(self.t, o.x)),
        }
    }

    /// Both components equal zero.
    pub open spec fn is_zero_spec(self) -> bool {
        T::is_equal_spec(self.t, T::zero_spec()) && T::is_equal_spec(self.x, T::zero_spec())
    }

    /// The time component equals one and the space component zero.
    pub open spec fn is_one_spec(self) -> bool {
        T::is_equal_spec(self.t, T::one_spec()) && T::is_equal_spec(self.x, T::zero_spec())
    }

    /// The hyperbolic unit `h`.
    pub fn h() -> (r: Self)
        ensures
            r == Self::h_spec(),
    {
        Perplex { t: T::zero(), x: T::one() }
    }

    /// The neutral element of multiplication.
    pub fn one() -> (r: Self)
        ensures
            r == Self::one_spec(),
    {
        Perplex { t: T::one(), x: T::zero() }
    }

    /// The neutral element of addition.
    pub fn zero() -> (r: Self)
        ensures
            r == Self::zero_spec(),
    {
        Perplex { t: T::zero(), x: T::zero() }
    }

    /// Whether both components are zero.
    pub fn is_zero(&self) -> (r: bool)
        ensures
            r == self.is_zero_spec(),
    {
        self.t.is_equal(T::zero()) && self.x.is_equal(T::zero())
    }

    /// Whether `self` is the neutral element of multiplication.
    pub fn is_one(&self) -> (r: bool)
        ensures
            r == self.is_one_spec(),
    {
        self.t.is_equal(T::one()) && self.x.is_equal(T::zero())
    }

    /// Sets `self` to the neutral element of addition.
    pub fn set_zero(&mut self)
        ensures
            *final(self) == Self::zero_spec(),
    {
        self.t = T::zero();
        self.x = T::zero();
    }

    /// Sets `self` to the neutral element of multiplication.
    pub fn set_one(&mut self)
        ensures
            *final(self) == Self::one_spec(),
    {
        self.t = T::one();
        self.x = T::zero();
    }

    /// The time component.
    pub fn real_part(&self) -> (r: T)
        ensures
            r == self.t,
    {
        self.t
    }

    /// The space component.
    pub fn hyperbolic(&self) -> (r: T)
        ensures
            r == self.x,
    {
        self.x
    }

    /// The squared distance `t·t − x·x` in the hyperbolic plane.
    pub fn squared_distance(&self) -> (r: T)
        ensures
            r == self.distance_spec(),
    {
        self.t.times(self.t).minus(self.x.times(self.x))
    }

    /// `self` multiplied by the scalar `factor`.
    pub fn scale(&self, factor: T) -> (r: Self)
        ensures
            r == self.scale_spec(factor),
    {
        Perplex { t: factor.times(self.t), x: factor.times(self.x) }
    }

    /// Whether the squared distance is positive.
    pub fn is_time_like(&self) -> (r: bool)
        ensures
            r == self.time_like_spec(),
    {
        T::zero().is_less(self.squared_distance())
    }

    /// Whether the squared distance is negative.
    pub fn is_space_like(&self) -> (r: bool)
        ensures
            r == self.space_like_spec(),
    {
        self.squared_distance().is_less(T::zero())
    }

    /// Whether the squared distance is zero.
    pub fn is_light_like(&self) -> (r: bool)
        ensures
            r == self.light_like_spec(),
    {
        self.squared_distance().is_equal(T::zero())
    }

    /// The hyperbolic conjugate `t − x h`.
    pub fn conj(&self) -> (r: Self)
        ensures
            r == self.conj_spec(),
    {
        Perplex { t: self.t, x: self.x.negated() }
    }

    /// The L1 norm `|t| + |x|` of the cartesian plane.
    pub fn l1_norm(&self) -> (r: T)
        ensures
            r == T::plus_spec(T::absolute_spec(self.t), T::absolute_spec(self.x)),
    {
        self.t.absolute().plus(self.x.absolute())
    }

    /// The maximum norm `max(|t|, |x|)` of the cartesian plane.
    pub fn max_norm(&self) -> (r: T)
        ensures
            r == T::maximum_spec(T::absolute_spec(self.t), T::absolute_spec(self.x)),
    {
        self.t.absolute().maximum(self.x.absolute())
    }
}

/// Exactly one of time-like, space-like and light-like holds of a number
/// whose squared distance can be compared with zero (for a floating-point
/// scalar: is not NaN).
pub proof fn lemma_classification_exclusive<T: Ring>(z: Perplex<T>)
    requires
        T::comparable(z.distance_spec(), T::zero_spec()),
    ensures
        z.time_like_spec() || z.space_like_spec() || z.light_like_spec(),
        !(z.time_like_spec() && z.space_like_spec()),
        !(z.time_like_spec() && z.light_like_spec()),
        !(z.space_like_spec() && z.light_like_spec()),
{
    T::lemma_trichotomy(z.distance_spec(), T::zero_spec());
}

impl<T: Ring> Default for Perplex<T> {
    /// The neutral element of multiplication.
    fn default() -> (r: Self)
        ensures
            r == Self::one_spec(),
    {
        Perplex::one()
    }
}

impl<T: Ring> From<T> for Perplex<T> {
    /// A scalar `t` becomes `t + 0 h`.
    fn from(t: T) -> (r: Self) {
        Perplex { t, x: T::zero() }
    }
}

impl<T: Ring> vstd::std_specs::convert::FromSpecImpl<T> for Perplex<T> {
    open spec fn obeys_from_spec() -> bool {
        true
    }

    open spec fn from_spec(t: T) -> Self {
        Perplex { t, x: T::zero_spec() }
    }
}

/// `a ≥ 0`: greater than zero or equal to it.
pub open spec fn non_negative<T: Ring>(a: T) -> bool {
    T::is_less_spec(T::zero_spec(), a) || T::is_equal_spec(a, T::zero_spec())
}

impl<T: Field> Perplex<T> {
    /// The Klein index, or `1` on a diagonal.
    pub open spec fn klein_or_one_spec(self) -> Self {
        match self.klein_spec() {
            Some(k) => k,
            None => Self::one_spec(),
        }
    }

    /// `k · (e^t cosh x + h e^t sinh x)` for `(t, x) = k · z`, with `k` the
    /// Klein index of `z` (`1` on a diagonal).
    pub open spec fn exp_spec(self) -> Self {
        let k = self.klein_or_one_spec();
        let w = k.mul_spec(self);
        let e = T::exp_spec(w.t);
        k.mul_spec(Perplex { t: T::times_spec(e, T::cosh_spec(w.x)), x: T::times_spec(e, T::sinh_spec(w.x)) })
    }

    /// `k · (ln(D) / 2 + h atanh(x / t))` for `(t, x) = k · z` and `D = t·t − x·x`,
    /// with `k` the Klein index of `z`; `None` where `z` has none (light-like).
    pub open spec fn ln_spec(self) -> Option<Self> {
        match self.klein_spec() {
            Some(k) => {
                let w = k.mul_spec(self);
                let d = T::minus_spec(T::times_spec(w.t, w.t), T::times_spec(w.x, w.x));
                let two = T::plus_spec(T::one_spec(), T::one_spec());
                Some(k.mul_spec(Perplex {
                    t: T::divided_by_spec(T::ln_spec(d), two),
                    x: T::atanh_spec(T::divided_by_spec(w.x, w.t)),
                }))
            },
            None => None,
        }
    }

    /// The square root `((√(t+x) + √(t−x)) / 2) + ((√(t+x) − √(t−x)) / 2) h`,
    /// defined where `t + x ≥ 0` and `t − x ≥ 0` (the closed Right sector).
    pub open spec fn sqrt_spec(self) -> Option<Self> {
        let a = T::plus_spec(self.t, self.x);
        let b = T::minus_spec(self.t, self.x);
        if non_negative(a) && non_negative(b) {
            let sa = T::sqrt_spec(a);
            let sb = T::sqrt_spec(b);
            let two = T::plus_spec(T::one_spec(), T::one_spec());
            Some(Perplex {
                t: T::divided_by_spec(T::plus_spec(sa, sb), two),
                x: T::divided_by_spec(T::minus_spec(sa, sb), two),
            })
        } else {
            None
        }
    }

    pub open spec fn sin_spec(self) -> Self {
        Perplex {
            t: T::times_spec(T::sin_spec(self.t), T::cos_spec(self.x)),
            x: T::times_spec(T::cos_spec(self.t), T::sin_spec(self.x)),
        }
    }

    pub open spec fn cos_spec(self) -> Self {
        Perplex {
            t: T::times_spec(T::cos_spec(self.t), T::cos_spec(self.x)),
            x: T::times_spec(T::sin_spec(self.t), T::sin_spec(self.x)),
        }
    }

    pub open spec fn sinh_spec(self) -> Self {
        Perplex {
            t: T::times_spec(T::sinh_spec(self.t), T::cosh_spec(self.x)),
            x: T::times_spec(T::cosh_spec(self.t), T::sinh_spec(self.x)),
        }
    }

    pub open spec fn cosh_spec(self) -> Self {
        Perplex {
            t: T::times_spec(T::cosh_spec(self.t), T::cosh_spec(self.x)),
            x: T::times_spec(T::sinh_spec(self.t), T::sinh_spec(self.x)),
        }
    }

    /// The Euclidean norm `sqrt(t·t + x·x)` of the cartesian plane.
    pub fn l2_norm(&self) -> (r: T)
        ensures
            r == T::sqrt_spec(T::plus_spec(T::times_spec(self.t, self.t), T::times_spec(self.x, self.x))),
    {
        self.t.times(self.t).plus(self.x.times(self.x)).sqrt()
    }

    /// The modulus `sqrt(|D(z)|)`, defined for every number.
    pub fn modulus(self) -> (r: T)
        ensures
            r == self.modulus_spec(),
    {
        self.squared_distance().absolute().sqrt()
    }

    /// The modulus.
    pub fn norm(self) -> (r: T)
        ensures
            r == self.modulus_spec(),
    {
        self.modulus()
    }

    /// The modulus.
    pub fn magnitude(self) -> (r: T)
        ensures
            r == self.modulus_spec(),
    {
        self.modulus()
    }

    /// The hyperbolic exponential, for every sector.
    pub fn exp(self) -> (r: Self)
        ensures
            r == self.exp_spec(),
    {
        let k = match self.klein() {
            Some(k) => k,
            None => Self::one(),
        };
        let w = k.mul(self);
        let e = w.t.exp();
        k.mul(Perplex { t: e.times(w.x.cosh()), x: e.times(w.x.sinh()) })
    }

    /// The natural logarithm, or `None` where `self` is light-like.
    pub fn ln(self) -> (r: Option<Self>)
        ensures
            r == self.ln_spec(),
    {
        match self.klein() {
            Some(k) => {
                let w = k.mul(self);
                let d = w.t.times(w.t).minus(w.x.times(w.x));
                let two = T::one().plus(T::one());
                let t_new = d.ln().divided_by(two);
                let x_new = w.x.divided_by(w.t).atanh();
                Some(k.mul(Perplex { t: t_new, x: x_new }))
            },
            None => None,
        }
    }

    /// The logarithm to the scalar `base`: `ln(self) / ln(base)`, or `None`
    /// where `self` is light-like.
    pub fn log(self, base: T) -> (r: Option<Self>)
        ensures
            r == match self.ln_spec() {
                Some(z) => Some(z.div_scalar_spec(T::ln_spec(base))),
                None => None,
            },
    {
        match self.ln() {
            Some(z) => Some(z.div_scalar(base.ln())),
            None => None,
        }
    }

    /// The square root, or `None` outside the closed Right sector.
    pub fn sqrt(self) -> (r: Option<Self>)
        ensures
            r == self.sqrt_spec(),
    {
        let a = self.t.plus(self.x);
        let b = self.t.minus(self.x);
        if (T::zero().is_less(a) || a.is_equal(T::zero())) && (T::zero().is_less(b) || b.is_equal(
            T::zero(),
        )) {
            let sa = a.sqrt();
            let sb = b.sqrt();
            let two = T::one().plus(T::one());
            Some(Perplex { t: sa.plus(sb).divided_by(two), x: sa.minus(sb).divided_by(two) })
        } else {
            None
        }
    }

    /// The circular sine `sin t cos x + h cos t sin x`.
    pub fn sin(self) -> (r: Self)
        ensures
            r == self.sin_spec(),
    {
        Perplex { t: self.t.sin().times(self.x.cos()), x: self.t.cos().times(self.x.sin()) }
    }

    /// The circular cosine `cos t cos x + h sin t sin x`.
    pub fn cos(self) -> (r: Self)
        ensures
            r == self.cos_spec(),
    {
        Perplex { t: self.t.cos().times(self.x.cos()), x: self.t.sin().times(self.x.sin()) }
    }

    /// `sin(self) / cos(self)`, or `None` where `cos(self)` is light-like.
    pub fn tan(self) -> (r: Option<Self>)
        ensures
            r == self.sin_spec().div_spec(self.cos_spec()),
    {
        self.sin().div(self.cos())
    }

    /// The hyperbolic sine `sinh t cosh x + h cosh t sinh x`.
    pub fn sinh(self) -> (r: Self)
        ensures
            r == self.sinh_spec(),
    {
        Perplex { t: self.t.sinh().times(self.x.cosh()), x: self.t.cosh().times(self.x.sinh()) }
    }

    /// The hyperbolic cosine `cosh t cosh x + h sinh t sinh x`.
    pub fn cosh(self) -> (r: Self)
        ensures
            r == self.cosh_spec(),
    {
        Perplex { t: self.t.cosh().times(self.x.cosh()), x: self.t.sinh().times(self.x.sinh()) }
    }

    /// `sinh(self) / cosh(self)`, or `None` where `cosh(self)` is light-like.
    pub fn tanh(self) -> (r: Option<Self>)
        ensures
            r == self.sinh_spec().div_spec(self.cosh_spec()),
    {
        self.sinh().div(self.cosh())
    }

    /// Whether a component is NaN.
    pub fn is_nan(self) -> (r: bool)
        ensures
            r == (T::is_nan_spec(self.t) || T::is_nan_spec(self.x)),
    {
        self.t.is_nan() || self.x.is_nan()
    }

    /// Whether no component is NaN and one is infinite.
    pub fn is_infinite(self) -> (r: bool)
        ensures
            r == (!(T::is_nan_spec(self.t) || T::is_nan_spec(self.x)) && (T::is_infinite_spec(self.t)
                || T::is_infinite_spec(self.x))),
    {
        !self.is_nan() && (self.t.is_infinite() || self.x.is_infinite())
    }

    /// Whether both components are finite.
    pub fn is_finite(self) -> (r: bool)
        ensures
            r == (T::is_finite_spec(self.t) && T::is_finite_spec(self.x)),
    {
        self.t.is_finite() && self.x.is_finite()
    }

    /// Whether both components are normal.
    pub fn is_normal(self) -> (r: bool)
        ensures
            r == (T::is_normal_spec(self.t) && T::is_normal_spec(self.x)),
    {
        self.t.is_normal() && self.x.is_normal()
    }
}

} // verus!

//! The hyperbolic polar form of a perplex number.
//!
//! The two light-like diagonals `x = t` and `x = −t` divide the plane into four
//! sectors. A number off the diagonals is `klein · rho · (cosh θ + h sinh θ)`,
//! where `klein` is one of `1, h, −1, −h` according to its sector. A number on
//! a diagonal keeps its time component, and its angle is `+∞` on `x = t` and
//! `−∞` on `x = −t`.

use vstd::prelude::*;

use crate::perplex::Perplex;
use crate::scalar::{Field, Ring};

verus! {

/// The sector of the hyperbolic plane that a perplex number lies in.
#[derive(Copy, Clone, PartialEq, Eq, PartialOrd, Ord, Hash, Debug, Default)]
pub enum HyperbolicSector<T> {
    /// `|t| > |x|` and `t > 0`.
    #[default]
    Right,
    /// `|x| > |t|` and `x > 0`.
    Up,
    /// `|t| > |x|` and `t ≤ 0`.
    Left,
    /// `|x| > |t|` and `x ≤ 0`.
    Down,
    /// `|t| = |x|`: a light-like number, with its time component.
    Diagonal(T),
}

/// A perplex number in hyperbolic polar form.
#[derive(Copy, Clone, PartialEq, Eq, PartialOrd, Ord, Hash, Debug)]
pub struct HyperbolicPolar<T> {
    /// The modulus.
    pub rho: T,
    /// The hyperbolic angle.
    pub theta: T,
    /// The sector.
    pub sector: HyperbolicSector<T>,
}

impl<T: Ring> Perplex<T> {
    /// The sector, decided by comparing `|t|` with `|x|` and then the sign of
    /// the larger component.
    pub open spec fn sector_spec(self) -> HyperbolicSector<T> {
        let t_abs = T::absolute_spec(self.t);
        let x_abs = T::absolute_spec(self.x);
        if T::is_equal_spec(t_abs, x_abs) {
            HyperbolicSector::Diagonal(self.t)
        } else if T::is_less_spec(x_abs, t_abs) {
            if T::is_less_spec(T::zero_spec(), self.t) {
                HyperbolicSector::Right
            } else {
                HyperbolicSector::Left
            }
        } else if T::is_less_spec(T::zero_spec(), self.x) {
            HyperbolicSector::Up
        } else {
            HyperbolicSector::Down
        }
    }

    /// The Klein index `1, h, −1, −h` of the sectors Right, Up, Left, Down;
    /// `None` on a diagonal.
    pub open spec fn klein_spec(self) -> Option<Self> {
        match self.sector_spec() {
            HyperbolicSector::Right => Some(Self::one_spec()),
            HyperbolicSector::Up => Some(Self::h_spec()),
            HyperbolicSector::Left => Some(Self::one_spec().neg_spec()),
            HyperbolicSector::Down => Some(Self::h_spec().neg_spec()),
            HyperbolicSector::Diagonal(_) => None,
        }
    }

    /// The sector of `self`.
    pub fn sector(&self) -> (r: HyperbolicSector<T>)
        ensures
            r == self.sector_spec(),
    {
        let t_abs = self.t.absolute();
        let x_abs = self.x.absolute();
        if t_abs.is_equal(x_abs) {
            HyperbolicSector::Diagonal(self.t)
        } else if x_abs.is_less(t_abs) {
            if T::zero().is_less(self.t) {
                HyperbolicSector::Right
            } else {
                HyperbolicSector::Left
            }
        } else if T::zero().is_less(self.x) {
            HyperbolicSector::Up
        } else {
            HyperbolicSector::Down
        }
    }

    /// The Klein index of `self`, or `None` where `self` is light-like
    /// (on a diagonal).
    pub fn klein(self) -> (r: Option<Self>)
        ensures
            r == self.klein_spec(),
    {
        let t_abs = self.t.absolute();
        let x_abs = self.x.absolute();
        if t_abs.is_equal(x_abs) {
            None
        } else if x_abs.is_less(t_abs) {
            if T::zero().is_less(self.t) {
                Some(Self::one())
            } else {
                Some(Self::one().neg())
            }
        } else if T::zero().is_less(self.x) {
            Some(Self::h())
        } else {
            Some(Self::h().neg())
        }
    }
}

impl<T: Ring> From<Perplex<T>> for HyperbolicSector<T> {
    fn from(z: Perplex<T>) -> (r: Self) {
        z.sector()
    }
}

impl<T: Ring> vstd::std_specs::convert::FromSpecImpl<Perplex<T>> for HyperbolicSector<T> {
    open spec fn obeys_from_spec() -> bool {
        true
    }

    open spec fn from_spec(z: Perplex<T>) -> Self {
        z.sector_spec()
    }
}

impl<T: Ring> HyperbolicPolar<T> {
    /// Modulus one, angle zero, Right sector: the polar form of `1`.
    pub open spec fn one_spec() -> Self {
        HyperbolicPolar {
            rho: T::one_spec(),
            theta: T::zero_spec(),
            sector: HyperbolicSector::Right,
        }
    }
}

impl<T: Ring> Default for HyperbolicPolar<T> {
    /// The polar form of the neutral element of multiplication.
    fn default() -> (r: Self)
        ensures
            r == Self::one_spec(),
    {
        HyperbolicPolar { rho: T::one(), theta: T::zero(), sector: HyperbolicSector::Right }
    }
}

impl<T: Field> Perplex<T> {
    /// The modulus `sqrt(|D(z)|)`.
    pub open spec fn modulus_spec(self) -> T {
        T::sqrt_spec(T::absolute_spec(self.distance_spec()))
    }

    /// The hyperbolic angle: `atanh(x / t)` where `|t| > |x|`, `atanh(t / x)`
    /// where `|x| > |t|`, `+∞` on the diagonal `x = t` and `−∞` on `x = −t`.
    pub open spec fn arg_spec(self) -> T {
        let t_abs = T::absolute_spec(self.t);
        let x_abs = T::absolute_spec(self.x);
        if T::is_equal_spec(t_abs, x_abs) {
            if T::is_equal_spec(self.t, self.x) {
                T::infinity_spec()
            } else {
                T::neg_infinity_spec()
            }
        } else if T::is_less_spec(x_abs, t_abs) {
            T::atanh_spec(T::divided_by_spec(self.x, self.t))
        } else {
            T::atanh_spec(T::divided_by_spec(self.t, self.x))
        }
    }

    /// The polar form: modulus, angle and sector.
    pub open spec fn polar_spec(self) -> HyperbolicPolar<T> {
        HyperbolicPolar { rho: self.modulus_spec(), theta: self.arg_spec(), sector: self.sector_spec() }
    }

    /// `cosh θ + h sinh θ`.
    pub open spec fn cis_spec(theta: T) -> Self {
        Perplex { t: T::cosh_spec(theta), x: T::sinh_spec(theta) }
    }

    /// `cosh θ + h sinh θ`, the number of modulus one and angle `theta` in the
    /// Right sector.
    pub fn cis(theta: T) -> (r: Self)
        ensures
            r == Self::cis_spec(theta),
    {
        Perplex { t: theta.cosh(), x: theta.sinh() }
    }

    /// The hyperbolic angle of `self`; `±∞` on the diagonals.
    pub fn arg(self) -> (r: T)
        ensures
            r == self.arg_spec(),
    {
        let t_abs = self.t.absolute();
        let x_abs = self.x.absolute();
        if t_abs.is_equal(x_abs) {
            if self.t.is_equal(self.x) {
                T::infinity()
            } else {
                T::neg_infinity()
            }
        } else if x_abs.is_less(t_abs) {
            self.x.divided_by(self.t).atanh()
        } else {
            self.t.divided_by(self.x).atanh()
        }
    }

    /// The polar form of `self`.
    pub fn polar(&self) -> (r: HyperbolicPolar<T>)
        ensures
            r == self.polar_spec(),
    {
        HyperbolicPolar { rho: self.modulus(), theta: self.arg(), sector: self.sector() }
    }
}

impl<T: Field> HyperbolicPolar<T> {
    /// The perplex number that the polar form stands for.
    pub open spec fn to_perplex_spec(self) -> Perplex<T> {
        let rho = self.rho;
        let theta = self.theta;
        match self.sector {
            HyperbolicSector::Right => Perplex {
                t: T::times_spec(rho, T::cosh_spec(theta)),
                x: T::times_spec(rho, T::sinh_spec(theta)),
            },
            HyperbolicSector::Up => Perplex {
                t: T::times_spec(rho, T::sinh_spec(theta)),
                x: T::times_spec(rho, T::cosh_spec(theta)),
            },
            HyperbolicSector::Left => Perplex {
                t: T::times_spec(T::negated_spec(rho), T::cosh_spec(theta)),
                x: T::times_spec(T::negated_spec(rho), T::sinh_spec(theta)),
            },
            HyperbolicSector::Down => Perplex {
                t: T::times_spec(T::negated_spec(rho), T::sinh_spec(theta)),
                x: T::times_spec(T::negated_spec(rho), T::cosh_spec(theta)),
            },
            HyperbolicSector::Diagonal(t) => if T::is_equal_spec(theta, T::infinity_spec()) {
                Perplex { t, x: t }
            } else {
                Perplex { t, x: T::negated_spec(t) }
            },
        }
    }

    /// The polar form raised to the power `n`: modulus to the power `n`, angle
    /// times `n`, and the sector Right for even `n` (as `(−1)² = h² = 1`). On a
    /// diagonal the time component becomes `t · (2t)^(n−1)`. The power `0` is
    /// the polar form of `1`, the power `1` the form itself.
    pub open spec fn pow_spec(self, n: u32) -> Self {
        if n == 0 {
            Self::one_spec()
        } else if n == 1 {
            self
        } else {
            match self.sector {
                HyperbolicSector::Diagonal(t) => HyperbolicPolar {
                    rho: self.rho,
                    theta: self.theta,
                    sector: HyperbolicSector::Diagonal(
                        T::times_spec(t, T::powi_spec(T::plus_spec(t, t), (n - 1) as i32)),
                    ),
                },
                _ => HyperbolicPolar {
                    rho: T::powi_spec(self.rho, n as i32),
                    theta: T::times_spec(T::from_u32_spec(n), self.theta),
                    sector: if n % 2 == 0 {
                        HyperbolicSector::Right
                    } else {
                        self.sector
                    },
                },
            }
        }
    }

    /// The perplex number that `self` stands for.
    pub fn to_perplex(self) -> (r: Perplex<T>)
        ensures
            r == self.to_perplex_spec(),
    {
        let rho = self.rho;
        let theta = self.theta;
        match self.sector {
            HyperbolicSector::Right => Perplex::new(rho.times(theta.cosh()), rho.times(theta.sinh())),
            HyperbolicSector::Up => Perplex::new(rho.times(theta.sinh()), rho.times(theta.cosh())),
            HyperbolicSector::Left => Perplex::new(
                rho.negated().times(theta.cosh()),
                rho.negated().times(theta.sinh()),
            ),
            HyperbolicSector::Down => Perplex::new(
                rho.negated().times(theta.sinh()),
                rho.negated().times(theta.cosh()),
            ),
            HyperbolicSector::Diagonal(t) => {
                if theta.is_equal(T::infinity()) {
                    Perplex::new(t, t)
                } else {
                    Perplex::new(t, t.negated())
                }
            },
        }
    }

    /// `self` raised to the power `n`, which is at most `i32::MAX`, the
    /// largest exponent of the scalar power.
    pub fn pow(self, n: u32) -> (r: Self)
        requires
            n <= i32::MAX,
        ensures
            r == self.pow_spec(n),
    {
        if n == 0 {
            Self::default()
        } else if n == 1 {
            self
        } else {
            let e = n as i32;
            match self.sector {
                HyperbolicSector::Diagonal(t) => {
                    let t_new = t.times(t.plus(t).powi(e - 1));
                    HyperbolicPolar {
                        rho: self.rho,
                        theta: self.theta,
                        sector: HyperbolicSector::Diagonal(t_new),
                    }
                },
                _ => {
                    let sector = if n % 2 == 0 {
                        HyperbolicSector::Right
                    } else {
                        self.sector
                    };
                    HyperbolicPolar {
                        rho: self.rho.powi(e),
                        theta: T::from_u32(n).times(self.theta),
                        sector,
                    }
                },
            }
        }
    }
}

impl<T: Field> From<Perplex<T>> for HyperbolicPolar<T> {
    fn from(z: Perplex<T>) -> (r: Self) {
        z.polar()
    }
}

impl<T: Field> vstd::std_specs::convert::FromSpecImpl<Perplex<T>> for HyperbolicPolar<T> {
    open spec fn obeys_from_spec() -> bool {
        true
    }

    open spec fn from_spec(z: Perplex<T>) -> Self {
        z.polar_spec()
    }
}

impl<T: Field> From<HyperbolicPolar<T>> for Perplex<T> {
    fn from(p: HyperbolicPolar<T>) -> (r: Self) {
        p.to_perplex()
    }
}

impl<T: Field> vstd::std_specs::convert::FromSpecImpl<HyperbolicPolar<T>> for Perplex<T> {
    open spec fn obeys_from_spec() -> bool {
        true
    }

    open spec fn from_spec(p: HyperbolicPolar<T>) -> Self {
        p.to_perplex_spec()
    }
}

} // verus!

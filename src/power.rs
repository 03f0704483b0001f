//! Integer powers of perplex numbers, by repeated squaring.

use vstd::prelude::*;

use crate::perplex::Perplex;
use crate::scalar::{Field, Ring};

verus! {

impl<T: Ring> Perplex<T> {
    /// `z` multiplied by itself `n` times (`1` for `n = 0`).
    pub open spec fn power_spec(self, n: nat) -> Self
        decreases n,
    {
        if n == 0 {
            Self::one_spec()
        } else {
            self.mul_spec(self.power_spec((n - 1) as nat))
        }
    }

    /// The product that squaring forms from the accumulator `acc`, the base
    /// and the remaining exponent `e ≥ 1`: the base joins the accumulator at
    /// each odd exponent, and is then squared as the exponent halves.
    pub open spec fn squaring_spec(acc: Self, base: Self, e: nat) -> Self
        decreases e,
    {
        if e <= 1 {
            acc.mul_spec(base)
        } else {
            Self::squaring_spec(
                if e % 2 == 1 {
                    acc.mul_spec(base)
                } else {
                    acc
                },
                base.mul_spec(base),
                e / 2,
            )
        }
    }

    /// `self` to the power `n` by squaring; `1` for `n = 0`.
    pub open spec fn powu_spec(self, n: u32) -> Self {
        if n == 0 {
            Self::one_spec()
        } else {
            Self::squaring_spec(Self::one_spec(), self, n as nat)
        }
    }

    /// `self` to the unsigned power `exp`, with `O(log exp)` multiplications.
    pub fn powu(&self, exp: u32) -> (r: Self)
        ensures
            r == self.powu_spec(exp),
    {
        let mut result = Self::one();
        if exp == 0 {
            return result;
        }
        let mut base = *self;
        let mut e = exp;
        while e > 1
            invariant
                e >= 1,
                Self::squaring_spec(result, base, e as nat) == Self::squaring_spec(
                    Self::one_spec(),
                    *self,
                    exp as nat,
                ),
            decreases e,
        {
            if e % 2 == 1 {
                result = result.mul(base);
            }
            e = e / 2;
            base = base.mul(base);
        }
        result.mul(base)
    }
}

impl<T: Field> Perplex<T> {
    /// `self` to the power `n`; for negative `n` the inverse to the power
    /// `|n|`, or `None` where `self` is light-like.
    pub open spec fn powi_spec(self, n: i32) -> Option<Self> {
        if n < 0 {
            match self.inverse_spec() {
                Some(z) => Some(z.powu_spec((-n) as u32)),
                None => None,
            }
        } else {
            Some(self.powu_spec(n as u32))
        }
    }

    /// `self` to the signed power `exp`; `None` where `exp < 0` and `self` is
    /// light-like.
    pub fn powi(&self, exp: i32) -> (r: Option<Self>)
        ensures
            r == self.powi_spec(exp),
    {
        if exp < 0 {
            let m = (0i64 - exp as i64) as u32;
            match self.try_inverse() {
                Some(z) => Some(z.powu(m)),
                None => None,
            }
        } else {
            Some(self.powu(exp as u32))
        }
    }
}

/// Multiplication of perplex numbers over `T` is associative and has `1` as
/// identity on both sides.
pub open spec fn mul_monoid_laws<T: Ring>() -> bool {
    &&& forall|a: Perplex<T>, b: Perplex<T>, c: Perplex<T>| #[trigger]
        a.mul_spec(b).mul_spec(c) == a.mul_spec(b.mul_spec(c))
    &&& forall|a: Perplex<T>|
        #![trigger Perplex::<T>::one_spec().mul_spec(a)]
        #![trigger a.mul_spec(Perplex::<T>::one_spec())]
        Perplex::<T>::one_spec().mul_spec(a) == a && a.mul_spec(Perplex::<T>::one_spec()) == a
}

proof fn lemma_power_of_square<T: Ring>(b: Perplex<T>, k: nat)
    requires
        mul_monoid_laws::<T>(),
    ensures
        b.mul_spec(b).power_spec(k) == b.power_spec(2 * k),
    decreases k,
{
    if k > 0 {
        lemma_power_of_square(b, (k - 1) as nat);
        let rest = b.power_spec((2 * (k - 1)) as nat);
        assert(b.mul_spec(b).mul_spec(rest) == b.mul_spec(b.mul_spec(rest)));
        assert((2 * k - 1) as nat - 1 == 2 * (k - 1));
        assert(b.power_spec((2 * k - 1) as nat) == b.mul_spec(rest));
    }
}

proof fn lemma_squaring<T: Ring>(acc: Perplex<T>, base: Perplex<T>, e: nat)
    requires
        mul_monoid_laws::<T>(),
        e >= 1,
    ensures
        Perplex::squaring_spec(acc, base, e) == acc.mul_spec(base.power_spec(e)),
    decreases e,
{
    if e <= 1 {
        assert(base.power_spec(1) == base.mul_spec(base.power_spec(0)));
    } else {
        let half = e / 2;
        let next = if e % 2 == 1 {
            acc.mul_spec(base)
        } else {
            acc
        };
        lemma_squaring(next, base.mul_spec(base), half);
        lemma_power_of_square(base, half);
        if e % 2 == 1 {
            assert(base.power_spec(e) == base.mul_spec(base.power_spec((2 * half) as nat)));
            assert(acc.mul_spec(base).mul_spec(base.power_spec((2 * half) as nat)) == acc.mul_spec(
                base.mul_spec(base.power_spec((2 * half) as nat)),
            ));
        } else {
            assert(e == 2 * half);
        }
    }
}

/// Where multiplication is associative with identity `1`, raising to the
/// power `n` by squaring gives the product of `n` factors `z`.
pub(crate) proof fn lemma_squaring_is_power<T: Ring>(z: Perplex<T>, n: u32)
    requires
        mul_monoid_laws::<T>(),
    ensures
        z.powu_spec(n) == z.power_spec(n as nat),
{
    if n > 0 {
        lemma_squaring(Perplex::one_spec(), z, n as nat);
    }
}

} // verus!

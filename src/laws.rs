//! Algebraic laws of perplex numbers over a scalar type whose arithmetic is
//! exact (a commutative ring, or a field for division).
//!
//! Floating-point arithmetic rounds, so these laws hold of it only
//! approximately; they are stated under the hypothesis that the scalar
//! operations obey the ring or field laws.

use vstd::prelude::*;

use crate::perplex::Perplex;
use crate::polar::HyperbolicSector;
use crate::power::{lemma_squaring_is_power, mul_monoid_laws};
use crate::scalar::{Field, Ring};

verus! {

/// The scalar operations form a commutative ring, with `a − b = a + (−b)`.
#[verifier::opaque]
pub open spec fn commutative_ring_laws<T: Ring>() -> bool {
    &&& forall|a: T, b: T| #[trigger] T::plus_spec(a, b) == T::plus_spec(b, a)
    &&& forall|a: T, b: T, c: T| #[trigger]
        T::plus_spec(T::plus_spec(a, b), c) == T::plus_spec(a, T::plus_spec(b, c))
    &&& forall|a: T, b: T| #[trigger] T::times_spec(a, b) == T::times_spec(b, a)
    &&& forall|a: T, b: T, c: T| #[trigger]
        T::times_spec(T::times_spec(a, b), c) == T::times_spec(a, T::times_spec(b, c))
    &&& forall|a: T, b: T, c: T| #[trigger]
        T::times_spec(a, T::plus_spec(b, c)) == T::plus_spec(
            T::times_spec(a, b),
            T::times_spec(a, c),
        )
    &&& forall|a: T| #[trigger] T::plus_spec(a, T::zero_spec()) == a
    &&& forall|a: T| #[trigger] T::times_spec(a, T::one_spec()) == a
    &&& forall|a: T| #[trigger] T::times_spec(a, T::zero_spec()) == T::zero_spec()
    &&& forall|a: T, b: T| #[trigger] T::minus_spec(a, b) == T::plus_spec(a, T::negated_spec(b))
    &&& forall|a: T| #[trigger] T::plus_spec(a, T::negated_spec(a)) == T::zero_spec()
}

proof fn lemma_times_distributes_right<T: Ring>(a: T, b: T, c: T)
    requires
        commutative_ring_laws::<T>(),
    ensures
        T::times_spec(T::plus_spec(a, b), c) == T::plus_spec(T::times_spec(a, c), T::times_spec(b, c)),
{
    reveal(commutative_ring_laws);
    assert(T::times_spec(T::plus_spec(a, b), c) == T::times_spec(c, T::plus_spec(a, b)));
    assert(T::times_spec(c, a) == T::times_spec(a, c));
    assert(T::times_spec(c, b) == T::times_spec(b, c));
}

proof fn lemma_times_distributes_left<T: Ring>(a: T, b: T, c: T)
    requires
        commutative_ring_laws::<T>(),
    ensures
        T::times_spec(a, T::plus_spec(b, c)) == T::plus_spec(T::times_spec(a, b), T::times_spec(a, c)),
{
    reveal(commutative_ring_laws);
}

proof fn lemma_times_commutes<T: Ring>(a: T, b: T)
    requires
        commutative_ring_laws::<T>(),
    ensures
        T::times_spec(a, b) == T::times_spec(b, a),
{
    reveal(commutative_ring_laws);
}

proof fn lemma_plus_commutes<T: Ring>(a: T, b: T)
    requires
        commutative_ring_laws::<T>(),
    ensures
        T::plus_spec(a, b) == T::plus_spec(b, a),
{
    reveal(commutative_ring_laws);
}

proof fn lemma_plus_associates<T: Ring>(a: T, b: T, c: T)
    requires
        commutative_ring_laws::<T>(),
    ensures
        T::plus_spec(T::plus_spec(a, b), c) == T::plus_spec(a, T::plus_spec(b, c)),
{
    reveal(commutative_ring_laws);
}

proof fn lemma_negation_cancels<T: Ring>(a: T, b: T)
    requires
        commutative_ring_laws::<T>(),
    ensures
        T::plus_spec(a, T::negated_spec(a)) == T::zero_spec(),
        T::minus_spec(a, b) == T::plus_spec(a, T::negated_spec(b)),
{
    reveal(commutative_ring_laws);
}

/// `(a + b) + (c + d) = (a + d) + (b + c)`.
proof fn lemma_regroup<T: Ring>(a: T, b: T, c: T, d: T)
    requires
        commutative_ring_laws::<T>(),
    ensures
        T::plus_spec(T::plus_spec(a, b), T::plus_spec(c, d)) == T::plus_spec(
            T::plus_spec(a, d),
            T::plus_spec(b, c),
        ),
{
    reveal(commutative_ring_laws);
    let bcd = T::plus_spec(b, T::plus_spec(c, d));
    assert(T::plus_spec(T::plus_spec(a, b), T::plus_spec(c, d)) == T::plus_spec(a, bcd));
    assert(T::plus_spec(c, d) == T::plus_spec(d, c));
    assert(T::plus_spec(b, T::plus_spec(d, c)) == T::plus_spec(T::plus_spec(b, d), c));
    assert(T::plus_spec(b, d) == T::plus_spec(d, b));
    assert(T::plus_spec(T::plus_spec(d, b), c) == T::plus_spec(d, T::plus_spec(b, c)));
    assert(bcd == T::plus_spec(d, T::plus_spec(b, c)));
    assert(T::plus_spec(a, T::plus_spec(d, T::plus_spec(b, c))) == T::plus_spec(
        T::plus_spec(a, d),
        T::plus_spec(b, c),
    ));
}

/// `(a b) c = a (b c)` and the other orders of three factors that the
/// associativity of the product needs.
proof fn lemma_three_factors<T: Ring>(a: T, b: T, c: T)
    requires
        commutative_ring_laws::<T>(),
    ensures
        T::times_spec(T::times_spec(a, b), c) == T::times_spec(a, T::times_spec(b, c)),
        T::times_spec(T::times_spec(a, b), c) == T::times_spec(b, T::times_spec(a, c)),
        T::times_spec(T::times_spec(a, b), c) == T::times_spec(b, T::times_spec(c, a)),
        T::times_spec(T::times_spec(a, b), c) == T::times_spec(T::times_spec(c, b), a),
        T::times_spec(c, T::times_spec(a, b)) == T::times_spec(a, T::times_spec(b, c)),
{
    reveal(commutative_ring_laws);
    assert(T::times_spec(a, b) == T::times_spec(b, a));
    assert(T::times_spec(T::times_spec(b, a), c) == T::times_spec(b, T::times_spec(a, c)));
    assert(T::times_spec(a, c) == T::times_spec(c, a));
    assert(T::times_spec(c, T::times_spec(a, b)) == T::times_spec(T::times_spec(a, b), c));
    assert(T::times_spec(T::times_spec(c, b), a) == T::times_spec(a, T::times_spec(c, b)));
    assert(T::times_spec(c, b) == T::times_spec(b, c));
}

proof fn lemma_mul_associative<T: Ring>(a: Perplex<T>, b: Perplex<T>, c: Perplex<T>)
    requires
        commutative_ring_laws::<T>(),
    ensures
        a.mul_spec(b).mul_spec(c) == a.mul_spec(b.mul_spec(c)),
{
    let (t1, x1, t2, x2, t3, x3) = (a.t, a.x, b.t, b.x, c.t, c.x);
    // time component: (t1 t2 + x1 x2) t3 + (t2 x1 + t1 x2) x3 = t1 (t2 t3 + x2 x3) + x1 (t3 x2 + t2 x3)
    let ta = T::times_spec(T::times_spec(t1, t2), t3);
    let tb = T::times_spec(T::times_spec(x1, x2), t3);
    let tc = T::times_spec(T::times_spec(t2, x1), x3);
    let td = T::times_spec(T::times_spec(t1, x2), x3);
    lemma_times_distributes_right(T::times_spec(t1, t2), T::times_spec(x1, x2), t3);
    lemma_times_distributes_right(T::times_spec(t2, x1), T::times_spec(t1, x2), x3);
    lemma_regroup(ta, tb, tc, td);
    lemma_times_distributes_left(t1, T::times_spec(t2, t3), T::times_spec(x2, x3));
    lemma_three_factors(t1, t2, t3);
    lemma_three_factors(t1, x2, x3);
    lemma_times_distributes_left(x1, T::times_spec(t3, x2), T::times_spec(t2, x3));
    lemma_three_factors(x1, x2, t3);
    lemma_times_commutes(T::times_spec(t3, x2), x1);
    lemma_three_factors(t2, x1, x3);
    // space component: t3 (t2 x1 + t1 x2) + (t1 t2 + x1 x2) x3 = (t2 t3 + x2 x3) x1 + t1 (t3 x2 + t2 x3)
    let xa = T::times_spec(t3, T::times_spec(t2, x1));
    let xb = T::times_spec(t3, T::times_spec(t1, x2));
    let xc = T::times_spec(T::times_spec(t1, t2), x3);
    let xd = T::times_spec(T::times_spec(x1, x2), x3);
    lemma_times_distributes_left(t3, T::times_spec(t2, x1), T::times_spec(t1, x2));
    lemma_times_distributes_right(T::times_spec(t1, t2), T::times_spec(x1, x2), x3);
    lemma_regroup(xa, xb, xc, xd);
    lemma_times_distributes_right(T::times_spec(t2, t3), T::times_spec(x2, x3), x1);
    lemma_three_factors(t2, t3, x1);
    lemma_times_commutes(x1, t2);
    lemma_three_factors(x1, x2, x3);
    lemma_times_commutes(x3, T::times_spec(x1, x2));
    lemma_times_commutes(x1, T::times_spec(x2, x3));
    lemma_times_distributes_left(t1, T::times_spec(t3, x2), T::times_spec(t2, x3));
    lemma_three_factors(t1, t3, x2);
    lemma_three_factors(t1, t2, x3);
}

proof fn lemma_units<T: Ring>(a: T)
    requires
        commutative_ring_laws::<T>(),
    ensures
        T::times_spec(a, T::one_spec()) == a,
        T::times_spec(a, T::zero_spec()) == T::zero_spec(),
        T::plus_spec(a, T::zero_spec()) == a,
        T::plus_spec(T::zero_spec(), a) == a,
{
    reveal(commutative_ring_laws);
    assert(T::plus_spec(T::zero_spec(), a) == T::plus_spec(a, T::zero_spec()));
}

proof fn lemma_one_is_identity<T: Ring>(a: Perplex<T>)
    requires
        commutative_ring_laws::<T>(),
    ensures
        Perplex::<T>::one_spec().mul_spec(a) == a,
        a.mul_spec(Perplex::<T>::one_spec()) == a,
{
    lemma_units(a.t);
    lemma_units(a.x);
    lemma_units(T::zero_spec());
    lemma_times_commutes(T::one_spec(), a.t);
    lemma_times_commutes(T::one_spec(), a.x);
    lemma_times_commutes(T::zero_spec(), a.x);
}

/// Over a commutative ring of scalars, the product of perplex numbers is
/// associative and has `1` as identity.
pub proof fn lemma_mul_monoid<T: Ring>()
    requires
        commutative_ring_laws::<T>(),
    ensures
        mul_monoid_laws::<T>(),
{
    assert forall|a: Perplex<T>, b: Perplex<T>, c: Perplex<T>|
        #[trigger] a.mul_spec(b).mul_spec(c) == a.mul_spec(b.mul_spec(c)) by {
        lemma_mul_associative(a, b, c);
    }
    assert forall|a: Perplex<T>|
        #![trigger Perplex::<T>::one_spec().mul_spec(a)]
        #![trigger a.mul_spec(Perplex::<T>::one_spec())]
        Perplex::<T>::one_spec().mul_spec(a) == a && a.mul_spec(Perplex::<T>::one_spec()) == a by {
        lemma_one_is_identity(a);
    }
}

/// Over a commutative ring of scalars (exact arithmetic), `z` to the power
/// `n` by squaring equals the product of `n` factors `z`.
pub proof fn lemma_powu_is_repeated_product<T: Ring>(z: Perplex<T>, n: u32)
    requires
        commutative_ring_laws::<T>(),
    ensures
        z.powu_spec(n) == z.power_spec(n as nat),
{
    lemma_mul_monoid::<T>();
    lemma_squaring_is_power(z, n);
}

/// The scalar operations form a field: a commutative ring in which a product
/// divided by a factor other than zero gives back the other factor.
pub open spec fn field_laws<T: Field>() -> bool {
    &&& commutative_ring_laws::<T>()
    &&& forall|a: T, b: T|
        !T::is_equal_spec(b, T::zero_spec()) ==> #[trigger] T::divided_by_spec(T::times_spec(a, b), b)
            == a
}

/// A value whose sum with `y` is zero is the negation of `y`.
proof fn lemma_negation_unique<T: Ring>(x: T, y: T)
    requires
        commutative_ring_laws::<T>(),
        T::plus_spec(x, y) == T::zero_spec(),
    ensures
        x == T::negated_spec(y),
{
    reveal(commutative_ring_laws);
    let n = T::negated_spec(y);
    assert(T::plus_spec(x, T::plus_spec(y, n)) == T::plus_spec(T::plus_spec(x, y), n));
    assert(T::plus_spec(T::zero_spec(), n) == T::plus_spec(n, T::zero_spec()));
}

proof fn lemma_times_negated<T: Ring>(a: T, b: T)
    requires
        commutative_ring_laws::<T>(),
    ensures
        T::times_spec(a, T::negated_spec(b)) == T::negated_spec(T::times_spec(a, b)),
{
    let u = T::times_spec(a, T::negated_spec(b));
    let v = T::times_spec(a, b);
    lemma_times_distributes_left(a, b, T::negated_spec(b));
    lemma_negation_cancels(b, b);
    lemma_units(a);
    lemma_plus_commutes(u, v);
    lemma_negation_unique(u, v);
}

/// `(a + c) − (c + b) = a − b`.
proof fn lemma_cancel<T: Ring>(a: T, b: T, c: T)
    requires
        commutative_ring_laws::<T>(),
    ensures
        T::minus_spec(T::plus_spec(a, c), T::plus_spec(c, b)) == T::minus_spec(a, b),
{
    let nb = T::negated_spec(b);
    let nc = T::negated_spec(c);
    let s = T::plus_spec(c, b);
    let n = T::plus_spec(nc, nb);
    // −(c + b) = (−c) + (−b)
    lemma_plus_commutes(c, b);
    lemma_regroup(nc, nb, b, c);
    lemma_plus_commutes(nc, c);
    lemma_plus_commutes(nb, b);
    lemma_negation_cancels(c, b);
    lemma_negation_cancels(b, b);
    lemma_units(T::zero_spec());
    lemma_negation_unique(n, s);
    // (a + c) + ((−c) + (−b)) = a + (−b)
    lemma_negation_cancels(T::plus_spec(a, c), s);
    lemma_negation_cancels(a, b);
    lemma_plus_associates(a, c, n);
    lemma_plus_associates(c, nc, nb);
    lemma_units(nb);
}

/// `t1 (t2 t2 − x2 x2) = (t1 t2 + x1 x2) t2 − (t2 x1 + t1 x2) x2`.
proof fn lemma_time_numerator<T: Ring>(t1: T, x1: T, t2: T, x2: T)
    requires
        commutative_ring_laws::<T>(),
    ensures
        T::minus_spec(
            T::times_spec(T::plus_spec(T::times_spec(t1, t2), T::times_spec(x1, x2)), t2),
            T::times_spec(T::plus_spec(T::times_spec(t2, x1), T::times_spec(t1, x2)), x2),
        ) == T::times_spec(t1, T::minus_spec(T::times_spec(t2, t2), T::times_spec(x2, x2))),
{
    let a = T::times_spec(t1, T::times_spec(t2, t2));
    let b = T::times_spec(t1, T::times_spec(x2, x2));
    let c = T::times_spec(T::times_spec(x1, x2), t2);
    lemma_times_distributes_right(T::times_spec(t1, t2), T::times_spec(x1, x2), t2);
    lemma_times_distributes_right(T::times_spec(t2, x1), T::times_spec(t1, x2), x2);
    lemma_three_factors(t1, t2, t2);
    lemma_three_factors(t1, x2, x2);
    lemma_three_factors(x1, x2, t2);
    lemma_three_factors(t2, x1, x2);
    lemma_times_commutes(x2, t2);
    lemma_cancel(a, b, c);
    lemma_negation_cancels(a, b);
    lemma_negation_cancels(T::times_spec(t2, t2), T::times_spec(x2, x2));
    lemma_times_distributes_left(t1, T::times_spec(t2, t2), T::negated_spec(T::times_spec(x2, x2)));
    lemma_times_negated(t1, T::times_spec(x2, x2));
}

/// `x1 (t2 t2 − x2 x2) = t2 (t2 x1 + t1 x2) − (t1 t2 + x1 x2) x2`.
proof fn lemma_space_numerator<T: Ring>(t1: T, x1: T, t2: T, x2: T)
    requires
        commutative_ring_laws::<T>(),
    ensures
        T::minus_spec(
            T::times_spec(t2, T::plus_spec(T::times_spec(t2, x1), T::times_spec(t1, x2))),
            T::times_spec(T::plus_spec(T::times_spec(t1, t2), T::times_spec(x1, x2)), x2),
        ) == T::times_spec(x1, T::minus_spec(T::times_spec(t2, t2), T::times_spec(x2, x2))),
{
    let a = T::times_spec(x1, T::times_spec(t2, t2));
    let b = T::times_spec(x1, T::times_spec(x2, x2));
    let c = T::times_spec(T::times_spec(t1, t2), x2);
    lemma_times_distributes_left(t2, T::times_spec(t2, x1), T::times_spec(t1, x2));
    lemma_times_distributes_right(T::times_spec(t1, t2), T::times_spec(x1, x2), x2);
    lemma_three_factors(t2, t2, x1);
    lemma_times_commutes(x1, T::times_spec(t2, t2));
    lemma_three_factors(t2, t1, x2);
    lemma_times_commutes(t2, t1);
    lemma_three_factors(x1, x2, x2);
    lemma_cancel(a, b, c);
    lemma_negation_cancels(a, b);
    lemma_negation_cancels(T::times_spec(t2, t2), T::times_spec(x2, x2));
    lemma_times_distributes_left(x1, T::times_spec(t2, t2), T::negated_spec(T::times_spec(x2, x2)));
    lemma_times_negated(x1, T::times_spec(x2, x2));
}

/// Over a field of scalars, a product divided by a factor that is not
/// light-like gives back the other factor.
pub proof fn lemma_div_undoes_mul<T: Field>(z1: Perplex<T>, z2: Perplex<T>)
    requires
        field_laws::<T>(),
        !z2.light_like_spec(),
    ensures
        z1.mul_spec(z2).div_spec(z2) == Some(z1),
{
    lemma_time_numerator(z1.t, z1.x, z2.t, z2.x);
    lemma_space_numerator(z1.t, z1.x, z2.t, z2.x);
    let d = z2.distance_spec();
    assert(T::divided_by_spec(T::times_spec(z1.t, d), d) == z1.t);
    assert(T::divided_by_spec(T::times_spec(z1.x, d), d) == z1.x);
}

/// Reduction of an integer to `i64` modulo 2^64, as wrapping arithmetic does.
spec fn crop(x: int) -> i64 {
    vstd::wrapping::i64_specs::signed_crop(x)
}

proof fn lemma_crop_residue(x: int)
    ensures
        (crop(x) as int) % 0x1_0000_0000_0000_0000 == x % 0x1_0000_0000_0000_0000,
        forall|y: int|
            y % 0x1_0000_0000_0000_0000 == x % 0x1_0000_0000_0000_0000 ==> #[trigger] crop(y)
                == crop(x),
{
    let m: int = 0x1_0000_0000_0000_0000;
    let r = x % m;
    assert(0 <= r < m);
    if r > i64::MAX {
        assert((r - m) % m == r % m) by {
            vstd::arithmetic::div_mod::lemma_mod_sub_multiples_vanish(r, m);
        }
    }
    vstd::arithmetic::div_mod::lemma_mod_twice(x, m);
}

proof fn lemma_crop_of_i64(a: i64)
    ensures
        crop(a as int) == a,
{
    let m: int = 0x1_0000_0000_0000_0000;
    if a < 0 {
        assert((a as int) % m == a + m) by {
            vstd::arithmetic::div_mod::lemma_mod_multiples_vanish(1, a as int, m);
            vstd::arithmetic::div_mod::lemma_small_mod((a + m) as nat, m as nat);
        }
    } else {
        vstd::arithmetic::div_mod::lemma_small_mod(a as nat, m as nat);
    }
}

proof fn lemma_wrapping_is_crop(a: i64, b: i64)
    ensures
        a.wrapping_add(b) == crop(a + b),
        a.wrapping_sub(b) == crop(a - b),
        a.wrapping_mul(b) == crop(a * b),
{
    let m: int = 0x1_0000_0000_0000_0000;
    let s = a + b;
    let d = a - b;
    if s > i64::MAX {
        lemma_crop_of_i64((s - m) as i64);
        lemma_crop_residue(s - m);
        assert((s - m) % m == s % m) by {
            vstd::arithmetic::div_mod::lemma_mod_sub_multiples_vanish(s, m);
        }
        lemma_crop_residue(s);
    } else if s < i64::MIN {
        lemma_crop_of_i64((s + m) as i64);
        lemma_crop_residue(s + m);
        assert((s + m) % m == s % m) by {
            vstd::arithmetic::div_mod::lemma_mod_multiples_vanish(1, s, m);
        }
        lemma_crop_residue(s);
    } else {
        lemma_crop_of_i64(s as i64);
    }
    if d > i64::MAX {
        lemma_crop_of_i64((d - m) as i64);
        lemma_crop_residue(d - m);
        assert((d - m) % m == d % m) by {
            vstd::arithmetic::div_mod::lemma_mod_sub_multiples_vanish(d, m);
        }
        lemma_crop_residue(d);
    } else if d < i64::MIN {
        lemma_crop_of_i64((d + m) as i64);
        lemma_crop_residue(d + m);
        assert((d + m) % m == d % m) by {
            vstd::arithmetic::div_mod::lemma_mod_multiples_vanish(1, d, m);
        }
        lemma_crop_residue(d);
    } else {
        lemma_crop_of_i64(d as i64);
    }
}

/// Machine integers with wrapping arithmetic (the integers modulo 2^64) form a
/// commutative ring, so the laws above hold of `Perplex<i64>`.
pub proof fn lemma_i64_commutative_ring()
    ensures
        commutative_ring_laws::<i64>(),
{
    reveal(commutative_ring_laws);
    let m: int = 0x1_0000_0000_0000_0000;
    assert forall|a: i64, b: i64|
        #[trigger] <i64 as Ring>::plus_spec(a, b) == <i64 as Ring>::plus_spec(b, a) by {
        lemma_wrapping_is_crop(a, b);
        lemma_wrapping_is_crop(b, a);
    }
    assert forall|a: i64, b: i64, c: i64|
        #[trigger] <i64 as Ring>::plus_spec(<i64 as Ring>::plus_spec(a, b), c)
            == <i64 as Ring>::plus_spec(a, <i64 as Ring>::plus_spec(b, c)) by {
        let ab = a.wrapping_add(b);
        let bc = b.wrapping_add(c);
        lemma_wrapping_is_crop(a, b);
        lemma_wrapping_is_crop(b, c);
        lemma_wrapping_is_crop(ab, c);
        lemma_wrapping_is_crop(a, bc);
        lemma_crop_residue(a + b);
        lemma_crop_residue(b + c);
        vstd::arithmetic::div_mod::lemma_add_mod_noop(ab as int, c as int, m);
        vstd::arithmetic::div_mod::lemma_add_mod_noop(a + b, c as int, m);
        vstd::arithmetic::div_mod::lemma_add_mod_noop(a as int, bc as int, m);
        vstd::arithmetic::div_mod::lemma_add_mod_noop(a as int, b + c, m);
        lemma_crop_residue(a + b + c);
    }
    assert forall|a: i64, b: i64|
        #[trigger] <i64 as Ring>::times_spec(a, b) == <i64 as Ring>::times_spec(b, a) by {
        lemma_wrapping_is_crop(a, b);
        lemma_wrapping_is_crop(b, a);
        assert(a * b == b * a) by (nonlinear_arith);
    }
    assert forall|a: i64, b: i64, c: i64|
        #[trigger] <i64 as Ring>::times_spec(<i64 as Ring>::times_spec(a, b), c)
            == <i64 as Ring>::times_spec(a, <i64 as Ring>::times_spec(b, c)) by {
        let ab = a.wrapping_mul(b);
        let bc = b.wrapping_mul(c);
        lemma_wrapping_is_crop(a, b);
        lemma_wrapping_is_crop(b, c);
        lemma_wrapping_is_crop(ab, c);
        lemma_wrapping_is_crop(a, bc);
        lemma_crop_residue(a * b);
        lemma_crop_residue(b * c);
        vstd::arithmetic::div_mod::lemma_mul_mod_noop_left(ab as int, c as int, m);
        vstd::arithmetic::div_mod::lemma_mul_mod_noop_left(a * b, c as int, m);
        vstd::arithmetic::div_mod::lemma_mul_mod_noop_right(a as int, bc as int, m);
        vstd::arithmetic::div_mod::lemma_mul_mod_noop_right(a as int, b * c, m);
        assert((a * b) * c == a * (b * c)) by (nonlinear_arith);
        lemma_crop_residue(a * (b * c));
    }
    assert forall|a: i64, b: i64, c: i64|
        #[trigger] <i64 as Ring>::times_spec(a, <i64 as Ring>::plus_spec(b, c))
            == <i64 as Ring>::plus_spec(
            <i64 as Ring>::times_spec(a, b),
            <i64 as Ring>::times_spec(a, c),
        ) by {
        let bc = b.wrapping_add(c);
        let ab = a.wrapping_mul(b);
        let ac = a.wrapping_mul(c);
        lemma_wrapping_is_crop(b, c);
        lemma_wrapping_is_crop(a, b);
        lemma_wrapping_is_crop(a, c);
        lemma_wrapping_is_crop(a, bc);
        lemma_wrapping_is_crop(ab, ac);
        lemma_crop_residue(b + c);
        lemma_crop_residue(a * b);
        lemma_crop_residue(a * c);
        vstd::arithmetic::div_mod::lemma_mul_mod_noop_right(a as int, bc as int, m);
        vstd::arithmetic::div_mod::lemma_mul_mod_noop_right(a as int, b + c, m);
        vstd::arithmetic::div_mod::lemma_add_mod_noop(ab as int, ac as int, m);
        vstd::arithmetic::div_mod::lemma_add_mod_noop(a * b, a * c, m);
        assert(a * (b + c) == a * b + a * c) by (nonlinear_arith);
        lemma_crop_residue(a * b + a * c);
    }
    assert forall|a: i64| #[trigger] <i64 as Ring>::plus_spec(a, 0) == a by {
        lemma_wrapping_is_crop(a, 0);
        lemma_crop_of_i64(a);
    }
    assert forall|a: i64| #[trigger] <i64 as Ring>::times_spec(a, 1) == a by {
        lemma_wrapping_is_crop(a, 1);
        lemma_crop_of_i64(a);
    }
    assert forall|a: i64| #[trigger] <i64 as Ring>::times_spec(a, 0) == 0i64 by {
        lemma_wrapping_is_crop(a, 0);
        lemma_crop_of_i64(0);
    }
    assert forall|a: i64, b: i64|
        #[trigger] <i64 as Ring>::minus_spec(a, b) == <i64 as Ring>::plus_spec(
            a,
            <i64 as Ring>::negated_spec(b),
        ) by {
        let nb = 0i64.wrapping_sub(b);
        lemma_wrapping_is_crop(0, b);
        lemma_wrapping_is_crop(a, b);
        lemma_wrapping_is_crop(a, nb);
        lemma_crop_residue(0 - b);
        vstd::arithmetic::div_mod::lemma_add_mod_noop(a as int, nb as int, m);
        vstd::arithmetic::div_mod::lemma_add_mod_noop(a as int, 0 - b, m);
        lemma_crop_residue(a - b);
    }
    assert forall|a: i64| #[trigger] <i64 as Ring>::plus_spec(a, <i64 as Ring>::negated_spec(a)) == 0i64 by {
        let na = 0i64.wrapping_sub(a);
        lemma_wrapping_is_crop(0, a);
        lemma_wrapping_is_crop(a, na);
        lemma_crop_residue(0 - a);
        vstd::arithmetic::div_mod::lemma_add_mod_noop(a as int, na as int, m);
        vstd::arithmetic::div_mod::lemma_add_mod_noop(a as int, 0 - a, m);
        lemma_crop_of_i64(0);
        lemma_crop_residue(0);
    }
}

/// On both light-like diagonals the polar form gives back the number exactly:
/// `(t, t)` and `(t, −t)` for a `t` that equals itself and not its negation
/// (for a floating-point scalar: finite or infinite, not zero, not NaN), where
/// `|t| = |−t|` and the two infinities differ.
pub proof fn lemma_polar_round_trip_on_diagonals<T: Field>(t: T)
    requires
        T::is_equal_spec(t, t),
        !T::is_equal_spec(t, T::negated_spec(t)),
        T::absolute_spec(T::negated_spec(t)) == T::absolute_spec(t),
        T::is_equal_spec(T::absolute_spec(t), T::absolute_spec(t)),
        T::is_equal_spec(T::infinity_spec(), T::infinity_spec()),
        !T::is_equal_spec(T::neg_infinity_spec(), T::infinity_spec()),
    ensures
        (Perplex { t, x: t }).polar_spec().to_perplex_spec() == (Perplex { t, x: t }),
        (Perplex { t, x: T::negated_spec(t) }).polar_spec().to_perplex_spec() == (Perplex {
            t,
            x: T::negated_spec(t),
        }),
        (Perplex { t, x: t }).polar_spec().sector == HyperbolicSector::Diagonal(t),
        (Perplex { t, x: T::negated_spec(t) }).polar_spec().sector == HyperbolicSector::Diagonal(t),
{
}

} // verus!

//! Perplex numbers (split-complex or hyperbolic numbers): pairs `(t, x)` with
//! the product `(t1, x1)(t2, x2) = (t1 t2 + x1 x2, t1 x2 + t2 x1)`.
//!
//! The library is generic over the scalar type of the two components. The
//! capabilities it needs of that type are two traits: [`Ring`] for the
//! operations of an ordered ring, [`Field`] for division and the elementary
//! functions of a floating-point type. Each scalar operation has a name at
//! the level of specifications, and every operation on perplex numbers states
//! its result exactly over those names, rounding included.
//!
//! Division by a light-like number (a zero divisor) has no result: `div`,
//! `try_inverse`, `ln`, `tan` and `tanh` return `None` there. Only the
//! in-place `div_assign` divides regardless, which leaves NaN components for a
//! floating-point scalar.

mod laws;
mod ops;
mod perplex;
mod polar;
mod power;
mod scalar;

pub use laws::{
    commutative_ring_laws, field_laws, lemma_div_undoes_mul, lemma_i64_commutative_ring, lemma_mul_monoid,
    lemma_polar_round_trip_on_diagonals, lemma_powu_is_repeated_product,
};
pub use ops::lemma_div_by_light_like;
pub use perplex::{lemma_classification_exclusive, Perplex};
pub use polar::{HyperbolicPolar, HyperbolicSector};
pub use power::mul_monoid_laws;
pub use scalar::{Field, Ring};

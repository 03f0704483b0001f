use approx::AbsDiffEq;
use perplex_num::{Field, HyperbolicPolar, HyperbolicSector, Perplex, Ring};
use std::f64::consts::PI;

/// An `f64` scalar for the perplex numbers under test.
#[derive(Copy, Clone, PartialEq, PartialOrd, Debug)]
struct F(f64);

impl Ring for F {
    fn zero() -> F {
        F(0.0)
    }
    fn one() -> F {
        F(1.0)
    }
    fn plus(self, o: F) -> F {
        F(self.0 + o.0)
    }
    fn minus(self, o: F) -> F {
        F(self.0 - o.0)
    }
    fn times(self, o: F) -> F {
        F(self.0 * o.0)
    }
    fn negated(self) -> F {
        F(-self.0)
    }
    fn is_equal(self, o: F) -> bool {
        self.0 == o.0
    }
    fn is_less(self, o: F) -> bool {
        self.0 < o.0
    }
    fn absolute(self) -> F {
        F(self.0.abs())
    }
    fn maximum(self, o: F) -> F {
        F(self.0.max(o.0))
    }

    // The specification items of the traits exist in the compiled library
    // too; each is defined as the operation it names.
    fn zero_spec() -> F {
        F::zero()
    }
    fn one_spec() -> F {
        F::one()
    }
    fn plus_spec(a: F, b: F) -> F {
        a.plus(b)
    }
    fn minus_spec(a: F, b: F) -> F {
        a.minus(b)
    }
    fn times_spec(a: F, b: F) -> F {
        a.times(b)
    }
    fn negated_spec(a: F) -> F {
        a.negated()
    }
    fn is_equal_spec(a: F, b: F) -> bool {
        a.is_equal(b)
    }
    fn is_less_spec(a: F, b: F) -> bool {
        a.is_less(b)
    }
    fn absolute_spec(a: F) -> F {
        a.absolute()
    }
    fn maximum_spec(a: F, b: F) -> F {
        a.maximum(b)
    }
    fn comparable(a: F, b: F) -> bool {
        !a.0.is_nan() && !b.0.is_nan()
    }
    fn lemma_trichotomy(_a: F, _b: F) {}
}

impl Field for F {
    fn divided_by(self, o: F) -> F {
        F(self.0 / o.0)
    }
    fn sqrt(self) -> F {
        F(self.0.sqrt())
    }
    fn exp(self) -> F {
        F(self.0.exp())
    }
    fn ln(self) -> F {
        F(self.0.ln())
    }
    fn atanh(self) -> F {
        F(self.0.atanh())
    }
    fn sin(self) -> F {
        F(self.0.sin())
    }
    fn cos(self) -> F {
        F(self.0.cos())
    }
    fn sinh(self) -> F {
        F(self.0.sinh())
    }
    fn cosh(self) -> F {
        F(self.0.cosh())
    }
    fn powi(self, n: i32) -> F {
        F(self.0.powi(n))
    }
    fn from_u32(n: u32) -> F {
        F(n as f64)
    }
    fn infinity() -> F {
        F(f64::INFINITY)
    }
    fn neg_infinity() -> F {
        F(f64::NEG_INFINITY)
    }
    fn is_nan(self) -> bool {
        self.0.is_nan()
    }
    fn is_infinite(self) -> bool {
        self.0.is_infinite()
    }
    fn is_finite(self) -> bool {
        self.0.is_finite()
    }
    fn is_normal(self) -> bool {
        self.0.is_normal()
    }
    fn divided_by_spec(a: F, b: F) -> F {
        a.divided_by(b)
    }
    fn sqrt_spec(a: F) -> F {
        a.sqrt()
    }
    fn exp_spec(a: F) -> F {
        a.exp()
    }
    fn ln_spec(a: F) -> F {
        a.ln()
    }
    fn atanh_spec(a: F) -> F {
        a.atanh()
    }
    fn sin_spec(a: F) -> F {
        a.sin()
    }
    fn cos_spec(a: F) -> F {
        a.cos()
    }
    fn sinh_spec(a: F) -> F {
        a.sinh()
    }
    fn cosh_spec(a: F) -> F {
        a.cosh()
    }
    fn powi_spec(a: F, n: i32) -> F {
        a.powi(n)
    }
    fn from_u32_spec(n: u32) -> F {
        F::from_u32(n)
    }
    fn infinity_spec() -> F {
        F::infinity()
    }
    fn neg_infinity_spec() -> F {
        F::neg_infinity()
    }
    fn is_nan_spec(a: F) -> bool {
        a.is_nan()
    }
    fn is_infinite_spec(a: F) -> bool {
        a.is_infinite()
    }
    fn is_finite_spec(a: F) -> bool {
        a.is_finite()
    }
    fn is_normal_spec(a: F) -> bool {
        a.is_normal()
    }
}

fn p(t: f64, x: f64) -> Perplex<F> {
    Perplex::new(F(t), F(x))
}

fn close_by(a: Perplex<F>, b: Perplex<F>, epsilon: f64) -> bool {
    a.t.0.abs_diff_eq(&b.t.0, epsilon) && a.x.0.abs_diff_eq(&b.x.0, epsilon)
}

fn close(a: Perplex<F>, b: Perplex<F>) -> bool {
    close_by(a, b, f64::EPSILON)
}

#[test]
fn test_add() {
    let z1 = p(1.0, 2.0);
    let one = Perplex::one();
    let zero = Perplex::zero();
    assert_eq!(z1.add(one).add(zero), p(2.0, 2.0), "Componentwise addition!");
    assert_eq!(
        z1.add(z1.conj()),
        p(2.0, 0.0),
        "Addition of conjugate zeros the hyperbolic part!"
    );
    let mut z2 = p(-3.0, 2.0);
    let z12 = z1.add(z2);
    z2.add_assign(z1);
    assert_eq!(z12, z2, "AddAssign yields same result as Add!");
}

#[test]
fn test_sub() {
    let z1 = p(1.0, 2.0);
    let one = Perplex::one();
    let zero = Perplex::zero();
    assert_eq!(z1.sub(one).sub(zero), p(0.0, 2.0), "Componentwise subtraction!");
    assert_eq!(
        z1.sub(z1.conj()),
        p(0.0, 4.0),
        "Subtraction of conjugate doubles the hyperbolic part!"
    );
    let mut z2 = p(-3.0, 2.0);
    let z12 = z2.sub(z1);
    z2.sub_assign(z1);
    assert_eq!(z12, z2, "SubAssign yields same result as Sub!");
}

#[test]
fn test_mul() {
    let z1 = p(1.0, 2.0);
    let one = Perplex::one();
    let zero = Perplex::zero();
    assert_eq!(z1.mul(one), z1, "Neutral element of multiplication yields same element!");
    assert_eq!(z1.mul(zero), zero, "Neutral element of addition yields zero!");
    let mut z2 = p(-1.0, 2.0);
    let z12 = z1.mul(z2);
    z2.mul_assign(z1);
    assert_eq!(z2, p(3.0, 0.0), "Multiplication formula!");
    assert_eq!(z12, z2, "MulAssign yields same result as Mul!");
}

#[test]
fn test_div() {
    let z1 = p(1.0, 2.0);
    let one = Perplex::one();
    let zero = Perplex::zero();
    assert_eq!(
        z1.div(one).unwrap(),
        z1,
        "Division of neutral element of multiplication yields same element!"
    );
    assert!(z1.div(zero).is_none(), "Division of neutral element of addition yields none!");
    let z2 = p(-1.0, 2.0);
    let mut z12 = z1.mul(z2);
    let div_result = z12.div(z2);
    assert!(div_result.is_some(), "Division of product by multiplier is valid!");
    assert_eq!(div_result.unwrap(), z1, "Division of product by multiplier gives multiplicand.");
    z12.div_assign(z2);
    assert_eq!(z12, z1, "DivAssign yields same result as Div!");

    let z2 = p(-1.0, 1.0);
    let mut z12 = z1.mul(z2);
    assert_eq!(z12, p(1.0, -1.0), "Multiplication formula!");
    assert!(z2.is_light_like(), "-1 + j is light-like!");
    assert!(z12.div(z2).is_none(), "Division is not defined for light-like numbers!");
    z12.div_assign(z2);
    assert!(z12.t.0.is_nan() && z12.x.0.is_nan(), "DivAssign for light-like number yields NaN!");
}

#[test]
fn test_scalar() {
    let z1 = p(1.0, 2.0);
    assert_eq!(z1.add_scalar(F(2.0)), p(3.0, 2.0), "Addition of scalar only on time component!");
    assert_eq!(
        z1.sub_scalar(F(2.0)),
        p(-1.0, 2.0),
        "Subtraction of scalar only on time component!"
    );
    assert_eq!(z1.mul_scalar(F(2.0)), p(2.0, 4.0), "Componentwise scalar multiplication!");
    assert_eq!(z1.div_scalar(F(2.0)), p(0.5, 1.0), "Componentwise scalar division!");
}

#[test]
fn test_scalar_assign() {
    let mut z1 = p(1.0, 2.0);
    z1.add_scalar_assign(F(2.0));
    assert_eq!(z1, p(3.0, 2.0), "AddAssign of scalar only on time component!");
    z1.sub_scalar_assign(F(2.0));
    assert_eq!(z1, p(1.0, 2.0), "SubAssign of scalar only on time component!");
    z1.mul_scalar_assign(F(2.0));
    assert_eq!(z1, p(2.0, 4.0), "MulAssign componentwise scalar multiplication!");
    z1.div_scalar_assign(F(2.0));
    assert_eq!(z1, p(1.0, 2.0), "DivAssign componentwise scalar division!");
}

#[test]
fn test_mul_add() {
    let mut z1 = p(1.0, 2.0);
    let z_mul = p(-1.0, 2.0);
    let z_add = p(-2.0, 1.0);
    let z = z1.mul_add(z_mul, z_add);
    z1.mul_add_assign(z_mul, z_add);
    assert_eq!(z, p(1.0, 1.0), "Multiplication formula and addition!");
    assert_eq!(z, z1, "MulAddAssign yields same result as MulAdd!");
}

#[test]
fn test_components() {
    let z = p(1.1, 2.2);
    assert_eq!(z.real_part(), F(1.1));
    assert_eq!(z.hyperbolic(), F(2.2));
    assert_eq!(z.scale(F(2.0)), p(2.2, 4.4));
    assert_eq!(
        Perplex::from(F(2.0)),
        p(2.0, 0.0),
        "Converting a number t into a Perplex yields time-component t and zero space component!"
    )
}

#[test]
fn test_norm() {
    let z = p(2.0, -1.0);
    assert!(z.is_time_like());
    assert_eq!(z.modulus(), F(f64::sqrt(3.0)), "2 - h has a norm of √3");
    let z = p(1.0, -1.0);
    assert!(z.is_light_like());
    assert_eq!(z.magnitude(), F(0.0), "1 - h has a norm of zero");
    let z = p(-1.0, 2.0);
    assert!(z.is_space_like());
    assert_eq!(z.norm(), F(f64::sqrt(3.0)), "-1 + 2h has a norm of √3");
    assert_eq!(z.l1_norm(), F(3.0), "-1 + 2h has a l1 norm of 3");
    assert_eq!(z.l2_norm(), F(f64::sqrt(5.0)), "-1 + 2h has a l2 norm of √5");
    assert_eq!(z.max_norm(), F(2.0), "-1 + 2h has a max norm of 2");
}

#[test]
fn test_log() {
    let z = p(2.0, 1.0);
    let z_ln = z.ln().unwrap();
    let z_log = z.log(F(2.0)).unwrap();
    assert_eq!(z_log, z_ln.div_scalar(F(f64::ln(2.0))));
}

#[test]
fn test_logarithm_exponential() {
    let z = p(2.0, 1.0);
    let ln_result = z.ln();
    assert!(ln_result.is_some(), "Natural logarithm is defined for time-like 2 + h!");
    assert!(close(ln_result.unwrap().exp(), z));

    let z = p(-2.0, 1.0);
    let ln_result = z.ln();
    assert!(ln_result.is_some(), "Natural logarithm is defined for time-like -2 + h!");
    assert!(close(ln_result.unwrap().exp(), z));

    let z = p(1.0, 2.0);
    let ln_result = z.ln();
    assert!(ln_result.is_some(), "Natural logarithm is defined for space-like 1 + 2h!");
    assert!(close(ln_result.unwrap().exp(), z));

    let z = p(1.0, -2.0);
    let ln_result = z.ln();
    assert!(ln_result.is_some(), "Natural logarithm is defined for space-like 1 - 2h!");
    assert!(close(ln_result.unwrap().exp(), z));
}

#[test]
fn test_exponential_logarithm() {
    let z = p(2.0, 1.0);
    assert!(close_by(z.exp().ln().unwrap(), z, 0.00001));
    let z = p(-2.0, 1.0);
    assert!(close_by(z.exp().ln().unwrap(), z, 0.00001));
    let z = p(1.0, 2.0);
    assert!(close_by(z.exp().ln().unwrap(), z, 0.00001));
    let z = p(1.0, -2.0);
    assert!(close_by(z.exp().ln().unwrap(), z, 0.00001));
}

#[test]
fn test_trigonometric() {
    let z = p(PI, PI / 2.0).sin();
    assert!(close(z, p(0.0, -1.0)));
    assert!(
        z.tan().is_some(),
        "Tangens of z should be defined since cos(z) is not light-like!"
    );
    let zero: Perplex<F> = Perplex::zero();
    assert!(close(zero.sinh(), zero));
    let z = p(1.0, 0.0);
    let expected_tanh = p(z.t.0.tanh(), 0.0);
    assert_eq!(
        z.tanh(),
        Some(expected_tanh),
        "Tanh of z should be defined since cosh(z) is not light-like!"
    );
}

#[test]
fn test_sqrt() {
    let z_right = p(2.0, 1.0);
    assert!(
        z_right.sqrt().is_some(),
        "Sqrt should be defined for Perplex numbers in the Right sector."
    );
    if let Some(sqrt_z) = z_right.sqrt() {
        assert!(close_by(sqrt_z.powu(2), z_right, 1e-10));
    }
    let z_left = p(-2.0, 1.0);
    assert!(
        z_left.sqrt().is_none(),
        "Sqrt should not be defined for Perplex numbers in the Left sector."
    );
}

#[test]
fn test_core() {
    let z = p(1.0, 2.0);
    assert!(z.is_finite(), "Perplex number with finite components is finite!");
    assert!(z.is_normal(), "Perplex number with finite components is normal!");
    assert!(!z.is_infinite(), "Perplex number with finite components is not infinite!");
    assert!(!z.is_nan(), "Perplex number with finite components is not NAN!");
    let z = p(f64::NAN, 1.0);
    assert!(z.is_nan(), "Perplex number with a NaN component is NAN!")
}

#[test]
fn test_const() {
    let mut z = p(0.0, 2.0);
    assert!(!z.is_one(), "Perplex number a zero component is not one!");
    assert!(!z.is_zero(), "Perplex number with non-zero component is not zero!");
    z.set_one();
    assert_eq!(Perplex::one(), z, "Perplex number set to one equals one!");
    assert!(z.is_one(), "Perplex number set to one is one!");
    z.set_zero();
    assert_eq!(Perplex::zero(), z, "Perplex number set to zero equals zero!");
    assert!(z.is_zero(), "Perplex number set to zero is zero!");

    assert!(!z.is_infinite(), "Perplex number with finite components is not infinite!");
    assert!(!z.is_nan(), "Perplex number with finite components is not NAN!");
    let z = p(f64::NAN, 1.0);
    assert!(z.is_nan(), "Perplex number with a NaN component is NAN!")
}

#[test]
fn test_polar() {
    assert!(close_by(
        Perplex::<F>::default(),
        Perplex::from(HyperbolicPolar::default()),
        0.0001
    ));

    let z = p(1.0, 1.0);
    assert!(z.is_light_like(), "1 + h is light-like!");
    assert_eq!(z.arg(), F(f64::INFINITY), "Argument of 1 + h is infinity!");
    assert!(z.klein().is_none(), "Klein is not defined for light-like numbers!");
    assert_eq!(
        HyperbolicPolar::from(z),
        HyperbolicPolar {
            rho: F(0.0),
            theta: F(f64::INFINITY),
            sector: HyperbolicSector::Diagonal(F(1.0))
        },
        "Polar form of 1 + h!"
    );
    assert!(close_by(z, Perplex::from(HyperbolicPolar::from(z)), 0.0001));

    let z = p(1.0, -1.0);
    assert!(z.is_light_like(), "1 - h is light-like!");
    assert_eq!(z.arg(), F(f64::NEG_INFINITY), "Argument of 1 - h is  negative infinity!");
    assert!(z.klein().is_none(), "Klein is not defined for light-like numbers!");
    assert_eq!(
        HyperbolicPolar::from(z),
        HyperbolicPolar {
            rho: F(0.0),
            theta: F(f64::NEG_INFINITY),
            sector: HyperbolicSector::Diagonal(F(1.0))
        },
        "Polar form of 1 - h!"
    );
    assert!(close_by(z, Perplex::from(HyperbolicPolar::from(z)), 0.0001));

    let z = p(2.0, 1.0);
    assert!(z.is_time_like(), "2 + h is time-like!");
    assert_ne!(z.arg(), F(0.0), "2 + h has a non-zero argument!");
    assert_eq!(z.klein().unwrap(), p(1.0, 0.0), "2 + h is in the right-sector!");
    assert!(close_by(z, Perplex::from(HyperbolicPolar::from(z)), 0.0001));

    let z = p(-2.0, 1.0);
    assert!(z.is_time_like(), "-2 + h is time-like!");
    assert_ne!(z.arg(), F(0.0), "-2 + h has a non-zero argument!");
    assert_eq!(z.klein().unwrap(), p(-1.0, 0.0), "-2 + h is in the left-sector!");
    assert!(close_by(z, Perplex::from(HyperbolicPolar::from(z)), 0.0001));

    let z = p(1.0, 2.0);
    assert!(z.is_space_like(), "1 + 2h is space-like!");
    assert_ne!(z.arg(), F(0.0), "1 + 2h has a non-zero argument!");
    assert_eq!(z.klein().unwrap(), p(0.0, 1.0), "1 + 2h is in the up-sector!");
    assert!(close_by(z, Perplex::from(HyperbolicPolar::from(z)), 0.0001));

    let z = p(1.0, -2.0);
    assert!(z.is_space_like(), "1 - 2h is space-like!");
    assert_ne!(z.arg(), F(0.0), "1 - 2h has a non-zero argument!");
    assert_eq!(z.klein().unwrap(), p(0.0, -1.0), "1 - 2h is in the down-sector!");
    assert!(close_by(z, Perplex::from(HyperbolicPolar::from(z)), 0.0001));

    let z = Perplex::cis(F(PI / 2.0));
    assert!(close_by(z, Perplex::from(HyperbolicPolar::from(z)), 0.0001));
}

fn polar_mul_test_loop(z: Perplex<F>) {
    let polar = HyperbolicPolar::from(z);
    assert!(close(Perplex::default(), Perplex::from(polar.pow(0))));
    assert!(close_by(z, Perplex::from(polar.pow(1)), 0.0001));
    assert!(close_by(z.mul(z), Perplex::from(polar.pow(2)), 0.0001));
    assert!(close_by(z.mul(z).mul(z), Perplex::from(polar.pow(3)), 0.0001));
    assert!(close_by(z.mul(z).mul(z).mul(z), Perplex::from(polar.pow(4)), 0.0001));
}

#[test]
fn test_polar_multiplication() {
    let z = p(1.0, 1.0);
    polar_mul_test_loop(z);
    let z = p(1.0, -1.0);
    polar_mul_test_loop(z);
    let z = p(2.0, 1.0);
    polar_mul_test_loop(z);
    polar_mul_test_loop(z.inv().unwrap());
    let z = p(-2.0, 1.0);
    polar_mul_test_loop(z);
    polar_mul_test_loop(z.inv().unwrap());
    let z = p(1.0, 2.0);
    polar_mul_test_loop(z);
    polar_mul_test_loop(z.inv().unwrap());
    let z = p(1.0, -2.0);
    polar_mul_test_loop(z);
    polar_mul_test_loop(z.inv().unwrap());
    let z = Perplex::cis(F(PI / 2.0));
    polar_mul_test_loop(z);
    polar_mul_test_loop(z.inv().unwrap());
}

#[test]
fn test_polar_sector() {
    let perplex = p(1.0, 0.5);
    assert_eq!(perplex.sector(), HyperbolicSector::Right);
    let polar = perplex.polar();
    assert_eq!(polar.rho, F(f64::sqrt(0.75)));
    assert_eq!(polar.theta, perplex.arg());
    assert_eq!(polar.sector, HyperbolicSector::Right);
}

#[test]
fn test_inv() {
    let z = p(2.0, -1.0);
    let inv_result = z.inv();
    assert!(inv_result.is_some(), "2 - h is invertible!");
    assert_eq!(inv_result.unwrap(), p(2.0 / 3.0, 1.0 / 3.0));
}

#[test]
fn test_power_u32() {
    let z = p(1.0, -1.0);
    assert_eq!(z.powu(0), p(1.0, 0.0), "Power 0 yields neutral element of multiplication!");
    assert_eq!(z.mul(z), p(2.0, -2.0), "Multiplication with itself!");
    assert_eq!(z.powu(2), p(2.0, -2.0), "Power 2 yields multiplication with itself!");
    assert_eq!(z.powu(3), p(4.0, -4.0), "Power 3 multiplication result!");
    let z = p(PI, -0.123);
    assert_eq!(z.powu(3), z.mul(z).mul(z), "Power 3 multiplication result!");
    assert!(close_by(
        z.powu(8),
        z.mul(z).mul(z).mul(z).mul(z).mul(z).mul(z).mul(z),
        0.0000001
    ));
    assert!(close_by(z.powu(7), z.mul(z).mul(z).mul(z).mul(z).mul(z).mul(z), 0.0000001));
}

#[test]
fn test_power_i32() {
    let z = p(1.0, -1.0);
    assert!(z.powi(-2).is_none(), " 1 - h is not invertibe!");
    let z = p(2.0, 1.0);
    let z_inv = z.try_inverse().unwrap();
    assert_eq!(
        z_inv.powi(2).unwrap(),
        p(5.0 / 9.0, -4.0 / 9.0),
        "Multiplication of inverse with itself!"
    );
    assert_eq!(
        z.powi(-2).unwrap(),
        p(5.0 / 9.0, -4.0 / 9.0),
        "Power -2 yields multiplication of inverse with itself!"
    );
    assert_eq!(
        z.powi(-3).unwrap(),
        p(14.0 / 27.0, -13.0 / 27.0),
        "Power -3 multiplication result!"
    );
    let z = p(PI, -0.123);
    let z_inv = z.try_inverse().unwrap();
    assert_eq!(z.powi(-3).unwrap(), z_inv.mul(z_inv).mul(z_inv), "Power -3 multiplication result!");
    assert!(close(
        z.powi(-8).unwrap(),
        z_inv.mul(z_inv).mul(z_inv).mul(z_inv).mul(z_inv).mul(z_inv).mul(z_inv).mul(z_inv)
    ));
    assert!(close(
        z.powi(-7).unwrap(),
        z_inv.mul(z_inv).mul(z_inv).mul(z_inv).mul(z_inv).mul(z_inv).mul(z_inv)
    ));
}

#[test]
fn time_like_example_has_modulus_and_inverse() {
    let z = p(2.0, -1.0);
    assert!(z.is_time_like());
    assert!(!z.is_space_like() && !z.is_light_like());
    assert_eq!(z.modulus(), F(3.0f64.sqrt()));
    assert_eq!(z.inv(), Some(p(2.0 / 3.0, 1.0 / 3.0)));
}

#[test]
fn light_like_example_has_infinite_argument_and_no_klein() {
    let z = p(1.0, 1.0);
    assert!(z.is_light_like());
    assert_eq!(z.arg(), F(f64::INFINITY));
    assert_eq!(z.klein(), None);
    assert_eq!(z.sector(), HyperbolicSector::Diagonal(F(1.0)));
    assert_eq!(z.ln(), None);
    assert_eq!(z.powi(-1), None);
}

#[test]
fn product_divided_by_factor_gives_back_the_number() {
    let z1 = p(0.75, -2.5);
    for z2 in [p(3.0, 1.0), p(-3.0, 1.0), p(1.0, 3.0), p(1.0, -3.0)] {
        let q = z1.mul(z2).div(z2).unwrap();
        assert!(close_by(q, z1, 1e-12));
    }
    assert_eq!(z1.div(p(-1.0, 1.0)), None);
}

#[test]
fn polar_round_trip_in_every_sector() {
    for z in [
        p(3.0, 1.0),
        p(-3.0, 1.0),
        p(1.0, 3.0),
        p(1.0, -3.0),
        p(1.0, 1.0),
        p(1.0, -1.0),
    ] {
        assert!(close_by(Perplex::from(HyperbolicPolar::from(z)), z, 1e-12));
    }
}

#[test]
fn powers_agree_with_repeated_products_and_polar_powers() {
    for z in [p(0.5, 0.25), p(-0.5, 0.25), p(0.25, 0.5), p(0.25, -0.5), p(1.0, -1.0)] {
        let mut product = Perplex::one();
        for n in 0..5u32 {
            assert!(close_by(z.powu(n), product, 1e-12));
            assert!(close_by(Perplex::from(z.polar().pow(n)), product, 1e-9));
            product = product.mul(z);
        }
    }
}

#[test]
fn sqrt_on_the_cone_boundary_and_outside() {
    assert_eq!(p(1.0, 1.0).sqrt(), Some(p(2.0f64.sqrt() / 2.0, 2.0f64.sqrt() / 2.0)));
    assert_eq!(p(4.0, 0.0).sqrt(), Some(p(2.0, 0.0)));
    assert_eq!(p(1.0, 2.0).sqrt(), None);
    assert_eq!(p(f64::NAN, 0.0).sqrt(), None);
}

#[test]
fn exp_of_light_like_number_uses_unit_klein() {
    let z = p(1.0, 1.0);
    let e = 1.0f64.exp();
    assert_eq!(z.exp(), p(e * 1.0f64.cosh(), e * 1.0f64.sinh()));
}

#[test]
fn polar_power_on_diagonal_scales_time_component() {
    let polar = p(1.5, 1.5).polar();
    let cubed = polar.pow(3);
    assert_eq!(cubed.sector, HyperbolicSector::Diagonal(F(1.5 * 9.0)));
    assert_eq!(cubed.theta, F(f64::INFINITY));
    let squared = p(-2.0, 1.0).polar().pow(2);
    assert_eq!(squared.sector, HyperbolicSector::Right);
    assert_eq!(p(-2.0, 1.0).polar().pow(3).sector, HyperbolicSector::Left);
}

#[test]
fn classification_is_exclusive_and_nan_is_unclassified() {
    for z in [p(2.0, -1.0), p(-1.0, 2.0), p(1.0, 1.0), p(-3.0, 3.0), p(0.0, 0.0)] {
        let kinds = [z.is_time_like(), z.is_space_like(), z.is_light_like()];
        assert_eq!(kinds.iter().filter(|k| **k).count(), 1);
    }
    let z = p(f64::NAN, 1.0);
    assert!(!z.is_time_like() && !z.is_space_like() && !z.is_light_like());
}

#[test]
fn scalar_division_and_log_base() {
    let z = p(2.0, 1.0);
    let base = 10.0f64;
    let expected = z.ln().unwrap().div_scalar(F(base.ln()));
    assert_eq!(z.log(F(base)), Some(expected));
    assert_eq!(p(1.0, -1.0).log(F(base)), None);
    assert_eq!(p(3.0, 6.0).div_scalar(F(3.0)), p(1.0, 2.0));
}

#[test]
fn operators_match_named_operations_on_floats() {
    let (z1, z2) = (p(1.0, 2.0), p(-1.0, 2.0));
    assert_eq!(z1 + Perplex::one() + Perplex::zero(), p(2.0, 2.0));
    assert_eq!(z1 * z2, p(3.0, 0.0));
    assert_eq!((z1 * z2) / z2, Some(z1));
    assert_eq!(z1 / p(-1.0, 1.0), None);
    assert_eq!(z1 / F(2.0), p(0.5, 1.0));
    assert_eq!(z1 + F(2.0), p(3.0, 2.0));
}

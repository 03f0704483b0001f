use perplex_num::{HyperbolicSector, Perplex};

fn p(t: i64, x: i64) -> Perplex<i64> {
    Perplex::new(t, x)
}

#[test]
fn sums_and_products_with_neutral_elements() {
    let z1 = p(1, 2);
    let one = Perplex::one();
    let zero = Perplex::zero();
    assert_eq!(z1.add(one).add(zero), p(2, 2));
    assert_eq!(z1.add(z1.conj()), p(2, 0));
    assert_eq!(z1.mul(one), z1);
    assert_eq!(z1.mul(zero), zero);
}

#[test]
fn hyperbolic_unit_squares_to_one() {
    let h: Perplex<i64> = Perplex::h();
    assert_eq!(h.mul(h), Perplex::one());
    assert_eq!(Perplex::<i64>::default(), p(1, 0));
}

#[test]
fn product_formula() {
    assert_eq!(p(1, 2).mul(p(-1, 2)), p(3, 0));
    assert_eq!(p(3, 5).mul(p(2, -7)), p(3 * 2 + 5 * -7, 2 * 5 + 3 * -7));
    assert_eq!(p(1, 2).mul_add(p(-1, 2), p(-2, 1)), p(1, 1));
}

#[test]
fn classification_by_squared_distance() {
    let cases = [(p(2, -1), 3), (p(-1, 2), -3), (p(1, 1), 0), (p(0, 0), 0), (p(-4, 4), 0)];
    for (z, d) in cases {
        assert_eq!(z.squared_distance(), d);
        let kinds = [z.is_time_like(), z.is_space_like(), z.is_light_like()];
        assert_eq!(kinds.iter().filter(|k| **k).count(), 1);
        assert_eq!(z.is_time_like(), d > 0);
        assert_eq!(z.is_space_like(), d < 0);
        assert_eq!(z.is_light_like(), d == 0);
    }
}

#[test]
fn norms_of_the_cartesian_plane() {
    let z = p(-1, 2);
    assert_eq!(z.l1_norm(), 3);
    assert_eq!(z.max_norm(), 2);
    assert_eq!(p(-7, 0).max_norm(), 7);
}

#[test]
fn sectors_and_klein_indices() {
    assert_eq!(p(2, 1).sector(), HyperbolicSector::Right);
    assert_eq!(p(-2, 1).sector(), HyperbolicSector::Left);
    assert_eq!(p(1, 2).sector(), HyperbolicSector::Up);
    assert_eq!(p(1, -2).sector(), HyperbolicSector::Down);
    assert_eq!(p(3, -3).sector(), HyperbolicSector::Diagonal(3));
    assert_eq!(HyperbolicSector::from(p(-3, -3)), HyperbolicSector::Diagonal(-3));
    assert_eq!(p(2, 1).klein(), Some(p(1, 0)));
    assert_eq!(p(-2, 1).klein(), Some(p(-1, 0)));
    assert_eq!(p(1, 2).klein(), Some(p(0, 1)));
    assert_eq!(p(1, -2).klein(), Some(p(0, -1)));
    assert_eq!(p(1, 1).klein(), None);
}

#[test]
fn integer_powers_by_squaring() {
    let z = p(1, -1);
    assert_eq!(z.powu(0), p(1, 0));
    assert_eq!(z.powu(2), p(2, -2));
    assert_eq!(z.powu(3), p(4, -4));
    let z = p(2, 1);
    let mut product = Perplex::one();
    for n in 0..12u32 {
        assert_eq!(z.powu(n), product);
        product = product.mul(z);
    }
    assert_eq!(p(0, 1).powu(1001), p(0, 1));
    assert_eq!(p(-1, 0).powu(u32::MAX), p(-1, 0));
}

#[test]
fn arithmetic_wraps_around() {
    let big = p(i64::MAX, 0);
    assert_eq!(big.add(p(1, 0)), p(i64::MIN, 0));
    assert_eq!(p(i64::MIN, 1).neg(), p(i64::MIN, -1));
    assert_eq!(p(i64::MIN, 0).l1_norm(), i64::MIN);
}

#[test]
fn in_place_operations_match() {
    let mut z = p(-3, 2);
    z.add_assign(p(1, 2));
    assert_eq!(z, p(-2, 4));
    z.sub_assign(p(1, 1));
    assert_eq!(z, p(-3, 3));
    z.mul_assign(p(1, 2));
    assert_eq!(z, p(3, -3));
    z.mul_add_assign(p(1, 1), p(1, 0));
    assert_eq!(z, p(1, 0));
    z.add_scalar_assign(4);
    assert_eq!(z, p(5, 0));
    z.sub_scalar_assign(1);
    z.mul_scalar_assign(-2);
    assert_eq!(z, p(-8, 0));
    z.set_one();
    assert!(z.is_one());
    z.set_zero();
    assert!(z.is_zero());
    assert_eq!(p(1, 2).scale(3), p(3, 6));
    assert_eq!(Perplex::from(5i64), p(5, 0));
    assert_eq!(p(4, 9).real_part(), 4);
    assert_eq!(p(4, 9).hyperbolic(), 9);
}

#[test]
fn operators_match_named_operations() {
    let (z1, z2) = (p(1, 2), p(-3, 5));
    assert_eq!(z1 + z2, z1.add(z2));
    assert_eq!(z1 - z2, z1.sub(z2));
    assert_eq!(z1 * z2, z1.mul(z2));
    assert_eq!(-z1, p(-1, -2));
    assert_eq!(z1 + 2, p(3, 2));
    assert_eq!(z1 - 2, p(-1, 2));
    assert_eq!(z1 * 2, p(2, 4));
}

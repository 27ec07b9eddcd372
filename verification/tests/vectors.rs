use wanderlust::vector::Vec3;

fn v(x: i64, y: i64, z: i64) -> Vec3 {
    Vec3 { x, y, z }
}

#[test]
fn zero_has_no_components() {
    assert_eq!(Vec3::zero(), v(0, 0, 0));
}

#[test]
fn plus_and_minus_work_by_component() {
    let a = v(1_000_000, -2_000_000, 3_000_000);
    let b = v(500_000, 500_000, -4_000_000);
    assert_eq!(a.plus(b), v(1_500_000, -1_500_000, -1_000_000));
    assert_eq!(a.minus(b), v(500_000, -2_500_000, 7_000_000));
}

#[test]
fn plus_saturates_each_component() {
    let a = v(i64::MAX, i64::MIN, 1);
    let b = v(1, -1, 1);
    assert_eq!(a.plus(b), v(i64::MAX, i64::MIN, 2));
}

#[test]
fn negated_flips_every_component() {
    assert_eq!(v(1, -2, 0).negated(), v(-1, 2, 0));
    assert_eq!(v(i64::MIN, 0, 0).negated(), v(i64::MAX, 0, 0));
}

#[test]
fn scaled_multiplies_by_a_scalar() {
    assert_eq!(
        v(1_000_000, -2_000_000, 3_000_000).scaled(500_000),
        v(500_000, -1_000_000, 1_500_000)
    );
    assert_eq!(v(7_000_000, 8_000_000, 9_000_000).scaled(0), v(0, 0, 0));
}

#[test]
fn times_multiplies_by_component() {
    assert_eq!(
        v(3_000_000, 4_000_000, 5_000_000).times(v(1_000_000, 0, 2_000_000)),
        v(3_000_000, 0, 10_000_000)
    );
}

#[test]
fn dot_product() {
    let a = v(1_000_000, 2_000_000, 3_000_000);
    let b = v(4_000_000, -5_000_000, 6_000_000);
    assert_eq!(a.dot(b), 12_000_000);
    assert_eq!(a.dot(Vec3::zero()), 0);
}

#[test]
fn dot_product_saturates() {
    let a = v(i64::MAX, i64::MAX, i64::MAX);
    assert_eq!(a.dot(a), i64::MAX);
    assert_eq!(a.dot(a.negated()), i64::MIN);
}

#[test]
fn cross_product_of_axes() {
    let x = v(1_000_000, 0, 0);
    let y = v(0, 1_000_000, 0);
    let z = v(0, 0, 1_000_000);
    assert_eq!(x.cross(y), z);
    assert_eq!(y.cross(z), x);
    assert_eq!(z.cross(x), y);
    assert_eq!(y.cross(x), z.negated());
    assert_eq!(x.cross(x), Vec3::zero());
}

#[test]
fn cross_product_of_general_vectors() {
    let a = v(1_000_000, 2_000_000, 3_000_000);
    let b = v(4_000_000, 5_000_000, 6_000_000);
    assert_eq!(a.cross(b), v(-3_000_000, 6_000_000, -3_000_000));
}

#[test]
fn length_rounds_down() {
    assert_eq!(v(3_000_000, 4_000_000, 0).length(), 5_000_000);
    assert_eq!(v(1_000_000, 1_000_000, 1_000_000).length(), 1_732_050);
    assert_eq!(Vec3::zero().length(), 0);
    assert_eq!(v(0, -7, 0).length(), 7);
}

#[test]
fn length_saturates() {
    assert_eq!(v(i64::MIN, i64::MIN, i64::MIN).length(), i64::MAX);
    assert_eq!(v(i64::MAX, 0, 0).length(), i64::MAX);
}

#[test]
fn clamped_shortens_long_vectors() {
    assert_eq!(v(3_000_000, 4_000_000, 0).clamped(1_000_000), v(600_000, 800_000, 0));
    assert_eq!(v(0, 0, -8_000_000).clamped(2_000_000), v(0, 0, -2_000_000));
}

#[test]
fn clamped_keeps_short_vectors() {
    let a = v(3_000_000, 4_000_000, 0);
    assert_eq!(a.clamped(5_000_000), a);
    assert_eq!(a.clamped(10_000_000), a);
    assert_eq!(Vec3::zero().clamped(0), Vec3::zero());
}

#[test]
fn clamped_to_nothing_is_zero() {
    assert_eq!(v(3_000_000, 4_000_000, 0).clamped(0), Vec3::zero());
    assert_eq!(v(3_000_000, 4_000_000, 0).clamped(-1_000_000), Vec3::zero());
    assert_eq!(Vec3::zero().clamped(-1), Vec3::zero());
}

#[test]
fn normalized_or_zero_gives_unit_length() {
    assert_eq!(v(0, 0, 5_000_000).normalized_or_zero(), v(0, 0, 1_000_000));
    assert_eq!(v(3_000_000, -4_000_000, 0).normalized_or_zero(), v(600_000, -800_000, 0));
}

#[test]
fn normalized_or_zero_of_nothing_is_zero() {
    assert_eq!(Vec3::zero().normalized_or_zero(), Vec3::zero());
}

#[test]
fn lerp_moves_part_of_the_way() {
    let from = Vec3::zero();
    let to = v(10_000_000, 0, -4_000_000);
    assert_eq!(from.lerp(to, 250_000), v(2_500_000, 0, -1_000_000));
    assert_eq!(from.lerp(to, 0), from);
    assert_eq!(from.lerp(to, 1_000_000), to);
}

#[test]
fn projection_onto_an_axis() {
    let a = v(1_000_000, 2_000_000, 3_000_000);
    assert_eq!(a.projected_onto(v(0, 2_000_000, 0)), v(0, 2_000_000, 0));
    assert_eq!(a.projected_onto(v(0, 0, -1_000_000)), v(0, 0, 3_000_000));
}

#[test]
fn projection_onto_no_axis_is_zero() {
    let a = v(1_000_000, 2_000_000, 3_000_000);
    assert_eq!(a.projected_onto(Vec3::zero()), Vec3::zero());
    assert_eq!(a.projected_onto(v(1, 0, 0)), Vec3::zero());
}

//! The fixed-point scalar algebra and the transform composition rules.

use three::fixed::{fx_div, fx_mul, sat_add, sat_sub, UNIT};
use three::node::Transform;
use three::transform::{quat_mul, rotate, Quaternion, TransformInternal, Vector3};

#[test]
fn fixed_point_products_are_exact_on_unit_multiples() {
    assert_eq!(fx_mul(2 * UNIT, 3 * UNIT), 6 * UNIT);
    assert_eq!(fx_mul(UNIT / 2, UNIT / 2), UNIT / 4);
    assert_eq!(fx_mul(3 * UNIT / 2, 2 * UNIT), 3 * UNIT);
    assert_eq!(fx_mul(UNIT, -5 * UNIT), -5 * UNIT);
    assert_eq!(fx_mul(-UNIT / 2, -UNIT / 2), UNIT / 4);
}

#[test]
fn fixed_point_product_rounds_toward_zero() {
    // 1/65536 of a unit squared is far below one representable step.
    assert_eq!(fx_mul(1, 1), 0);
    assert_eq!(fx_mul(-1, 1), 0);
    assert_eq!(fx_mul(1, -1), 0);
}

#[test]
fn arithmetic_saturates_instead_of_wrapping() {
    assert_eq!(sat_add(i64::MAX, 1), i64::MAX);
    assert_eq!(sat_add(i64::MIN, -1), i64::MIN);
    assert_eq!(sat_sub(i64::MIN, 1), i64::MIN);
    assert_eq!(fx_mul(i64::MAX, i64::MAX), i64::MAX);
    assert_eq!(fx_mul(i64::MAX, i64::MIN), i64::MIN);
}

#[test]
fn identity_rotation_leaves_vectors_alone() {
    let v = Vector3::new(123 * UNIT, -7 * UNIT, 981);
    assert_eq!(rotate(Quaternion::identity(), v), v);
}

#[test]
fn half_turn_about_y_flips_x_and_z() {
    let q = Quaternion::new(0, 0, UNIT, 0);
    let v = Vector3::new(UNIT, 2 * UNIT, 3 * UNIT);
    assert_eq!(rotate(q, v), Vector3::new(-UNIT, 2 * UNIT, -3 * UNIT));
}

#[test]
fn quaternion_identity_is_a_unit_of_the_product() {
    let q = Quaternion::new(100, -200, 300, -400);
    assert_eq!(quat_mul(Quaternion::identity(), q), q);
    assert_eq!(quat_mul(q, Quaternion::identity()), q);
}

#[test]
fn identity_transform_is_a_unit_of_composition() {
    let t = TransformInternal {
        disp: Vector3::new(5 * UNIT, -2 * UNIT, 9),
        rot: Quaternion::new(0, 0, UNIT, 0),
        scale: 3 * UNIT,
    };
    let one = TransformInternal::one();
    assert_eq!(one.concat(&t), t);
    assert_eq!(t.concat(&one), t);
}

#[test]
fn composition_applies_parent_scale_and_rotation_to_child_translation() {
    // Parent: half turn about y, scale 2, at (10, 0, 0).
    let parent = TransformInternal {
        disp: Vector3::new(10 * UNIT, 0, 0),
        rot: Quaternion::new(0, 0, UNIT, 0),
        scale: 2 * UNIT,
    };
    let child = TransformInternal {
        disp: Vector3::new(UNIT, 0, 0),
        rot: Quaternion::identity(),
        scale: UNIT,
    };
    let world = parent.concat(&child);
    // The child's (1, 0, 0) is first rotated to (-1, 0, 0), then scaled
    // to (-2, 0, 0), then translated: (8, 0, 0).
    assert_eq!(world.disp, Vector3::new(8 * UNIT, 0, 0));
    assert_eq!(world.scale, 2 * UNIT);
    assert_eq!(world.rot, Quaternion::new(0, 0, UNIT, 0));
}

#[test]
fn composition_is_not_commutative() {
    let a = TransformInternal {
        disp: Vector3::new(UNIT, 0, 0),
        rot: Quaternion::identity(),
        scale: 2 * UNIT,
    };
    let b = TransformInternal {
        disp: Vector3::new(0, UNIT, 0),
        rot: Quaternion::identity(),
        scale: UNIT,
    };
    assert_ne!(a.concat(&b), b.concat(&a));
}

#[test]
fn public_identity_transform_matches_the_internal_one() {
    let t = Transform::identity();
    assert_eq!(t.position, Vector3::new(0, 0, 0));
    assert_eq!(t.orientation, Quaternion::new(UNIT, 0, 0, 0));
    assert_eq!(t.scale, UNIT);
}

#[test]
fn fixed_point_division_matches_multiplication() {
    assert_eq!(fx_div(6 * UNIT, 3 * UNIT), 2 * UNIT);
    assert_eq!(fx_div(UNIT, 2 * UNIT), UNIT / 2);
    assert_eq!(fx_div(-UNIT, 2 * UNIT), -UNIT / 2);
    assert_eq!(fx_div(UNIT, -2 * UNIT), -UNIT / 2);
    assert_eq!(fx_div(0, 5 * UNIT), 0);
}

#[test]
fn inverse_undoes_a_transform_on_the_grid() {
    let t = TransformInternal {
        disp: Vector3::new(4 * UNIT, -6 * UNIT, 2 * UNIT),
        rot: Quaternion::identity(),
        scale: 2 * UNIT,
    };
    let inv = t.inverse();
    assert_eq!(inv.scale, UNIT / 2);
    assert_eq!(inv.disp, Vector3::new(-2 * UNIT, 3 * UNIT, -UNIT));
    assert_eq!(t.concat(&inv), TransformInternal::one());
    assert_eq!(inv.concat(&t), TransformInternal::one());
}

#[test]
fn inverse_conjugates_the_rotation() {
    let t = TransformInternal {
        disp: Vector3::new(0, 0, 0),
        rot: Quaternion::new(0, 0, UNIT, 0),
        scale: UNIT,
    };
    let inv = t.inverse();
    assert_eq!(inv.rot, Quaternion::new(0, 0, -UNIT, 0));
    assert_eq!(quat_mul(t.rot, inv.rot), Quaternion::identity());
}

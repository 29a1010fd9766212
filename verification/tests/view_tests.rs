use framecore::view::{transform_point, Ratio, ViewTransform};

/// Assert that a scalar denotes exactly `n / d`.
fn assert_val(r: &Ratio, n: i128, d: i128) {
    assert_eq!(r.num() * d, n * r.den(), "expected {}/{}, got {}/{}", n, d, r.num(), r.den());
}

fn camera(cx: i64, cy: i64, w: i64, h: i64, rotation: i64) -> ViewTransform {
    ViewTransform {
        center: (Ratio::new(cx, 1), Ratio::new(cy, 1)),
        size: (Ratio::new(w, 1), Ratio::new(h, 1)),
        rotation: Ratio::new(rotation, 1),
    }
}

#[test]
fn unrotated_unit_view_maps_x_axis_with_depth_remap() {
    // center (0,0), size (2,2), rotation 0: cos 1, sin 0.
    // world (1,0,0) must land on clip (1, 0, 0.5, 1): X and Y pass
    // through, Z is remapped from [-1,1] to [0,1].
    let v = camera(0, 0, 2, 2, 0);
    let m = v.get_matrix4(Ratio::new(1, 1), Ratio::new(0, 1));
    let (x, y, z, w) = transform_point(&m, Ratio::new(1, 1), Ratio::new(0, 1), Ratio::new(0, 1));
    assert_val(&x, 1, 1);
    assert_val(&y, 0, 1);
    assert_val(&z, 1, 2);
    assert_val(&w, 1, 1);
}

#[test]
fn quarter_turn_maps_x_axis_to_positive_y() {
    // center (0,0), size (2,2), rotation 90 degrees: cos 0, sin 1.
    // world (1,0,0) lands on clip (0, 1, 0.5, 1) under the reference
    // sign convention: x' = (2/w)(cos*x + sin*y), y' = -( -2/h )(...),
    // i.e. the world X axis turns onto clip +Y.
    let v = camera(0, 0, 2, 2, 90);
    let m = v.get_matrix4(Ratio::new(0, 1), Ratio::new(1, 1));
    let (x, y, z, w) = transform_point(&m, Ratio::new(1, 1), Ratio::new(0, 1), Ratio::new(0, 1));
    assert_val(&x, 0, 1);
    assert_val(&y, 1, 1);
    assert_val(&z, 1, 2);
    assert_val(&w, 1, 1);
}

#[test]
fn half_turn_negates_both_axes() {
    // rotation 180 degrees: cos -1, sin 0.
    let v = camera(0, 0, 2, 2, 180);
    let m = v.get_matrix4(Ratio::new(-1, 1), Ratio::new(0, 1));
    let (x, y, _, _) = transform_point(&m, Ratio::new(1, 1), Ratio::new(1, 1), Ratio::new(0, 1));
    assert_val(&x, -1, 1);
    assert_val(&y, 1, 1);
}

#[test]
fn view_center_maps_to_clip_origin() {
    // the rotation pivot stays fixed: the view center lands on (0,0),
    // whatever the rotation.
    let v = camera(500, 500, 1000, 1000, 0);
    let m = v.get_matrix4(Ratio::new(1, 1), Ratio::new(0, 1));
    let (x, y, _, w) =
        transform_point(&m, Ratio::new(500, 1), Ratio::new(500, 1), Ratio::new(0, 1));
    assert_val(&x, 0, 1);
    assert_val(&y, 0, 1);
    assert_val(&w, 1, 1);

    let m2 = v.get_matrix4(Ratio::new(0, 1), Ratio::new(1, 1));
    let (x2, y2, _, _) =
        transform_point(&m2, Ratio::new(500, 1), Ratio::new(500, 1), Ratio::new(0, 1));
    assert_val(&x2, 0, 1);
    assert_val(&y2, 0, 1);
}

#[test]
fn y_axis_is_flipped_into_clip_space() {
    // the world is Y-down, clip space is Y-up: with no rotation,
    // world (0, 1) in the unit view lands on clip Y = -1.
    let v = camera(0, 0, 2, 2, 0);
    let m = v.get_matrix4(Ratio::new(1, 1), Ratio::new(0, 1));
    let (_, y, _, _) = transform_point(&m, Ratio::new(0, 1), Ratio::new(1, 1), Ratio::new(0, 1));
    assert_val(&y, -1, 1);
}

#[test]
fn identical_inputs_give_identical_matrices() {
    let v = camera(3, -4, 16, 9, 30);
    let cos = Ratio::new(433, 500);
    let sin = Ratio::new(1, 2);
    let a = v.get_matrix4(cos, sin);
    let b = v.get_matrix4(cos, sin);
    assert_eq!(a.c0r0.num(), b.c0r0.num());
    assert_eq!(a.c0r0.den(), b.c0r0.den());
    assert_eq!(a.c3r1.num(), b.c3r1.num());
    assert_eq!(a.c3r1.den(), b.c3r1.den());
}

#[test]
fn ratio_arithmetic_is_exact() {
    let half = Ratio::new(1, 2);
    let third = Ratio::new(1, 3);
    assert_val(&half.add(third), 5, 6);
    assert_val(&half.sub(third), 1, 6);
    assert_val(&half.mul(third), 1, 6);
    assert_val(&half.div(third), 3, 2);
    assert_val(&half.neg(), -1, 2);
}

#[test]
fn ratio_sign_is_normalized_and_values_compared() {
    let a = Ratio::new(1, -2);
    assert_val(&a, -1, 2);
    assert!(Ratio::new(1, 2).eq_val(&Ratio::new(2, 4)));
    assert!(Ratio::new(-3, 6).eq_val(&Ratio::new(1, -2)));
    assert!(!Ratio::new(1, 2).eq_val(&Ratio::new(1, 3)));
}

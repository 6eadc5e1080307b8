//! Tests for shape-matrix and affine-transform algebra.

use lightspot::fixed::{fx_mul, FX_ONE};
use lightspot::geometry::{InitError, SpotShape, Transform};

const ONE: i64 = FX_ONE;

#[test]
fn create_shapes() {
    let s1 = SpotShape::default();
    assert_eq!((s1.xx, s1.xy, s1.yx, s1.yy), (ONE, 0, 0, ONE));

    let s2 = s1.scale(2 * ONE);
    assert_eq!((s2.xx, s2.xy, s2.yx, s2.yy), (2 * ONE, 0, 0, 2 * ONE));

    let s3 = s2.stretch(2 * ONE, 3 * ONE);
    assert_eq!((s3.xx, s3.xy, s3.yx, s3.yy), (4 * ONE, 0, 0, 6 * ONE));

    let s4 = s3.rotate(90 * ONE);
    assert_eq!((s4.xx, s4.xy, s4.yx, s4.yy), (0, -6 * ONE, 4 * ONE, 0));
}

#[test]
fn scale_by_one_is_identity() {
    let s = SpotShape::default().stretch(5 * ONE, 7 * ONE).rotate(30 * ONE);
    assert_eq!(s.scale(ONE), s);
}

#[test]
fn scale_composes_with_product() {
    let rows = vec![vec![5 * ONE, -ONE], vec![ONE / 2, 7 * ONE]];
    let s = SpotShape::from_rows(&rows).unwrap();
    let a = 2 * ONE;
    let b = 3 * ONE;
    assert_eq!(s.scale(a).scale(b), s.scale(fx_mul(a, b)));
}

#[test]
fn convert_shapes() {
    let rows = vec![vec![ONE, 2 * ONE], vec![3 * ONE, 4 * ONE]];
    let s = SpotShape::from_rows(&rows).unwrap();
    assert_eq!((s.xx, s.xy, s.yx, s.yy), (ONE, 2 * ONE, 3 * ONE, 4 * ONE));

    let bad = vec![vec![ONE, 2 * ONE, 3 * ONE], vec![3 * ONE, 4 * ONE, 5 * ONE]];
    assert_eq!(SpotShape::from_rows(&bad), Err(InitError::InvalidInitializer));
    let empty: Vec<Vec<i64>> = Vec::new();
    assert_eq!(SpotShape::from_rows(&empty), Err(InitError::InvalidInitializer));
}

#[test]
fn convert_transforms() {
    let rows = vec![vec![ONE, 2 * ONE], vec![3 * ONE, 4 * ONE]];
    let t = Transform::from_rows(&rows).unwrap();
    assert_eq!((t.xx, t.xy, t.yx, t.yy, t.tx, t.ty), (ONE, 2 * ONE, 3 * ONE, 4 * ONE, 0, 0));

    let rows23 = vec![vec![ONE, 2 * ONE, 3 * ONE], vec![4 * ONE, 5 * ONE, 6 * ONE]];
    let t23 = Transform::from_rows(&rows23).unwrap();
    assert_eq!(
        (t23.xx, t23.xy, t23.yx, t23.yy, t23.tx, t23.ty),
        (ONE, 2 * ONE, 4 * ONE, 5 * ONE, 3 * ONE, 6 * ONE)
    );

    let bad = vec![vec![ONE], vec![ONE]];
    assert_eq!(Transform::from_rows(&bad), Err(InitError::InvalidInitializer));
}

#[test]
fn compose_with_identity() {
    let t = Transform::default()
        .translate((3 * ONE, -4 * ONE))
        .stretch(2 * ONE, 5 * ONE)
        .rotate(180 * ONE);
    let id = Transform::default();
    assert_eq!(id.compose(&t), t);
    assert_eq!(t.compose(&id), t);
}

#[test]
fn translate_accumulates() {
    let t1 = Transform::default().translate((3 * ONE, -4 * ONE));
    assert_eq!((t1.tx, t1.ty), (3 * ONE, -4 * ONE));
    let t2 = t1.translate((ONE, ONE));
    assert_eq!((t2.tx, t2.ty), (4 * ONE, -3 * ONE));
}

#[test]
fn compose_and_apply() {
    let t1 = Transform::default().translate((3 * ONE, -4 * ONE));
    let t2 = Transform::default().scale(2 * ONE).translate((ONE, 2 * ONE));
    assert_eq!((t2.xx, t2.yy, t2.tx, t2.ty), (2 * ONE, 2 * ONE, ONE, 2 * ONE));

    // apply t2 first, then shift by t1
    let t4 = t2.compose(&t1);
    assert_eq!((t4.xx, t4.xy, t4.yx, t4.yy, t4.tx, t4.ty), (2 * ONE, 0, 0, 2 * ONE, 4 * ONE, -2 * ONE));

    let p = t4.apply((ONE, ONE));
    assert_eq!(p, (6 * ONE, 0));
}

#[test]
fn rotate_transform_quarter_turn() {
    let t = Transform::default().translate((2 * ONE, 3 * ONE)).rotate(90 * ONE);
    // counter-clockwise quarter turn maps (x, y) to (-y, x)
    assert_eq!((t.xx, t.xy, t.yx, t.yy), (0, -ONE, ONE, 0));
    // the translation column is unaffected by the rotation
    assert_eq!((t.tx, t.ty), (2 * ONE, 3 * ONE));
}

#[test]
fn scale_and_stretch_keep_translation() {
    let t = Transform::default().translate((2 * ONE, 3 * ONE));
    let scaled = t.scale(5 * ONE);
    assert_eq!((scaled.xx, scaled.yy), (5 * ONE, 5 * ONE));
    assert_eq!((scaled.tx, scaled.ty), (2 * ONE, 3 * ONE));
    let stretched = t.stretch(2 * ONE, 7 * ONE);
    assert_eq!((stretched.xx, stretched.yy), (2 * ONE, 7 * ONE));
    assert_eq!((stretched.tx, stretched.ty), (2 * ONE, 3 * ONE));
}

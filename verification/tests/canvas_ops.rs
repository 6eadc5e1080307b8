//! Tests for the canvas facade: spot registry, adjustments and queries.

use lightspot::canvas::Canvas;
use lightspot::fixed::FX_ONE;
use lightspot::geometry::{SpotShape, Transform};

const ONE: i64 = FX_ONE;

#[test]
fn create_canvas() {
    let c = Canvas::new(16, 16);
    assert_eq!(c.dimensions(), (16, 16));
    assert_eq!(c.cells.len(), 256);
    assert!(c.cells.iter().all(|&v| v == 0));
}

#[test]
fn create_empty_canvas() {
    let c = Canvas::new(0, 7);
    assert_eq!(c.dimensions(), (0, 7));
    assert_eq!(c.cells.len(), 0);
}

#[test]
fn add_spots() {
    let shape = SpotShape::default();
    let mut c = Canvas::new(16, 16);

    let spot1 = c.add_spot((ONE, 4 * ONE), shape, ONE / 2);
    let spot2 = c.add_spot((4 * ONE, 7 * ONE), shape, ONE / 4);

    assert_eq!(spot1, 0);
    assert_eq!(spot2, 1);
}

#[test]
fn clear_canvas() {
    let mut c = Canvas::new(16, 16);
    assert_eq!(c.cells[0], 0);

    c.set_background(1000);
    c.clear();
    assert_eq!(c.cells[0], 16000);

    c.set_background(200);
    c.clear();
    assert_eq!(c.cells[0], 3200);
}

#[test]
fn move_spots() {
    let shape = SpotShape::default();
    let mut c = Canvas::new(64, 64);

    let spot1 = c.add_spot((10 * ONE, 20 * ONE), shape, ONE / 2);
    let spot2 = c.add_spot((4 * ONE, 7 * ONE), shape, ONE / 4);

    assert_eq!(c.spot_position(spot1), Some((10 * ONE, 20 * ONE)));
    assert_eq!(c.spot_intensity(spot2), Some(ONE / 4));

    // the reported position is the original position plus the offset
    c.set_spot_offset(spot1, (3 * ONE, -5 * ONE));
    assert_eq!(c.spot_position(spot1), Some((13 * ONE, 15 * ONE)));

    // a second offset replaces the first one instead of accumulating
    c.set_spot_offset(spot1, (ONE, ONE));
    assert_eq!(c.spot_position(spot1), Some((11 * ONE, 21 * ONE)));

    // illumination scales the effective intensity
    c.set_spot_illumination(spot2, 3 * ONE / 2);
    assert_eq!(c.spot_intensity(spot2), Some(3 * ONE / 8));

    // unknown handles: silent no-ops and absent query results
    c.set_spot_offset(55, (ONE, ONE));
    c.set_spot_illumination(33, 0);
    assert_eq!(c.spot_position(55), None);
    assert_eq!(c.spot_intensity(33), None);
    assert_eq!(c.spot_position(spot1), Some((11 * ONE, 21 * ONE)));
    assert_eq!(c.spot_intensity(spot2), Some(3 * ONE / 8));
}

#[test]
fn view_transform() {
    let shape = SpotShape::default();
    let mut c = Canvas::new(16, 16);

    let spot1 = c.add_spot((ONE, 4 * ONE), shape, ONE / 2);
    let spot2 = c.add_spot((4 * ONE, 7 * ONE), shape, ONE / 4);

    assert_eq!(c.spot_position(spot1), Some((ONE, 4 * ONE)));

    let transform = Transform::default().translate((3 * ONE, -4 * ONE));
    c.set_view_transform(&transform);

    // the position query resolves position + offset only; the view
    // transform does not enter it
    assert_eq!(c.spot_position(spot1), Some((ONE, 4 * ONE)));
    assert_eq!(c.spot_position(spot2), Some((4 * ONE, 7 * ONE)));
}

#[test]
fn view_transform_moves_rendering() {
    let mut c = Canvas::new(9, 9);
    c.add_spot((2 * ONE, 3 * ONE), SpotShape::default(), ONE);
    c.set_view_transform(&Transform::default().translate((4 * ONE, 2 * ONE)));
    c.clear();
    c.draw();

    // the spot renders at the view-transformed coordinates (6, 5), while
    // its queried position stays at the untransformed (2, 3)
    assert_eq!(c.cells[5 * 9 + 6], ONE);
    assert_eq!(c.cells[3 * 9 + 2], 0);
    assert_eq!(c.spot_position(0), Some((2 * ONE, 3 * ONE)));
}

#[test]
fn brightness_scales_intensity() {
    let shape = SpotShape::default();
    let mut c = Canvas::new(16, 16);
    let spot = c.add_spot((ONE, ONE), shape, ONE / 2);

    c.set_brightness(ONE / 2);
    assert_eq!(c.spot_intensity(spot), Some(ONE / 4));

    c.set_brightness(2 * ONE);
    assert_eq!(c.spot_intensity(spot), Some(ONE));
}

#[test]
fn draw_single_centered_spot() {
    let mut c = Canvas::new(9, 9);
    let spot = c.add_spot((4 * ONE, 4 * ONE), SpotShape::default(), ONE / 2);
    assert_eq!(spot, 0);

    c.clear();
    c.draw();

    // the cone footprint of the unit shape peaks at the center pixel and
    // vanishes at radius one, so only the center cell receives light
    assert_eq!(c.cells[4 * 9 + 4], ONE / 2);
    assert_eq!(c.cells[4 * 9 + 5], 0);
    assert_eq!(c.cells[4 * 9 + 3], 0);
    assert_eq!(c.cells[3 * 9 + 4], 0);
}

#[test]
fn draw_is_additive() {
    let mut c = Canvas::new(9, 9);
    c.add_spot((4 * ONE, 4 * ONE), SpotShape::default(), ONE / 4);
    c.clear();
    c.draw();
    assert_eq!(c.cells[4 * 9 + 4], ONE / 4);

    // a second draw without a clear adds the same contribution again
    c.draw();
    assert_eq!(c.cells[4 * 9 + 4], ONE / 2);

    // clearing resets the accumulation
    c.clear();
    c.draw();
    assert_eq!(c.cells[4 * 9 + 4], ONE / 4);
}

#[test]
fn scaled_spot_covers_neighbors() {
    let mut c = Canvas::new(9, 9);
    // radius 2: the four direct neighbors sit at half the unit radius
    c.add_spot((4 * ONE, 4 * ONE), SpotShape::default().scale(2 * ONE), ONE);
    c.clear();
    c.draw();

    assert_eq!(c.cells[4 * 9 + 4], ONE);
    let expected = ONE / 2;
    assert_eq!(c.cells[4 * 9 + 5], expected);
    assert_eq!(c.cells[4 * 9 + 3], expected);
    assert_eq!(c.cells[3 * 9 + 4], expected);
    assert_eq!(c.cells[5 * 9 + 4], expected);
    // pixels at the footprint radius get nothing
    assert_eq!(c.cells[4 * 9 + 6], 0);
}

#[test]
fn negative_intensity_contributes_nothing() {
    let mut c = Canvas::new(9, 9);
    c.add_spot((4 * ONE, 4 * ONE), SpotShape::default(), -ONE);
    c.clear();
    c.draw();
    assert!(c.cells.iter().all(|&v| v == 0));
}

#[test]
fn off_canvas_spot_is_clipped() {
    let mut c = Canvas::new(9, 9);
    c.add_spot((100 * ONE, -50 * ONE), SpotShape::default().scale(3 * ONE), ONE);
    c.clear();
    c.draw();
    assert!(c.cells.iter().all(|&v| v == 0));
}

#[test]
fn partly_off_canvas_spot_is_clipped_silently() {
    let mut c = Canvas::new(9, 9);
    // the footprint sticks out past the upper-left corner
    c.add_spot((0, 0), SpotShape::default().scale(2 * ONE), ONE);
    c.clear();
    c.draw();
    assert_eq!(c.cells[0], ONE);
    assert_eq!(c.cells[1], ONE / 2);
    assert_eq!(c.cells[9], ONE / 2);
    assert_eq!(c.cells[2], 0);
}

use openpen::color::{default_palette, Rgba};
use openpen::geometry::{any_point_within, copy_points, Point};

fn at(x: i32, y: i32) -> Point {
    Point::new(x, y)
}

#[test]
fn point_on_the_rim_is_within() {
    // 3-4-5 triangle: the distance is exactly 5.
    assert!(at(3, 4).is_within(at(0, 0), 5));
    assert!(at(0, 0).is_within(at(3, 4), 5));
    assert!(at(-3, -4).is_within(at(0, 0), 5));
}

#[test]
fn point_just_outside_is_not_within() {
    assert!(!at(3, 4).is_within(at(0, 0), 4));
    // distance squared 26 > 25
    assert!(!at(5, 1).is_within(at(0, 0), 5));
    assert!(at(5, 0).is_within(at(0, 0), 5));
}

#[test]
fn radius_zero_hits_only_the_center() {
    assert!(at(7, -2).is_within(at(7, -2), 0));
    assert!(!at(7, -1).is_within(at(7, -2), 0));
}

#[test]
fn distance_is_euclidean_not_per_axis() {
    // Inside the bounding square of the circle but outside the circle.
    assert!(!at(10, 10).is_within(at(0, 0), 14));
    assert!(at(10, 10).is_within(at(0, 0), 15));
}

#[test]
fn extreme_coordinates_do_not_overflow() {
    let lo = at(i32::MIN, i32::MIN);
    let hi = at(i32::MAX, i32::MAX);
    assert!(!lo.is_within(hi, u32::MAX));
    assert!(lo.is_within(lo, 0));
    // Along one axis the distance is 2^32 - 1 = u32::MAX exactly.
    assert!(at(i32::MIN, 0).is_within(at(i32::MAX, 0), u32::MAX));
    assert!(!at(i32::MIN, 0).is_within(at(i32::MAX, 0), u32::MAX - 1));
}

#[test]
fn any_point_within_finds_a_late_point() {
    let points = vec![at(100, 100), at(200, 200), at(3, 4)];
    assert!(any_point_within(&points, at(0, 0), 5));
    assert!(!any_point_within(&points, at(0, 0), 4));
}

#[test]
fn any_point_within_of_nothing_is_false() {
    let points: Vec<Point> = Vec::new();
    assert!(!any_point_within(&points, at(0, 0), u32::MAX));
}

#[test]
fn copy_points_keeps_order() {
    let points = vec![at(1, 2), at(3, 4), at(5, 6)];
    assert_eq!(copy_points(&points), points);
    assert_eq!(copy_points(&Vec::new()), Vec::<Point>::new());
}

#[test]
fn opaque_colour_has_full_alpha() {
    assert_eq!(Rgba::opaque(1, 2, 3), Rgba { r: 1, g: 2, b: 3, a: 255 });
    assert_eq!(Rgba::opaque(0, 0, 0), Rgba::new(0, 0, 0, 255));
}

#[test]
fn default_palette_is_the_six_opaque_colours() {
    let palette = default_palette();
    assert_eq!(
        palette,
        vec![
            Rgba::new(255, 77, 77, 255),
            Rgba::new(80, 220, 100, 255),
            Rgba::new(85, 170, 255, 255),
            Rgba::new(255, 230, 90, 255),
            Rgba::new(245, 245, 245, 255),
            Rgba::new(204, 128, 255, 255),
        ]
    );
}

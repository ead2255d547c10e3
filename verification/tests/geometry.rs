use rayball::fixed::{HALF, ONE};
use rayball::math::{Rectangle, Vector2};
use rayball::physics::HitBox;

fn units(n: i32) -> i32 {
    n * ONE
}

fn point(x: i32, y: i32) -> Vector2 {
    Vector2::new(units(x), units(y))
}

#[test]
fn rectangles_that_share_interior_overlap() {
    let a = HitBox::new(point(0, 0), units(10), units(10));
    assert!(a.overlaps(&Rectangle::new(units(5), units(5), units(10), units(10))));
    assert!(a.overlaps(&Rectangle::new(units(-5), units(-5), units(6), units(6))));
    assert!(a.overlaps(&Rectangle::new(units(2), units(2), units(1), units(1))));
}

#[test]
fn rectangles_that_share_only_a_border_do_not_overlap() {
    let a = HitBox::new(point(0, 0), units(10), units(10));
    assert!(!a.overlaps(&Rectangle::new(units(10), units(0), units(10), units(10))));
    assert!(!a.overlaps(&Rectangle::new(units(0), units(10), units(10), units(10))));
    assert!(!a.overlaps(&Rectangle::new(units(-10), units(0), units(10), units(10))));
    assert!(!a.overlaps(&Rectangle::new(units(20), units(20), units(1), units(1))));
}

#[test]
fn circle_that_touches_the_border_counts_as_contact() {
    let a = HitBox::new(point(0, 0), units(10), units(10));
    assert!(a.overlaps_circle(point(15, 5), units(5)));
    assert!(!a.overlaps_circle(point(15, 5), units(5) - 1));
    assert!(a.overlaps_circle(point(5, -5), units(5)));
    assert!(a.overlaps_circle(Vector2::new(units(15) + 1, units(5)), units(5) + 1));
    assert!(!a.overlaps_circle(Vector2::new(units(15) + 1, units(5)), units(5)));
}

#[test]
fn circle_near_a_corner_is_judged_by_its_distance_to_the_corner() {
    let a = HitBox::new(point(0, 0), units(10), units(10));
    // 3-4-5 triangle from the corner (10, 10)
    assert!(a.overlaps_circle(point(13, 14), units(5)));
    assert!(!a.overlaps_circle(point(13, 14), units(5) - 1));
    // inside the bounding square of the circle, yet out of its reach
    assert!(!a.overlaps_circle(point(14, 14), units(5)));
}

#[test]
fn circle_with_centre_inside_overlaps_whatever_its_radius() {
    let a = HitBox::new(point(0, 0), units(10), units(10));
    assert!(a.overlaps_circle(point(5, 5), units(1)));
    assert!(a.overlaps_circle(point(5, 5), 0));
    assert!(a.overlaps_circle(point(0, 0), 0));
    assert!(a.overlaps_circle(point(10, 10), 0));
}

#[test]
fn overlap_tests_take_extreme_coordinates() {
    let far = Rectangle::new(i32::MIN, i32::MIN, 0, 0);
    assert!(!far.check_collision_circle_rec(Vector2::new(i32::MAX, i32::MAX), i32::MAX));
    assert!(far.check_collision_circle_rec(Vector2::new(i32::MIN, i32::MIN), i32::MIN));
    assert!(far.check_collision_circle_rec(Vector2::new(-1, i32::MIN), i32::MIN));
    assert!(far.check_collision_circle_rec(Vector2::new(-1, i32::MIN), i32::MAX));
    assert!(!far.check_collision_circle_rec(Vector2::new(-1, i32::MIN), i32::MAX - 1));
    // a rectangle of negative size stands for its far corner
    let inside_out = Rectangle::new(i32::MIN, i32::MIN, i32::MIN, i32::MIN);
    assert!(!inside_out.check_collision_circle_rec(Vector2::new(i32::MIN, i32::MIN), i32::MIN));
    let wide = Rectangle::new(i32::MIN, i32::MIN, i32::MAX, i32::MAX);
    assert!(wide.check_collision_recs(&Rectangle::new(-5, -5, 1, 1)));
    assert!(!wide.check_collision_recs(&Rectangle::new(i32::MAX, i32::MAX, i32::MAX, i32::MAX)));
}

#[test]
fn centre_is_left_edge_plus_half_the_width() {
    assert_eq!(Rectangle::new(units(300), units(585), units(300), units(15)).center_x(), units(450));
    assert_eq!(HitBox::new(point(10, 0), units(5), units(1)).center_x(), units(12) + HALF);
    assert_eq!(Rectangle::new(7, 0, 3, 0).center_x(), 8);
    assert_eq!(Rectangle::new(7, 0, -3, 0).center_x(), 5);
    assert_eq!(Rectangle::new(i32::MAX, 0, 10, 0).center_x(), i32::MAX);
}

#[test]
fn centred_rectangle_has_the_point_in_its_middle() {
    let r = HitBox::centered_on(point(100, 50), units(20), units(10));
    assert_eq!(r, Rectangle::new(units(90), units(45), units(20), units(10)));
    assert_eq!(r.center_x(), units(100));
}

#[test]
fn off_screen_goes_by_the_top_left_corner() {
    assert!(!HitBox::new(point(0, 0), units(10), units(10)).is_off_screen());
    assert!(!HitBox::new(point(900, 600), units(10), units(10)).is_off_screen());
    assert!(HitBox::new(Vector2::new(units(900) + 1, 0), units(10), units(10)).is_off_screen());
    assert!(HitBox::new(Vector2::new(0, units(600) + 1), units(10), units(10)).is_off_screen());
    assert!(HitBox::new(Vector2::new(-1, 0), units(10), units(10)).is_off_screen());
    assert!(HitBox::new(Vector2::new(0, -1), units(10), units(10)).is_off_screen());
}

#[test]
fn a_point_advances_by_velocity_times_time() {
    let p = point(450, 570);
    let v = point(0, -900);
    // 546 raw units of time are a 120th of a second
    assert_eq!(p.advance(v, 546), Vector2::new(units(450), units(570) - 491400));
    assert_eq!(p.advance(v, 0), p);
    assert_eq!(p.advance(point(100, 200), HALF), point(500, 670));
    assert_eq!(p.advance(Vector2::zero(), ONE), p);
    // time running backwards is not refused
    assert_eq!(p.advance(point(100, 200), -HALF), point(400, 470));
}

#[test]
fn a_point_that_would_leave_the_number_range_stops_at_its_end() {
    let p = Vector2::new(i32::MAX - 5, i32::MIN + 5);
    assert_eq!(p.advance(point(10, -10), ONE), Vector2::new(i32::MAX, i32::MIN));
    assert_eq!(p.advance(Vector2::new(i32::MAX, i32::MIN), i32::MAX), Vector2::new(i32::MAX, i32::MIN));
}

#[test]
fn interpolation_covers_the_given_share_of_the_way() {
    let from = point(0, 100);
    let to = point(100, 0);
    assert_eq!(from.lerp(to, 0), from);
    assert_eq!(from.lerp(to, ONE), to);
    assert_eq!(from.lerp(to, HALF), point(50, 50));
    assert_eq!(from.lerp(to, ONE / 4), point(25, 75));
    assert_eq!(from.lerp(to, 2 * ONE), point(200, -100));
}

#[test]
fn within_compares_the_distance_with_the_reach() {
    let a = point(0, 0);
    assert!(a.within(point(3, 4), units(5)));
    assert!(!a.within(point(3, 4), units(5) - 1));
    assert!(a.within(a, 0));
    assert!(!a.within(Vector2::new(1, 0), 0));
    assert!(a.within(point(3, 4), units(-5)));
    assert!(!Vector2::new(i32::MIN, i32::MIN).within(Vector2::new(i32::MAX, i32::MAX), i32::MAX));
}

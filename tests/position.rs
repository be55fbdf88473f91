use torin::geometry::{Area, Point2D, Size2D};
use torin::position::{Position, PositionSides};
use torin::scaled::Scaled;

fn area(x: i64, y: i64, width: i64, height: i64) -> Area {
    Area::new(Point2D::new(x, y), Size2D::new(width, height))
}

fn sides(top: Option<i64>, right: Option<i64>, bottom: Option<i64>, left: Option<i64>) -> PositionSides {
    PositionSides { top, right, bottom, left }
}

#[test]
fn area_bounds() {
    let a = area(10, 20, 100, 50);
    assert_eq!(a.min_x(), 10);
    assert_eq!(a.max_x(), 110);
    assert_eq!(a.min_y(), 20);
    assert_eq!(a.max_y(), 70);
}

#[test]
fn stacked_keeps_available_origin() {
    let available = area(3, 4, 10, 10);
    let parent = area(100, 200, 50, 50);
    let root = area(0, 0, 800, 600);
    let origin = Position::Stacked.get_origin(&available, &parent, &Size2D::new(7, 9), &root);
    assert_eq!(origin, Point2D::new(3, 4));
}

#[test]
fn default_is_stacked() {
    assert_eq!(Position::default(), Position::Stacked);
    assert_eq!(PositionSides::default(), sides(None, None, None, None));
}

#[test]
fn absolute_top_left_offsets_from_parent() {
    let parent = area(10, 20, 100, 50);
    let root = area(0, 0, 800, 600);
    let p = Position::Absolute(sides(Some(5), None, None, Some(5)));
    assert_eq!(p.get_origin(&root, &parent, &Size2D::new(20, 10), &root), Point2D::new(15, 25));
}

#[test]
fn absolute_bottom_right_offsets_from_parent() {
    let parent = area(10, 20, 100, 50);
    let root = area(0, 0, 800, 600);
    let p = Position::Absolute(sides(None, Some(5), Some(5), None));
    assert_eq!(p.get_origin(&root, &parent, &Size2D::new(20, 10), &root), Point2D::new(85, 55));
}

#[test]
fn absolute_top_wins_over_bottom() {
    let parent = area(10, 20, 100, 50);
    let root = area(0, 0, 800, 600);
    let p = Position::Absolute(sides(Some(7), Some(3), Some(9), Some(4)));
    assert_eq!(p.get_origin(&root, &parent, &Size2D::new(20, 10), &root), Point2D::new(14, 27));
}

#[test]
fn absolute_without_offsets_sits_at_parent_corner() {
    let parent = area(10, 20, 100, 50);
    let root = area(0, 0, 800, 600);
    let p = Position::new_absolute();
    assert_eq!(p.get_origin(&root, &parent, &Size2D::new(20, 10), &root), Point2D::new(10, 20));
}

#[test]
fn absolute_negative_offsets() {
    let parent = area(10, 20, 100, 50);
    let root = area(0, 0, 800, 600);
    let p = Position::Absolute(sides(Some(-30), None, None, Some(-15)));
    assert_eq!(p.get_origin(&root, &parent, &Size2D::new(20, 10), &root), Point2D::new(-5, -10));
}

#[test]
fn global_top_left_is_exact() {
    let parent = area(10, 20, 100, 50);
    let root = area(40, 60, 800, 600);
    let p = Position::Global(sides(Some(12), Some(1), Some(1), Some(34)));
    assert_eq!(p.get_origin(&parent, &parent, &Size2D::new(20, 10), &root), Point2D::new(34, 12));
}

#[test]
fn global_bottom_and_right_measure_from_root_edge() {
    let parent = area(10, 20, 100, 50);
    let root = area(0, 0, 800, 600);
    let bottom = Position::Global(sides(None, None, Some(0), None));
    assert_eq!(bottom.get_origin(&parent, &parent, &Size2D::new(20, 10), &root).y, 600);
    let right = Position::Global(sides(None, Some(0), None, None));
    assert_eq!(right.get_origin(&parent, &parent, &Size2D::new(20, 10), &root).x, 800);
}

#[test]
fn global_bottom_ignores_own_size() {
    let parent = area(10, 20, 100, 50);
    let root = area(0, 0, 800, 600);
    let p = Position::Global(sides(None, Some(30), Some(40), None));
    assert_eq!(p.get_origin(&parent, &parent, &Size2D::new(20, 10), &root), Point2D::new(770, 560));
}

#[test]
fn global_without_offsets_is_zero() {
    let parent = area(10, 20, 100, 50);
    let root = area(5, 5, 800, 600);
    let p = Position::new_global();
    assert_eq!(p.get_origin(&parent, &parent, &Size2D::new(20, 10), &root), Point2D::new(0, 0));
}

#[test]
fn scale_multiplies_absolute_offsets() {
    let mut p = Position::Absolute(sides(Some(1), Some(2), Some(3), Some(-4)));
    p.scale(3);
    assert_eq!(p, Position::Absolute(sides(Some(3), Some(6), Some(9), Some(-12))));
}

#[test]
fn scale_keeps_absent_offsets_absent() {
    let mut p = Position::Absolute(sides(Some(5), None, None, Some(2)));
    p.scale(2);
    assert_eq!(p, Position::Absolute(sides(Some(10), None, None, Some(4))));
}

#[test]
fn scale_leaves_global_and_stacked() {
    let mut g = Position::Global(sides(Some(1), Some(2), Some(3), Some(4)));
    g.scale(10);
    assert_eq!(g, Position::Global(sides(Some(1), Some(2), Some(3), Some(4))));
    let mut s = Position::Stacked;
    s.scale(10);
    assert_eq!(s, Position::Stacked);
}

#[test]
fn set_top_on_global_drops_offsets() {
    let mut p = Position::Global(sides(None, Some(5), None, None));
    p.set_top(8);
    assert_eq!(p, Position::Absolute(sides(Some(8), None, None, None)));
}

#[test]
fn setters_convert_stacked_and_merge_on_absolute() {
    let mut p = Position::Stacked;
    p.set_right(1);
    assert!(p.is_absolute());
    p.set_bottom(2);
    p.set_left(3);
    p.set_top(4);
    assert_eq!(p, Position::Absolute(sides(Some(4), Some(1), Some(2), Some(3))));
}

#[test]
fn mode_predicates() {
    assert!(Position::new_absolute().is_absolute());
    assert!(!Position::new_absolute().is_global());
    assert!(Position::new_global().is_global());
    assert!(!Position::new_global().is_absolute());
    assert!(!Position::Stacked.is_absolute());
    assert!(!Position::Stacked.is_global());
}

#[test]
fn is_empty_means_all_sides_set() {
    assert!(Position::Stacked.is_empty());
    assert!(Position::Absolute(sides(Some(1), Some(2), Some(3), Some(4))).is_empty());
    assert!(!Position::Absolute(sides(Some(1), Some(2), None, Some(4))).is_empty());
    assert!(Position::Global(sides(Some(0), Some(0), Some(0), Some(0))).is_empty());
    assert!(!Position::new_global().is_empty());
    assert!(!Position::new_absolute().is_empty());
}

#[test]
fn pretty_fills_absent_sides_with_zero() {
    let p = Position::Absolute(sides(Some(1), None, Some(2), None));
    assert_eq!(p.pretty(), "1, 0, 2, 0");
}

#[test]
fn pretty_stacked_and_global() {
    assert_eq!(Position::Stacked.pretty(), "stacked");
    let g = Position::Global(sides(Some(-15), Some(300), Some(0), Some(9876543210)));
    assert_eq!(g.pretty(), "-15, 300, 0, 9876543210");
}

#[test]
fn pretty_extreme_values() {
    let p = Position::Absolute(sides(Some(i64::MIN), Some(i64::MAX), None, Some(10)));
    assert_eq!(p.pretty(), "-9223372036854775808, 9223372036854775807, 0, 10");
}

#[test]
fn origin_near_the_largest_lengths() {
    let parent = area(i64::MAX - 10, 0, 10, 50);
    let p = Position::Absolute(sides(None, Some(-5), None, None));
    let root = area(0, 0, 800, 600);
    assert_eq!(p.get_origin(&root, &parent, &Size2D::new(5, 10), &root).x, i64::MAX);
}

use rift_core::constraint::{infer_constraint_from_target, merge_constraints, WindowConstraint};
use rift_core::geometry::{Frame, Point, Size};

fn sized(w: i32, h: i32) -> Frame {
    Frame::new(Point::new(0, 0), Size::new(w, h))
}

#[test]
fn inference_caps_only_axes_that_came_back_smaller() {
    let c = infer_constraint_from_target(sized(80000, 120000), sized(100000, 100000));
    assert_eq!(c, WindowConstraint { max_w: Some(80000), max_h: None });
}

#[test]
fn inference_ignores_differences_within_tolerance() {
    let c = infer_constraint_from_target(sized(99990, 100010), sized(100000, 100000));
    assert_eq!(c, WindowConstraint { max_w: None, max_h: None });
    let c = infer_constraint_from_target(sized(99989, 100000), sized(100000, 100000));
    assert_eq!(c, WindowConstraint { max_w: Some(99989), max_h: None });
}

#[test]
fn merging_keeps_the_tighter_cap() {
    let first = WindowConstraint { max_w: Some(90000), max_h: None };
    let second = WindowConstraint { max_w: Some(70000), max_h: Some(50000) };
    let merged = merge_constraints(Some(merge_constraints(None, first)), second);
    assert_eq!(merged, WindowConstraint { max_w: Some(70000), max_h: Some(50000) });
    let reverse = merge_constraints(Some(merge_constraints(None, second)), first);
    assert_eq!(reverse.max_w, Some(70000));
}

#[test]
fn no_cap_never_loosens_a_stored_cap() {
    let stored = WindowConstraint { max_w: Some(60000), max_h: Some(40000) };
    let none = WindowConstraint { max_w: None, max_h: None };
    assert_eq!(merge_constraints(Some(stored), none), stored);
    assert_eq!(merge_constraints(None, none), none);
}

#[test]
fn cap_for_axis_picks_the_axis() {
    let c = WindowConstraint { max_w: Some(1), max_h: Some(2) };
    assert_eq!(c.cap_for_axis(true), Some(1));
    assert_eq!(c.cap_for_axis(false), Some(2));
}

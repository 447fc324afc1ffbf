//! Size limits of a window, learnt from how it answers frame requests.
use crate::geometry::{near, Frame};
use vstd::prelude::*;

verus! {

/// Largest width and height a window accepts; `None` means no known bound.
#[derive(Clone, Copy, Debug, PartialEq, Eq, Structural)]
pub struct WindowConstraint {
    pub max_w: Option<i32>,
    pub max_h: Option<i32>,
}

impl WindowConstraint {
    /// The bound on the horizontal axis, or on the vertical one.
    pub fn cap_for_axis(self, horizontal: bool) -> (r: Option<i32>)
        ensures
            r == (if horizontal {
                self.max_w
            } else {
                self.max_h
            }),
    {
        if horizontal {
            self.max_w
        } else {
            self.max_h
        }
    }
}

/// What one axis of a response tells about a bound: an axis that came back
/// smaller than requested (beyond the tolerance) is capped at what came back.
pub open spec fn infer_axis(observed: i32, requested: i32) -> Option<i32> {
    if near(observed as int, requested as int) {
        None
    } else if observed < requested {
        Some(observed)
    } else {
        None
    }
}

pub open spec fn inferred_constraint(observed: Frame, target: Frame) -> WindowConstraint {
    WindowConstraint {
        max_w: infer_axis(observed.size.width, target.size.width),
        max_h: infer_axis(observed.size.height, target.size.height),
    }
}

/// The tighter of two bounds on one axis.
pub open spec fn merge_axis(existing: Option<i32>, inferred: Option<i32>) -> Option<i32> {
    match (existing, inferred) {
        (Some(a), Some(b)) => Some(if a <= b {
            a
        } else {
            b
        }),
        (Some(a), None) => Some(a),
        (None, Some(b)) => Some(b),
        (None, None) => None,
    }
}

pub open spec fn merged_constraint(
    existing: Option<WindowConstraint>,
    inferred: WindowConstraint,
) -> WindowConstraint {
    match existing {
        Some(e) => WindowConstraint {
            max_w: merge_axis(e.max_w, inferred.max_w),
            max_h: merge_axis(e.max_h, inferred.max_h),
        },
        None => inferred,
    }
}

fn infer_axis_exec(observed: i32, requested: i32) -> (r: Option<i32>)
    ensures
        r == infer_axis(observed, requested),
{
    if crate::geometry::is_within(observed, requested) {
        None
    } else if observed < requested {
        Some(observed)
    } else {
        None
    }
}

/// The constraint a window revealed by answering a request for `target`
/// with `new_frame`.
pub fn infer_constraint_from_target(new_frame: Frame, target: Frame) -> (r: WindowConstraint)
    ensures
        r == inferred_constraint(new_frame, target),
{
    WindowConstraint {
        max_w: infer_axis_exec(new_frame.size.width, target.size.width),
        max_h: infer_axis_exec(new_frame.size.height, target.size.height),
    }
}

fn merge_axis_exec(existing: Option<i32>, inferred: Option<i32>) -> (r: Option<i32>)
    ensures
        r == merge_axis(existing, inferred),
{
    match (existing, inferred) {
        (Some(a), Some(b)) => Some(if a <= b {
            a
        } else {
            b
        }),
        (Some(a), None) => Some(a),
        (None, Some(b)) => Some(b),
        (None, None) => None,
    }
}

/// Combines a stored constraint with a newly inferred one, axis by axis,
/// keeping the tighter bound.
pub fn merge_constraints(existing: Option<WindowConstraint>, inferred: WindowConstraint) -> (r:
    WindowConstraint)
    ensures
        r == merged_constraint(existing, inferred),
{
    match existing {
        Some(e) => WindowConstraint {
            max_w: merge_axis_exec(e.max_w, inferred.max_w),
            max_h: merge_axis_exec(e.max_h, inferred.max_h),
        },
        None => inferred,
    }
}

/// The smaller of two caps.
pub open spec fn tighter(a: i32, b: i32) -> i32 {
    if a <= b {
        a
    } else {
        b
    }
}

/// Bounds only tighten. After two answers that capped the same axis at
/// `c1` and then `c2`, the stored cap is the smaller of the two (and of any
/// cap stored before); an answer that reports no cap on an axis leaves the
/// stored cap of that axis as it was.
pub proof fn lemma_constraint_tightening(
    stored: Option<WindowConstraint>,
    first: WindowConstraint,
    second: WindowConstraint,
)
    ensures
        ({
            let after = merged_constraint(Some(merged_constraint(stored, first)), second);
            &&& first.max_w is Some && second.max_w is Some && (stored is None
                || stored.unwrap().max_w is None) ==> after.max_w == Some(
                tighter(first.max_w.unwrap(), second.max_w.unwrap()),
            )
            &&& first.max_h is Some && second.max_h is Some && (stored is None
                || stored.unwrap().max_h is None) ==> after.max_h == Some(
                tighter(first.max_h.unwrap(), second.max_h.unwrap()),
            )
            &&& first.max_w is Some && second.max_w is Some && stored is Some
                && stored.unwrap().max_w is Some ==> after.max_w == Some(
                tighter(
                    stored.unwrap().max_w.unwrap(),
                    tighter(first.max_w.unwrap(), second.max_w.unwrap()),
                ),
            )
            &&& first.max_h is Some && second.max_h is Some && stored is Some
                && stored.unwrap().max_h is Some ==> after.max_h == Some(
                tighter(
                    stored.unwrap().max_h.unwrap(),
                    tighter(first.max_h.unwrap(), second.max_h.unwrap()),
                ),
            )
        }),
        forall|s: WindowConstraint, n: WindowConstraint|
            n.max_w is None ==> #[trigger] merged_constraint(Some(s), n).max_w == s.max_w,
        forall|s: WindowConstraint, n: WindowConstraint|
            n.max_h is None ==> #[trigger] merged_constraint(Some(s), n).max_h == s.max_h,
{
}

} // verus!

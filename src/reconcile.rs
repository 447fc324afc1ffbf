//! Frame reconciliation: deciding what an incoming frame-change notification
//! means for the reactor's state.
//!
//! Each state change is first written as a function on [`ReactorView`]; the
//! executable code is proved to follow those functions step by step.
use crate::constraint::{
    infer_constraint_from_target, inferred_constraint, merge_constraints, merged_constraint,
    WindowConstraint,
};
use crate::drag::{after_move, finish_of, DragSession, DragState};
use crate::geometry::{mid_of, same_frame, same_point, same_size, Frame};
use crate::model::{FrameChangeKind, MouseState, SpaceId, WindowId};
use crate::reactor::{
    active_space_of, best_space, space_active, space_scrolling, ConstraintProbe, LayoutEvent,
    LayoutWindow, Reactor, ReactorView, Request, WindowState,
};
use crate::tx_store::{last_txid_of, target_of, TransactionId, WindowServerId};
use vstd::prelude::*;

verus! {

broadcast use vstd::std_specs::hash::group_hash_axioms;

/// How a frame-change notification was classified.
#[derive(Clone, Copy, Debug, PartialEq, Eq, Structural)]
pub enum FrameOutcome {
    /// Unknown window, or a system-wide transition is under way.
    Ignored,
    /// The answer to a constraint probe.
    ProbeResolved,
    /// An echo of a request that a newer one has replaced.
    StaleEcho,
    /// The window reached the frame the reactor asked for.
    Confirmed,
    /// The window refused to grow; its size limits were updated.
    ConstraintLearned,
    /// A frame on the way to the requested one; wait for the next.
    Intermediate,
    /// Requested by the reactor without a pending transaction; state synced.
    Resynced,
    /// Neither the old nor the new placement is on an active space.
    OffScreen,
    /// The frame is the one already recorded.
    Duplicate,
    /// Part of a mouse drag.
    Dragged,
    /// Only the geometry-derived space changed for a window that stays in
    /// its scrolling workspace.
    PlacementKept,
    /// The window moved to another space.
    SpaceChanged,
    /// The window was resized by the user.
    Resized,
    /// The window moved within its space.
    Moved,
}

// ----- elementary updates -----

pub open spec fn with_frame(v: ReactorView, wid: WindowId, f: Frame) -> ReactorView {
    ReactorView {
        windows: v.windows.insert(wid.0, WindowState { frame_monotonic: f, ..v.windows[wid.0] }),
        ..v
    }
}

/// Records `f` unless the recorded frame is already the same within tolerance.
pub open spec fn sync_frame(v: ReactorView, wid: WindowId, f: Frame) -> ReactorView {
    if same_frame(v.windows[wid.0].frame_monotonic, f) {
        v
    } else {
        with_frame(v, wid, f)
    }
}

pub open spec fn without_tx(v: ReactorView, sys: Option<WindowServerId>) -> ReactorView {
    match sys {
        Some(s) => ReactorView { txs: v.txs.remove(s.0), ..v },
        None => v,
    }
}

pub open spec fn with_event(v: ReactorView, e: LayoutEvent) -> ReactorView {
    ReactorView { layout_events: v.layout_events.push(e), ..v }
}

pub open spec fn with_request(v: ReactorView, r: Request) -> ReactorView {
    ReactorView { requests: v.requests.push(r), ..v }
}

pub open spec fn constraint_of(v: ReactorView, wid: WindowId) -> Option<WindowConstraint> {
    if v.constraints.contains_key(wid.0) {
        Some(v.constraints[wid.0])
    } else {
        None
    }
}

pub open spec fn pending_target(v: ReactorView, sys: Option<WindowServerId>) -> Option<Frame> {
    match sys {
        Some(s) => target_of(v.txs, s.0),
        None => None,
    }
}

pub open spec fn last_sent(v: ReactorView, sys: Option<WindowServerId>) -> u64 {
    match sys {
        Some(s) => last_txid_of(v.txs, s.0),
        None => 0,
    }
}

pub open spec fn effectively_manageable(w: WindowState) -> bool {
    w.is_manageable && !w.ignore_app_rule
}

// ----- probes and announcing windows -----

/// Index of the first screen showing `space`.
pub open spec fn screen_of_space(screens: Seq<crate::reactor::ScreenInfo>, space: SpaceId) -> Option<
    int,
>
    decreases screens.len(),
{
    if screens.len() == 0 {
        None
    } else {
        match screen_of_space(screens.drop_last(), space) {
            Some(i) => Some(i),
            None => if screens.last().space == Some(space) {
                Some(screens.len() - 1)
            } else {
                None
            },
        }
    }
}

pub proof fn lemma_screen_of_space_in_range(
    screens: Seq<crate::reactor::ScreenInfo>,
    space: SpaceId,
)
    ensures
        screen_of_space(screens, space) matches Some(i) ==> 0 <= i < screens.len() && screens[i].space
            == Some(space),
    decreases screens.len(),
{
    if screens.len() > 0 {
        lemma_screen_of_space_in_range(screens.drop_last(), space);
    }
}

/// Whether a newly placed window is measured before it is laid out: probing
/// is on, the window server knows the window, nothing is known of its limits
/// yet and no probe is under way.
pub open spec fn wants_probe(v: ReactorView, wid: WindowId, space: SpaceId) -> bool {
    &&& v.config.probe_new_windows
    &&& v.windows[wid.0].sys_id is Some
    &&& !v.constraints.contains_key(wid.0)
    &&& !v.probes.contains_key(wid.0)
    &&& screen_of_space(v.screens, space) is Some
    &&& last_txid_of(v.txs, v.windows[wid.0].sys_id.unwrap().0) < u64::MAX
}

/// The frame a probe asks for: the window's origin with the size of the
/// whole screen, more than any window can take.
pub open spec fn probe_target(v: ReactorView, wid: WindowId, space: SpaceId) -> Frame {
    Frame {
        origin: v.windows[wid.0].frame_monotonic.origin,
        size: v.screens[screen_of_space(v.screens, space).unwrap()].frame.size,
    }
}

/// Starts a probe: a new transaction, the probe record and the request.
pub open spec fn start_probe(v: ReactorView, wid: WindowId, target: Frame) -> ReactorView {
    let s = v.windows[wid.0].sys_id.unwrap();
    let txid = TransactionId((last_txid_of(v.txs, s.0) + 1) as u64);
    ReactorView {
        txs: v.txs.insert(s.0, crate::tx_store::TxRecord { txid, target: None }),
        probes: v.probes.insert(wid.0, ConstraintProbe { txid, target }),
        requests: v.requests.push(Request::SetWindowFrame { window: wid, frame: target, txid }),
        ..v
    }
}

/// Announces a window on `space` to the layout, or measures it first.
pub open spec fn dispatch_added(v: ReactorView, wid: WindowId, space: SpaceId) -> ReactorView {
    if v.windows.contains_key(wid.0) && effectively_manageable(v.windows[wid.0]) {
        if wants_probe(v, wid, space) {
            start_probe(v, wid, probe_target(v, wid, space))
        } else {
            with_event(v, LayoutEvent::WindowAdded(space, wid))
        }
    } else {
        v
    }
}

// ----- dragging -----

pub open spec fn lw_contains(l: LayoutWindow, p: (int, int)) -> bool {
    l.frame.origin.x <= p.0 < l.frame.origin.x + l.frame.size.width && l.frame.origin.y <= p.1
        < l.frame.origin.y + l.frame.size.height
}

/// The first tiled window other than `wid` whose region holds the point.
pub open spec fn first_hover(lws: Seq<LayoutWindow>, wid: WindowId, p: (int, int)) -> Option<
    WindowId,
>
    decreases lws.len(),
{
    if lws.len() == 0 {
        None
    } else {
        match first_hover(lws.drop_last(), wid, p) {
            Some(t) => Some(t),
            None => {
                let l = lws.last();
                if l.window != wid && !l.floating && lw_contains(l, p) {
                    Some(l.window)
                } else {
                    None
                }
            },
        }
    }
}

pub open spec fn tiled_in(lws: Seq<LayoutWindow>, wid: WindowId, space: SpaceId) -> bool {
    exists|i: int|
        0 <= i < lws.len() && lws[i].window == wid && lws[i].space == space && !(
        #[trigger] lws[i]).floating
}

pub open spec fn drag_start(
    v: ReactorView,
    wid: WindowId,
    old_frame: Frame,
    origin: Option<SpaceId>,
) -> ReactorView {
    if v.drag_state is Inactive {
        ReactorView {
            drag_state: DragState::Active {
                session: DragSession {
                    window: wid,
                    last_frame: old_frame,
                    origin_space: origin,
                    settled_space: None,
                    layout_dirty: false,
                },
            },
            ..v
        }
    } else {
        v
    }
}

pub open spec fn drag_update(
    v: ReactorView,
    wid: WindowId,
    f: Frame,
    space: Option<SpaceId>,
) -> ReactorView {
    ReactorView {
        drag_state: match v.drag_state {
            DragState::Active { session } => if session.window == wid {
                DragState::Active {
                    session: DragSession { last_frame: f, settled_space: space, ..session },
                }
            } else {
                v.drag_state
            },
            DragState::PendingSwap { session, target } => if session.window == wid {
                DragState::PendingSwap {
                    session: DragSession { last_frame: f, settled_space: space, ..session },
                    target,
                }
            } else {
                v.drag_state
            },
            DragState::Inactive => DragState::Inactive,
        },
        ..v
    }
}

/// Mouse-up ends a drag (or a move handled outside one) with one
/// consolidated layout update.
pub open spec fn mouse_up_step(v: ReactorView, mouse: Option<MouseState>) -> ReactorView {
    if mouse == Some(MouseState::Up) && (!(v.drag_state is Inactive)
        || v.skip_layout_for_window is Some) {
        let v1 = ReactorView {
            drag_state: DragState::Inactive,
            skip_layout_for_window: None,
            ..v
        };
        match finish_of(v.drag_state) {
            Some(fin) => with_event(v1, LayoutEvent::DragEnded(fin)),
            None => with_event(v1, LayoutEvent::UpdateLayout),
        }
    } else {
        v
    }
}

// ----- the decision procedure -----

pub open spec fn suppressed(v: ReactorView, w: WindowState) -> bool {
    !(v.mission_control is Inactive) || (w.sys_id is Some && v.changing_screens.contains(
        w.sys_id.unwrap().0,
    ))
}

pub open spec fn probe_answered(v: ReactorView, wid: WindowId, last_seen: Option<TransactionId>) -> bool {
    v.probes.contains_key(wid.0) && last_seen == Some(v.probes[wid.0].txid)
}

pub open spec fn probe_resolve(v: ReactorView, wid: WindowId, nf: Frame) -> ReactorView {
    let w = v.windows[wid.0];
    let probe = v.probes[wid.0];
    let merged = merged_constraint(constraint_of(v, wid), inferred_constraint(nf, probe.target));
    let v1 = ReactorView {
        constraints: v.constraints.insert(wid.0, merged),
        probes: v.probes.remove(wid.0),
        ..without_tx(with_frame(v, wid, nf), w.sys_id)
    };
    match active_space_of(v1, nf, w.sys_id) {
        Some(space) => dispatch_added(v1, wid, space),
        None => v1,
    }
}

pub open spec fn triggered_by_self(
    v: ReactorView,
    sys: Option<WindowServerId>,
    last_seen: Option<TransactionId>,
) -> bool {
    pending_target(v, sys) is Some && last_seen == Some(TransactionId(last_sent(v, sys)))
}

/// A mouse-down change of a window that has a pending target, carrying no
/// transaction id or the last one: the user has grabbed the window, so the
/// reactor's request is dropped and the change is the user's.
pub open spec fn user_takes_over(
    v: ReactorView,
    sys: Option<WindowServerId>,
    last_seen: Option<TransactionId>,
    mouse: Option<MouseState>,
) -> bool {
    &&& mouse == Some(MouseState::Down)
    &&& pending_target(v, sys) is Some
    &&& (last_seen is None || last_seen == Some(TransactionId(last_sent(v, sys))))
}

pub open spec fn is_stale_echo(
    v: ReactorView,
    sys: Option<WindowServerId>,
    last_seen: Option<TransactionId>,
) -> bool {
    pending_target(v, sys) is Some && last_seen is Some && last_seen.unwrap().0 != last_sent(
        v,
        sys,
    )
}

/// Whether a self-triggered resize came back smaller than requested.
pub open spec fn refused_to_grow(nf: Frame, target: Frame, kind: FrameChangeKind) -> bool {
    &&& kind == FrameChangeKind::Resize
    &&& !same_size(nf.size, target.size)
    &&& (inferred_constraint(nf, target).max_w is Some || inferred_constraint(
        nf,
        target,
    ).max_h is Some)
}

pub open spec fn self_triggered_step(
    v: ReactorView,
    wid: WindowId,
    nf: Frame,
    kind: FrameChangeKind,
    target: Frame,
) -> (ReactorView, FrameOutcome) {
    let sys = v.windows[wid.0].sys_id;
    if same_frame(nf, target) {
        (without_tx(sync_frame(v, wid, nf), sys), FrameOutcome::Confirmed)
    } else if refused_to_grow(nf, target, kind) && same_point(nf.origin, target.origin) {
        let existing = constraint_of(v, wid);
        let merged = merged_constraint(existing, inferred_constraint(nf, target));
        let v1 = ReactorView {
            constraints: v.constraints.insert(wid.0, merged),
            ..without_tx(with_frame(v, wid, nf), sys)
        };
        if existing != Some(merged) && active_space_of(v1, nf, sys) is Some {
            (
                with_event(
                    v1,
                    LayoutEvent::WindowResized { wid, old_frame: target, new_frame: nf },
                ),
                FrameOutcome::ConstraintLearned,
            )
        } else {
            (v1, FrameOutcome::ConstraintLearned)
        }
    } else {
        (v, FrameOutcome::Intermediate)
    }
}

/// A change the reactor did not cause (step 9 of the procedure).
pub open spec fn external_step(
    v: ReactorView,
    wid: WindowId,
    nf: Frame,
    mouse: Option<MouseState>,
) -> (ReactorView, FrameOutcome) {
    let w = v.windows[wid.0];
    let old = w.frame_monotonic;
    let os = best_space(v.screens, old);
    let ns = best_space(v.screens, nf);
    let oa = os is Some && space_active(v.screens, os.unwrap());
    let na = ns is Some && space_active(v.screens, ns.unwrap());
    if !oa && !na {
        (v, FrameOutcome::OffScreen)
    } else if same_frame(old, nf) {
        (v, FrameOutcome::Duplicate)
    } else {
        let v1 = with_frame(v, wid, nf);
        if mouse == Some(MouseState::Down) || !(v.drag_state is Inactive) {
            let v3 = drag_update(drag_start(v1, wid, old, os), wid, nf, ns);
            if !same_size(old.size, nf.size) {
                if active_space_of(v3, nf, w.sys_id) is Some {
                    (
                        with_event(
                            v3,
                            LayoutEvent::WindowResized { wid, old_frame: old, new_frame: nf },
                        ),
                        FrameOutcome::Dragged,
                    )
                } else {
                    (v3, FrameOutcome::Dragged)
                }
            } else {
                (
                    ReactorView {
                        drag_state: after_move(
                            v3.drag_state,
                            wid,
                            first_hover(v3.layout_windows, wid, mid_of(nf)),
                        ),
                        ..v3
                    },
                    FrameOutcome::Dragged,
                )
            }
        } else {
            let v2 = ReactorView { skip_layout_for_window: Some(wid), ..v1 };
            if os != ns {
                if os is Some && space_scrolling(v.screens, os.unwrap()) && tiled_in(
                    v.layout_windows,
                    wid,
                    os.unwrap(),
                ) {
                    (v2, FrameOutcome::PlacementKept)
                } else {
                    let v3 = with_event(v2, LayoutEvent::WindowRemovedPreserveFloating(wid));
                    let v4 = if na {
                        dispatch_added(v3, wid, ns.unwrap())
                    } else {
                        v3
                    };
                    (with_event(v4, LayoutEvent::UpdateLayout), FrameOutcome::SpaceChanged)
                }
            } else if !same_size(old.size, nf.size) {
                if oa {
                    (
                        with_event(
                            v2,
                            LayoutEvent::WindowResized { wid, old_frame: old, new_frame: nf },
                        ),
                        FrameOutcome::Resized,
                    )
                } else {
                    (v2, FrameOutcome::Resized)
                }
            } else {
                (v2, FrameOutcome::Moved)
            }
        }
    }
}

/// Classifies a notification and applies it, before mouse-up handling.
pub open spec fn reconcile(
    v: ReactorView,
    wid: WindowId,
    nf: Frame,
    last_seen: Option<TransactionId>,
    requested: bool,
    kind: FrameChangeKind,
    mouse: Option<MouseState>,
) -> (ReactorView, FrameOutcome) {
    if !v.windows.contains_key(wid.0) || suppressed(v, v.windows[wid.0]) {
        (v, FrameOutcome::Ignored)
    } else if probe_answered(v, wid, last_seen) {
        (probe_resolve(v, wid, nf), FrameOutcome::ProbeResolved)
    } else {
        let sys = v.windows[wid.0].sys_id;
        if user_takes_over(v, sys, last_seen, mouse) {
            let v1 = without_tx(v, sys);
            if requested {
                (without_tx(sync_frame(v1, wid, nf), sys), FrameOutcome::Resynced)
            } else {
                external_step(v1, wid, nf, mouse)
            }
        } else if is_stale_echo(v, sys, last_seen) {
            (v, FrameOutcome::StaleEcho)
        } else if triggered_by_self(v, sys, last_seen) {
            self_triggered_step(v, wid, nf, kind, pending_target(v, sys).unwrap())
        } else if requested {
            (without_tx(sync_frame(v, wid, nf), sys), FrameOutcome::Resynced)
        } else {
            external_step(v, wid, nf, mouse)
        }
    }
}

/// The whole effect of a frame-change notification.
pub open spec fn frame_changed(
    v: ReactorView,
    wid: WindowId,
    nf: Frame,
    last_seen: Option<TransactionId>,
    requested: bool,
    kind: FrameChangeKind,
    mouse: Option<MouseState>,
) -> (ReactorView, FrameOutcome) {
    let (v1, out) = reconcile(v, wid, nf, last_seen, requested, kind, mouse);
    (mouse_up_step(v1, mouse), out)
}

// ----- executable steps -----

impl Reactor {
    pub fn window_state(&self, wid: WindowId) -> (r: Option<WindowState>)
        ensures
            r is Some <==> self@.windows.contains_key(wid.0),
            r matches Some(w) ==> w == self@.windows[wid.0],
    {
        match self.windows.get(&wid.0) {
            Some(w) => Some(*w),
            None => None,
        }
    }

    fn set_frame(&mut self, wid: WindowId, f: Frame)
        requires
            old(self)@.windows.contains_key(wid.0),
        ensures
            final(self)@ == with_frame(old(self)@, wid, f),
    {
        let w = *self.windows.get(&wid.0).unwrap();
        self.windows.insert(wid.0, WindowState { frame_monotonic: f, ..w });
    }

    fn sync_frame_exec(&mut self, wid: WindowId, f: Frame)
        requires
            old(self)@.windows.contains_key(wid.0),
        ensures
            final(self)@ == sync_frame(old(self)@, wid, f),
    {
        let w = *self.windows.get(&wid.0).unwrap();
        if !w.frame_monotonic.same_as(&f) {
            self.set_frame(wid, f);
        }
    }

    fn remove_tx(&mut self, sys: Option<WindowServerId>)
        ensures
            final(self)@ == without_tx(old(self)@, sys),
    {
        if let Some(s) = sys {
            self.txs.remove(&s);
        }
    }

    pub fn send_layout_event(&mut self, e: LayoutEvent)
        ensures
            final(self)@ == with_event(old(self)@, e),
    {
        self.layout_events.push(e);
    }

    pub fn send_request(&mut self, r: Request)
        ensures
            final(self)@ == with_request(old(self)@, r),
    {
        self.requests.push(r);
    }

    /// The size limits stored for the window, if any.
    pub fn window_constraint(&self, wid: WindowId) -> (r: Option<WindowConstraint>)
        ensures
            r == constraint_of(self@, wid),
    {
        match self.constraints.get(&wid.0) {
            Some(c) => Some(*c),
            None => None,
        }
    }

    fn screen_frame_for_space(&self, space: SpaceId) -> (r: Option<Frame>)
        ensures
            r == (match screen_of_space(self@.screens, space) {
                Some(i) => Some(self@.screens[i].frame),
                None => None,
            }),
    {
        let mut i: usize = 0;
        let mut found: Option<usize> = None;
        while i < self.screens.len()
            invariant
                0 <= i <= self.screens@.len(),
                found matches Some(j) ==> screen_of_space(self.screens@.subrange(0, i as int), space)
                    == Some(j as int),
                found is None ==> screen_of_space(self.screens@.subrange(0, i as int), space) is None,
            decreases self.screens.len() - i,
        {
            let ghost prefix = self.screens@.subrange(0, i as int + 1);
            assert(prefix.drop_last() =~= self.screens@.subrange(0, i as int));
            if found.is_none() && self.screens[i].space == Some(space) {
                found = Some(i);
            }
            i = i + 1;
        }
        assert(self.screens@.subrange(0, self.screens@.len() as int) =~= self.screens@);
        proof {
            lemma_screen_of_space_in_range(self.screens@, space);
        }
        match found {
            Some(j) => Some(self.screens[j].frame),
            None => None,
        }
    }

    /// Issues a probe: a new transaction for the window, the probe record,
    /// and the request for `target`.
    pub fn start_constraint_probe(&mut self, wid: WindowId, target: Frame)
        requires
            old(self)@.windows.contains_key(wid.0),
            old(self)@.windows[wid.0].sys_id is Some,
            last_txid_of(old(self)@.txs, old(self)@.windows[wid.0].sys_id.unwrap().0) < u64::MAX,
        ensures
            final(self)@ == start_probe(old(self)@, wid, target),
    {
        let s = self.windows.get(&wid.0).unwrap().sys_id.unwrap();
        let txid = self.txs.next_txid(s);
        self.probes.insert(wid.0, ConstraintProbe { txid, target });
        self.requests.push(Request::SetWindowFrame { window: wid, frame: target, txid });
    }

    /// Starts a probe for a window about to be laid out on `space`, where
    /// one is wanted; says whether it did.
    pub fn maybe_start_constraint_probe(&mut self, wid: WindowId, space: SpaceId) -> (r: bool)
        requires
            old(self)@.windows.contains_key(wid.0),
        ensures
            r == wants_probe(old(self)@, wid, space),
            r ==> final(self)@ == start_probe(old(self)@, wid, probe_target(old(self)@, wid, space)),
            !r ==> final(self)@ == old(self)@,
    {
        if !self.config.probe_new_windows {
            return false;
        }
        let w = *self.windows.get(&wid.0).unwrap();
        let s = match w.sys_id {
            Some(s) => s,
            None => return false,
        };
        if self.constraints.contains_key(&wid.0) || self.probes.contains_key(&wid.0) {
            return false;
        }
        let screen = match self.screen_frame_for_space(space) {
            Some(f) => f,
            None => return false,
        };
        if self.txs.last_txid(&s).0 == u64::MAX {
            return false;
        }
        let target = Frame { origin: w.frame_monotonic.origin, size: screen.size };
        self.start_constraint_probe(wid, target);
        true
    }

    /// The first tiled window, other than `wid`, whose region holds the
    /// centre of `frame`.
    pub fn hovered_window(&self, wid: WindowId, frame: &Frame) -> (r: Option<WindowId>)
        ensures
            r == first_hover(self@.layout_windows, wid, mid_of(*frame)),
    {
        let ghost p = mid_of(*frame);
        let x: i64 = frame.origin.x as i64 + crate::geometry::half_of(frame.size.width);
        let y: i64 = frame.origin.y as i64 + crate::geometry::half_of(frame.size.height);
        let mut i: usize = 0;
        let mut found: Option<WindowId> = None;
        while i < self.layout_windows.len()
            invariant
                0 <= i <= self.layout_windows@.len(),
                p == (x as int, y as int),
                found == first_hover(self.layout_windows@.subrange(0, i as int), wid, p),
            decreases self.layout_windows.len() - i,
        {
            let ghost prefix = self.layout_windows@.subrange(0, i as int + 1);
            assert(prefix.drop_last() =~= self.layout_windows@.subrange(0, i as int));
            if found.is_none() {
                let l = self.layout_windows[i];
                let x0: i64 = l.frame.origin.x as i64;
                let y0: i64 = l.frame.origin.y as i64;
                if l.window != wid && !l.floating && x0 <= x && x < x0 + l.frame.size.width as i64
                    && y0 <= y && y < y0 + l.frame.size.height as i64 {
                    found = Some(l.window);
                }
            }
            i = i + 1;
        }
        assert(self.layout_windows@.subrange(0, self.layout_windows@.len() as int)
            =~= self.layout_windows@);
        found
    }

    /// Whether the layout keeps `wid` tiled on `space`.
    pub fn is_tiled_in(&self, wid: WindowId, space: SpaceId) -> (r: bool)
        ensures
            r == tiled_in(self@.layout_windows, wid, space),
    {
        let mut i: usize = 0;
        while i < self.layout_windows.len()
            invariant
                0 <= i <= self.layout_windows@.len(),
                forall|j: int|
                    0 <= j < i ==> !(self.layout_windows@[j].window == wid
                        && self.layout_windows@[j].space == space && !(
                        #[trigger] self.layout_windows@[j]).floating),
            decreases self.layout_windows.len() - i,
        {
            let l = self.layout_windows[i];
            if l.window == wid && l.space == space && !l.floating {
                return true;
            }
            i = i + 1;
        }
        false
    }
}

/// Announces a window on `space` to the layout, unless it is not
/// effectively manageable; a window whose limits are unknown is probed first.
pub fn maybe_dispatch_window_added_in_space(reactor: &mut Reactor, wid: WindowId, space: SpaceId)
    ensures
        final(reactor)@ == dispatch_added(old(reactor)@, wid, space),
{
    let should_dispatch = match reactor.windows.get(&wid.0) {
        Some(w) => w.matches_filter(crate::reactor::WindowFilter::EffectivelyManageable),
        None => false,
    };
    if should_dispatch {
        if reactor.maybe_start_constraint_probe(wid, space) {
            return;
        }
        reactor.send_layout_event(LayoutEvent::WindowAdded(space, wid));
    }
}

/// On mouse-up, ends a live drag, or the move handled outside one, with one
/// layout update.
pub fn handle_mouse_up_if_needed(reactor: &mut Reactor, mouse_state: Option<MouseState>)
    ensures
        final(reactor)@ == mouse_up_step(old(reactor)@, mouse_state),
{
    if mouse_state == Some(MouseState::Up) && (reactor.drag.is_in_drag()
        || reactor.drag.skip_layout_for_window.is_some()) {
        match reactor.drag.finish() {
            Some(fin) => reactor.send_layout_event(LayoutEvent::DragEnded(fin)),
            None => reactor.send_layout_event(LayoutEvent::UpdateLayout),
        }
    }
}

impl Reactor {
    fn resolve_probe(&mut self, wid: WindowId, nf: Frame, w: WindowState, probe: ConstraintProbe)
        requires
            old(self)@.windows.contains_key(wid.0),
            old(self)@.probes.contains_key(wid.0),
            w == old(self)@.windows[wid.0],
            probe == old(self)@.probes[wid.0],
        ensures
            final(self)@ == probe_resolve(old(self)@, wid, nf),
    {
        self.set_frame(wid, nf);
        self.remove_tx(w.sys_id);
        let inferred = infer_constraint_from_target(nf, probe.target);
        let existing = self.window_constraint(wid);
        let constraint = merge_constraints(existing, inferred);
        self.constraints.insert(wid.0, constraint);
        self.probes.remove(&wid.0);
        if let Some(space) = self.active_space_for_window(&nf, w.sys_id) {
            maybe_dispatch_window_added_in_space(self, wid, space);
        }
    }

    fn reconcile_self_triggered(
        &mut self,
        wid: WindowId,
        nf: Frame,
        kind: FrameChangeKind,
        target: Frame,
    ) -> (r: FrameOutcome)
        requires
            old(self)@.windows.contains_key(wid.0),
        ensures
            (final(self)@, r) == self_triggered_step(old(self)@, wid, nf, kind, target),
    {
        let sys = self.windows.get(&wid.0).unwrap().sys_id;
        if nf.same_as(&target) {
            self.sync_frame_exec(wid, nf);
            self.remove_tx(sys);
            return FrameOutcome::Confirmed;
        }
        let inferred = infer_constraint_from_target(nf, target);
        let refused = kind == FrameChangeKind::Resize && !nf.size.same_as(&target.size) && (
        inferred.max_w.is_some() || inferred.max_h.is_some());
        if refused && nf.origin.same_as(&target.origin) {
            let existing = self.window_constraint(wid);
            let merged = merge_constraints(existing, inferred);
            self.set_frame(wid, nf);
            self.remove_tx(sys);
            self.constraints.insert(wid.0, merged);
            let unchanged = match existing {
                Some(e) => e == merged,
                None => false,
            };
            if !unchanged && self.active_space_for_window(&nf, sys).is_some() {
                self.send_layout_event(
                    LayoutEvent::WindowResized { wid, old_frame: target, new_frame: nf },
                );
            }
            return FrameOutcome::ConstraintLearned;
        }
        FrameOutcome::Intermediate
    }

    #[verifier::rlimit(40)]
    fn reconcile_external(&mut self, wid: WindowId, nf: Frame, mouse: Option<MouseState>) -> (r:
        FrameOutcome)
        requires
            old(self)@.windows.contains_key(wid.0),
        ensures
            (final(self)@, r) == external_step(old(self)@, wid, nf, mouse),
    {
        let w = *self.windows.get(&wid.0).unwrap();
        let old_frame = w.frame_monotonic;
        let old_space = self.best_space_for_window(&old_frame);
        let new_space = self.best_space_for_window(&nf);
        let old_active = match old_space {
            Some(sp) => self.is_space_active(sp),
            None => false,
        };
        let new_active = match new_space {
            Some(sp) => self.is_space_active(sp),
            None => false,
        };
        if !old_active && !new_active {
            return FrameOutcome::OffScreen;
        }
        if old_frame.same_as(&nf) {
            return FrameOutcome::Duplicate;
        }
        self.set_frame(wid, nf);
        if mouse == Some(MouseState::Down) || self.drag.is_in_drag() {
            self.drag.ensure_active_drag(wid, old_frame, old_space);
            self.drag.update_active_drag(wid, nf, new_space);
            if !old_frame.size.same_as(&nf.size) {
                if self.active_space_for_window(&nf, w.sys_id).is_some() {
                    self.send_layout_event(
                        LayoutEvent::WindowResized { wid, old_frame, new_frame: nf },
                    );
                }
            } else {
                let hovered = self.hovered_window(wid, &nf);
                self.drag.on_drag_move(wid, hovered);
            }
            return FrameOutcome::Dragged;
        }
        self.drag.skip_layout_for_window = Some(wid);
        if old_space != new_space {
            let keep = match old_space {
                Some(sp) => self.is_space_scrolling(sp) && self.is_tiled_in(wid, sp),
                None => false,
            };
            if keep {
                return FrameOutcome::PlacementKept;
            }
            self.send_layout_event(LayoutEvent::WindowRemovedPreserveFloating(wid));
            if new_active {
                maybe_dispatch_window_added_in_space(self, wid, new_space.unwrap());
            }
            self.send_layout_event(LayoutEvent::UpdateLayout);
            FrameOutcome::SpaceChanged
        } else if !old_frame.size.same_as(&nf.size) {
            if old_active {
                self.send_layout_event(
                    LayoutEvent::WindowResized { wid, old_frame, new_frame: nf },
                );
            }
            FrameOutcome::Resized
        } else {
            FrameOutcome::Moved
        }
    }

    /// Classifies a frame-change notification and applies it (everything but
    /// the mouse-up handling).
    pub fn reconcile_frame_change(
        &mut self,
        wid: WindowId,
        new_frame: Frame,
        last_seen: Option<TransactionId>,
        requested: bool,
        change_kind: FrameChangeKind,
        mouse_state: Option<MouseState>,
    ) -> (r: FrameOutcome)
        ensures
            (final(self)@, r) == reconcile(
                old(self)@,
                wid,
                new_frame,
                last_seen,
                requested,
                change_kind,
                mouse_state,
            ),
    {
        let w = match self.windows.get(&wid.0) {
            Some(w) => *w,
            None => return FrameOutcome::Ignored,
        };
        let changing = match w.sys_id {
            Some(s) => self.changing_screens.contains(&s.0),
            None => false,
        };
        if !matches!(self.mission_control, crate::model::MissionControlState::Inactive) || changing {
            return FrameOutcome::Ignored;
        }
        if let Some(probe) = self.probes.get(&wid.0) {
            let probe = *probe;
            if last_seen == Some(probe.txid) {
                self.resolve_probe(wid, new_frame, w, probe);
                return FrameOutcome::ProbeResolved;
            }
        }
        let sys = w.sys_id;
        let pending = match sys {
            Some(s) => self.txs.target(&s),
            None => None,
        };
        let last_sent = match sys {
            Some(s) => self.txs.last_txid(&s),
            None => TransactionId::default(),
        };
        let triggered = pending.is_some() && last_seen == Some(last_sent);
        let takes_over = mouse_state == Some(MouseState::Down) && pending.is_some() && (
        last_seen.is_none() || last_seen == Some(last_sent));
        if takes_over {
            self.remove_tx(sys);
            if requested {
                self.sync_frame_exec(wid, new_frame);
                self.remove_tx(sys);
                return FrameOutcome::Resynced;
            }
            return self.reconcile_external(wid, new_frame, mouse_state);
        }
        let stale = match last_seen {
            Some(t) => pending.is_some() && t.0 != last_sent.0,
            None => false,
        };
        if stale {
            return FrameOutcome::StaleEcho;
        }
        if triggered {
            return self.reconcile_self_triggered(wid, new_frame, change_kind, pending.unwrap());
        }
        if requested {
            self.sync_frame_exec(wid, new_frame);
            self.remove_tx(sys);
            return FrameOutcome::Resynced;
        }
        self.reconcile_external(wid, new_frame, mouse_state)
    }
}

// ----- laws -----

/// A notification that echoes a superseded request never rolls the frame
/// back: while a target is pending, a notification whose transaction id is
/// not the last one issued for the window changes neither the window
/// records nor the transactions (unless it answers a probe).
pub proof fn lemma_stale_echo_never_commits(
    v: ReactorView,
    wid: WindowId,
    nf: Frame,
    last_seen: Option<TransactionId>,
    requested: bool,
    kind: FrameChangeKind,
    mouse: Option<MouseState>,
)
    requires
        v.windows.contains_key(wid.0),
        pending_target(v, v.windows[wid.0].sys_id) is Some,
        last_seen is Some,
        last_seen.unwrap().0 != last_sent(v, v.windows[wid.0].sys_id),
        !probe_answered(v, wid, last_seen),
    ensures
        ({
            let (after, out) = frame_changed(v, wid, nf, last_seen, requested, kind, mouse);
            &&& after.windows == v.windows
            &&& after.txs == v.txs
            &&& after.constraints == v.constraints
            &&& out == FrameOutcome::StaleEcho || out == FrameOutcome::Ignored
        }),
{
}

/// A state that has taken in a notification absorbs it: the window is
/// unknown or suppressed, or it already has the notification's frame and
/// the notification neither answers a transaction nor a probe.
proof fn lemma_absorbed(
    u: ReactorView,
    wid: WindowId,
    nf: Frame,
    last_seen: Option<TransactionId>,
    requested: bool,
    kind: FrameChangeKind,
    mouse: Option<MouseState>,
)
    requires
        mouse == Some(MouseState::Up) ==> u.drag_state is Inactive && u.skip_layout_for_window
            is None,
        u.windows.contains_key(wid.0) && !suppressed(u, u.windows[wid.0]) ==> {
            let sys = u.windows[wid.0].sys_id;
            &&& !probe_answered(u, wid, last_seen)
            &&& !triggered_by_self(u, sys, last_seen)
            &&& !user_takes_over(u, sys, last_seen, mouse)
            &&& !is_stale_echo(u, sys, last_seen)
            &&& same_frame(u.windows[wid.0].frame_monotonic, nf)
            &&& requested ==> (sys is None || !u.txs.contains_key(sys.unwrap().0))
        },
    ensures
        frame_changed(u, wid, nf, last_seen, requested, kind, mouse).0 == u,
{
    let (u1, _) = reconcile(u, wid, nf, last_seen, requested, kind, mouse);
    if u.windows.contains_key(wid.0) && !suppressed(u, u.windows[wid.0]) {
        let sys = u.windows[wid.0].sys_id;
        if requested {
            if let Some(s) = sys {
                assert(u.txs.remove(s.0) =~= u.txs);
            }
            assert(u1 =~= u);
        } else {
            assert(u1 == external_step(u, wid, nf, mouse).0);
            assert(u1 == u);
        }
    }
}

/// The second delivery after an external change finds nothing left to do.
#[verifier::rlimit(40)]
proof fn lemma_external_repeat(
    u: ReactorView,
    wid: WindowId,
    nf: Frame,
    last_seen: Option<TransactionId>,
    kind: FrameChangeKind,
    mouse: Option<MouseState>,
)
    requires
        u.windows.contains_key(wid.0),
        !suppressed(u, u.windows[wid.0]),
        !triggered_by_self(u, u.windows[wid.0].sys_id, last_seen),
        !user_takes_over(u, u.windows[wid.0].sys_id, last_seen, mouse),
        !is_stale_echo(u, u.windows[wid.0].sys_id, last_seen),
        !probe_answered(
            mouse_up_step(external_step(u, wid, nf, mouse).0, mouse),
            wid,
            last_seen,
        ),
    ensures
        ({
            let once = mouse_up_step(external_step(u, wid, nf, mouse).0, mouse);
            frame_changed(once, wid, nf, last_seen, false, kind, mouse).0 == once
        }),
{
    let (e, eo) = external_step(u, wid, nf, mouse);
    let once = mouse_up_step(e, mouse);
    let sys = u.windows[wid.0].sys_id;
    assert(once.windows.contains_key(wid.0));
    assert(once.windows[wid.0].sys_id == sys);
    assert(once.screens == u.screens);
    if eo == FrameOutcome::OffScreen || eo == FrameOutcome::Duplicate {
        assert(e == u);
        assert(once.txs == u.txs);
        assert(once.windows == u.windows);
        assert(external_step(once, wid, nf, mouse).0 == once);
    } else {
        assert(once.windows[wid.0].frame_monotonic == nf);
        assert(once.txs == u.txs || pending_target(once, sys) is None);
        assert(external_step(once, wid, nf, mouse).0 == once);
    }
    assert(mouse == Some(MouseState::Up) ==> once.drag_state is Inactive
        && once.skip_layout_for_window is None);
}

/// A notification that changed nothing the first time changes nothing the
/// second time either.
proof fn lemma_unchanged_repeat(
    v: ReactorView,
    wid: WindowId,
    nf: Frame,
    last_seen: Option<TransactionId>,
    requested: bool,
    kind: FrameChangeKind,
    mouse: Option<MouseState>,
)
    requires
        v.windows.contains_key(wid.0),
        !suppressed(v, v.windows[wid.0]),
        !probe_answered(v, wid, last_seen),
        !user_takes_over(v, v.windows[wid.0].sys_id, last_seen, mouse),
        is_stale_echo(v, v.windows[wid.0].sys_id, last_seen) || (triggered_by_self(
            v,
            v.windows[wid.0].sys_id,
            last_seen,
        ) && self_triggered_step(
            v,
            wid,
            nf,
            kind,
            pending_target(v, v.windows[wid.0].sys_id).unwrap(),
        ).1 == FrameOutcome::Intermediate),
    ensures
        ({
            let once = mouse_up_step(v, mouse);
            frame_changed(once, wid, nf, last_seen, requested, kind, mouse).0 == once
        }),
{
    let once = mouse_up_step(v, mouse);
    assert(once.windows == v.windows && once.txs == v.txs && once.probes == v.probes);
    assert(once.constraints == v.constraints);
    let (u1, _) = reconcile(once, wid, nf, last_seen, requested, kind, mouse);
    assert(u1 == once);
    assert(mouse == Some(MouseState::Up) ==> once.drag_state is Inactive
        && once.skip_layout_for_window is None);
}

/// Delivering the same notification twice leaves the state as one delivery
/// does, and the second delivery emits nothing. The one exception is a
/// notification whose transaction id happens to be that of a probe the
/// first delivery started.
pub proof fn lemma_frame_change_idempotent(
    v: ReactorView,
    wid: WindowId,
    nf: Frame,
    last_seen: Option<TransactionId>,
    requested: bool,
    kind: FrameChangeKind,
    mouse: Option<MouseState>,
)
    requires
        !probe_answered(
            frame_changed(v, wid, nf, last_seen, requested, kind, mouse).0,
            wid,
            last_seen,
        ),
    ensures
        ({
            let once = frame_changed(v, wid, nf, last_seen, requested, kind, mouse).0;
            frame_changed(once, wid, nf, last_seen, requested, kind, mouse).0 == once
        }),
{
    let (v1, out) = reconcile(v, wid, nf, last_seen, requested, kind, mouse);
    let once = mouse_up_step(v1, mouse);
    assert(mouse == Some(MouseState::Up) ==> once.drag_state is Inactive
        && once.skip_layout_for_window is None);
    if !v.windows.contains_key(wid.0) || suppressed(v, v.windows[wid.0]) {
        lemma_absorbed(once, wid, nf, last_seen, requested, kind, mouse);
        return;
    }
    let sys = v.windows[wid.0].sys_id;
    if probe_answered(v, wid, last_seen) {
        assert(once.windows[wid.0].sys_id == sys);
        assert(pending_target(once, sys) is None);
        lemma_absorbed(once, wid, nf, last_seen, requested, kind, mouse);
    } else if user_takes_over(v, sys, last_seen, mouse) {
        let w1 = without_tx(v, sys);
        assert(w1.windows == v.windows);
        assert(pending_target(w1, sys) is None);
        if requested {
            assert(pending_target(once, sys) is None);
            lemma_absorbed(once, wid, nf, last_seen, requested, kind, mouse);
        } else {
            assert(v1 == external_step(w1, wid, nf, mouse).0);
            lemma_external_repeat(w1, wid, nf, last_seen, kind, mouse);
        }
    } else if is_stale_echo(v, sys, last_seen) {
        lemma_unchanged_repeat(v, wid, nf, last_seen, requested, kind, mouse);
    } else if triggered_by_self(v, sys, last_seen) {
        let to = self_triggered_step(v, wid, nf, kind, pending_target(v, sys).unwrap()).1;
        if to == FrameOutcome::Intermediate {
            lemma_unchanged_repeat(v, wid, nf, last_seen, requested, kind, mouse);
        } else {
            assert(once.windows[wid.0].sys_id == sys);
            assert(pending_target(once, sys) is None);
            assert(sys is Some ==> !once.txs.contains_key(sys.unwrap().0));
            lemma_absorbed(once, wid, nf, last_seen, requested, kind, mouse);
        }
    } else if requested {
        assert(once.windows[wid.0].sys_id == sys);
        assert(sys is Some ==> !once.txs.contains_key(sys.unwrap().0));
        lemma_absorbed(once, wid, nf, last_seen, requested, kind, mouse);
    } else {
        lemma_external_repeat(v, wid, nf, last_seen, kind, mouse);
    }
}

/// A notification that carries the pending transaction's id and the
/// requested frame commits that frame silently: the transaction is closed
/// and no layout event is emitted.
pub proof fn lemma_self_triggered_commits_silently(
    v: ReactorView,
    wid: WindowId,
    s: WindowServerId,
    target: Frame,
    requested: bool,
    kind: FrameChangeKind,
    mouse: Option<MouseState>,
)
    requires
        v.windows.contains_key(wid.0),
        v.windows[wid.0].sys_id == Some(s),
        target_of(v.txs, s.0) == Some(target),
        !suppressed(v, v.windows[wid.0]),
        !probe_answered(v, wid, Some(TransactionId(last_txid_of(v.txs, s.0)))),
        mouse is None || (mouse == Some(MouseState::Up) && v.drag_state is Inactive
            && v.skip_layout_for_window is None),
    ensures
        ({
            let (after, out) = frame_changed(
                v,
                wid,
                target,
                Some(TransactionId(last_txid_of(v.txs, s.0))),
                requested,
                kind,
                mouse,
            );
            &&& out == FrameOutcome::Confirmed
            &&& same_frame(after.windows[wid.0].frame_monotonic, target)
            &&& !after.txs.contains_key(s.0)
            &&& after.layout_events == v.layout_events
        }),
{
}

/// An external mouse-down change of a window that the reactor is moving
/// starts a drag of that window, records the new frame and drops the
/// pending transaction.
pub proof fn lemma_external_drag_takes_over(
    v: ReactorView,
    wid: WindowId,
    s: WindowServerId,
    nf: Frame,
    last_seen: Option<TransactionId>,
    kind: FrameChangeKind,
)
    requires
        v.windows.contains_key(wid.0),
        v.windows[wid.0].sys_id == Some(s),
        target_of(v.txs, s.0) is Some,
        last_seen is None || last_seen == Some(TransactionId(last_txid_of(v.txs, s.0))),
        !suppressed(v, v.windows[wid.0]),
        !probe_answered(v, wid, last_seen),
        v.drag_state is Inactive,
        !same_frame(v.windows[wid.0].frame_monotonic, nf),
        ({
            let os = best_space(v.screens, v.windows[wid.0].frame_monotonic);
            let ns = best_space(v.screens, nf);
            (os is Some && space_active(v.screens, os.unwrap())) || (ns is Some && space_active(
                v.screens,
                ns.unwrap(),
            ))
        }),
    ensures
        ({
            let (after, out) = frame_changed(
                v,
                wid,
                nf,
                last_seen,
                false,
                kind,
                Some(MouseState::Down),
            );
            &&& out == FrameOutcome::Dragged
            &&& after.windows[wid.0].frame_monotonic == nf
            &&& crate::drag::session_of(after.drag_state) is Some
            &&& crate::drag::session_of(after.drag_state).unwrap().window == wid
            &&& first_hover(v.layout_windows, wid, mid_of(nf)) is None ==> after.drag_state is Active
            &&& !after.txs.contains_key(s.0)
        }),
{
}

/// Each probe answer tightens the stored limits: afterwards the window's
/// constraint is the merge of what was stored and what the answer shows,
/// and the probe is gone. With `lemma_constraint_tightening`, two answers
/// that cap an axis at `c1` and then `c2` leave the smaller of the two, and
/// an answer without a cap keeps the stored one.
pub proof fn lemma_probe_answer_tightens(
    v: ReactorView,
    wid: WindowId,
    nf: Frame,
    last_seen: Option<TransactionId>,
    requested: bool,
    kind: FrameChangeKind,
    mouse: Option<MouseState>,
)
    requires
        v.windows.contains_key(wid.0),
        !suppressed(v, v.windows[wid.0]),
        probe_answered(v, wid, last_seen),
    ensures
        ({
            let (after, out) = frame_changed(v, wid, nf, last_seen, requested, kind, mouse);
            &&& out == FrameOutcome::ProbeResolved
            &&& constraint_of(after, wid) == Some(
                merged_constraint(
                    constraint_of(v, wid),
                    inferred_constraint(nf, v.probes[wid.0].target),
                ),
            )
            &&& !after.probes.contains_key(wid.0)
            &&& after.windows[wid.0].frame_monotonic == nf
        }),
{
}

} // verus!

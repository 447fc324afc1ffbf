//! Window lifecycle and geometry events.
use crate::drag::DragState;
use crate::geometry::Frame;
use crate::model::{FrameChangeKind, MouseState, Requested, WindowId};
use crate::reactor::{
    active_space_of, LayoutEvent, Reactor, ReactorView, Request, WindowInfo, WindowState,
};
use crate::reconcile::{
    dispatch_added, frame_changed, handle_mouse_up_if_needed,
    maybe_dispatch_window_added_in_space, FrameOutcome,
};
use crate::tx_store::{last_txid_of, TransactionId, TxRecord, WindowServerId};
use vstd::prelude::*;

verus! {

broadcast use vstd::std_specs::hash::group_hash_axioms;

pub struct WindowEventHandler;

/// Whether a window with these properties is one the layout should manage.
pub open spec fn manageable(is_minimized: bool, is_standard: bool, is_root: bool) -> bool {
    !is_minimized && is_standard && is_root
}

pub fn compute_window_manageability(is_minimized: bool, is_standard: bool, is_root: bool) -> (r:
    bool)
    ensures
        r == manageable(is_minimized, is_standard, is_root),
{
    !is_minimized && is_standard && is_root
}

pub open spec fn new_window_state(info: WindowInfo) -> WindowState {
    WindowState {
        sys_id: info.sys_id,
        frame_monotonic: info.frame,
        is_minimized: info.is_minimized,
        is_standard: info.is_standard,
        is_root: info.is_root,
        is_manageable: manageable(info.is_minimized, info.is_standard, info.is_root),
        ignore_app_rule: false,
    }
}

/// A new window is recorded with its frame as the expected result of the
/// window's last transaction, and announced if it is manageable and on an
/// active space.
pub open spec fn window_created(v: ReactorView, wid: WindowId, info: WindowInfo) -> ReactorView {
    let ws = new_window_state(info);
    let v1 = match info.sys_id {
        Some(s) => ReactorView {
            window_ids: v.window_ids.insert(s.0, wid),
            txs: v.txs.insert(
                s.0,
                TxRecord {
                    txid: TransactionId(last_txid_of(v.txs, s.0) as u64),
                    target: Some(info.frame),
                },
            ),
            ..v
        },
        None => v,
    };
    let v2 = ReactorView {
        windows: v1.windows.insert(wid.0, ws),
        titles: v1.titles.insert(wid.0, info.title@),
        ..v1
    };
    if ws.is_manageable {
        match active_space_of(v2, info.frame, info.sys_id) {
            Some(space) => dispatch_added(v2, wid, space),
            None => v2,
        }
    } else {
        v2
    }
}

/// The drag coordinator after `wid` is gone: any drag that involves it is
/// dropped.
pub open spec fn drag_after_destroy(
    state: DragState,
    skip: Option<WindowId>,
    wid: WindowId,
) -> (DragState, Option<WindowId>) {
    let involved = match state {
        DragState::Inactive => false,
        DragState::Active { session } => session.window == wid,
        DragState::PendingSwap { session, target } => session.window == wid || target == wid,
    };
    if involved {
        (DragState::Inactive, None)
    } else {
        (state, if skip == Some(wid) {
            None
        } else {
            skip
        })
    }
}

pub open spec fn window_destroyed(v: ReactorView, wid: WindowId) -> (ReactorView, bool) {
    if !v.windows.contains_key(wid.0) {
        (v, false)
    } else {
        let w = v.windows[wid.0];
        let v1 = match w.sys_id {
            Some(s) => ReactorView {
                txs: v.txs.remove(s.0),
                window_ids: v.window_ids.remove(s.0),
                ..v
            },
            None => v,
        };
        let (drag_state, skip) = drag_after_destroy(
            v.drag_state,
            v.skip_layout_for_window,
            wid,
        );
        (
            ReactorView {
                windows: v1.windows.remove(wid.0),
                titles: v1.titles.remove(wid.0),
                probes: v1.probes.remove(wid.0),
                constraints: v1.constraints.remove(wid.0),
                main_window: if v.main_window == Some(wid) {
                    None
                } else {
                    v.main_window
                },
                drag_state,
                skip_layout_for_window: skip,
                layout_events: v1.layout_events.push(LayoutEvent::WindowRemoved(wid)),
                ..v1
            },
            true,
        )
    }
}

pub open spec fn window_minimized(v: ReactorView, wid: WindowId) -> ReactorView {
    if !v.windows.contains_key(wid.0) || v.windows[wid.0].is_minimized {
        v
    } else {
        ReactorView {
            windows: v.windows.insert(
                wid.0,
                WindowState { is_minimized: true, is_manageable: false, ..v.windows[wid.0] },
            ),
            probes: v.probes.remove(wid.0),
            layout_events: v.layout_events.push(LayoutEvent::WindowRemoved(wid)),
            ..v
        }
    }
}

pub open spec fn window_deminiaturized(v: ReactorView, wid: WindowId) -> ReactorView {
    if !v.windows.contains_key(wid.0) || !v.windows[wid.0].is_minimized {
        v
    } else {
        let w = v.windows[wid.0];
        let m = manageable(false, w.is_standard, w.is_root);
        let v1 = ReactorView {
            windows: v.windows.insert(
                wid.0,
                WindowState { is_minimized: false, is_manageable: m, ..w },
            ),
            ..v
        };
        if m {
            match active_space_of(v1, w.frame_monotonic, w.sys_id) {
                Some(space) => dispatch_added(v1, wid, space),
                None => v1,
            }
        } else {
            v1
        }
    }
}

pub open spec fn title_changed(v: ReactorView, wid: WindowId, title: Seq<char>) -> ReactorView {
    if !v.windows.contains_key(wid.0) || (v.titles.contains_key(wid.0) && v.titles[wid.0]
        == title) {
        v
    } else {
        ReactorView {
            titles: v.titles.insert(wid.0, title),
            requests: v.requests.push(Request::TitleChanged { window: wid }),
            ..v
        }
    }
}

/// Focus follows the mouse onto a window: only when enabled, outside a
/// drag, and for a window that is not already focused.
pub open spec fn should_raise_on_mouse_over(v: ReactorView, wid: WindowId) -> bool {
    v.focus_follows_mouse && v.drag_state is Inactive && v.main_window != Some(wid)
}

pub open spec fn mouse_moved_over(v: ReactorView, wsid: WindowServerId) -> ReactorView {
    if !v.window_ids.contains_key(wsid.0) {
        v
    } else {
        let wid = v.window_ids[wsid.0];
        if !should_raise_on_mouse_over(v, wid) {
            v
        } else {
            let v1 = ReactorView { requests: v.requests.push(Request::Raise { window: wid }), ..v };
            if v.windows.contains_key(wid.0) {
                let w = v.windows[wid.0];
                match active_space_of(v1, w.frame_monotonic, w.sys_id) {
                    Some(space) => crate::events::command::focus_on(v1, space, wid),
                    None => v1,
                }
            } else {
                v1
            }
        }
    }
}

impl WindowEventHandler {
    pub fn handle_window_created(reactor: &mut Reactor, wid: WindowId, window: WindowInfo)
        ensures
            final(reactor)@ == window_created(old(reactor)@, wid, window),
    {
        let frame = window.frame;
        let sys_id = window.sys_id;
        let is_manageable = compute_window_manageability(
            window.is_minimized,
            window.is_standard,
            window.is_root,
        );
        let mut state = WindowState::from_info(&window);
        state.is_manageable = is_manageable;
        if let Some(wsid) = sys_id {
            reactor.window_ids.insert(wsid.0, wid);
            let last = reactor.txs.last_txid(&wsid);
            reactor.txs.insert(wsid, last, frame);
        }
        reactor.windows.insert(wid.0, state);
        reactor.titles.insert(wid.0, window.title);
        proof {
            assert(reactor@.titles =~= old(reactor)@.titles.insert(wid.0, window.title@));
        }
        if is_manageable {
            if let Some(space) = reactor.active_space_for_window(&frame, sys_id) {
                maybe_dispatch_window_added_in_space(reactor, wid, space);
            }
        }
    }

    pub fn handle_window_destroyed(reactor: &mut Reactor, wid: WindowId) -> (r: bool)
        ensures
            (final(reactor)@, r) == window_destroyed(old(reactor)@, wid),
    {
        let w = match reactor.windows.get(&wid.0) {
            Some(w) => *w,
            None => return false,
        };
        if let Some(ws_id) = w.sys_id {
            reactor.txs.remove(&ws_id);
            reactor.window_ids.remove(&ws_id.0);
        }
        reactor.windows.remove(&wid.0);
        reactor.titles.remove(&wid.0);
        proof {
            assert(reactor@.titles =~= old(reactor)@.titles.remove(wid.0));
        }
        reactor.probes.remove(&wid.0);
        reactor.constraints.remove(&wid.0);
        if reactor.main_window == Some(wid) {
            reactor.main_window = None;
        }
        reactor.send_layout_event(LayoutEvent::WindowRemoved(wid));
        if let DragState::PendingSwap { session, target } = reactor.drag.drag_state {
            if session.window == wid || target == wid {
                reactor.drag.drag_state = DragState::Inactive;
                reactor.drag.skip_layout_for_window = None;
            }
        }
        let dragged = reactor.drag.dragged();
        if dragged == Some(wid) {
            reactor.drag.reset();
        }
        if reactor.drag.skip_layout_for_window == Some(wid) {
            reactor.drag.skip_layout_for_window = None;
        }
        true
    }

    pub fn handle_window_minimized(reactor: &mut Reactor, wid: WindowId)
        ensures
            final(reactor)@ == window_minimized(old(reactor)@, wid),
    {
        let w = match reactor.windows.get(&wid.0) {
            Some(w) => *w,
            None => return ,
        };
        if w.is_minimized {
            return ;
        }
        reactor.windows.insert(
            wid.0,
            WindowState { is_minimized: true, is_manageable: false, ..w },
        );
        reactor.probes.remove(&wid.0);
        reactor.send_layout_event(LayoutEvent::WindowRemoved(wid));
    }

    pub fn handle_window_deminiaturized(reactor: &mut Reactor, wid: WindowId)
        ensures
            final(reactor)@ == window_deminiaturized(old(reactor)@, wid),
    {
        let w = match reactor.windows.get(&wid.0) {
            Some(w) => *w,
            None => return ,
        };
        if !w.is_minimized {
            return ;
        }
        let is_manageable = compute_window_manageability(false, w.is_standard, w.is_root);
        reactor.windows.insert(
            wid.0,
            WindowState { is_minimized: false, is_manageable, ..w },
        );
        if is_manageable {
            if let Some(space) = reactor.active_space_for_window(&w.frame_monotonic, w.sys_id) {
                maybe_dispatch_window_added_in_space(reactor, wid, space);
            }
        }
    }

    /// Reconciles a frame-change notification, then handles a mouse-up.
    /// `mouse_state` is the button state as the notification or, where it
    /// had none, a query of the pointer reported it.
    pub fn handle_window_frame_changed(
        reactor: &mut Reactor,
        wid: WindowId,
        new_frame: Frame,
        last_seen: Option<TransactionId>,
        requested: Requested,
        change_kind: FrameChangeKind,
        mouse_state: Option<MouseState>,
    ) -> (r: FrameOutcome)
        ensures
            (final(reactor)@, r) == frame_changed(
                old(reactor)@,
                wid,
                new_frame,
                last_seen,
                requested.0,
                change_kind,
                mouse_state,
            ),
    {
        let r = reactor.reconcile_frame_change(
            wid,
            new_frame,
            last_seen,
            requested.0,
            change_kind,
            mouse_state,
        );
        handle_mouse_up_if_needed(reactor, mouse_state);
        r
    }

    pub fn handle_window_title_changed(reactor: &mut Reactor, wid: WindowId, new_title: String)
        ensures
            final(reactor)@ == title_changed(old(reactor)@, wid, new_title@),
    {
        if !reactor.windows.contains_key(&wid.0) {
            return ;
        }
        let same = match reactor.titles.get(&wid.0) {
            Some(t) => *t == new_title,
            None => false,
        };
        if same {
            return ;
        }
        let ghost nt = new_title@;
        reactor.titles.insert(wid.0, new_title);
        proof {
            assert(reactor@.titles =~= old(reactor)@.titles.insert(wid.0, nt));
        }
        reactor.send_request(Request::TitleChanged { window: wid });
    }

    pub fn handle_mouse_moved_over_window(reactor: &mut Reactor, wsid: WindowServerId)
        ensures
            final(reactor)@ == mouse_moved_over(old(reactor)@, wsid),
    {
        let wid = match reactor.window_ids.get(&wsid.0) {
            Some(w) => *w,
            None => return ,
        };
        if !(reactor.focus_follows_mouse && !reactor.drag.is_in_drag() && reactor.main_window
            != Some(wid)) {
            return ;
        }
        reactor.send_request(Request::Raise { window: wid });
        if let Some(w) = reactor.window_state(wid) {
            if let Some(space) = reactor.active_space_for_window(&w.frame_monotonic, w.sys_id) {
                reactor.focus_on(space, wid);
            }
        }
    }
}

/// Destroying a window leaves nothing that refers to it: no probe, no
/// transaction, no record, and no drag in which it takes part, all within
/// the one handling step.
pub proof fn lemma_destruction_clears_references(v: ReactorView, wid: WindowId)
    requires
        v.windows.contains_key(wid.0),
    ensures
        ({
            let (after, found) = window_destroyed(v, wid);
            &&& found
            &&& !after.windows.contains_key(wid.0)
            &&& !after.probes.contains_key(wid.0)
            &&& v.windows[wid.0].sys_id matches Some(s) ==> !after.txs.contains_key(s.0)
            &&& match after.drag_state {
                DragState::Inactive => true,
                DragState::Active { session } => session.window != wid,
                DragState::PendingSwap { session, target } => session.window != wid && target
                    != wid,
            }
            &&& after.skip_layout_for_window != Some(wid)
            &&& after.main_window != Some(wid)
        }),
{
}

} // verus!

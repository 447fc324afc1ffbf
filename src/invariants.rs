//! The reactor's records agree with each other, and every handler keeps it so.
use crate::events::command::{command, move_window_to_display};
use crate::events::system::{menu_closed, menu_opened};
use crate::events::window::{
    mouse_moved_over, title_changed, window_created, window_deminiaturized, window_destroyed,
    window_minimized,
};
use crate::geometry::Frame;
use crate::model::{Command, DisplaySelector, ReactorCommand, FrameChangeKind, MouseState, SpaceId, WindowId};
use crate::reactor::{ReactorView, WindowInfo};
use crate::reconcile::{
    dispatch_added, external_step, frame_changed, mouse_up_step, probe_resolve, reconcile,
    self_triggered_step, sync_frame, with_frame, without_tx,
};
use crate::tx_store::{TransactionId, WindowServerId};
use vstd::prelude::*;

verus! {

/// Every window-server id in the index names a known window that carries
/// that id; probes and stored constraints exist only for known windows.
pub open spec fn well_formed(v: ReactorView) -> bool {
    &&& forall|s: u32| #[trigger]
        v.window_ids.contains_key(s) ==> v.windows.contains_key(v.window_ids[s].0)
            && v.windows[v.window_ids[s].0].sys_id == Some(WindowServerId(s))
    &&& forall|k: u64| #[trigger] v.probes.contains_key(k) ==> v.windows.contains_key(k)
    &&& forall|k: u64| #[trigger] v.constraints.contains_key(k) ==> v.windows.contains_key(k)
}

/// Records may change, but each known window keeps its window-server id.
pub open spec fn same_ids(a: ReactorView, b: ReactorView) -> bool {
    &&& b.window_ids == a.window_ids
    &&& forall|k: u64| #[trigger]
        a.windows.contains_key(k) ==> b.windows.contains_key(k) && b.windows[k].sys_id
            == a.windows[k].sys_id
    &&& forall|k: u64| #[trigger] b.windows.contains_key(k) ==> a.windows.contains_key(k)
    &&& forall|k: u64| #[trigger] b.probes.contains_key(k) ==> b.windows.contains_key(k)
    &&& forall|k: u64| #[trigger] b.constraints.contains_key(k) ==> b.windows.contains_key(k)
}

proof fn lemma_same_ids_wf(a: ReactorView, b: ReactorView)
    requires
        well_formed(a),
        same_ids(a, b),
    ensures
        well_formed(b),
{
    assert forall|s: u32| #[trigger] b.window_ids.contains_key(s) implies b.windows.contains_key(
        b.window_ids[s].0,
    ) && b.windows[b.window_ids[s].0].sys_id == Some(WindowServerId(s)) by {
        assert(a.window_ids.contains_key(s));
        assert(a.windows.contains_key(a.window_ids[s].0));
    }
}

proof fn lemma_with_frame_ids(v: ReactorView, wid: WindowId, f: Frame)
    requires
        well_formed(v),
        v.windows.contains_key(wid.0),
    ensures
        same_ids(v, with_frame(v, wid, f)),
        same_ids(v, sync_frame(v, wid, f)),
{
}

proof fn lemma_dispatch_ids(v: ReactorView, wid: WindowId, space: SpaceId)
    requires
        well_formed(v),
    ensures
        same_ids(v, dispatch_added(v, wid, space)),
{
}

proof fn lemma_mouse_up_ids(v: ReactorView, mouse: Option<MouseState>)
    requires
        well_formed(v),
    ensures
        same_ids(v, mouse_up_step(v, mouse)),
{
}

#[verifier::rlimit(40)]
proof fn lemma_external_ids(v: ReactorView, wid: WindowId, nf: Frame, mouse: Option<MouseState>)
    requires
        well_formed(v),
        v.windows.contains_key(wid.0),
    ensures
        same_ids(v, external_step(v, wid, nf, mouse).0),
{
    let v1 = with_frame(v, wid, nf);
    lemma_with_frame_ids(v, wid, nf);
    lemma_same_ids_wf(v, v1);
    let ns = crate::reactor::best_space(v.screens, nf);
    if ns is Some {
        lemma_dispatch_ids(
            crate::reconcile::with_event(
                crate::reactor::ReactorView { skip_layout_for_window: Some(wid), ..v1 },
                crate::reactor::LayoutEvent::WindowRemovedPreserveFloating(wid),
            ),
            wid,
            ns.unwrap(),
        );
    }
}

/// A frame-change notification keeps the records consistent.
#[verifier::rlimit(40)]
pub proof fn lemma_frame_change_keeps_well_formed(
    v: ReactorView,
    wid: WindowId,
    nf: Frame,
    last_seen: Option<TransactionId>,
    requested: bool,
    kind: FrameChangeKind,
    mouse: Option<MouseState>,
)
    requires
        well_formed(v),
    ensures
        well_formed(frame_changed(v, wid, nf, last_seen, requested, kind, mouse).0),
{
    let (v1, out) = reconcile(v, wid, nf, last_seen, requested, kind, mouse);
    if v.windows.contains_key(wid.0) {
        let sys = v.windows[wid.0].sys_id;
        lemma_with_frame_ids(v, wid, nf);
        if crate::reconcile::probe_answered(v, wid, last_seen) {
            let w0 = with_frame(v, wid, nf);
            lemma_same_ids_wf(v, w0);
            let p = probe_resolve(v, wid, nf);
            let merged = crate::constraint::merged_constraint(
                crate::reconcile::constraint_of(v, wid),
                crate::constraint::inferred_constraint(nf, v.probes[wid.0].target),
            );
            let w1 = ReactorView {
                constraints: v.constraints.insert(wid.0, merged),
                probes: v.probes.remove(wid.0),
                ..without_tx(w0, sys)
            };
            assert(same_ids(v, w1));
            lemma_same_ids_wf(v, w1);
            match crate::reactor::active_space_of(w1, nf, sys) {
                Some(space) => lemma_dispatch_ids(w1, wid, space),
                None => {},
            }
            assert(same_ids(v, p));
        } else if crate::reconcile::user_takes_over(v, sys, last_seen, mouse) {
            let w1 = without_tx(v, sys);
            assert(same_ids(v, w1));
            lemma_same_ids_wf(v, w1);
            lemma_with_frame_ids(w1, wid, nf);
            lemma_external_ids(w1, wid, nf, mouse);
        } else if crate::reconcile::is_stale_echo(v, sys, last_seen) {
        } else if crate::reconcile::triggered_by_self(v, sys, last_seen) {
            let t = crate::reconcile::pending_target(v, sys).unwrap();
            assert(same_ids(v, self_triggered_step(v, wid, nf, kind, t).0));
        } else if requested {
        } else {
            lemma_external_ids(v, wid, nf, mouse);
        }
        assert(same_ids(v, v1));
        lemma_same_ids_wf(v, v1);
        lemma_mouse_up_ids(v1, mouse);
        lemma_same_ids_wf(v1, mouse_up_step(v1, mouse));
    } else {
        lemma_mouse_up_ids(v1, mouse);
        lemma_same_ids_wf(v1, mouse_up_step(v1, mouse));
    }
}

/// Adding a window under a fresh id keeps the records consistent; a
/// window server id that named another window now names the new one.
pub proof fn lemma_created_keeps_well_formed(v: ReactorView, wid: WindowId, info: WindowInfo)
    requires
        well_formed(v),
        !v.windows.contains_key(wid.0),
    ensures
        well_formed(window_created(v, wid, info)),
{
    let ws = crate::events::window::new_window_state(info);
    let v1 = match info.sys_id {
        Some(s) => ReactorView {
            window_ids: v.window_ids.insert(s.0, wid),
            txs: v.txs.insert(
                s.0,
                crate::tx_store::TxRecord {
                    txid: TransactionId(crate::tx_store::last_txid_of(v.txs, s.0) as u64),
                    target: Some(info.frame),
                },
            ),
            ..v
        },
        None => v,
    };
    let v2 = ReactorView {
        windows: v1.windows.insert(wid.0, ws),
        titles: v1.titles.insert(wid.0, info.title@),
        ..v1
    };
    assert forall|s: u32| #[trigger] v2.window_ids.contains_key(s) implies v2.windows.contains_key(
        v2.window_ids[s].0,
    ) && v2.windows[v2.window_ids[s].0].sys_id == Some(WindowServerId(s)) by {
        if info.sys_id != Some(WindowServerId(s)) {
            assert(v.window_ids.contains_key(s));
            assert(v.windows.contains_key(v.window_ids[s].0));
        }
    }
    assert(well_formed(v2));
    if ws.is_manageable {
        match crate::reactor::active_space_of(v2, info.frame, info.sys_id) {
            Some(space) => {
                lemma_dispatch_ids(v2, wid, space);
                lemma_same_ids_wf(v2, dispatch_added(v2, wid, space));
            },
            None => {},
        }
    }
}

/// Removing a window removes everything that named it.
pub proof fn lemma_destroyed_keeps_well_formed(v: ReactorView, wid: WindowId)
    requires
        well_formed(v),
    ensures
        well_formed(window_destroyed(v, wid).0),
{
    let after = window_destroyed(v, wid).0;
    if v.windows.contains_key(wid.0) {
        assert forall|s: u32| #[trigger] after.window_ids.contains_key(s) implies after.windows.contains_key(
            after.window_ids[s].0,
        ) && after.windows[after.window_ids[s].0].sys_id == Some(WindowServerId(s)) by {
            assert(v.window_ids.contains_key(s));
            assert(v.windows.contains_key(v.window_ids[s].0));
        }
    }
}

/// Minimising, restoring, renaming, menus, pointer moves and commands keep
/// the records consistent.
pub proof fn lemma_other_events_keep_well_formed(
    v: ReactorView,
    wid: WindowId,
    title: Seq<char>,
    wsid: WindowServerId,
    cmd: Command,
)
    requires
        well_formed(v),
    ensures
        well_formed(window_minimized(v, wid)),
        well_formed(window_deminiaturized(v, wid)),
        well_formed(title_changed(v, wid, title)),
        well_formed(mouse_moved_over(v, wsid)),
        well_formed(menu_opened(v)),
        well_formed(menu_closed(v)),
        well_formed(command(v, cmd)),
{
    if v.windows.contains_key(wid.0) {
        let w = v.windows[wid.0];
        let m = crate::events::window::manageable(false, w.is_standard, w.is_root);
        let v1 = ReactorView {
            windows: v.windows.insert(
                wid.0,
                crate::reactor::WindowState { is_minimized: false, is_manageable: m, ..w },
            ),
            ..v
        };
        assert(same_ids(v, v1));
        lemma_same_ids_wf(v, v1);
        match crate::reactor::active_space_of(v1, w.frame_monotonic, w.sys_id) {
            Some(space) => lemma_dispatch_ids(v1, wid, space),
            None => {},
        }
        let v2 = window_minimized(v, wid);
        assert(same_ids(v, v2));
    }
    lemma_command_keeps_well_formed(v, cmd);
}

proof fn lemma_command_keeps_well_formed(v: ReactorView, cmd: Command)
    requires
        well_formed(v),
    ensures
        well_formed(command(v, cmd)),
{
    match cmd {
        Command::Layout(c) => {
            assert(same_ids(v, crate::events::command::command_layout(v, c)));
            lemma_same_ids_wf(v, command(v, cmd));
        },
        Command::Metrics(_) => {
            lemma_same_ids_wf(v, command(v, cmd));
        },
        Command::Reactor(c) => lemma_reactor_command_keeps_well_formed(v, c),
    }
}

proof fn lemma_reactor_command_keeps_well_formed(v: ReactorView, c: crate::model::ReactorCommand)
    requires
        well_formed(v),
    ensures
        well_formed(crate::events::command::command_reactor(v, c)),
{
    let after = crate::events::command::command_reactor(v, c);
    match c {
        ReactorCommand::MoveWindowToDisplay { selector, window_id } => {
            lemma_move_keeps_ids(v, selector, window_id);
        },
        ReactorCommand::MoveMouseToDisplay(sel) => {
            assert(same_ids(v, crate::events::command::move_mouse_to_display(v, sel)));
            lemma_same_ids_wf(v, after);
        },
        ReactorCommand::FocusDisplay(sel) => {
            assert(same_ids(v, crate::events::command::focus_display(v, sel)));
            lemma_same_ids_wf(v, after);
        },
        _ => {
            assert(same_ids(v, after));
            lemma_same_ids_wf(v, after);
        },
    }
}

proof fn lemma_move_keeps_ids(v: ReactorView, selector: DisplaySelector, idx: Option<u32>)
    requires
        well_formed(v),
    ensures
        well_formed(move_window_to_display(v, selector, idx)),
{
    let after = move_window_to_display(v, selector, idx);
    assert(same_ids(v, after));
    lemma_same_ids_wf(v, after);
}

} // verus!

use rift_core::drag::{DragFinish, DragState};
use rift_core::events::command::CommandEventHandler;
use rift_core::events::system::SystemEventHandler;
use rift_core::events::window::WindowEventHandler;
use rift_core::geometry::{Frame, Point, Size};
use rift_core::model::{
    Command, Direction, DisplaySelector, FrameChangeKind, LayoutCommand, MenuState,
    MouseState, ReactorCommand, Requested, SpaceId, WindowId, WorkspaceSwitchState,
};
use rift_core::reactor::{
    KeyBinding, LayoutEvent, LayoutWindow, Reactor, ReactorConfig, Request, ScreenInfo,
    WindowInfo, WmCmd,
};
use rift_core::reconcile::FrameOutcome;
use rift_core::tx_store::{TransactionId, WindowServerId};

fn rect(x: i32, y: i32, w: i32, h: i32) -> Frame {
    Frame::new(Point::new(x, y), Size::new(w, h))
}

fn screen(frame: Frame, space: u64) -> ScreenInfo {
    ScreenInfo {
        frame,
        space: Some(SpaceId(space)),
        display_uuid: Some(format!("display-{}", space)),
        active: true,
        scrolling: false,
    }
}

fn config(probe: bool) -> ReactorConfig {
    ReactorConfig { focus_follows_mouse: true, window_snapping: true, probe_new_windows: probe }
}

fn one_screen(probe: bool) -> Reactor {
    Reactor::new(config(probe), vec![screen(rect(0, 0, 192000, 108000), 1)])
}

fn two_screens() -> Reactor {
    Reactor::new(
        config(false),
        vec![screen(rect(0, 0, 100000, 80000), 1), screen(rect(100000, 0, 100000, 80000), 2)],
    )
}

fn info(sys: u32, frame: Frame) -> WindowInfo {
    WindowInfo {
        title: "Terminal".to_string(),
        frame,
        sys_id: Some(WindowServerId::new(sys)),
        is_standard: true,
        is_root: true,
        is_minimized: false,
    }
}

fn frame_of(r: &Reactor, wid: WindowId) -> Frame {
    r.window_state(wid).unwrap().frame_monotonic
}

fn notify(
    r: &mut Reactor,
    wid: WindowId,
    frame: Frame,
    txid: Option<u64>,
    requested: bool,
    kind: FrameChangeKind,
    mouse: Option<MouseState>,
) -> FrameOutcome {
    WindowEventHandler::handle_window_frame_changed(
        r,
        wid,
        frame,
        txid.map(TransactionId),
        Requested(requested),
        kind,
        mouse,
    )
}

/// The reactor moves a window, sees its own request land, then the user
/// grabs the window.
#[test]
fn reactor_move_then_user_drag() {
    let mut r = one_screen(false);
    let w = WindowId(1);
    let ws = WindowServerId::new(7);
    let f0 = rect(1000, 1000, 50000, 40000);
    WindowEventHandler::handle_window_created(&mut r, w, info(7, f0));
    assert_eq!(r.take_layout_events(), vec![LayoutEvent::WindowAdded(SpaceId(1), w)]);

    let f1 = rect(20000, 10000, 50000, 40000);
    let tx = r.txs.next_txid(ws);
    assert_eq!(tx, TransactionId(1));
    r.txs.insert(ws, tx, f1);

    let out = notify(&mut r, w, f1, Some(1), true, FrameChangeKind::Move, None);
    assert_eq!(out, FrameOutcome::Confirmed);
    assert_eq!(frame_of(&r, w), f1);
    assert!(r.take_layout_events().is_empty());
    assert_eq!(r.txs.target(&ws), None);

    let f2 = rect(30000, 15000, 50000, 40000);
    let out = notify(&mut r, w, f2, None, false, FrameChangeKind::Move, Some(MouseState::Down));
    assert_eq!(out, FrameOutcome::Dragged);
    assert_eq!(r.drag.dragged(), Some(w));
    assert!(matches!(r.drag.drag_state, DragState::Active { .. }));
    assert_eq!(frame_of(&r, w), f2);
    assert!(r.txs.get(&ws).is_none());
}

#[test]
fn stale_echo_does_not_roll_back() {
    let mut r = one_screen(false);
    let w = WindowId(1);
    let ws = WindowServerId::new(7);
    let f0 = rect(1000, 1000, 50000, 40000);
    WindowEventHandler::handle_window_created(&mut r, w, info(7, f0));
    let f1 = rect(20000, 1000, 50000, 40000);
    let f2 = rect(40000, 1000, 50000, 40000);
    let t1 = r.txs.next_txid(ws);
    r.txs.insert(ws, t1, f1);
    let t2 = r.txs.next_txid(ws);
    r.txs.insert(ws, t2, f2);
    r.take_layout_events();

    let out = notify(&mut r, w, f1, Some(t1.0), true, FrameChangeKind::Move, None);
    assert_eq!(out, FrameOutcome::StaleEcho);
    assert_eq!(frame_of(&r, w), f0);
    assert_eq!(r.txs.target(&ws), Some(f2));

    let out = notify(&mut r, w, f2, Some(t2.0), true, FrameChangeKind::Move, None);
    assert_eq!(out, FrameOutcome::Confirmed);
    assert_eq!(frame_of(&r, w), f2);
    assert!(r.take_layout_events().is_empty());
}

#[test]
fn same_notification_twice_changes_nothing_more() {
    let mut r = one_screen(false);
    let w = WindowId(1);
    WindowEventHandler::handle_window_created(&mut r, w, info(7, rect(1000, 1000, 50000, 40000)));
    r.take_layout_events();
    let f = rect(1000, 1000, 60000, 40000);
    let out = notify(&mut r, w, f, None, false, FrameChangeKind::Resize, None);
    assert_eq!(out, FrameOutcome::Resized);
    assert_eq!(r.take_layout_events().len(), 1);
    let out = notify(&mut r, w, f, None, false, FrameChangeKind::Resize, None);
    assert_eq!(out, FrameOutcome::Duplicate);
    assert!(r.take_layout_events().is_empty());
    assert_eq!(frame_of(&r, w), f);
}

#[test]
fn drag_over_two_windows_swaps_with_the_last() {
    let mut r = one_screen(false);
    let a = WindowId(1);
    let b = WindowId(2);
    let c = WindowId(3);
    let fa = rect(0, 0, 40000, 30000);
    WindowEventHandler::handle_window_created(&mut r, a, info(1, fa));
    WindowEventHandler::handle_window_created(&mut r, b, info(2, rect(100000, 0, 50000, 50000)));
    WindowEventHandler::handle_window_created(&mut r, c, info(3, rect(0, 60000, 50000, 40000)));
    r.layout_windows.push(LayoutWindow {
        window: b,
        space: SpaceId(1),
        frame: rect(100000, 0, 50000, 50000),
        floating: false,
    });
    r.layout_windows.push(LayoutWindow {
        window: c,
        space: SpaceId(1),
        frame: rect(0, 60000, 50000, 40000),
        floating: false,
    });
    let down = Some(MouseState::Down);
    let over_b = rect(105000, 5000, 40000, 30000);
    let away = rect(60000, 5000, 40000, 30000);
    let over_c = rect(5000, 65000, 40000, 30000);
    assert_eq!(notify(&mut r, a, over_b, None, false, FrameChangeKind::Move, down), FrameOutcome::Dragged);
    assert_eq!(r.drag.last_target(), Some(b));
    notify(&mut r, a, away, None, false, FrameChangeKind::Move, down);
    assert!(matches!(r.drag.drag_state, DragState::Active { .. }));
    notify(&mut r, a, over_c, None, false, FrameChangeKind::Move, down);
    assert_eq!(r.drag.last_target(), Some(c));
    r.take_layout_events();

    rift_core::reconcile::handle_mouse_up_if_needed(&mut r, Some(MouseState::Up));
    assert_eq!(r.drag.drag_state, DragState::Inactive);
    let events = r.take_layout_events();
    assert_eq!(events.len(), 1);
    assert_eq!(
        events[0],
        LayoutEvent::DragEnded(DragFinish {
            window: a,
            swap_with: Some(c),
            space: Some(SpaceId(1)),
            frame: over_c,
        })
    );
}

#[test]
fn destroying_the_swap_target_ends_the_drag() {
    let mut r = one_screen(false);
    let a = WindowId(1);
    let b = WindowId(2);
    WindowEventHandler::handle_window_created(&mut r, a, info(1, rect(0, 0, 40000, 30000)));
    WindowEventHandler::handle_window_created(&mut r, b, info(2, rect(100000, 0, 50000, 50000)));
    r.layout_windows.push(LayoutWindow {
        window: b,
        space: SpaceId(1),
        frame: rect(100000, 0, 50000, 50000),
        floating: false,
    });
    notify(&mut r, a, rect(105000, 5000, 40000, 30000), None, false, FrameChangeKind::Move, Some(MouseState::Down));
    assert_eq!(r.drag.last_target(), Some(b));
    assert!(WindowEventHandler::handle_window_destroyed(&mut r, b));
    assert_eq!(r.drag.drag_state, DragState::Inactive);
    assert!(r.window_state(b).is_none());
    assert!(!WindowEventHandler::handle_window_destroyed(&mut r, b));
}

#[test]
fn destroying_a_probed_window_cancels_the_probe() {
    let mut r = one_screen(true);
    let w = WindowId(1);
    WindowEventHandler::handle_window_created(&mut r, w, info(7, rect(1000, 1000, 50000, 40000)));
    assert!(r.probes.contains_key(&1));
    assert!(r.take_layout_events().is_empty());
    assert!(WindowEventHandler::handle_window_destroyed(&mut r, w));
    assert!(!r.probes.contains_key(&1));
    assert!(r.txs.get(&WindowServerId::new(7)).is_none());
    assert_eq!(r.take_layout_events(), vec![LayoutEvent::WindowRemoved(w)]);
}

#[test]
fn probe_answer_sets_constraint_and_announces_window() {
    let mut r = one_screen(true);
    let w = WindowId(1);
    WindowEventHandler::handle_window_created(&mut r, w, info(7, rect(1000, 1000, 50000, 40000)));
    let target = rect(1000, 1000, 192000, 108000);
    assert_eq!(
        r.take_requests(),
        vec![Request::SetWindowFrame { window: w, frame: target, txid: TransactionId(1) }]
    );
    let answer = rect(1000, 1000, 150000, 108000);
    let out = notify(&mut r, w, answer, Some(1), true, FrameChangeKind::Resize, None);
    assert_eq!(out, FrameOutcome::ProbeResolved);
    let c = r.window_constraint(w).unwrap();
    assert_eq!(c.max_w, Some(150000));
    assert_eq!(c.max_h, None);
    assert_eq!(frame_of(&r, w), answer);
    assert_eq!(r.take_layout_events(), vec![LayoutEvent::WindowAdded(SpaceId(1), w)]);
}

#[test]
fn two_probes_keep_the_smaller_cap() {
    let mut r = one_screen(false);
    let w = WindowId(1);
    WindowEventHandler::handle_window_created(&mut r, w, info(7, rect(0, 0, 50000, 40000)));
    let big = rect(0, 0, 190000, 100000);
    r.start_constraint_probe(w, big);
    notify(&mut r, w, rect(0, 0, 120000, 100000), Some(1), true, FrameChangeKind::Resize, None);
    r.start_constraint_probe(w, big);
    notify(&mut r, w, rect(0, 0, 150000, 100000), Some(1), true, FrameChangeKind::Resize, None);
    assert_eq!(r.window_constraint(w).unwrap().max_w, Some(120000));
    r.start_constraint_probe(w, big);
    notify(&mut r, w, rect(0, 0, 190000, 100000), Some(1), true, FrameChangeKind::Resize, None);
    assert_eq!(r.window_constraint(w).unwrap().max_w, Some(120000));
}

#[test]
fn refused_resize_learns_constraint_and_reports_once() {
    let mut r = one_screen(false);
    let w = WindowId(1);
    let ws = WindowServerId::new(7);
    WindowEventHandler::handle_window_created(&mut r, w, info(7, rect(0, 0, 50000, 40000)));
    r.take_layout_events();
    let target = rect(0, 0, 90000, 40000);
    let t = r.txs.next_txid(ws);
    r.txs.insert(ws, t, target);
    let got = rect(0, 0, 70000, 40000);
    let out = notify(&mut r, w, got, Some(t.0), true, FrameChangeKind::Resize, None);
    assert_eq!(out, FrameOutcome::ConstraintLearned);
    assert_eq!(r.window_constraint(w).unwrap().max_w, Some(70000));
    assert_eq!(
        r.take_layout_events(),
        vec![LayoutEvent::WindowResized { wid: w, old_frame: target, new_frame: got }]
    );
    let t = r.txs.next_txid(ws);
    r.txs.insert(ws, t, target);
    let out = notify(&mut r, w, got, Some(t.0), true, FrameChangeKind::Resize, None);
    assert_eq!(out, FrameOutcome::ConstraintLearned);
    assert!(r.take_layout_events().is_empty());
}

#[test]
fn resize_with_unsettled_origin_is_intermediate() {
    let mut r = one_screen(false);
    let w = WindowId(1);
    let ws = WindowServerId::new(7);
    let f0 = rect(0, 0, 50000, 40000);
    WindowEventHandler::handle_window_created(&mut r, w, info(7, f0));
    let target = rect(10000, 0, 90000, 40000);
    let t = r.txs.next_txid(ws);
    r.txs.insert(ws, t, target);
    let out = notify(&mut r, w, rect(0, 0, 70000, 40000), Some(t.0), true, FrameChangeKind::Resize, None);
    assert_eq!(out, FrameOutcome::Intermediate);
    assert_eq!(frame_of(&r, w), f0);
    assert_eq!(r.txs.target(&ws), Some(target));
}

#[test]
fn mouse_down_on_a_window_being_moved_takes_over() {
    let mut r = one_screen(false);
    let w = WindowId(1);
    let ws = WindowServerId::new(7);
    WindowEventHandler::handle_window_created(&mut r, w, info(7, rect(0, 0, 50000, 40000)));
    let t = r.txs.next_txid(ws);
    r.txs.insert(ws, t, rect(50000, 0, 50000, 40000));
    let grabbed = rect(20000, 0, 50000, 40000);
    let out = notify(&mut r, w, grabbed, Some(t.0), false, FrameChangeKind::Move, Some(MouseState::Down));
    assert_eq!(out, FrameOutcome::Dragged);
    assert!(r.txs.get(&ws).is_none());
    assert_eq!(r.drag.dragged(), Some(w));
}

#[test]
fn suppressed_and_unknown_windows_are_ignored() {
    let mut r = one_screen(false);
    let w = WindowId(1);
    let f0 = rect(0, 0, 50000, 40000);
    assert_eq!(notify(&mut r, w, f0, None, false, FrameChangeKind::Move, None), FrameOutcome::Ignored);
    WindowEventHandler::handle_window_created(&mut r, w, info(7, f0));
    r.set_mission_control_active(true);
    let out = notify(&mut r, w, rect(5000, 0, 50000, 40000), None, false, FrameChangeKind::Move, None);
    assert_eq!(out, FrameOutcome::Ignored);
    assert_eq!(frame_of(&r, w), f0);
}

#[test]
fn move_to_another_space_reannounces_window() {
    let mut r = two_screens();
    let w = WindowId(1);
    WindowEventHandler::handle_window_created(&mut r, w, info(7, rect(10000, 10000, 40000, 30000)));
    r.take_layout_events();
    let moved = rect(120000, 10000, 40000, 30000);
    let out = notify(&mut r, w, moved, None, false, FrameChangeKind::Move, None);
    assert_eq!(out, FrameOutcome::SpaceChanged);
    assert_eq!(
        r.take_layout_events(),
        vec![
            LayoutEvent::WindowRemovedPreserveFloating(w),
            LayoutEvent::WindowAdded(SpaceId(2), w),
            LayoutEvent::UpdateLayout,
        ]
    );
    rift_core::reconcile::handle_mouse_up_if_needed(&mut r, Some(MouseState::Up));
    assert_eq!(r.take_layout_events(), vec![LayoutEvent::UpdateLayout]);
    assert_eq!(r.drag.skip_layout_for_window, None);
}

#[test]
fn minimize_and_restore() {
    let mut r = one_screen(false);
    let w = WindowId(1);
    WindowEventHandler::handle_window_created(&mut r, w, info(7, rect(0, 0, 50000, 40000)));
    r.take_layout_events();
    WindowEventHandler::handle_window_minimized(&mut r, w);
    assert!(r.window_state(w).unwrap().is_minimized);
    assert!(!r.window_state(w).unwrap().is_manageable);
    assert_eq!(r.take_layout_events(), vec![LayoutEvent::WindowRemoved(w)]);
    WindowEventHandler::handle_window_minimized(&mut r, w);
    assert!(r.take_layout_events().is_empty());
    WindowEventHandler::handle_window_deminiaturized(&mut r, w);
    assert!(r.window_state(w).unwrap().is_manageable);
    assert_eq!(r.take_layout_events(), vec![LayoutEvent::WindowAdded(SpaceId(1), w)]);
}

#[test]
fn title_change_is_reported_once() {
    let mut r = one_screen(false);
    let w = WindowId(1);
    WindowEventHandler::handle_window_created(&mut r, w, info(7, rect(0, 0, 50000, 40000)));
    r.take_requests();
    WindowEventHandler::handle_window_title_changed(&mut r, w, "Terminal".to_string());
    assert!(r.take_requests().is_empty());
    WindowEventHandler::handle_window_title_changed(&mut r, w, "vim".to_string());
    assert_eq!(r.take_requests(), vec![Request::TitleChanged { window: w }]);
    assert_eq!(r.titles.get(&1).unwrap(), "vim");
}

#[test]
fn mouse_over_raises_and_focuses() {
    let mut r = one_screen(false);
    let w = WindowId(1);
    WindowEventHandler::handle_window_created(&mut r, w, info(7, rect(0, 0, 50000, 40000)));
    r.take_layout_events();
    WindowEventHandler::handle_mouse_moved_over_window(&mut r, WindowServerId::new(7));
    assert_eq!(r.take_requests(), vec![Request::Raise { window: w }]);
    assert_eq!(r.take_layout_events(), vec![LayoutEvent::WindowFocused(SpaceId(1), w)]);
    WindowEventHandler::handle_mouse_moved_over_window(&mut r, WindowServerId::new(99));
    assert!(r.take_requests().is_empty());
}

#[test]
fn move_window_to_display_centres_and_starts_transaction() {
    let mut r = two_screens();
    let w = WindowId(1);
    let ws = WindowServerId::new(7);
    WindowEventHandler::handle_window_created(&mut r, w, info(7, rect(10000, 10000, 40000, 30000)));
    r.main_window = Some(w);
    r.take_layout_events();
    r.take_requests();
    CommandEventHandler::handle_command_reactor_move_window_to_display(
        &mut r,
        &DisplaySelector::Index(1),
        None,
    );
    let tf = rect(130000, 25000, 40000, 30000);
    assert_eq!(
        r.take_requests(),
        vec![Request::SetWindowFrame { window: w, frame: tf, txid: TransactionId(1) }]
    );
    assert_eq!(frame_of(&r, w), tf);
    assert_eq!(r.txs.last_txid(&ws), TransactionId(1));
    assert_eq!(
        r.take_layout_events(),
        vec![
            LayoutEvent::MoveWindowToSpace {
                window: w,
                from: SpaceId(1),
                to: SpaceId(2),
                screen: Size::new(100000, 80000),
            },
            LayoutEvent::UpdateLayout,
        ]
    );
}

#[test]
fn move_window_to_display_clamps_large_windows() {
    let mut r = two_screens();
    let w = WindowId(1);
    WindowEventHandler::handle_window_created(&mut r, w, info(7, rect(0, 0, 90000, 70000)));
    r.main_window = Some(w);
    r.take_requests();
    CommandEventHandler::handle_command_reactor_move_window_to_display(
        &mut r,
        &DisplaySelector::Direction(Direction::Right),
        None,
    );
    assert_eq!(frame_of(&r, w), rect(105000, 5000, 90000, 70000));
}

#[test]
fn move_window_to_same_display_does_nothing() {
    let mut r = two_screens();
    let w = WindowId(1);
    WindowEventHandler::handle_window_created(&mut r, w, info(7, rect(10000, 10000, 40000, 30000)));
    r.main_window = Some(w);
    r.take_requests();
    CommandEventHandler::handle_command_reactor_move_window_to_display(
        &mut r,
        &DisplaySelector::Uuid("display-1".to_string()),
        None,
    );
    assert!(r.take_requests().is_empty());
}

#[test]
fn focus_and_close_commands() {
    let mut r = one_screen(false);
    let w = WindowId(1);
    WindowEventHandler::handle_window_created(&mut r, w, info(7, rect(0, 0, 50000, 40000)));
    r.take_layout_events();
    CommandEventHandler::handle_command(
        &mut r,
        Command::Reactor(ReactorCommand::FocusWindow { window_id: w, window_server_id: None }),
    );
    assert_eq!(r.take_layout_events(), vec![LayoutEvent::WindowFocused(SpaceId(1), w)]);
    assert_eq!(r.take_requests(), vec![Request::Raise { window: w }]);

    let stranger = WindowId(9);
    let sid = WindowServerId::new(90);
    CommandEventHandler::handle_command_reactor_focus_window(&mut r, stranger, Some(sid));
    assert_eq!(r.take_requests(), vec![Request::MakeKeyWindow { window: stranger, wsid: sid }]);

    CommandEventHandler::handle_command_reactor_close_window(&mut r, Some(WindowServerId::new(7)));
    assert_eq!(r.take_requests(), vec![Request::CloseWindow(w)]);
    CommandEventHandler::handle_command_reactor_close_window(&mut r, None);
    assert!(r.take_requests().is_empty());
}

#[test]
fn display_focus_and_mouse_warp() {
    let mut r = two_screens();
    let w = WindowId(1);
    r.layout_windows.push(LayoutWindow {
        window: w,
        space: SpaceId(2),
        frame: rect(100000, 0, 50000, 40000),
        floating: false,
    });
    CommandEventHandler::handle_command_reactor_focus_display(&mut r, &DisplaySelector::Index(1));
    assert_eq!(r.take_layout_events(), vec![LayoutEvent::WindowFocused(SpaceId(2), w)]);
    assert!(r.take_requests().is_empty());
    CommandEventHandler::handle_command_reactor_focus_display(&mut r, &DisplaySelector::Index(0));
    assert_eq!(r.take_requests(), vec![Request::Warp(Point::new(50000, 40000))]);
    CommandEventHandler::handle_command_reactor_move_mouse_to_display(
        &mut r,
        &DisplaySelector::Index(1),
    );
    assert_eq!(r.take_requests(), vec![Request::Warp(Point::new(150000, 40000))]);
    assert_eq!(r.take_layout_events(), vec![LayoutEvent::WindowFocused(SpaceId(2), w)]);
}

#[test]
fn layout_commands_need_a_space() {
    let mut r = two_screens();
    CommandEventHandler::handle_command_layout(&mut r, LayoutCommand::NextWorkspace(None));
    assert_eq!(r.workspace_switch, WorkspaceSwitchState::Active);
    assert!(r.take_layout_events().is_empty());
    r.command_space = Some(SpaceId(2));
    CommandEventHandler::handle_command_layout(&mut r, LayoutCommand::SwitchToWorkspace(3));
    assert_eq!(
        r.take_layout_events(),
        vec![LayoutEvent::Command {
            space: Some(SpaceId(2)),
            command: LayoutCommand::SwitchToWorkspace(3),
        }]
    );
    CommandEventHandler::handle_command_layout(&mut r, LayoutCommand::ToggleFloating);
    assert_eq!(r.workspace_switch, WorkspaceSwitchState::Inactive);
    assert_eq!(r.take_layout_events().len(), 1);
}

#[test]
fn wm_commands_and_mission_control_dismissal() {
    let mut r = one_screen(false);
    r.set_mission_control_active(true);
    CommandEventHandler::handle_command_reactor(&mut r, ReactorCommand::DismissMissionControl);
    assert!(r.take_requests().is_empty());
    assert_eq!(r.mission_control, rift_core::model::MissionControlState::Inactive);
    SystemEventHandler::handle_register_wm_sender(&mut r);
    CommandEventHandler::handle_command_reactor(&mut r, ReactorCommand::ShowMissionControlCurrent);
    assert_eq!(r.take_requests(), vec![Request::Wm(WmCmd::ShowMissionControlCurrent)]);
    CommandEventHandler::handle_command_reactor(&mut r, ReactorCommand::Debug);
    assert_eq!(r.take_requests(), vec![Request::DebugLayout(SpaceId(1))]);
}

#[test]
fn toggling_space_activation() {
    let mut r = two_screens();
    r.command_space = Some(SpaceId(2));
    CommandEventHandler::handle_command_reactor_toggle_space_activated(&mut r);
    assert!(r.screens[0].active);
    assert!(!r.screens[1].active);
    assert!(!r.is_space_active(SpaceId(2)));
}

#[test]
fn menu_state_drives_focus_follows_mouse() {
    let mut r = one_screen(false);
    assert!(r.focus_follows_mouse);
    SystemEventHandler::handle_menu_opened(&mut r);
    assert_eq!(r.menu_state, MenuState::Open(1));
    assert!(!r.focus_follows_mouse);
    SystemEventHandler::handle_menu_opened(&mut r);
    assert_eq!(r.menu_state, MenuState::Open(1));
    SystemEventHandler::handle_menu_closed(&mut r);
    assert_eq!(r.menu_state, MenuState::Closed);
    assert!(r.focus_follows_mouse);
}

#[test]
fn wake_lists_every_known_window_server_id() {
    let mut r = one_screen(false);
    WindowEventHandler::handle_window_created(&mut r, WindowId(1), info(7, rect(0, 0, 100, 100)));
    WindowEventHandler::handle_window_created(&mut r, WindowId(2), info(8, rect(0, 0, 100, 100)));
    r.take_requests();
    SystemEventHandler::handle_system_woke(&mut r);
    let mut ids = r.notification_ids.clone();
    ids.sort();
    assert_eq!(ids, vec![7, 8]);
    assert_eq!(r.take_requests(), vec![Request::UpdateWindowNotifications]);
    SystemEventHandler::handle_raise_timeout(&mut r, 5);
    SystemEventHandler::handle_raise_completed(&mut r, WindowId(1), 6);
    assert_eq!(
        r.take_requests(),
        vec![
            Request::RaiseTimeout { sequence_id: 5 },
            Request::RaiseCompleted { window: WindowId(1), sequence_id: 6 },
        ]
    );
}

#[test]
fn config_update_and_metrics() {
    let mut r = one_screen(false);
    let cfg = ReactorConfig { focus_follows_mouse: false, window_snapping: false, probe_new_windows: true };
    CommandEventHandler::handle_config_updated(&mut r, cfg, Vec::new());
    assert!(!r.focus_follows_mouse);
    assert!(r.config.probe_new_windows);
    assert_eq!(r.take_layout_events(), vec![LayoutEvent::UpdateLayout]);
    assert_eq!(r.take_requests(), vec![Request::ConfigUpdated(cfg)]);
    CommandEventHandler::handle_command(
        &mut r,
        Command::Metrics(rift_core::model::MetricsCommand::ShowTiming),
    );
    assert_eq!(
        r.take_requests(),
        vec![Request::Metrics(rift_core::model::MetricsCommand::ShowTiming)]
    );
}

fn binding(chord: &str, command: &str) -> KeyBinding {
    KeyBinding { chord: chord.to_string(), command: command.to_string() }
}

#[test]
fn controller_hears_of_changed_key_bindings_only() {
    let mut r = one_screen(false);
    let cfg = r.config;
    // No controller yet: nothing for it, even though the bindings change.
    CommandEventHandler::handle_config_updated(&mut r, cfg, vec![binding("alt+h", "focus left")]);
    assert_eq!(r.take_requests(), vec![Request::ConfigUpdated(cfg)]);
    SystemEventHandler::handle_register_wm_sender(&mut r);
    CommandEventHandler::handle_config_updated(&mut r, cfg, vec![binding("alt+h", "focus left")]);
    assert_eq!(r.take_requests(), vec![Request::ConfigUpdated(cfg)]);
    CommandEventHandler::handle_config_updated(&mut r, cfg, vec![binding("alt+h", "focus right")]);
    assert_eq!(
        r.take_requests(),
        vec![Request::ConfigUpdated(cfg), Request::Wm(WmCmd::ConfigUpdated(cfg))]
    );
    CommandEventHandler::handle_config_updated(&mut r, cfg, Vec::new());
    assert_eq!(
        r.take_requests(),
        vec![Request::ConfigUpdated(cfg), Request::Wm(WmCmd::ConfigUpdated(cfg))]
    );
}

#[test]
fn display_focus_prefers_the_last_focused_window() {
    let mut r = two_screens();
    let first = WindowId(1);
    let second = WindowId(2);
    WindowEventHandler::handle_window_created(&mut r, first, info(1, rect(110000, 10000, 30000, 30000)));
    WindowEventHandler::handle_window_created(&mut r, second, info(2, rect(150000, 10000, 30000, 30000)));
    for (w, x) in [(first, 110000), (second, 150000)] {
        r.layout_windows.push(LayoutWindow {
            window: w,
            space: SpaceId(2),
            frame: rect(x, 10000, 30000, 30000),
            floating: false,
        });
    }
    CommandEventHandler::handle_command_reactor_focus_window(&mut r, second, None);
    r.take_layout_events();
    r.take_requests();
    CommandEventHandler::handle_command_reactor_focus_display(&mut r, &DisplaySelector::Index(1));
    assert_eq!(r.take_layout_events(), vec![LayoutEvent::WindowFocused(SpaceId(2), second)]);
    CommandEventHandler::handle_command_reactor_move_mouse_to_display(&mut r, &DisplaySelector::Index(1));
    assert_eq!(r.take_requests(), vec![Request::Warp(Point::new(150000, 40000))]);
    assert_eq!(r.take_layout_events(), vec![LayoutEvent::WindowFocused(SpaceId(2), second)]);
    // Once that window is gone, the layout's first window is chosen again.
    WindowEventHandler::handle_window_destroyed(&mut r, second);
    r.take_layout_events();
    CommandEventHandler::handle_command_reactor_focus_display(&mut r, &DisplaySelector::Index(1));
    assert_eq!(r.take_layout_events(), vec![LayoutEvent::WindowFocused(SpaceId(2), first)]);
}

#[test]
fn grabbing_a_window_without_txid_drops_the_pending_request() {
    let mut r = one_screen(false);
    let w = WindowId(1);
    let ws = WindowServerId::new(7);
    WindowEventHandler::handle_window_created(&mut r, w, info(7, rect(0, 0, 50000, 40000)));
    let t = r.txs.next_txid(ws);
    r.txs.insert(ws, t, rect(50000, 0, 50000, 40000));
    let grabbed = rect(20000, 0, 50000, 40000);
    let out = notify(&mut r, w, grabbed, None, false, FrameChangeKind::Move, Some(MouseState::Down));
    assert_eq!(out, FrameOutcome::Dragged);
    assert!(matches!(r.drag.drag_state, DragState::Active { .. }));
    assert_eq!(frame_of(&r, w), grabbed);
    assert!(r.txs.get(&ws).is_none());
}

#[test]
fn older_txid_with_mouse_down_stays_a_stale_echo() {
    let mut r = one_screen(false);
    let w = WindowId(1);
    let ws = WindowServerId::new(7);
    let f0 = rect(0, 0, 50000, 40000);
    WindowEventHandler::handle_window_created(&mut r, w, info(7, f0));
    let t1 = r.txs.next_txid(ws);
    r.txs.insert(ws, t1, rect(10000, 0, 50000, 40000));
    let t2 = r.txs.next_txid(ws);
    r.txs.insert(ws, t2, rect(50000, 0, 50000, 40000));
    let out = notify(&mut r, w, rect(10000, 0, 50000, 40000), Some(t1.0), false, FrameChangeKind::Move, Some(MouseState::Down));
    assert_eq!(out, FrameOutcome::StaleEcho);
    assert_eq!(frame_of(&r, w), f0);
    assert_eq!(r.txs.target(&ws), Some(rect(50000, 0, 50000, 40000)));
    assert_eq!(r.drag.drag_state, DragState::Inactive);
}

use rift_core::drag::{DragManager, DragState};
use rift_core::geometry::{Frame, Point, Size};
use rift_core::mission_control::{Event, MissionControlActor, MissionControlAction, OverlayAction};
use rift_core::mission_control::initial_overlay_geometry;
use rift_core::reactor::{WindowFilter, WindowInfo, WindowState};
use rift_core::model::{Command, FrameChangeKind, LayoutCommand, SpaceId, WindowId};

fn rect(x: i32, y: i32, w: i32, h: i32) -> Frame {
    Frame::new(Point::new(x, y), Size::new(w, h))
}

#[test]
fn drag_manager_round_trip() {
    let mut d = DragManager::new();
    let w = WindowId(1);
    d.ensure_active_drag(w, rect(0, 0, 10, 10), Some(SpaceId(1)));
    assert!(d.is_in_drag());
    d.on_drag_move(w, Some(WindowId(2)));
    assert_eq!(d.last_target(), Some(WindowId(2)));
    d.on_drag_move(w, None);
    assert_eq!(d.last_target(), None);
    d.on_drag_move(w, Some(WindowId(3)));
    d.update_active_drag(w, rect(5, 5, 10, 10), Some(SpaceId(1)));
    let fin = d.finish().unwrap();
    assert_eq!(fin.window, w);
    assert_eq!(fin.swap_with, Some(WindowId(3)));
    assert_eq!(fin.frame, rect(5, 5, 10, 10));
    assert_eq!(d.drag_state, DragState::Inactive);
    assert_eq!(d.finish(), None);
}

#[test]
fn drag_manager_reset_clears_everything() {
    let mut d = DragManager::new();
    d.ensure_active_drag(WindowId(1), rect(0, 0, 10, 10), None);
    d.skip_layout_for_window = Some(WindowId(1));
    d.reset();
    assert_eq!(d.drag_state, DragState::Inactive);
    assert_eq!(d.skip_layout_for_window, None);
    assert_eq!(d.dragged(), None);
}

#[test]
fn mission_control_toggles() {
    let mut m = MissionControlActor::new();
    assert_eq!(m.handle_event(Event::RefreshCurrentWorkspace), OverlayAction::Nothing);
    assert_eq!(m.handle_event(Event::ShowAll), OverlayAction::ShowAllWorkspaces);
    assert_eq!(m.handle_event(Event::RefreshCurrentWorkspace), OverlayAction::RefreshHighlight);
    assert_eq!(m.handle_event(Event::ShowCurrent), OverlayAction::Hide);
    assert!(!m.active);
    assert_eq!(m.handle_event(Event::ShowCurrent), OverlayAction::ShowCurrentWorkspace);
    assert_eq!(m.handle_event(Event::RefreshCurrentWorkspace), OverlayAction::ShowCurrentWorkspace);
    assert_eq!(m.handle_event(Event::Dismiss), OverlayAction::Hide);
    assert_eq!(m.view_mode, None);
}

#[test]
fn mission_control_actions_close_the_overlay() {
    let mut m = MissionControlActor::new();
    m.handle_event(Event::ShowAll);
    let cmd = m.handle_overlay_action(MissionControlAction::SwitchToWorkspace(2));
    assert_eq!(cmd, Some(Command::Layout(LayoutCommand::SwitchToWorkspace(2))));
    assert!(!m.active);
    assert_eq!(m.handle_overlay_action(MissionControlAction::Dismiss), None);
}

#[test]
fn geometry_tolerance_is_a_tenth_of_a_point() {
    let a = rect(0, 0, 100, 100);
    assert!(a.same_as(&rect(10, -10, 110, 90)));
    assert!(!a.same_as(&rect(11, 0, 100, 100)));
    assert_eq!(rect(0, 0, 101, -5).mid(), Some(Point::new(50, -2)));
    assert!(a.contains(&Point::new(0, 99)));
    assert!(!a.contains(&Point::new(100, 0)));
    assert_eq!(FrameChangeKind::default(), FrameChangeKind::Move);
}

fn screen_at(frame: Frame, space: u64) -> rift_core::reactor::ScreenInfo {
    rift_core::reactor::ScreenInfo {
        frame,
        space: Some(SpaceId(space)),
        display_uuid: None,
        active: true,
        scrolling: false,
    }
}

#[test]
fn overlay_opens_under_cursor_then_active_space_then_first() {
    let left = rect(0, 0, 100000, 80000);
    let right = rect(100000, 0, 100000, 80000);
    let screens = vec![screen_at(left, 1), screen_at(right, 2)];
    assert_eq!(initial_overlay_geometry(&screens, Some(Point::new(150000, 100)), None), right);
    assert_eq!(initial_overlay_geometry(&screens, Some(Point::new(-5, -5)), Some(SpaceId(2))), right);
    assert_eq!(initial_overlay_geometry(&screens, None, Some(SpaceId(9))), left);
    assert_eq!(initial_overlay_geometry(&Vec::new(), None, None), rect(0, 0, 128000, 80000));
}

#[test]
fn window_state_filters() {
    let info = WindowInfo {
        title: String::new(),
        frame: rect(0, 0, 10, 10),
        sys_id: None,
        is_standard: true,
        is_root: true,
        is_minimized: false,
    };
    let mut s = WindowState::from_info(&info);
    assert!(!s.matches_filter(WindowFilter::Manageable));
    s.is_manageable = true;
    assert!(s.is_effectively_manageable());
    s.ignore_app_rule = true;
    assert!(s.matches_filter(WindowFilter::Manageable));
    assert!(!s.matches_filter(WindowFilter::EffectivelyManageable));
}

//! Commands from the user and from other actors.
use crate::geometry::{half, mid_of, Frame, Point};
use crate::model::{
    Command, Direction, DisplaySelector, LayoutCommand, MetricsCommand, MissionControlState,
    ReactorCommand, SpaceId, WindowId, WorkspaceSwitchState,
};
use crate::reactor::{
    best_space, binding_view, space_active, KeyBinding, LayoutEvent, LayoutWindow, Reactor, ReactorConfig, ReactorView,
    Request, ScreenInfo, WmCmd,
};
use crate::events::system::with_focus_follows_mouse;
use crate::tx_store::{last_txid_of, TransactionId, TxRecord, WindowServerId};
use vstd::prelude::*;

verus! {

broadcast use vstd::std_specs::hash::group_hash_axioms;

pub struct CommandEventHandler;

// ----- choosing a display -----

pub open spec fn screen_with_uuid(screens: Seq<ScreenInfo>, uuid: Seq<char>) -> Option<int>
    decreases screens.len(),
{
    if screens.len() == 0 {
        None
    } else {
        match screen_with_uuid(screens.drop_last(), uuid) {
            Some(i) => Some(i),
            None => if screens.last().display_uuid is Some && screens.last().display_uuid.unwrap()@
                == uuid {
                Some(screens.len() - 1)
            } else {
                None
            },
        }
    }
}

/// How far a screen's centre lies from `o` in direction `d`; positive when
/// the screen is on that side.
pub open spec fn offset_towards(s: ScreenInfo, o: (int, int), d: Direction) -> int {
    let c = mid_of(s.frame);
    match d {
        Direction::Left => o.0 - c.0,
        Direction::Right => c.0 - o.0,
        Direction::Up => o.1 - c.1,
        Direction::Down => c.1 - o.1,
    }
}

/// The nearest screen on side `d` of `o` (the first one on ties).
pub open spec fn nearest_towards(screens: Seq<ScreenInfo>, o: (int, int), d: Direction) -> Option<
    int,
>
    decreases screens.len(),
{
    if screens.len() == 0 {
        None
    } else {
        let best = nearest_towards(screens.drop_last(), o, d);
        let off = offset_towards(screens.last(), o, d);
        if off > 0 && (best is None || off < offset_towards(screens[best.unwrap()], o, d)) {
            Some(screens.len() - 1)
        } else {
            best
        }
    }
}

pub proof fn lemma_screen_searches_in_range(
    screens: Seq<ScreenInfo>,
    uuid: Seq<char>,
    o: (int, int),
    d: Direction,
)
    ensures
        screen_with_uuid(screens, uuid) matches Some(i) ==> 0 <= i < screens.len(),
        nearest_towards(screens, o, d) matches Some(i) ==> 0 <= i < screens.len(),
    decreases screens.len(),
{
    if screens.len() > 0 {
        lemma_screen_searches_in_range(screens.drop_last(), uuid, o, d);
    }
}

/// The centre of the command space's screen, from which directions are
/// taken when a command gives no other point.
pub open spec fn command_origin(v: ReactorView) -> Option<(int, int)> {
    match v.command_space {
        Some(sp) => match crate::reconcile::screen_of_space(v.screens, sp) {
            Some(i) => Some(mid_of(v.screens[i].frame)),
            None => None,
        },
        None => None,
    }
}

pub open spec fn selected_screen(
    v: ReactorView,
    selector: DisplaySelector,
    origin: Option<(int, int)>,
) -> Option<int> {
    match selector {
        DisplaySelector::Index(i) => if i < v.screens.len() {
            Some(i as int)
        } else {
            None
        },
        DisplaySelector::Uuid(u) => screen_with_uuid(v.screens, u@),
        DisplaySelector::Direction(d) => {
            let o = if origin is Some {
                origin
            } else {
                command_origin(v)
            };
            match o {
                Some(p) => if i32::MIN <= p.0 <= i32::MAX && i32::MIN <= p.1 <= i32::MAX {
                    nearest_towards(v.screens, p, d)
                } else {
                    None
                },
                None => None,
            }
        },
    }
}

/// The window to focus on a screen: the first one the layout keeps there.
pub open spec fn first_window_on(lws: Seq<LayoutWindow>, space: SpaceId) -> Option<WindowId>
    decreases lws.len(),
{
    if lws.len() == 0 {
        None
    } else {
        match first_window_on(lws.drop_last(), space) {
            Some(w) => Some(w),
            None => if lws.last().space == space {
                Some(lws.last().window)
            } else {
                None
            },
        }
    }
}

/// The window to focus on a space: the one last focused there, while it
/// still exists, else the first the layout keeps there.
pub open spec fn focus_target(v: ReactorView, space: SpaceId) -> Option<WindowId> {
    if v.last_focused.contains_key(space.0) && v.windows.contains_key(v.last_focused[space.0].0) {
        Some(v.last_focused[space.0])
    } else {
        first_window_on(v.layout_windows, space)
    }
}

/// Tells the layout that `w` has the focus on `space`, and remembers it.
pub open spec fn focus_on(v: ReactorView, space: SpaceId, w: WindowId) -> ReactorView {
    ReactorView {
        layout_events: v.layout_events.push(LayoutEvent::WindowFocused(space, w)),
        last_focused: v.last_focused.insert(space.0, w),
        ..v
    }
}

pub open spec fn focus_first_window(v: ReactorView, screen: ScreenInfo) -> (ReactorView, bool) {
    match screen.space {
        Some(space) => match focus_target(v, space) {
            Some(w) => (focus_on(v, space, w), true),
            None => (v, false),
        },
        None => (v, false),
    }
}

/// A screen's centre as a point, where it fits.
pub open spec fn warp_to(v: ReactorView, screen: ScreenInfo) -> ReactorView {
    let c = mid_of(screen.frame);
    if i32::MIN <= c.0 <= i32::MAX && i32::MIN <= c.1 <= i32::MAX {
        ReactorView {
            requests: v.requests.push(Request::Warp(Point { x: c.0 as i32, y: c.1 as i32 })),
            ..v
        }
    } else {
        v
    }
}

pub open spec fn screen_inactive(v: ReactorView, screen: ScreenInfo) -> bool {
    screen.space is Some && !space_active(v.screens, screen.space.unwrap())
}

pub open spec fn move_mouse_to_display(v: ReactorView, selector: DisplaySelector) -> ReactorView {
    match selected_screen(v, selector, None) {
        Some(i) => {
            let screen = v.screens[i];
            if screen_inactive(v, screen) {
                v
            } else {
                focus_first_window(warp_to(v, screen), screen).0
            }
        },
        None => v,
    }
}

pub open spec fn focus_display(v: ReactorView, selector: DisplaySelector) -> ReactorView {
    match selected_screen(v, selector, None) {
        Some(i) => {
            let screen = v.screens[i];
            if screen_inactive(v, screen) {
                v
            } else {
                let (v1, focused) = focus_first_window(v, screen);
                if focused {
                    v1
                } else {
                    warp_to(v, screen)
                }
            }
        },
        None => v,
    }
}

pub open spec fn focus_window(
    v: ReactorView,
    wid: WindowId,
    wsid: Option<WindowServerId>,
) -> ReactorView {
    if v.windows.contains_key(wid.0) {
        match best_space(v.screens, v.windows[wid.0].frame_monotonic) {
            Some(space) => if space_active(v.screens, space) {
                ReactorView {
                    requests: v.requests.push(Request::Raise { window: wid }),
                    ..focus_on(v, space, wid)
                }
            } else {
                v
            },
            None => v,
        }
    } else {
        match wsid {
            Some(s) => ReactorView {
                requests: v.requests.push(Request::MakeKeyWindow { window: wid, wsid: s }),
                ..v
            },
            None => v,
        }
    }
}

pub open spec fn close_window(v: ReactorView, wsid: Option<WindowServerId>) -> ReactorView {
    let target = match wsid {
        Some(s) => if v.window_ids.contains_key(s.0) {
            Some(v.window_ids[s.0])
        } else {
            v.main_window
        },
        None => v.main_window,
    };
    match target {
        Some(w) => ReactorView { requests: v.requests.push(Request::CloseWindow(w)), ..v },
        None => v,
    }
}

pub open spec fn is_workspace_switch(cmd: LayoutCommand) -> bool {
    cmd is NextWorkspace || cmd is PrevWorkspace || cmd is SwitchToWorkspace
        || cmd is SwitchToLastWorkspace
}

pub open spec fn needs_workspace_space(cmd: LayoutCommand) -> bool {
    is_workspace_switch(cmd) || cmd is SetWorkspaceLayout || cmd is CreateWorkspace
}

pub open spec fn any_active_screen(screens: Seq<ScreenInfo>) -> bool {
    exists|i: int| 0 <= i < screens.len() && screens[i].space is Some && #[trigger] screens[i].active
}

/// Layout commands go to the layout component with the space they act on;
/// workspace commands need the command space, others at least one active
/// space.
pub open spec fn command_layout(v: ReactorView, cmd: LayoutCommand) -> ReactorView {
    let v1 = ReactorView {
        workspace_switch: if is_workspace_switch(cmd) {
            WorkspaceSwitchState::Active
        } else {
            WorkspaceSwitchState::Inactive
        },
        ..v
    };
    let send = if needs_workspace_space(cmd) || cmd is MoveWindowToWorkspace {
        v.command_space is Some
    } else {
        any_active_screen(v.screens)
    };
    if send {
        ReactorView {
            layout_events: v1.layout_events.push(
                LayoutEvent::Command { space: v.command_space, command: cmd },
            ),
            ..v1
        }
    } else {
        v1
    }
}

// ----- moving a window to another display -----

/// The window a move-to-display command is about: the `idx`-th window the
/// layout keeps on the command space, else on any active space; without an
/// index, the focused window, else the first on the command space.
pub open spec fn nth_window_on(lws: Seq<LayoutWindow>, space: SpaceId, idx: int) -> Option<
    WindowId,
>
    decreases lws.len(),
{
    if lws.len() == 0 {
        None
    } else if lws[0].space == space {
        if idx == 0 {
            Some(lws[0].window)
        } else {
            nth_window_on(lws.drop_first(), space, idx - 1)
        }
    } else {
        nth_window_on(lws.drop_first(), space, idx)
    }
}

/// Where a window of size `size` lands on a screen: centred, then pushed
/// inside the screen's left and top edges and, as far as it fits, its
/// right and bottom edges.
pub open spec fn centred_clamped(lo: int, extent: int, len: int) -> int {
    let c = lo + half(extent) - half(len);
    let at_least = if c < lo {
        lo
    } else {
        c
    };
    if at_least > lo + extent - len {
        lo + extent - len
    } else {
        at_least
    }
}

fn centred_clamped_exec(lo: i32, extent: i32, len: i32) -> (r: i64)
    ensures
        r == centred_clamped(lo as int, extent as int, len as int),
{
    let c: i64 = lo as i64 + crate::geometry::half_of(extent) - crate::geometry::half_of(len);
    let at_least: i64 = if c < lo as i64 {
        lo as i64
    } else {
        c
    };
    let hi: i64 = lo as i64 + extent as i64 - len as i64;
    if at_least > hi {
        hi
    } else {
        at_least
    }
}

impl Reactor {
    fn screen_index_with_uuid(&self, uuid: &String) -> (r: Option<usize>)
        ensures
            r matches Some(i) ==> screen_with_uuid(self@.screens, uuid@) == Some(i as int),
            r is None ==> screen_with_uuid(self@.screens, uuid@) is None,
    {
        let mut i: usize = 0;
        let mut found: Option<usize> = None;
        while i < self.screens.len()
            invariant
                0 <= i <= self.screens@.len(),
                found matches Some(j) ==> screen_with_uuid(self.screens@.subrange(0, i as int), uuid@)
                    == Some(j as int),
                found is None ==> screen_with_uuid(self.screens@.subrange(0, i as int), uuid@) is None,
            decreases self.screens.len() - i,
        {
            let ghost prefix = self.screens@.subrange(0, i as int + 1);
            assert(prefix.drop_last() =~= self.screens@.subrange(0, i as int));
            if found.is_none() {
                if let Some(u) = &self.screens[i].display_uuid {
                    if *u == *uuid {
                        found = Some(i);
                    }
                }
            }
            i = i + 1;
        }
        assert(self.screens@.subrange(0, self.screens@.len() as int) =~= self.screens@);
        found
    }

    fn offset_exec(&self, i: usize, ox: i64, oy: i64, d: Direction) -> (r: i64)
        requires
            i < self.screens@.len(),
            i32::MIN <= ox <= i32::MAX,
            i32::MIN <= oy <= i32::MAX,
        ensures
            r == offset_towards(self.screens@[i as int], (ox as int, oy as int), d),
    {
        let f = self.screens[i].frame;
        let cx: i64 = f.origin.x as i64 + crate::geometry::half_of(f.size.width);
        let cy: i64 = f.origin.y as i64 + crate::geometry::half_of(f.size.height);
        match d {
            Direction::Left => ox - cx,
            Direction::Right => cx - ox,
            Direction::Up => oy - cy,
            Direction::Down => cy - oy,
        }
    }

    fn screen_index_towards(&self, ox: i64, oy: i64, d: Direction) -> (r: Option<usize>)
        requires
            i32::MIN <= ox <= i32::MAX,
            i32::MIN <= oy <= i32::MAX,
        ensures
            r matches Some(i) ==> nearest_towards(self@.screens, (ox as int, oy as int), d) == Some(
                i as int,
            ),
            r is None ==> nearest_towards(self@.screens, (ox as int, oy as int), d) is None,
    {
        let ghost o = (ox as int, oy as int);
        let mut i: usize = 0;
        let mut best: Option<usize> = None;
        while i < self.screens.len()
            invariant
                0 <= i <= self.screens@.len(),
                i32::MIN <= ox <= i32::MAX,
                i32::MIN <= oy <= i32::MAX,
                o == (ox as int, oy as int),
                best matches Some(j) ==> nearest_towards(self.screens@.subrange(0, i as int), o, d)
                    == Some(j as int) && j < i,
                best is None ==> nearest_towards(self.screens@.subrange(0, i as int), o, d) is None,
            decreases self.screens.len() - i,
        {
            let ghost prefix = self.screens@.subrange(0, i as int + 1);
            assert(prefix.drop_last() =~= self.screens@.subrange(0, i as int));
            let off = self.offset_exec(i, ox, oy, d);
            if off > 0 {
                let closer = match best {
                    Some(b) => off < self.offset_exec(b, ox, oy, d),
                    None => true,
                };
                if closer {
                    best = Some(i);
                }
            }
            i = i + 1;
        }
        assert(self.screens@.subrange(0, self.screens@.len() as int) =~= self.screens@);
        best
    }

    fn screen_frame_index_for_space(&self, space: SpaceId) -> (r: Option<usize>)
        ensures
            r matches Some(i) ==> crate::reconcile::screen_of_space(self@.screens, space) == Some(
                i as int,
            ),
            r is None ==> crate::reconcile::screen_of_space(self@.screens, space) is None,
    {
        let mut i: usize = 0;
        let mut found: Option<usize> = None;
        while i < self.screens.len()
            invariant
                0 <= i <= self.screens@.len(),
                found matches Some(j) ==> crate::reconcile::screen_of_space(
                    self.screens@.subrange(0, i as int),
                    space,
                ) == Some(j as int),
                found is None ==> crate::reconcile::screen_of_space(
                    self.screens@.subrange(0, i as int),
                    space,
                ) is None,
            decreases self.screens.len() - i,
        {
            let ghost prefix = self.screens@.subrange(0, i as int + 1);
            assert(prefix.drop_last() =~= self.screens@.subrange(0, i as int));
            if found.is_none() && self.screens[i].space == Some(space) {
                found = Some(i);
            }
            i = i + 1;
        }
        assert(self.screens@.subrange(0, self.screens@.len() as int) =~= self.screens@);
        found
    }

    /// The screen a selector names; directions are taken from `origin`, or
    /// from the centre of the command space's screen.
    pub fn screen_for_selector(&self, selector: &DisplaySelector, origin: Option<Point>) -> (r:
        Option<usize>)
        ensures
            r matches Some(i) ==> selected_screen(
                self@,
                *selector,
                match origin {
                    Some(p) => Some((p.x as int, p.y as int)),
                    None => None,
                },
            ) == Some(i as int) && i < self@.screens.len(),
            r is None ==> selected_screen(
                self@,
                *selector,
                match origin {
                    Some(p) => Some((p.x as int, p.y as int)),
                    None => None,
                },
            ) is None,
    {
        proof {
            lemma_screen_searches_in_range(self@.screens, seq![], (0, 0), Direction::Left);
        }
        match selector {
            DisplaySelector::Index(i) => if *i < self.screens.len() {
                Some(*i)
            } else {
                None
            },
            DisplaySelector::Uuid(u) => {
                proof {
                    lemma_screen_searches_in_range(self@.screens, u@, (0, 0), Direction::Left);
                }
                self.screen_index_with_uuid(u)
            },
            DisplaySelector::Direction(d) => {
                let (ox, oy): (i64, i64) = match origin {
                    Some(p) => (p.x as i64, p.y as i64),
                    None => {
                        let sp = match self.command_space {
                            Some(sp) => sp,
                            None => return None,
                        };
                        let si = match self.screen_frame_index_for_space(sp) {
                            Some(si) => si,
                            None => return None,
                        };
                        proof {
                            crate::reconcile::lemma_screen_of_space_in_range(self@.screens, sp);
                        }
                        let f = self.screens[si].frame;
                        (
                            f.origin.x as i64 + crate::geometry::half_of(f.size.width),
                            f.origin.y as i64 + crate::geometry::half_of(f.size.height),
                        )
                    },
                };
                if ox < i32::MIN as i64 || ox > i32::MAX as i64 || oy < i32::MIN as i64 || oy
                    > i32::MAX as i64 {
                    return None;
                }
                proof {
                    lemma_screen_searches_in_range(self@.screens, seq![], (ox as int, oy as int), *d);
                }
                self.screen_index_towards(ox, oy, *d)
            },
        }
    }
}

pub open spec fn nth_on_active(
    screens: Seq<ScreenInfo>,
    lws: Seq<LayoutWindow>,
    idx: int,
) -> Option<WindowId>
    decreases screens.len(),
{
    if screens.len() == 0 {
        None
    } else {
        let s = screens[0];
        let here = if s.space is Some && s.active {
            nth_window_on(lws, s.space.unwrap(), idx)
        } else {
            None
        };
        if here is Some {
            here
        } else {
            nth_on_active(screens.drop_first(), lws, idx)
        }
    }
}

pub open spec fn resolved_window(v: ReactorView, idx: Option<u32>) -> Option<WindowId> {
    match idx {
        Some(i) => {
            let on_cmd = match v.command_space {
                Some(sp) => nth_window_on(v.layout_windows, sp, i as int),
                None => None,
            };
            if on_cmd is Some {
                on_cmd
            } else {
                nth_on_active(v.screens, v.layout_windows, i as int)
            }
        },
        None => if v.main_window is Some {
            v.main_window
        } else {
            match v.command_space {
                Some(sp) => nth_window_on(v.layout_windows, sp, 0),
                None => None,
            }
        },
    }
}

pub open spec fn fits_i32(x: int) -> bool {
    i32::MIN <= x <= i32::MAX
}

/// Sends the window to the selected display: the frame is centred on the
/// target screen, a new transaction carries the request, the window's
/// record takes the new frame and the layout moves it between spaces.
pub open spec fn move_window_to_display(
    v: ReactorView,
    selector: DisplaySelector,
    idx: Option<u32>,
) -> ReactorView {
    if !(v.drag_state is Inactive) {
        v
    } else {
        match resolved_window(v, idx) {
            None => v,
            Some(w) => if !v.windows.contains_key(w.0) {
                v
            } else {
                let ws = v.windows[w.0];
                let f = ws.frame_monotonic;
                match best_space(v.screens, f) {
                    None => v,
                    Some(src) => if !space_active(v.screens, src) {
                        v
                    } else {
                        let origin = match crate::reconcile::screen_of_space(v.screens, src) {
                            Some(i) => {
                                let c = mid_of(v.screens[i].frame);
                                if fits_i32(c.0) && fits_i32(c.1) {
                                    Some(c)
                                } else {
                                    None
                                }
                            },
                            None => None,
                        };
                        match selected_screen(v, selector, origin) {
                            None => v,
                            Some(ti) => {
                                let ts = v.screens[ti];
                                match ts.space {
                                    None => v,
                                    Some(dst) => if !space_active(v.screens, dst) || dst == src {
                                        v
                                    } else {
                                        move_window_between(v, w, ws, src, dst, ts)
                                    },
                                }
                            },
                        }
                    },
                }
            },
        }
    }
}

pub open spec fn move_window_between(
    v: ReactorView,
    w: WindowId,
    ws: crate::reactor::WindowState,
    src: SpaceId,
    dst: SpaceId,
    ts: ScreenInfo,
) -> ReactorView {
    let f = ws.frame_monotonic;
    let x = centred_clamped(ts.frame.origin.x as int, ts.frame.size.width as int, f.size.width as int);
    let y = centred_clamped(
        ts.frame.origin.y as int,
        ts.frame.size.height as int,
        f.size.height as int,
    );
    let exhausted = ws.sys_id is Some && last_txid_of(v.txs, ws.sys_id.unwrap().0) == u64::MAX;
    if !fits_i32(x) || !fits_i32(y) || exhausted {
        v
    } else {
        let tf = Frame { origin: Point { x: x as i32, y: y as i32 }, size: f.size };
        let txid = match ws.sys_id {
            Some(s) => TransactionId((last_txid_of(v.txs, s.0) + 1) as u64),
            None => TransactionId(0),
        };
        ReactorView {
            txs: match ws.sys_id {
                Some(s) => v.txs.insert(s.0, TxRecord { txid, target: None }),
                None => v.txs,
            },
            requests: v.requests.push(Request::SetWindowFrame { window: w, frame: tf, txid }),
            windows: v.windows.insert(w.0, crate::reactor::WindowState { frame_monotonic: tf, ..ws }),
            layout_events: v.layout_events.push(
                LayoutEvent::MoveWindowToSpace { window: w, from: src, to: dst, screen: ts.frame.size },
            ).push(LayoutEvent::UpdateLayout),
            ..v
        }
    }
}

/// One debug request for each screen that shows a space.
pub open spec fn debug_requests(screens: Seq<ScreenInfo>) -> Seq<Request>
    decreases screens.len(),
{
    if screens.len() == 0 {
        seq![]
    } else {
        let rest = debug_requests(screens.drop_last());
        match screens.last().space {
            Some(sp) => rest.push(Request::DebugLayout(sp)),
            None => rest,
        }
    }
}

/// A new configuration: the menu bar and the stack line hear of it, the
/// layout is refreshed, and the controller registers the hotkeys again
/// where it is connected and the key bindings changed.
pub open spec fn config_updated(
    v: ReactorView,
    cfg: ReactorConfig,
    keys: Seq<(Seq<char>, Seq<char>)>,
) -> ReactorView {
    let v1 = with_focus_follows_mouse(ReactorView { config: cfg, key_bindings: keys, ..v });
    let v2 = ReactorView {
        requests: v1.requests.push(Request::ConfigUpdated(cfg)),
        layout_events: v1.layout_events.push(LayoutEvent::UpdateLayout),
        ..v1
    };
    if v.wm_connected && keys != v.key_bindings {
        ReactorView { requests: v2.requests.push(Request::Wm(WmCmd::ConfigUpdated(cfg))), ..v2 }
    } else {
        v2
    }
}

/// Hands a command to the window manager controller, if one is registered.
pub open spec fn wm_command(v: ReactorView, cmd: WmCmd) -> (ReactorView, bool) {
    if v.wm_connected {
        (ReactorView { requests: v.requests.push(Request::Wm(cmd)), ..v }, true)
    } else {
        (v, false)
    }
}

pub open spec fn command_reactor(v: ReactorView, cmd: ReactorCommand) -> ReactorView {
    match cmd {
        ReactorCommand::Debug => ReactorView {
            requests: v.requests + debug_requests(v.screens),
            ..v
        },
        ReactorCommand::Serialize => ReactorView {
            requests: v.requests.push(Request::Serialize),
            ..v
        },
        ReactorCommand::SaveAndExit => ReactorView {
            requests: v.requests.push(Request::SaveAndExit),
            ..v
        },
        ReactorCommand::SwitchSpace(d) => ReactorView {
            requests: v.requests.push(Request::SwitchSpace(d)),
            ..v
        },
        ReactorCommand::ToggleSpaceActivated => toggle_space_activated(v),
        ReactorCommand::FocusWindow { window_id, window_server_id } => focus_window(
            v,
            window_id,
            window_server_id,
        ),
        ReactorCommand::ShowMissionControlAll => wm_command(v, WmCmd::ShowMissionControlAll).0,
        ReactorCommand::ShowMissionControlCurrent => wm_command(
            v,
            WmCmd::ShowMissionControlCurrent,
        ).0,
        ReactorCommand::DismissMissionControl => {
            let (v1, sent) = wm_command(v, WmCmd::ShowMissionControlAll);
            if sent {
                v1
            } else {
                ReactorView { mission_control: MissionControlState::Inactive, ..v1 }
            }
        },
        ReactorCommand::MoveMouseToDisplay(sel) => move_mouse_to_display(v, sel),
        ReactorCommand::FocusDisplay(sel) => focus_display(v, sel),
        ReactorCommand::CloseWindow { window_server_id } => close_window(v, window_server_id),
        ReactorCommand::MoveWindowToDisplay { selector, window_id } => move_window_to_display(
            v,
            selector,
            window_id,
        ),
    }
}

pub open spec fn command(v: ReactorView, cmd: Command) -> ReactorView {
    match cmd {
        Command::Layout(c) => command_layout(v, c),
        Command::Metrics(c) => ReactorView { requests: v.requests.push(Request::Metrics(c)), ..v },
        Command::Reactor(c) => command_reactor(v, c),
    }
}

/// The space a toggle acts on: the command space, else the first space a
/// screen shows.
pub open spec fn first_known_space(screens: Seq<ScreenInfo>) -> Option<SpaceId>
    decreases screens.len(),
{
    if screens.len() == 0 {
        None
    } else if screens[0].space is Some {
        screens[0].space
    } else {
        first_known_space(screens.drop_first())
    }
}

/// Toggling a space's activation flips the flag of every screen showing it.
pub open spec fn toggle_space_activated(v: ReactorView) -> ReactorView {
    let focused = if v.command_space is Some {
        v.command_space
    } else {
        first_known_space(v.screens)
    };
    match focused {
        None => v,
        Some(sp) => ReactorView {
            screens: Seq::new(
                v.screens.len(),
                |i: int|
                    if v.screens[i].space == Some(sp) {
                        ScreenInfo { active: !v.screens[i].active, ..v.screens[i] }
                    } else {
                        v.screens[i]
                    },
            ),
            ..v
        },
    }
}

impl Reactor {
    fn first_window_on_space(&self, space: SpaceId) -> (r: Option<WindowId>)
        ensures
            r == first_window_on(self@.layout_windows, space),
    {
        let mut i: usize = 0;
        let mut found: Option<WindowId> = None;
        while i < self.layout_windows.len()
            invariant
                0 <= i <= self.layout_windows@.len(),
                found == first_window_on(self.layout_windows@.subrange(0, i as int), space),
            decreases self.layout_windows.len() - i,
        {
            let ghost prefix = self.layout_windows@.subrange(0, i as int + 1);
            assert(prefix.drop_last() =~= self.layout_windows@.subrange(0, i as int));
            if found.is_none() && self.layout_windows[i].space == space {
                found = Some(self.layout_windows[i].window);
            }
            i = i + 1;
        }
        assert(self.layout_windows@.subrange(0, self.layout_windows@.len() as int)
            =~= self.layout_windows@);
        found
    }

    /// The `idx`-th window the layout keeps on `space`.
    pub fn find_window_by_idx(&self, space: SpaceId, idx: u32) -> (r: Option<WindowId>)
        ensures
            r == nth_window_on(self@.layout_windows, space, idx as int),
    {
        let mut i: usize = 0;
        let mut left: u32 = idx;
        assert(self.layout_windows@.subrange(0, self.layout_windows@.len() as int)
            =~= self.layout_windows@);
        while i < self.layout_windows.len()
            invariant
                0 <= i <= self.layout_windows@.len(),
                nth_window_on(self.layout_windows@.subrange(i as int, self.layout_windows@.len() as int), space, left as int)
                    == nth_window_on(self.layout_windows@, space, idx as int),
            decreases self.layout_windows.len() - i,
        {
            let ghost rest = self.layout_windows@.subrange(i as int, self.layout_windows@.len() as int);
            assert(rest.drop_first() =~= self.layout_windows@.subrange(i as int + 1, self.layout_windows@.len() as int));
            if self.layout_windows[i].space == space {
                if left == 0 {
                    return Some(self.layout_windows[i].window);
                }
                left = left - 1;
            }
            i = i + 1;
        }
        None
    }

    fn find_window_on_active_spaces(&self, idx: u32) -> (r: Option<WindowId>)
        ensures
            r == nth_on_active(self@.screens, self@.layout_windows, idx as int),
    {
        let mut i: usize = 0;
        assert(self.screens@.subrange(0, self.screens@.len() as int) =~= self.screens@);
        while i < self.screens.len()
            invariant
                0 <= i <= self.screens@.len(),
                nth_on_active(self.screens@.subrange(i as int, self.screens@.len() as int), self@.layout_windows, idx as int)
                    == nth_on_active(self@.screens, self@.layout_windows, idx as int),
            decreases self.screens.len() - i,
        {
            let ghost rest = self.screens@.subrange(i as int, self.screens@.len() as int);
            assert(rest.drop_first() =~= self.screens@.subrange(i as int + 1, self.screens@.len() as int));
            if self.screens[i].active {
                if let Some(sp) = self.screens[i].space {
                    if let Some(w) = self.find_window_by_idx(sp, idx) {
                        return Some(w);
                    }
                }
            }
            i = i + 1;
        }
        None
    }

    pub fn resolve_window(&self, idx: Option<u32>) -> (r: Option<WindowId>)
        ensures
            r == resolved_window(self@, idx),
    {
        match idx {
            Some(i) => {
                let on_cmd = match self.command_space {
                    Some(sp) => self.find_window_by_idx(sp, i),
                    None => None,
                };
                if on_cmd.is_some() {
                    on_cmd
                } else {
                    self.find_window_on_active_spaces(i)
                }
            },
            None => if self.main_window.is_some() {
                self.main_window
            } else {
                match self.command_space {
                    Some(sp) => self.find_window_by_idx(sp, 0),
                    None => None,
                }
            },
        }
    }

    pub fn focus_target(&self, space: SpaceId) -> (r: Option<WindowId>)
        ensures
            r == focus_target(self@, space),
    {
        if let Some(w) = self.last_focused.get(&space.0) {
            let w = *w;
            if self.windows.contains_key(&w.0) {
                return Some(w);
            }
        }
        self.first_window_on_space(space)
    }

    pub fn focus_on(&mut self, space: SpaceId, w: WindowId)
        ensures
            final(self)@ == focus_on(old(self)@, space, w),
    {
        self.layout_events.push(LayoutEvent::WindowFocused(space, w));
        self.last_focused.insert(space.0, w);
    }

    fn warp_to_screen(&mut self, i: usize)
        requires
            i < old(self)@.screens.len(),
        ensures
            final(self)@ == warp_to(old(self)@, old(self)@.screens[i as int]),
    {
        let f = self.screens[i].frame;
        if let Some(c) = f.mid() {
            self.requests.push(Request::Warp(c));
        }
    }
}

impl CommandEventHandler {
    pub fn handle_command(reactor: &mut Reactor, cmd: Command)
        ensures
            final(reactor)@ == command(old(reactor)@, cmd),
    {
        match cmd {
            Command::Layout(c) => Self::handle_command_layout(reactor, c),
            Command::Metrics(c) => Self::handle_command_metrics(reactor, c),
            Command::Reactor(c) => Self::handle_command_reactor(reactor, c),
        }
    }

    pub fn handle_command_layout(reactor: &mut Reactor, cmd: LayoutCommand)
        ensures
            final(reactor)@ == command_layout(old(reactor)@, cmd),
    {
        let is_switch = matches!(
            cmd,
            LayoutCommand::NextWorkspace(_) | LayoutCommand::PrevWorkspace(_)
                | LayoutCommand::SwitchToWorkspace(_) | LayoutCommand::SwitchToLastWorkspace
        );
        let needs_space = is_switch || matches!(
            cmd,
            LayoutCommand::SetWorkspaceLayout { .. } | LayoutCommand::CreateWorkspace
        );
        reactor.workspace_switch =
        if is_switch {
            WorkspaceSwitchState::Active
        } else {
            WorkspaceSwitchState::Inactive
        };
        let send = if needs_space || matches!(cmd, LayoutCommand::MoveWindowToWorkspace { .. }) {
            reactor.command_space.is_some()
        } else {
            let mut any = false;
            let mut i: usize = 0;
            while i < reactor.screens.len()
                invariant
                    0 <= i <= reactor.screens@.len(),
                    any == exists|j: int|
                        0 <= j < i && reactor.screens@[j].space is Some
                            && #[trigger] reactor.screens@[j].active,
                decreases reactor.screens.len() - i,
            {
                if reactor.screens[i].space.is_some() && reactor.screens[i].active {
                    any = true;
                }
                i = i + 1;
            }
            any
        };
        if send {
            reactor.send_layout_event(
                LayoutEvent::Command { space: reactor.command_space, command: cmd },
            );
        }
    }

    pub fn handle_command_metrics(reactor: &mut Reactor, cmd: MetricsCommand)
        ensures
            final(reactor)@ == (ReactorView {
                requests: old(reactor)@.requests.push(Request::Metrics(cmd)),
                ..old(reactor)@
            }),
    {
        reactor.send_request(Request::Metrics(cmd));
    }

    pub fn handle_config_updated(
        reactor: &mut Reactor,
        new_cfg: ReactorConfig,
        key_bindings: Vec<KeyBinding>,
    )
        ensures
            final(reactor)@ == config_updated(
                old(reactor)@,
                new_cfg,
                key_bindings@.map_values(|k: KeyBinding| binding_view(k)),
            ),
    {
        let changed = !same_bindings(&reactor.key_bindings, &key_bindings);
        reactor.config = new_cfg;
        reactor.key_bindings = key_bindings;
        reactor.update_focus_follows_mouse_state();
        reactor.send_request(Request::ConfigUpdated(new_cfg));
        reactor.send_layout_event(LayoutEvent::UpdateLayout);
        if reactor.wm_connected && changed {
            reactor.send_request(Request::Wm(WmCmd::ConfigUpdated(new_cfg)));
        }
    }

    pub fn handle_command_reactor_debug(reactor: &mut Reactor)
        ensures
            final(reactor)@ == (ReactorView {
                requests: old(reactor)@.requests + debug_requests(old(reactor)@.screens),
                ..old(reactor)@
            }),
    {
        let ghost start = reactor@.requests;
        let mut i: usize = 0;
        while i < reactor.screens.len()
            invariant
                0 <= i <= reactor.screens@.len(),
                reactor@ == (ReactorView {
                    requests: start + debug_requests(reactor@.screens.subrange(0, i as int)),
                    ..old(reactor)@
                }),
                start == old(reactor)@.requests,
            decreases reactor.screens.len() - i,
        {
            let ghost prefix = reactor.screens@.subrange(0, i as int + 1);
            assert(prefix.drop_last() =~= reactor.screens@.subrange(0, i as int));
            if let Some(sp) = reactor.screens[i].space {
                reactor.requests.push(Request::DebugLayout(sp));
                proof {
                    assert(reactor@.requests =~= start + debug_requests(prefix));
                }
            } else {
                proof {
                    assert(reactor@.requests =~= start + debug_requests(prefix));
                }
            }
            i = i + 1;
        }
        assert(reactor.screens@.subrange(0, reactor.screens@.len() as int) =~= reactor.screens@);
    }

    pub fn handle_command_reactor(reactor: &mut Reactor, cmd: ReactorCommand)
        ensures
            final(reactor)@ == command_reactor(old(reactor)@, cmd),
    {
        match cmd {
            ReactorCommand::Debug => Self::handle_command_reactor_debug(reactor),
            ReactorCommand::Serialize => reactor.send_request(Request::Serialize),
            ReactorCommand::SaveAndExit => reactor.send_request(Request::SaveAndExit),
            ReactorCommand::SwitchSpace(d) => reactor.send_request(Request::SwitchSpace(d)),
            ReactorCommand::ToggleSpaceActivated => {
                Self::handle_command_reactor_toggle_space_activated(reactor);
            },
            ReactorCommand::FocusWindow { window_id, window_server_id } => {
                Self::handle_command_reactor_focus_window(reactor, window_id, window_server_id);
            },
            ReactorCommand::ShowMissionControlAll => {
                send_wm_cmd(reactor, WmCmd::ShowMissionControlAll);
            },
            ReactorCommand::ShowMissionControlCurrent => {
                send_wm_cmd(reactor, WmCmd::ShowMissionControlCurrent);
            },
            ReactorCommand::DismissMissionControl => {
                if !send_wm_cmd(reactor, WmCmd::ShowMissionControlAll) {
                    reactor.mission_control = MissionControlState::Inactive;
                }
            },
            ReactorCommand::MoveMouseToDisplay(selector) => {
                Self::handle_command_reactor_move_mouse_to_display(reactor, &selector);
            },
            ReactorCommand::FocusDisplay(selector) => {
                Self::handle_command_reactor_focus_display(reactor, &selector);
            },
            ReactorCommand::CloseWindow { window_server_id } => {
                Self::handle_command_reactor_close_window(reactor, window_server_id);
            },
            ReactorCommand::MoveWindowToDisplay { selector, window_id } => {
                Self::handle_command_reactor_move_window_to_display(reactor, &selector, window_id);
            },
        }
    }

    pub fn handle_command_reactor_toggle_space_activated(reactor: &mut Reactor)
        ensures
            final(reactor)@ == toggle_space_activated(old(reactor)@),
    {
        let focused = match reactor.command_space {
            Some(sp) => Some(sp),
            None => {
                let mut k: usize = 0;
                let mut first: Option<SpaceId> = None;
                assert(reactor@.screens.subrange(0, reactor@.screens.len() as int)
                    =~= reactor@.screens);
                while k < reactor.screens.len()
                    invariant
                        0 <= k <= reactor.screens@.len(),
                        first is None ==> first_known_space(reactor@.screens.subrange(k as int, reactor@.screens.len() as int))
                            == first_known_space(reactor@.screens),
                        first is Some ==> first == first_known_space(reactor@.screens),
                    decreases reactor.screens.len() - k,
                {
                    let ghost rest = reactor@.screens.subrange(k as int, reactor@.screens.len() as int);
                    assert(rest.drop_first() =~= reactor@.screens.subrange(k as int + 1, reactor@.screens.len() as int));
                    if first.is_none() && reactor.screens[k].space.is_some() {
                        first = reactor.screens[k].space;
                    }
                    k = k + 1;
                }
                first
            },
        };
        let sp = match focused {
            Some(sp) => sp,
            None => return ,
        };
        let ghost old_screens = reactor@.screens;
        let mut i: usize = 0;
        while i < reactor.screens.len()
            invariant
                0 <= i <= reactor.screens@.len(),
                reactor.screens@.len() == old_screens.len(),
                forall|j: int|
                    0 <= j < i ==> #[trigger] reactor.screens@[j] == (if old_screens[j].space == Some(sp) {
                        ScreenInfo { active: !old_screens[j].active, ..old_screens[j] }
                    } else {
                        old_screens[j]
                    }),
                forall|j: int| i <= j < old_screens.len() ==> #[trigger] reactor.screens@[j] == old_screens[j],
                reactor@ == (ReactorView { screens: reactor@.screens, ..old(reactor)@ }),
                old_screens == old(reactor)@.screens,
            decreases reactor.screens.len() - i,
        {
            if reactor.screens[i].space == Some(sp) {
                let cur = &reactor.screens[i];
                let uuid = match &cur.display_uuid {
                    Some(u) => Some(u.clone()),
                    None => None,
                };
                let flipped = ScreenInfo {
                    frame: cur.frame,
                    space: cur.space,
                    display_uuid: uuid,
                    active: !cur.active,
                    scrolling: cur.scrolling,
                };
                reactor.screens.set(i, flipped);
            }
            i = i + 1;
        }
        assert(reactor@.screens =~= toggle_space_activated(old(reactor)@).screens);
    }

    pub fn handle_command_reactor_focus_window(
        reactor: &mut Reactor,
        window_id: WindowId,
        window_server_id: Option<WindowServerId>,
    )
        ensures
            final(reactor)@ == focus_window(old(reactor)@, window_id, window_server_id),
    {
        if let Some(w) = reactor.window_state(window_id) {
            let space = match reactor.best_space_for_window(&w.frame_monotonic) {
                Some(sp) => sp,
                None => return ,
            };
            if !reactor.is_space_active(space) {
                return ;
            }
            reactor.focus_on(space, window_id);
            reactor.send_request(Request::Raise { window: window_id });
        } else if let Some(wsid) = window_server_id {
            reactor.send_request(Request::MakeKeyWindow { window: window_id, wsid });
        }
    }

    fn focus_first_window_on_screen(reactor: &mut Reactor, i: usize) -> (r: bool)
        requires
            i < old(reactor)@.screens.len(),
        ensures
            (final(reactor)@, r) == focus_first_window(old(reactor)@, old(reactor)@.screens[i as int]),
    {
        if let Some(space) = reactor.screens[i].space {
            if let Some(w) = reactor.focus_target(space) {
                reactor.focus_on(space, w);
                return true;
            }
        }
        false
    }

    pub fn handle_command_reactor_move_mouse_to_display(
        reactor: &mut Reactor,
        selector: &DisplaySelector,
    )
        ensures
            final(reactor)@ == move_mouse_to_display(old(reactor)@, *selector),
    {
        let i = match reactor.screen_for_selector(selector, None) {
            Some(i) => i,
            None => return ,
        };
        if let Some(sp) = reactor.screens[i].space {
            if !reactor.is_space_active(sp) {
                return ;
            }
        }
        reactor.warp_to_screen(i);
        let _ = Self::focus_first_window_on_screen(reactor, i);
    }

    pub fn handle_command_reactor_focus_display(reactor: &mut Reactor, selector: &DisplaySelector)
        ensures
            final(reactor)@ == focus_display(old(reactor)@, *selector),
    {
        let i = match reactor.screen_for_selector(selector, None) {
            Some(i) => i,
            None => return ,
        };
        if let Some(sp) = reactor.screens[i].space {
            if !reactor.is_space_active(sp) {
                return ;
            }
        }
        if Self::focus_first_window_on_screen(reactor, i) {
            return ;
        }
        reactor.warp_to_screen(i);
    }

    pub fn handle_command_reactor_close_window(
        reactor: &mut Reactor,
        window_server_id: Option<WindowServerId>,
    )
        ensures
            final(reactor)@ == close_window(old(reactor)@, window_server_id),
    {
        let indexed = match window_server_id {
            Some(s) => match reactor.window_ids.get(&s.0) {
                Some(w) => Some(*w),
                None => None,
            },
            None => None,
        };
        let target = if indexed.is_some() {
            indexed
        } else {
            reactor.main_window
        };
        if let Some(w) = target {
            reactor.send_request(Request::CloseWindow(w));
        }
    }

    pub fn handle_command_reactor_move_window_to_display(
        reactor: &mut Reactor,
        selector: &DisplaySelector,
        window_idx: Option<u32>,
    )
        ensures
            final(reactor)@ == move_window_to_display(old(reactor)@, *selector, window_idx),
    {
        if reactor.drag.is_in_drag() {
            return ;
        }
        let w = match reactor.resolve_window(window_idx) {
            Some(w) => w,
            None => return ,
        };
        let ws = match reactor.window_state(w) {
            Some(ws) => ws,
            None => return ,
        };
        let f = ws.frame_monotonic;
        let src = match reactor.best_space_for_window(&f) {
            Some(sp) => sp,
            None => return ,
        };
        if !reactor.is_space_active(src) {
            return ;
        }
        let origin = match reactor.screen_frame_index_for_space(src) {
            Some(si) => {
                proof {
                    crate::reconcile::lemma_screen_of_space_in_range(reactor@.screens, src);
                }
                reactor.screens[si].frame.mid()
            },
            None => None,
        };
        let ti = match reactor.screen_for_selector(selector, origin) {
            Some(ti) => ti,
            None => return ,
        };
        let dst = match reactor.screens[ti].space {
            Some(sp) => sp,
            None => return ,
        };
        if !reactor.is_space_active(dst) || dst == src {
            return ;
        }
        let dest = reactor.screens[ti].frame;
        let x = centred_clamped_exec(dest.origin.x, dest.size.width, f.size.width);
        let y = centred_clamped_exec(dest.origin.y, dest.size.height, f.size.height);
        if x < i32::MIN as i64 || x > i32::MAX as i64 || y < i32::MIN as i64 || y > i32::MAX as i64 {
            return ;
        }
        let txid = match ws.sys_id {
            Some(s) => {
                let last = reactor.txs.last_txid(&s);
                if last.0 == u64::MAX {
                    return ;
                }
                let txid = last.next();
                reactor.txs.set_last_txid(s, txid);
                txid
            },
            None => TransactionId::default(),
        };
        let tf = Frame { origin: Point { x: x as i32, y: y as i32 }, size: f.size };
        reactor.send_request(Request::SetWindowFrame { window: w, frame: tf, txid });
        reactor.windows.insert(w.0, crate::reactor::WindowState { frame_monotonic: tf, ..ws });
        reactor.send_layout_event(
            LayoutEvent::MoveWindowToSpace { window: w, from: src, to: dst, screen: dest.size },
        );
        reactor.send_layout_event(LayoutEvent::UpdateLayout);
    }
}

/// Sends a command to the window manager controller; says whether one was
/// registered to take it.
pub fn send_wm_cmd(reactor: &mut Reactor, cmd: WmCmd) -> (r: bool)
    ensures
        (final(reactor)@, r) == wm_command(old(reactor)@, cmd),
{
    if reactor.wm_connected {
        reactor.send_request(Request::Wm(cmd));
        true
    } else {
        false
    }
}

/// Whether two binding tables hold the same chords and commands in order.
fn same_bindings(a: &Vec<KeyBinding>, b: &Vec<KeyBinding>) -> (r: bool)
    ensures
        r == (a@.map_values(|k: KeyBinding| binding_view(k)) == b@.map_values(
            |k: KeyBinding| binding_view(k),
        )),
{
    let ghost am = a@.map_values(|k: KeyBinding| binding_view(k));
    let ghost bm = b@.map_values(|k: KeyBinding| binding_view(k));
    if a.len() != b.len() {
        assert(am.len() != bm.len());
        return false;
    }
    let mut i: usize = 0;
    while i < a.len()
        invariant
            0 <= i <= a@.len(),
            a@.len() == b@.len(),
            am == a@.map_values(|k: KeyBinding| binding_view(k)),
            bm == b@.map_values(|k: KeyBinding| binding_view(k)),
            forall|j: int| 0 <= j < i ==> #[trigger] am[j] == bm[j],
        decreases a.len() - i,
    {
        if a[i].chord != b[i].chord || a[i].command != b[i].command {
            assert(am[i as int] != bm[i as int]);
            return false;
        }
        i = i + 1;
    }
    assert(am =~= bm);
    true
}

} // verus!

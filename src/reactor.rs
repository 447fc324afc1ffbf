//! The reactor: the one owned aggregate that every event handler updates.
//!
//! Handlers never talk to the outside world themselves. What they decide is
//! appended to two outboxes: `layout_events`, for the layout component, and
//! `requests`, for the windowing system and the other actors; the caller
//! drains both after each event.
use std::collections::{HashMap, HashSet};
use crate::constraint::WindowConstraint;
use crate::drag::{DragFinish, DragManager, DragState};
use crate::geometry::{mid_of, Frame, Point};
use crate::model::{
    LayoutCommand, MenuState, MetricsCommand, MissionControlState, SpaceId, WindowId,
    WorkspaceSwitchState,
};
use crate::tx_store::{TransactionId, TxRecord, WindowServerId, WindowTxStore};
use vstd::prelude::*;

verus! {

broadcast use vstd::std_specs::hash::group_hash_axioms;

/// What the window system reports about a window when it appears.
#[derive(Clone, Debug)]
pub struct WindowInfo {
    pub title: String,
    pub frame: Frame,
    pub sys_id: Option<WindowServerId>,
    pub is_standard: bool,
    pub is_root: bool,
    pub is_minimized: bool,
}

/// The reactor's record of one window.
#[derive(Clone, Copy, Debug, PartialEq, Eq, Structural)]
pub struct WindowState {
    pub sys_id: Option<WindowServerId>,
    /// Last known frame; only replaced by a frame known to follow the
    /// reactor's last write.
    pub frame_monotonic: Frame,
    pub is_minimized: bool,
    pub is_standard: bool,
    pub is_root: bool,
    pub is_manageable: bool,
    pub ignore_app_rule: bool,
}

/// Which windows a query is about.
#[derive(Clone, Copy, Debug, PartialEq, Eq, Structural)]
pub enum WindowFilter {
    Manageable,
    EffectivelyManageable,
}

impl WindowState {
    /// A window's record as the window system first describes it; it is
    /// not manageable until the reactor decides so.
    pub fn from_info(info: &WindowInfo) -> (r: WindowState)
        ensures
            r.sys_id == info.sys_id,
            r.frame_monotonic == info.frame,
            r.is_minimized == info.is_minimized,
            r.is_standard == info.is_standard,
            r.is_root == info.is_root,
            !r.is_manageable,
            !r.ignore_app_rule,
    {
        WindowState {
            sys_id: info.sys_id,
            frame_monotonic: info.frame,
            is_minimized: info.is_minimized,
            is_standard: info.is_standard,
            is_root: info.is_root,
            is_manageable: false,
            ignore_app_rule: false,
        }
    }

    /// Manageable, and not excluded by an app rule.
    pub fn is_effectively_manageable(&self) -> (r: bool)
        ensures
            r == (self.is_manageable && !self.ignore_app_rule),
    {
        self.is_manageable && !self.ignore_app_rule
    }

    pub fn matches_filter(&self, filter: WindowFilter) -> (r: bool)
        ensures
            r == (match filter {
                WindowFilter::Manageable => self.is_manageable,
                WindowFilter::EffectivelyManageable => self.is_manageable && !self.ignore_app_rule,
            }),
    {
        match filter {
            WindowFilter::Manageable => self.is_manageable,
            WindowFilter::EffectivelyManageable => self.is_effectively_manageable(),
        }
    }
}

/// An in-flight request that measures a window's size limits.
#[derive(Clone, Copy, Debug, PartialEq, Eq, Structural)]
pub struct ConstraintProbe {
    pub txid: TransactionId,
    pub target: Frame,
}

/// A display and the space it shows.
#[derive(Clone, Debug)]
pub struct ScreenInfo {
    pub frame: Frame,
    pub space: Option<SpaceId>,
    pub display_uuid: Option<String>,
    /// Whether the reactor manages windows on this space.
    pub active: bool,
    /// Whether the space's active workspace uses the scrolling layout.
    pub scrolling: bool,
}

/// Where the layout component last put a window it manages.
#[derive(Clone, Copy, Debug, PartialEq, Eq, Structural)]
pub struct LayoutWindow {
    pub window: WindowId,
    pub space: SpaceId,
    pub frame: Frame,
    pub floating: bool,
}

#[derive(Clone, Copy, Debug, PartialEq, Eq, Structural)]
pub struct ReactorConfig {
    pub focus_follows_mouse: bool,
    /// Whether dragged windows snap into tiling slots.
    pub window_snapping: bool,
    /// Measure the size limits of a window before it is first laid out.
    pub probe_new_windows: bool,
}

/// A hotkey and the command it runs, as the configuration writes them.
#[derive(Clone, Debug)]
pub struct KeyBinding {
    pub chord: String,
    pub command: String,
}

pub open spec fn binding_view(k: KeyBinding) -> (Seq<char>, Seq<char>) {
    (k.chord@, k.command@)
}

/// Events for the layout component.
#[derive(Clone, Copy, Debug, PartialEq, Eq, Structural)]
pub enum LayoutEvent {
    WindowAdded(SpaceId, WindowId),
    WindowRemoved(WindowId),
    WindowRemovedPreserveFloating(WindowId),
    WindowResized { wid: WindowId, old_frame: Frame, new_frame: Frame },
    WindowFocused(SpaceId, WindowId),
    DragEnded(DragFinish),
    Command { space: Option<SpaceId>, command: LayoutCommand },
    MoveWindowToSpace { window: WindowId, from: SpaceId, to: SpaceId, screen: crate::geometry::Size },
    UpdateLayout,
}

/// Commands for the window manager controller.
#[derive(Clone, Copy, Debug, PartialEq, Eq, Structural)]
pub enum WmCmd {
    ShowMissionControlAll,
    ShowMissionControlCurrent,
    /// The key bindings changed: register the hotkeys again.
    ConfigUpdated(ReactorConfig),
}

/// Work for the windowing system and the other actors.
#[derive(Clone, Copy, Debug, PartialEq, Eq, Structural)]
pub enum Request {
    SetWindowFrame { window: WindowId, frame: Frame, txid: TransactionId },
    Raise { window: WindowId },
    MakeKeyWindow { window: WindowId, wsid: WindowServerId },
    CloseWindow(WindowId),
    Warp(Point),
    Wm(WmCmd),
    RaiseCompleted { window: WindowId, sequence_id: u64 },
    RaiseTimeout { sequence_id: u64 },
    Metrics(MetricsCommand),
    UpdateWindowNotifications,
    TitleChanged { window: WindowId },
    SwitchSpace(crate::model::Direction),
    Serialize,
    SaveAndExit,
    DebugLayout(SpaceId),
    /// Tell the menu bar and the stack line about a new configuration.
    ConfigUpdated(ReactorConfig),
}

pub struct Reactor {
    pub windows: HashMap<u64, WindowState>,
    pub titles: HashMap<u64, String>,
    /// Secondary index: window server id to window.
    pub window_ids: HashMap<u32, WindowId>,
    pub txs: WindowTxStore,
    pub probes: HashMap<u64, ConstraintProbe>,
    pub constraints: HashMap<u64, WindowConstraint>,
    pub drag: DragManager,
    pub screens: Vec<ScreenInfo>,
    pub layout_windows: Vec<LayoutWindow>,
    /// Window server ids whose display is being reconfigured.
    pub changing_screens: HashSet<u32>,
    pub mission_control: MissionControlState,
    pub menu_state: MenuState,
    pub workspace_switch: WorkspaceSwitchState,
    pub focus_follows_mouse: bool,
    pub config: ReactorConfig,
    /// Space that workspace commands act on (the one under the cursor).
    pub command_space: Option<SpaceId>,
    /// The focused window, if the reactor knows it.
    pub main_window: Option<WindowId>,
    /// The window last focused on each space, by space id.
    pub last_focused: HashMap<u64, WindowId>,
    pub key_bindings: Vec<KeyBinding>,
    pub wm_connected: bool,
    pub notification_ids: Vec<u32>,
    pub layout_events: Vec<LayoutEvent>,
    pub requests: Vec<Request>,
}

/// Everything the reactor holds, as mathematical values.
#[verifier::ext_equal]
pub struct ReactorView {
    pub windows: Map<u64, WindowState>,
    pub titles: Map<u64, Seq<char>>,
    pub window_ids: Map<u32, WindowId>,
    pub txs: Map<u32, TxRecord>,
    pub probes: Map<u64, ConstraintProbe>,
    pub constraints: Map<u64, WindowConstraint>,
    pub drag_state: DragState,
    pub skip_layout_for_window: Option<WindowId>,
    pub screens: Seq<ScreenInfo>,
    pub layout_windows: Seq<LayoutWindow>,
    pub changing_screens: Set<u32>,
    pub mission_control: MissionControlState,
    pub menu_state: MenuState,
    pub workspace_switch: WorkspaceSwitchState,
    pub focus_follows_mouse: bool,
    pub config: ReactorConfig,
    pub command_space: Option<SpaceId>,
    pub main_window: Option<WindowId>,
    pub last_focused: Map<u64, WindowId>,
    pub key_bindings: Seq<(Seq<char>, Seq<char>)>,
    pub wm_connected: bool,
    pub notification_ids: Seq<u32>,
    pub layout_events: Seq<LayoutEvent>,
    pub requests: Seq<Request>,
}

impl View for Reactor {
    type V = ReactorView;

    open spec fn view(&self) -> ReactorView {
        ReactorView {
            windows: self.windows@,
            titles: self.titles@.map_values(|s: String| s@),
            window_ids: self.window_ids@,
            txs: self.txs@,
            probes: self.probes@,
            constraints: self.constraints@,
            drag_state: self.drag.drag_state,
            skip_layout_for_window: self.drag.skip_layout_for_window,
            screens: self.screens@,
            layout_windows: self.layout_windows@,
            changing_screens: self.changing_screens@,
            mission_control: self.mission_control,
            menu_state: self.menu_state,
            workspace_switch: self.workspace_switch,
            focus_follows_mouse: self.focus_follows_mouse,
            config: self.config,
            command_space: self.command_space,
            main_window: self.main_window,
            last_focused: self.last_focused@,
            key_bindings: self.key_bindings@.map_values(|k: KeyBinding| binding_view(k)),
            wm_connected: self.wm_connected,
            notification_ids: self.notification_ids@,
            layout_events: self.layout_events@,
            requests: self.requests@,
        }
    }
}

// ----- placement -----

pub open spec fn screen_contains(s: ScreenInfo, p: (int, int)) -> bool {
    s.frame.origin.x <= p.0 < s.frame.origin.x + s.frame.size.width && s.frame.origin.y <= p.1
        < s.frame.origin.y + s.frame.size.height
}

/// Index of the first screen that contains the point.
pub open spec fn first_screen_at(screens: Seq<ScreenInfo>, p: (int, int)) -> Option<int>
    decreases screens.len(),
{
    if screens.len() == 0 {
        None
    } else {
        match first_screen_at(screens.drop_last(), p) {
            Some(i) => Some(i),
            None => if screen_contains(screens.last(), p) {
                Some(screens.len() - 1)
            } else {
                None
            },
        }
    }
}

pub proof fn lemma_first_screen_in_range(screens: Seq<ScreenInfo>, p: (int, int))
    ensures
        first_screen_at(screens, p) matches Some(i) ==> 0 <= i < screens.len(),
    decreases screens.len(),
{
    if screens.len() > 0 {
        lemma_first_screen_in_range(screens.drop_last(), p);
    }
}

/// The space a frame belongs to: that of the first screen holding its centre.
pub open spec fn best_space(screens: Seq<ScreenInfo>, f: Frame) -> Option<SpaceId> {
    match first_screen_at(screens, mid_of(f)) {
        Some(i) => screens[i].space,
        None => None,
    }
}

pub open spec fn space_active(screens: Seq<ScreenInfo>, space: SpaceId) -> bool {
    exists|i: int| 0 <= i < screens.len() && screens[i].space == Some(space) && #[trigger] screens[i].active
}

pub open spec fn space_scrolling(screens: Seq<ScreenInfo>, space: SpaceId) -> bool {
    exists|i: int|
        0 <= i < screens.len() && screens[i].space == Some(space) && #[trigger] screens[i].scrolling
}

/// The active space a window in `f` is on; a window the window server does
/// not know yet falls back to the command space.
pub open spec fn active_space_of(v: ReactorView, f: Frame, sys: Option<WindowServerId>) -> Option<
    SpaceId,
> {
    match best_space(v.screens, f) {
        Some(sp) if space_active(v.screens, sp) => Some(sp),
        _ => if sys is None {
            v.command_space
        } else {
            None
        },
    }
}

impl Reactor {
    pub fn best_space_for_window(&self, frame: &Frame) -> (r: Option<SpaceId>)
        ensures
            r == best_space(self@.screens, *frame),
    {
        let ghost p = mid_of(*frame);
        let x: i64 = frame.origin.x as i64 + crate::geometry::half_of(frame.size.width);
        let y: i64 = frame.origin.y as i64 + crate::geometry::half_of(frame.size.height);
        let mut i: usize = 0;
        let mut found: Option<usize> = None;
        while i < self.screens.len()
            invariant
                0 <= i <= self.screens@.len(),
                p == (x as int, y as int),
                found matches Some(j) ==> first_screen_at(self.screens@.subrange(0, i as int), p)
                    == Some(j as int),
                found is None ==> first_screen_at(self.screens@.subrange(0, i as int), p) is None,
            decreases self.screens.len() - i,
        {
            let s = &self.screens[i];
            let ghost prefix = self.screens@.subrange(0, i as int + 1);
            assert(prefix.drop_last() =~= self.screens@.subrange(0, i as int));
            if found.is_none() {
                let x0: i64 = s.frame.origin.x as i64;
                let y0: i64 = s.frame.origin.y as i64;
                if x0 <= x && x < x0 + s.frame.size.width as i64 && y0 <= y && y < y0
                    + s.frame.size.height as i64 {
                    found = Some(i);
                }
            }
            i = i + 1;
        }
        assert(self.screens@.subrange(0, self.screens@.len() as int) =~= self.screens@);
        proof {
            lemma_first_screen_in_range(self.screens@, p);
        }
        match found {
            Some(j) => self.screens[j].space,
            None => None,
        }
    }

    pub fn is_space_active(&self, space: SpaceId) -> (r: bool)
        ensures
            r == space_active(self@.screens, space),
    {
        let mut i: usize = 0;
        while i < self.screens.len()
            invariant
                0 <= i <= self.screens@.len(),
                forall|j: int|
                    0 <= j < i ==> !(self.screens@[j].space == Some(space)
                        && #[trigger] self.screens@[j].active),
            decreases self.screens.len() - i,
        {
            if self.screens[i].active && self.screens[i].space == Some(space) {
                return true;
            }
            i = i + 1;
        }
        false
    }

    pub fn is_space_scrolling(&self, space: SpaceId) -> (r: bool)
        ensures
            r == space_scrolling(self@.screens, space),
    {
        let mut i: usize = 0;
        while i < self.screens.len()
            invariant
                0 <= i <= self.screens@.len(),
                forall|j: int|
                    0 <= j < i ==> !(self.screens@[j].space == Some(space)
                        && #[trigger] self.screens@[j].scrolling),
            decreases self.screens.len() - i,
        {
            if self.screens[i].scrolling && self.screens[i].space == Some(space) {
                return true;
            }
            i = i + 1;
        }
        false
    }

    pub fn active_space_for_window(&self, frame: &Frame, server_id: Option<WindowServerId>) -> (r:
        Option<SpaceId>)
        ensures
            r == active_space_of(self@, *frame, server_id),
    {
        let best = self.best_space_for_window(frame);
        if let Some(space) = best {
            if self.is_space_active(space) {
                return Some(space);
            }
        }
        if server_id.is_none() {
            return self.command_space;
        }
        None
    }
}

impl Reactor {
    /// A reactor that knows no windows yet, showing `screens`.
    pub fn new(config: ReactorConfig, screens: Vec<ScreenInfo>) -> (r: Reactor)
        ensures
            r@.windows == Map::<u64, WindowState>::empty(),
            r@.titles == Map::<u64, Seq<char>>::empty(),
            r@.window_ids == Map::<u32, WindowId>::empty(),
            r@.txs == Map::<u32, TxRecord>::empty(),
            r@.probes == Map::<u64, ConstraintProbe>::empty(),
            r@.constraints == Map::<u64, WindowConstraint>::empty(),
            r@.drag_state == DragState::Inactive,
            r@.skip_layout_for_window is None,
            r@.screens == screens@,
            r@.layout_windows == Seq::<LayoutWindow>::empty(),
            r@.changing_screens == Set::<u32>::empty(),
            r@.mission_control == MissionControlState::Inactive,
            r@.menu_state == MenuState::Closed,
            r@.workspace_switch == WorkspaceSwitchState::Inactive,
            r@.focus_follows_mouse == config.focus_follows_mouse,
            r@.config == config,
            r@.command_space is None,
            r@.main_window is None,
            r@.last_focused == Map::<u64, WindowId>::empty(),
            r@.key_bindings == Seq::<(Seq<char>, Seq<char>)>::empty(),
            !r@.wm_connected,
            r@.notification_ids == Seq::<u32>::empty(),
            r@.layout_events == Seq::<LayoutEvent>::empty(),
            r@.requests == Seq::<Request>::empty(),
            crate::invariants::well_formed(r@),
    {
        let titles: HashMap<u64, String> = HashMap::new();
        let r = Reactor {
            windows: HashMap::new(),
            titles,
            window_ids: HashMap::new(),
            txs: WindowTxStore::new(),
            probes: HashMap::new(),
            constraints: HashMap::new(),
            drag: DragManager::new(),
            screens,
            layout_windows: Vec::new(),
            changing_screens: HashSet::new(),
            mission_control: MissionControlState::Inactive,
            menu_state: MenuState::Closed,
            workspace_switch: WorkspaceSwitchState::Inactive,
            focus_follows_mouse: config.focus_follows_mouse,
            config,
            command_space: None,
            main_window: None,
            last_focused: HashMap::new(),
            key_bindings: Vec::new(),
            wm_connected: false,
            notification_ids: Vec::new(),
            layout_events: Vec::new(),
            requests: Vec::new(),
        };
        assert(r@.titles =~= Map::<u64, Seq<char>>::empty());
        assert(r@.key_bindings =~= Seq::<(Seq<char>, Seq<char>)>::empty());
        r
    }

    /// Hands over and clears the events queued for the layout component.
    pub fn take_layout_events(&mut self) -> (r: Vec<LayoutEvent>)
        ensures
            r@ == old(self)@.layout_events,
            final(self)@ == (ReactorView { layout_events: Seq::empty(), ..old(self)@ }),
    {
        let mut out: Vec<LayoutEvent> = Vec::new();
        std::mem::swap(&mut out, &mut self.layout_events);
        out
    }

    /// Hands over and clears the queued requests.
    pub fn take_requests(&mut self) -> (r: Vec<Request>)
        ensures
            r@ == old(self)@.requests,
            final(self)@ == (ReactorView { requests: Seq::empty(), ..old(self)@ }),
    {
        let mut out: Vec<Request> = Vec::new();
        std::mem::swap(&mut out, &mut self.requests);
        out
    }

    pub fn set_mission_control_active(&mut self, active: bool)
        ensures
            final(self)@ == (ReactorView {
                mission_control: if active {
                    MissionControlState::Active
                } else {
                    MissionControlState::Inactive
                },
                ..old(self)@
            }),
    {
        self.mission_control = if active {
            MissionControlState::Active
        } else {
            MissionControlState::Inactive
        };
    }
}

} // verus!

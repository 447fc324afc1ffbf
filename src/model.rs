//! Identifiers, commands and the small state enums of the reactor.
use vstd::prelude::*;
use crate::tx_store::WindowServerId;

verus! {

/// Internal identifier of a window; never reused after the window is gone.
#[derive(Clone, Copy, Debug, PartialEq, Eq, Hash, Structural)]
pub struct WindowId(pub u64);

/// Identifier of a display space.
#[derive(Clone, Copy, Debug, PartialEq, Eq, Hash, Structural)]
pub struct SpaceId(pub u64);

/// Whether a frame change answers a request of the reactor.
#[derive(Clone, Copy, Debug, PartialEq, Eq, Structural)]
pub struct Requested(pub bool);

#[derive(Clone, Copy, Debug, PartialEq, Eq, Structural)]
pub enum FrameChangeKind {
    Move,
    Resize,
}

impl FrameChangeKind {
    pub fn default() -> (r: FrameChangeKind)
        ensures
            r == FrameChangeKind::Move,
    {
        FrameChangeKind::Move
    }
}

#[derive(Clone, Copy, Debug, PartialEq, Eq, Structural)]
pub enum MouseState {
    Up,
    Down,
}

#[derive(Clone, Copy, Debug, PartialEq, Eq, Structural)]
pub enum Direction {
    Left,
    Right,
    Up,
    Down,
}

#[derive(Clone, Copy, Debug, PartialEq, Eq, Structural)]
pub enum LayoutMode {
    Traditional,
    Bsp,
    MasterStack,
    Scrolling,
}

/// Commands handed to the layout component.
#[derive(Clone, Copy, Debug, PartialEq, Eq, Structural)]
pub enum LayoutCommand {
    NextWorkspace(Option<bool>),
    PrevWorkspace(Option<bool>),
    SwitchToWorkspace(usize),
    SetWorkspaceLayout { workspace: Option<usize>, mode: LayoutMode },
    CreateWorkspace,
    SwitchToLastWorkspace,
    MoveWindowToWorkspace { workspace: usize, window_id: Option<u32> },
    MoveFocus(Direction),
    MoveNode(Direction),
    ToggleFloating,
}

#[derive(Clone, Copy, Debug, PartialEq, Eq, Structural)]
pub enum MetricsCommand {
    ShowTiming,
}

/// How a command names a display.
#[derive(Clone, Debug, PartialEq, Eq)]
pub enum DisplaySelector {
    Direction(Direction),
    Index(usize),
    Uuid(String),
}

#[derive(Clone, Debug, PartialEq, Eq)]
pub enum ReactorCommand {
    Debug,
    Serialize,
    SaveAndExit,
    SwitchSpace(Direction),
    ToggleSpaceActivated,
    FocusWindow { window_id: WindowId, window_server_id: Option<WindowServerId> },
    ShowMissionControlAll,
    ShowMissionControlCurrent,
    DismissMissionControl,
    MoveMouseToDisplay(DisplaySelector),
    FocusDisplay(DisplaySelector),
    CloseWindow { window_server_id: Option<WindowServerId> },
    MoveWindowToDisplay { selector: DisplaySelector, window_id: Option<u32> },
}

#[derive(Clone, Debug, PartialEq, Eq)]
pub enum Command {
    Layout(LayoutCommand),
    Metrics(MetricsCommand),
    Reactor(ReactorCommand),
}

#[derive(Clone, Copy, Debug, PartialEq, Eq, Structural)]
pub enum MissionControlState {
    Inactive,
    Active,
    Transitioning,
}

#[derive(Clone, Copy, Debug, PartialEq, Eq, Structural)]
pub enum MenuState {
    Closed,
    Open(usize),
}

#[derive(Clone, Copy, Debug, PartialEq, Eq, Structural)]
pub enum WorkspaceSwitchState {
    Inactive,
    Active,
}

#[derive(Clone, Copy, Debug, PartialEq, Eq, Structural)]
pub enum WorkspaceSwitchOrigin {
    Manual,
    Auto,
}

#[derive(Clone, Copy, Debug, PartialEq, Eq, Structural)]
pub enum StaleCleanupState {
    Enabled,
    Suppressed,
}

#[derive(Clone, Copy, Debug, PartialEq, Eq, Structural)]
pub enum RefocusState {
    Idle,
    Pending(SpaceId),
}

} // verus!

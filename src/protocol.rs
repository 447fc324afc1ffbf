//! Requests that clients send over the IPC socket.
use vstd::prelude::*;

verus! {

#[derive(Clone, Debug, PartialEq, Eq)]
pub enum RiftRequest {
    GetWorkspaces { space_id: Option<u64> },
    GetDisplays,
    GetWindows { space_id: Option<u64> },
    GetWindowInfo { window_id: String },
    GetLayoutState { space_id: u64 },
    GetWorkspaceLayouts { space_id: Option<u64>, workspace_id: Option<usize> },
    GetApplications,
    GetMetrics,
    GetConfig,
    ExecuteCommand { command: String, args: Vec<String> },
    Subscribe { event: String },
    Unsubscribe { event: String },
    SubscribeCli { event: String, command: String, args: Vec<String> },
    UnsubscribeCli { event: String },
    ListCliSubscriptions,
}

/// Changes to the configuration that a client can ask for.
#[derive(Clone, Debug, PartialEq, Eq)]
pub enum ConfigCommand {
    SetFocusFollowsMouse(bool),
    SetProbeNewWindows(bool),
    Reload,
}

#[derive(Clone, Debug, PartialEq, Eq)]
pub enum RiftCommand {
    Reactor(crate::model::Command),
    Config(ConfigCommand),
}

} // verus!

//! What the mission-control overlay shows in answer to each event.
//!
//! The overlay itself is drawn by the platform layer; this module decides
//! whether it is shown, in which mode, and when it goes away.
use crate::geometry::{frame_contains, Frame, Point, Size};
use crate::model::SpaceId;
use crate::reactor::ScreenInfo;
use vstd::prelude::*;

verus! {

#[derive(Clone, Copy, Debug, PartialEq, Eq, Structural)]
pub enum Event {
    ShowAll,
    ShowCurrent,
    Dismiss,
    RefreshCurrentWorkspace,
}

#[derive(Clone, Copy, Debug, PartialEq, Eq, Structural)]
pub enum MissionControlViewMode {
    AllWorkspaces,
    CurrentWorkspace,
}

/// What the overlay must do.
#[derive(Clone, Copy, Debug, PartialEq, Eq, Structural)]
pub enum OverlayAction {
    Nothing,
    Hide,
    ShowAllWorkspaces,
    ShowCurrentWorkspace,
    RefreshHighlight,
}

/// Actions the overlay reports back from the user.
#[derive(Clone, Copy, Debug, PartialEq, Eq, Structural)]
pub enum MissionControlAction {
    Dismiss,
    SwitchToWorkspace(usize),
    FocusWindow { window_id: crate::model::WindowId, window_server_id: Option<crate::tx_store::WindowServerId> },
}

pub struct MissionControlActor {
    pub active: bool,
    pub view_mode: Option<MissionControlViewMode>,
}

pub open spec fn next_state(
    active: bool,
    mode: Option<MissionControlViewMode>,
    e: Event,
) -> (bool, Option<MissionControlViewMode>, OverlayAction) {
    match e {
        Event::ShowAll => if active {
            (false, None, OverlayAction::Hide)
        } else {
            (true, Some(MissionControlViewMode::AllWorkspaces), OverlayAction::ShowAllWorkspaces)
        },
        Event::ShowCurrent => if active {
            (false, None, OverlayAction::Hide)
        } else {
            (
                true,
                Some(MissionControlViewMode::CurrentWorkspace),
                OverlayAction::ShowCurrentWorkspace,
            )
        },
        Event::Dismiss => (false, None, OverlayAction::Hide),
        Event::RefreshCurrentWorkspace => if !active {
            (active, mode, OverlayAction::Nothing)
        } else {
            match mode {
                Some(MissionControlViewMode::CurrentWorkspace) => (
                    true,
                    mode,
                    OverlayAction::ShowCurrentWorkspace,
                ),
                Some(MissionControlViewMode::AllWorkspaces) => (
                    true,
                    mode,
                    OverlayAction::RefreshHighlight,
                ),
                None => (active, mode, OverlayAction::Nothing),
            }
        },
    }
}

impl MissionControlActor {
    pub fn new() -> (r: MissionControlActor)
        ensures
            !r.active,
            r.view_mode is None,
    {
        MissionControlActor { active: false, view_mode: None }
    }

    fn dispose_overlay(&mut self)
        ensures
            !final(self).active,
            final(self).view_mode is None,
    {
        self.active = false;
        self.view_mode = None;
    }

    /// A show event toggles the overlay; a refresh redraws it in its mode.
    pub fn handle_event(&mut self, event: Event) -> (r: OverlayAction)
        ensures
            (final(self).active, final(self).view_mode, r) == next_state(
                old(self).active,
                old(self).view_mode,
                event,
            ),
    {
        match event {
            Event::ShowAll => {
                if self.active {
                    self.dispose_overlay();
                    OverlayAction::Hide
                } else {
                    self.active = true;
                    self.view_mode = Some(MissionControlViewMode::AllWorkspaces);
                    OverlayAction::ShowAllWorkspaces
                }
            },
            Event::ShowCurrent => {
                if self.active {
                    self.dispose_overlay();
                    OverlayAction::Hide
                } else {
                    self.active = true;
                    self.view_mode = Some(MissionControlViewMode::CurrentWorkspace);
                    OverlayAction::ShowCurrentWorkspace
                }
            },
            Event::Dismiss => {
                self.dispose_overlay();
                OverlayAction::Hide
            },
            Event::RefreshCurrentWorkspace => {
                if !self.active {
                    return OverlayAction::Nothing;
                }
                match self.view_mode {
                    Some(MissionControlViewMode::CurrentWorkspace) => {
                        OverlayAction::ShowCurrentWorkspace
                    },
                    Some(MissionControlViewMode::AllWorkspaces) => OverlayAction::RefreshHighlight,
                    None => OverlayAction::Nothing,
                }
            },
        }
    }

    /// Every user action closes the overlay; the command it carries, if
    /// any, goes to the reactor.
    pub fn handle_overlay_action(&mut self, action: MissionControlAction) -> (r: Option<
        crate::model::Command,
    >)
        ensures
            !final(self).active,
            final(self).view_mode is None,
            r == (match action {
                MissionControlAction::Dismiss => None,
                MissionControlAction::SwitchToWorkspace(i) => Some(
                    crate::model::Command::Layout(
                        crate::model::LayoutCommand::SwitchToWorkspace(i),
                    ),
                ),
                MissionControlAction::FocusWindow { window_id, window_server_id } => Some(
                    crate::model::Command::Reactor(
                        crate::model::ReactorCommand::FocusWindow { window_id, window_server_id },
                    ),
                ),
            }),
    {
        let r = match action {
            MissionControlAction::Dismiss => None,
            MissionControlAction::SwitchToWorkspace(i) => Some(
                crate::model::Command::Layout(crate::model::LayoutCommand::SwitchToWorkspace(i)),
            ),
            MissionControlAction::FocusWindow { window_id, window_server_id } => Some(
                crate::model::Command::Reactor(
                    crate::model::ReactorCommand::FocusWindow { window_id, window_server_id },
                ),
            ),
        };
        self.dispose_overlay();
        r
    }
}

/// Where the overlay opens when no screen is known: 1280 by 800 points.
pub const FALLBACK_WIDTH: i32 = 128000;

pub const FALLBACK_HEIGHT: i32 = 80000;

pub open spec fn fallback_frame() -> Frame {
    Frame {
        origin: Point { x: 0, y: 0 },
        size: Size { width: FALLBACK_WIDTH, height: FALLBACK_HEIGHT },
    }
}

/// Index of the first screen satisfying `pick`.
pub open spec fn first_screen_where(screens: Seq<ScreenInfo>, pick: spec_fn(ScreenInfo) -> bool) -> Option<
    int,
>
    decreases screens.len(),
{
    if screens.len() == 0 {
        None
    } else {
        match first_screen_where(screens.drop_last(), pick) {
            Some(i) => Some(i),
            None => if pick(screens.last()) {
                Some(screens.len() - 1)
            } else {
                None
            },
        }
    }
}

pub proof fn lemma_first_screen_where_in_range(
    screens: Seq<ScreenInfo>,
    pick: spec_fn(ScreenInfo) -> bool,
)
    ensures
        first_screen_where(screens, pick) matches Some(i) ==> 0 <= i < screens.len() && pick(
            screens[i],
        ),
    decreases screens.len(),
{
    if screens.len() > 0 {
        lemma_first_screen_where_in_range(screens.drop_last(), pick);
    }
}

/// The screen the overlay opens on: the one under the cursor, else the one
/// showing the active space, else the first.
pub open spec fn overlay_screen(
    screens: Seq<ScreenInfo>,
    cursor: Option<Point>,
    active_space: Option<SpaceId>,
) -> Option<int> {
    let under_cursor = match cursor {
        Some(p) => first_screen_where(screens, |s: ScreenInfo| frame_contains(s.frame, p)),
        None => None,
    };
    let on_active = match active_space {
        Some(sp) => first_screen_where(screens, |s: ScreenInfo| s.space == Some(sp)),
        None => None,
    };
    if under_cursor is Some {
        under_cursor
    } else if on_active is Some {
        on_active
    } else if screens.len() > 0 {
        Some(0)
    } else {
        None
    }
}

fn screen_under(screens: &Vec<ScreenInfo>, p: Point) -> (r: Option<usize>)
    ensures
        r matches Some(i) ==> first_screen_where(screens@, |s: ScreenInfo| frame_contains(s.frame, p))
            == Some(i as int),
        r is None ==> first_screen_where(screens@, |s: ScreenInfo| frame_contains(s.frame, p)) is None,
{
    let ghost pick = |s: ScreenInfo| frame_contains(s.frame, p);
    let mut i: usize = 0;
    let mut found: Option<usize> = None;
    while i < screens.len()
        invariant
            0 <= i <= screens@.len(),
            pick == (|s: ScreenInfo| frame_contains(s.frame, p)),
            found matches Some(j) ==> first_screen_where(screens@.subrange(0, i as int), pick) == Some(
                j as int,
            ),
            found is None ==> first_screen_where(screens@.subrange(0, i as int), pick) is None,
        decreases screens.len() - i,
    {
        let ghost prefix = screens@.subrange(0, i as int + 1);
        assert(prefix.drop_last() =~= screens@.subrange(0, i as int));
        if found.is_none() && screens[i].frame.contains(&p) {
            found = Some(i);
        }
        i = i + 1;
    }
    assert(screens@.subrange(0, screens@.len() as int) =~= screens@);
    found
}

fn screen_showing(screens: &Vec<ScreenInfo>, sp: SpaceId) -> (r: Option<usize>)
    ensures
        r matches Some(i) ==> first_screen_where(screens@, |s: ScreenInfo| s.space == Some(sp))
            == Some(i as int),
        r is None ==> first_screen_where(screens@, |s: ScreenInfo| s.space == Some(sp)) is None,
{
    let ghost pick = |s: ScreenInfo| s.space == Some(sp);
    let mut i: usize = 0;
    let mut found: Option<usize> = None;
    while i < screens.len()
        invariant
            0 <= i <= screens@.len(),
            pick == (|s: ScreenInfo| s.space == Some(sp)),
            found matches Some(j) ==> first_screen_where(screens@.subrange(0, i as int), pick) == Some(
                j as int,
            ),
            found is None ==> first_screen_where(screens@.subrange(0, i as int), pick) is None,
        decreases screens.len() - i,
    {
        let ghost prefix = screens@.subrange(0, i as int + 1);
        assert(prefix.drop_last() =~= screens@.subrange(0, i as int));
        if found.is_none() && screens[i].space == Some(sp) {
            found = Some(i);
        }
        i = i + 1;
    }
    assert(screens@.subrange(0, screens@.len() as int) =~= screens@);
    found
}

/// The frame the overlay opens with; the platform layer adds the screen's
/// backing scale.
pub fn initial_overlay_geometry(
    screens: &Vec<ScreenInfo>,
    cursor: Option<Point>,
    active_space: Option<SpaceId>,
) -> (r: Frame)
    ensures
        r == (match overlay_screen(screens@, cursor, active_space) {
            Some(i) => screens@[i].frame,
            None => fallback_frame(),
        }),
{
    proof {
        if let Some(p) = cursor {
            lemma_first_screen_where_in_range(screens@, |s: ScreenInfo| frame_contains(s.frame, p));
        }
        if let Some(sp) = active_space {
            lemma_first_screen_where_in_range(screens@, |s: ScreenInfo| s.space == Some(sp));
        }
    }
    let under = match cursor {
        Some(p) => screen_under(screens, p),
        None => None,
    };
    if let Some(i) = under {
        return screens[i].frame;
    }
    let on_active = match active_space {
        Some(sp) => screen_showing(screens, sp),
        None => None,
    };
    if let Some(i) = on_active {
        return screens[i].frame;
    }
    if screens.len() > 0 {
        return screens[0].frame;
    }
    Frame {
        origin: Point { x: 0, y: 0 },
        size: Size { width: FALLBACK_WIDTH, height: FALLBACK_HEIGHT },
    }
}

} // verus!

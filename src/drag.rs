//! The drag/swap state machine.
//!
//! A drag starts with the first external, mouse-down frame change of a
//! window. While the window moves over another tiled window a swap with that
//! window is pending; mouse-up ends the drag with at most one swap, with the
//! window it was last over.
use crate::geometry::Frame;
use crate::model::{SpaceId, WindowId};
use vstd::prelude::*;

verus! {

#[derive(Clone, Copy, Debug, PartialEq, Eq, Structural)]
pub struct DragSession {
    pub window: WindowId,
    pub last_frame: Frame,
    pub origin_space: Option<SpaceId>,
    pub settled_space: Option<SpaceId>,
    pub layout_dirty: bool,
}

#[derive(Clone, Copy, Debug, PartialEq, Eq, Structural)]
pub enum DragState {
    Inactive,
    Active { session: DragSession },
    PendingSwap { session: DragSession, target: WindowId },
}

/// What a finished drag asks of the layout: one consolidated update.
#[derive(Clone, Copy, Debug, PartialEq, Eq, Structural)]
pub struct DragFinish {
    pub window: WindowId,
    pub swap_with: Option<WindowId>,
    pub space: Option<SpaceId>,
    pub frame: Frame,
}

pub struct DragManager {
    pub drag_state: DragState,
    /// Window whose last external move was already handled outside a drag,
    /// so the next mouse-up only has to refresh the layout.
    pub skip_layout_for_window: Option<WindowId>,
}

pub open spec fn session_of(s: DragState) -> Option<DragSession> {
    match s {
        DragState::Inactive => None,
        DragState::Active { session } => Some(session),
        DragState::PendingSwap { session, .. } => Some(session),
    }
}

pub open spec fn target_of(s: DragState) -> Option<WindowId> {
    match s {
        DragState::PendingSwap { target, .. } => Some(target),
        _ => None,
    }
}

/// State after the dragged window `wid` moved; `hovered` is the tiled
/// window under it, if any.
pub open spec fn after_move(s: DragState, wid: WindowId, hovered: Option<WindowId>) -> DragState {
    match s {
        DragState::Inactive => s,
        DragState::Active { session } => if session.window != wid {
            s
        } else {
            match hovered {
                Some(t) => if t != wid {
                    DragState::PendingSwap { session, target: t }
                } else {
                    s
                },
                None => s,
            }
        },
        DragState::PendingSwap { session, target } => if session.window != wid {
            s
        } else {
            match hovered {
                Some(t) => if t != wid {
                    DragState::PendingSwap { session, target: t }
                } else {
                    DragState::Active { session }
                },
                None => DragState::Active { session },
            }
        },
    }
}

/// The layout update a mouse-up asks for in state `s`.
pub open spec fn finish_of(s: DragState) -> Option<DragFinish> {
    match s {
        DragState::Inactive => None,
        DragState::Active { session } => Some(
            DragFinish {
                window: session.window,
                swap_with: None,
                space: session.settled_space,
                frame: session.last_frame,
            },
        ),
        DragState::PendingSwap { session, target } => Some(
            DragFinish {
                window: session.window,
                swap_with: Some(target),
                space: session.settled_space,
                frame: session.last_frame,
            },
        ),
    }
}

/// The state after a sequence of moves of `wid`.
pub open spec fn after_moves(
    s: DragState,
    wid: WindowId,
    hovered: Seq<Option<WindowId>>,
) -> DragState
    decreases hovered.len(),
{
    if hovered.len() == 0 {
        s
    } else {
        after_move(after_moves(s, wid, hovered.drop_last()), wid, hovered.last())
    }
}

impl DragManager {
    pub fn new() -> (r: DragManager)
        ensures
            r.drag_state == DragState::Inactive,
            r.skip_layout_for_window is None,
    {
        DragManager { drag_state: DragState::Inactive, skip_layout_for_window: None }
    }

    /// The window being dragged, if any.
    pub fn dragged(&self) -> (r: Option<WindowId>)
        ensures
            r == (match session_of(self.drag_state) {
                Some(s) => Some(s.window),
                None => None,
            }),
    {
        match &self.drag_state {
            DragState::Inactive => None,
            DragState::Active { session } => Some(session.window),
            DragState::PendingSwap { session, .. } => Some(session.window),
        }
    }

    /// The window a swap is pending with, if any.
    pub fn last_target(&self) -> (r: Option<WindowId>)
        ensures
            r == target_of(self.drag_state),
    {
        match &self.drag_state {
            DragState::PendingSwap { target, .. } => Some(*target),
            _ => None,
        }
    }

    pub fn is_in_drag(&self) -> (r: bool)
        ensures
            r == !(self.drag_state is Inactive),
    {
        !matches!(self.drag_state, DragState::Inactive)
    }

    /// Forgets any drag; used when the mouse is known to be up.
    pub fn reset(&mut self)
        ensures
            final(self).drag_state == DragState::Inactive,
            final(self).skip_layout_for_window is None,
    {
        self.drag_state = DragState::Inactive;
        self.skip_layout_for_window = None;
    }

    /// Starts a drag of `wid` unless one is already live.
    pub fn ensure_active_drag(
        &mut self,
        wid: WindowId,
        old_frame: Frame,
        origin_space: Option<SpaceId>,
    )
        ensures
            old(self).drag_state is Inactive ==> final(self).drag_state == (DragState::Active {
                session: DragSession {
                    window: wid,
                    last_frame: old_frame,
                    origin_space,
                    settled_space: None,
                    layout_dirty: false,
                },
            }),
            !(old(self).drag_state is Inactive) ==> final(self).drag_state == old(
                self,
            ).drag_state,
            final(self).skip_layout_for_window == old(self).skip_layout_for_window,
    {
        if matches!(self.drag_state, DragState::Inactive) {
            self.drag_state =
            DragState::Active {
                session: DragSession {
                    window: wid,
                    last_frame: old_frame,
                    origin_space,
                    settled_space: None,
                    layout_dirty: false,
                },
            };
        }
    }

    /// Records the dragged window's latest frame and the space it is over.
    pub fn update_active_drag(&mut self, wid: WindowId, frame: Frame, space: Option<SpaceId>)
        ensures
            final(self).skip_layout_for_window == old(self).skip_layout_for_window,
            final(self).drag_state == (match old(self).drag_state {
                DragState::Active { session } => if session.window == wid {
                    DragState::Active {
                        session: DragSession {
                            last_frame: frame,
                            settled_space: space,
                            ..session
                        },
                    }
                } else {
                    old(self).drag_state
                },
                DragState::PendingSwap { session, target } => if session.window == wid {
                    DragState::PendingSwap {
                        session: DragSession {
                            last_frame: frame,
                            settled_space: space,
                            ..session
                        },
                        target,
                    }
                } else {
                    old(self).drag_state
                },
                DragState::Inactive => DragState::Inactive,
            }),
    {
        match self.drag_state {
            DragState::Active { session } => {
                if session.window == wid {
                    self.drag_state =
                    DragState::Active {
                        session: DragSession {
                            last_frame: frame,
                            settled_space: space,
                            ..session
                        },
                    };
                }
            },
            DragState::PendingSwap { session, target } => {
                if session.window == wid {
                    self.drag_state =
                    DragState::PendingSwap {
                        session: DragSession {
                            last_frame: frame,
                            settled_space: space,
                            ..session
                        },
                        target,
                    };
                }
            },
            DragState::Inactive => {},
        }
    }

    /// Moves between `Active` and `PendingSwap` as the dragged window
    /// enters or leaves another tiled window's region.
    pub fn on_drag_move(&mut self, wid: WindowId, hovered: Option<WindowId>)
        ensures
            final(self).drag_state == after_move(old(self).drag_state, wid, hovered),
            final(self).skip_layout_for_window == old(self).skip_layout_for_window,
    {
        match self.drag_state {
            DragState::Inactive => {},
            DragState::Active { session } => {
                if session.window == wid {
                    if let Some(t) = hovered {
                        if t != wid {
                            self.drag_state = DragState::PendingSwap { session, target: t };
                        }
                    }
                }
            },
            DragState::PendingSwap { session, .. } => {
                if session.window == wid {
                    match hovered {
                        Some(t) => {
                            if t != wid {
                                self.drag_state = DragState::PendingSwap { session, target: t };
                            } else {
                                self.drag_state = DragState::Active { session };
                            }
                        },
                        None => {
                            self.drag_state = DragState::Active { session };
                        },
                    }
                }
            },
        }
    }

    /// Ends the drag on mouse-up and hands back the one layout update it
    /// asks for; the coordinator is then idle.
    pub fn finish(&mut self) -> (r: Option<DragFinish>)
        ensures
            r == finish_of(old(self).drag_state),
            final(self).drag_state == DragState::Inactive,
            final(self).skip_layout_for_window is None,
    {
        let r = match self.drag_state {
            DragState::Inactive => None,
            DragState::Active { session } => Some(
                DragFinish {
                    window: session.window,
                    swap_with: None,
                    space: session.settled_space,
                    frame: session.last_frame,
                },
            ),
            DragState::PendingSwap { session, target } => Some(
                DragFinish {
                    window: session.window,
                    swap_with: Some(target),
                    space: session.settled_space,
                    frame: session.last_frame,
                },
            ),
        };
        self.drag_state = DragState::Inactive;
        self.skip_layout_for_window = None;
        r
    }
}

/// Moves keep the dragged window: a live drag of `wid` stays a live drag of
/// `wid` whatever it passes over.
pub proof fn lemma_moves_keep_session(s: DragState, wid: WindowId, hovered: Seq<Option<WindowId>>)
    requires
        session_of(s) is Some,
        session_of(s).unwrap().window == wid,
    ensures
        session_of(after_moves(s, wid, hovered)) is Some,
        session_of(after_moves(s, wid, hovered)).unwrap().window == wid,
    decreases hovered.len(),
{
    if hovered.len() > 0 {
        lemma_moves_keep_session(s, wid, hovered.drop_last());
    }
}

/// However many windows a drag passed over on the way, mouse-up swaps the
/// dragged window with exactly the window it was over at the last move, and
/// with none if it was over none.
pub proof fn lemma_drag_swap_round_trip(
    s: DragState,
    wid: WindowId,
    hovered: Seq<Option<WindowId>>,
)
    requires
        session_of(s) is Some,
        session_of(s).unwrap().window == wid,
        hovered.len() > 0,
    ensures
        finish_of(after_moves(s, wid, hovered)) is Some,
        finish_of(after_moves(s, wid, hovered)).unwrap().window == wid,
        finish_of(after_moves(s, wid, hovered)).unwrap().swap_with == (match hovered.last() {
            Some(t) => if t != wid {
                Some(t)
            } else {
                None
            },
            None => None,
        }),
{
    lemma_moves_keep_session(s, wid, hovered.drop_last());
}

} // verus!

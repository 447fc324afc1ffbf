//! Menus, sleep and wake, and messages for other actors.
use crate::model::{MenuState, WindowId};
use crate::reactor::{Reactor, ReactorView, Request};
use vstd::prelude::*;
use vstd::std_specs::iter::IteratorSpec;

verus! {

broadcast use vstd::std_specs::hash::group_hash_axioms;

pub struct SystemEventHandler;

/// Focus follows the mouse only where configured and while no menu is open.
pub open spec fn with_focus_follows_mouse(v: ReactorView) -> ReactorView {
    ReactorView {
        focus_follows_mouse: v.config.focus_follows_mouse && v.menu_state == MenuState::Closed,
        ..v
    }
}

pub open spec fn menu_opened(v: ReactorView) -> ReactorView {
    with_focus_follows_mouse(
        ReactorView {
            menu_state: match v.menu_state {
                MenuState::Closed => MenuState::Open(1),
                MenuState::Open(depth) => MenuState::Open(depth),
            },
            ..v
        },
    )
}

pub open spec fn menu_closed(v: ReactorView) -> ReactorView {
    with_focus_follows_mouse(ReactorView { menu_state: MenuState::Closed, ..v })
}

impl Reactor {
    pub fn update_focus_follows_mouse_state(&mut self)
        ensures
            final(self)@ == with_focus_follows_mouse(old(self)@),
    {
        self.focus_follows_mouse = self.config.focus_follows_mouse && self.menu_state
            == MenuState::Closed;
    }
}

/// Hands an event to the raise manager.
pub fn send_raise_event(reactor: &mut Reactor, event: Request)
    ensures
        final(reactor)@ == (ReactorView {
            requests: old(reactor)@.requests.push(event),
            ..old(reactor)@
        }),
{
    reactor.requests.push(event);
}

impl SystemEventHandler {
    pub fn handle_menu_opened(reactor: &mut Reactor)
        ensures
            final(reactor)@ == menu_opened(old(reactor)@),
    {
        reactor.menu_state =
        match reactor.menu_state {
            MenuState::Closed => MenuState::Open(1),
            MenuState::Open(depth) => MenuState::Open(depth),
        };
        reactor.update_focus_follows_mouse_state();
    }

    /// Closes the menu state; with none open it still reasserts the
    /// focus-follows-mouse setting, which a missed notification may have
    /// left out of step.
    pub fn handle_menu_closed(reactor: &mut Reactor)
        ensures
            final(reactor)@ == menu_closed(old(reactor)@),
    {
        reactor.menu_state = MenuState::Closed;
        reactor.update_focus_follows_mouse_state();
    }

    /// After wake, window notifications are registered again for every
    /// window the window server knows.
    pub fn handle_system_woke(reactor: &mut Reactor)
        ensures
            final(reactor)@.notification_ids.to_set() == old(reactor)@.window_ids.dom(),
            final(reactor)@.notification_ids.no_duplicates(),
            final(reactor)@ == (ReactorView {
                notification_ids: final(reactor)@.notification_ids,
                requests: old(reactor)@.requests.push(Request::UpdateWindowNotifications),
                ..old(reactor)@
            }),
    {
        let mut ids: Vec<u32> = Vec::new();
        let ghost keys = vstd::std_specs::hash::spec_keys_iter(&reactor.window_ids).remaining().unref();
        for k in it: reactor.window_ids.keys()
            invariant
                it.seq().unref() == keys,
                ids@ == keys.take(it.index() as int),
        {
            proof {
                assert(keys.take(it.index() as int + 1) =~= ids@.push(*k));
            }
            ids.push(*k);
        }
        proof {
            assert(ids@ =~= keys);
        }
        reactor.notification_ids = ids;
        reactor.requests.push(Request::UpdateWindowNotifications);
    }

    pub fn handle_raise_completed(reactor: &mut Reactor, window_id: WindowId, sequence_id: u64)
        ensures
            final(reactor)@ == (ReactorView {
                requests: old(reactor)@.requests.push(
                    Request::RaiseCompleted { window: window_id, sequence_id },
                ),
                ..old(reactor)@
            }),
    {
        send_raise_event(reactor, Request::RaiseCompleted { window: window_id, sequence_id });
    }

    pub fn handle_raise_timeout(reactor: &mut Reactor, sequence_id: u64)
        ensures
            final(reactor)@ == (ReactorView {
                requests: old(reactor)@.requests.push(Request::RaiseTimeout { sequence_id }),
                ..old(reactor)@
            }),
    {
        send_raise_event(reactor, Request::RaiseTimeout { sequence_id });
    }

    /// Records that the window manager controller can now take commands.
    pub fn handle_register_wm_sender(reactor: &mut Reactor)
        ensures
            final(reactor)@ == (ReactorView { wm_connected: true, ..old(reactor)@ }),
    {
        reactor.wm_connected = true;
    }
}

} // verus!

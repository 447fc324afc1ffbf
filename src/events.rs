//! Event handlers of the reactor, grouped by the kind of event.

pub mod window;
pub mod system;
pub mod command;

//! Control core of a tiling window manager: transaction tracking, frame
//! reconciliation, constraint probing and drag/swap handling.

pub mod geometry;
pub mod tx_store;
pub mod constraint;
pub mod model;
pub mod drag;
pub mod reactor;
pub mod reconcile;
pub mod events;
pub mod mission_control;
pub mod protocol;
pub mod invariants;

//! Verified core of a keystroke multicontroller: the key model, the persisted
//! configuration, the routing of one keystroke to per-slot deliveries, and the
//! controller state that the user interface drives.

pub mod config;
pub mod key;
pub mod platform;
pub mod router;
pub mod text;
pub mod ui;

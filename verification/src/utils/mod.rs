//! The shared install state, the facts detected about the system, and text
//! helpers.

pub mod state;
pub mod system;
pub mod text;

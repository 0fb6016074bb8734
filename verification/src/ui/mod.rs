//! The widgets of the wizard, as far as they decide anything: what is
//! selected, what was typed, how far the progress bar is filled.

pub mod components;
pub mod layout;

//! Core of an interactive installation wizard: shared install state, the
//! line protocol spoken by installation scripts, the installation pipeline
//! and the screen stack that drives the wizard.

pub mod app;
pub mod error;
pub mod installers;
pub mod screens;
pub mod ui;
pub mod utils;

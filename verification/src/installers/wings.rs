//! The phase that installs wings.

use vstd::prelude::*;
use vstd::string::*;
use crate::error::{outcome_view, InstallerError, InstallerErrorView};
use crate::installers::{check_run, phase_result, run_view};
use crate::utils::state::InstallState;

verus! {

/// The script that installs wings; it takes no arguments.
pub open spec fn wings_command() -> Seq<char> {
    "./scripts/install_wings.sh"@
}

/// What the phase installs, as named in its errors.
pub open spec fn wings_subject() -> Seq<char> {
    "Wings installation"@
}

/// What the run of the wings script means for the phase.
pub open spec fn wings_result(run: Result<i32, InstallerErrorView>) -> Result<
    (),
    InstallerErrorView,
> {
    phase_result(wings_subject(), run)
}

/// Installs wings.
#[derive(Debug)]
pub struct WingsInstaller {}

impl WingsInstaller {
    /// Returns the installer of the wings phase.
    pub fn new() -> WingsInstaller {
        WingsInstaller {  }
    }

    /// Returns the command that the phase runs.
    pub fn command(&self, state: &InstallState) -> (cmd: String)
        ensures
            cmd@ == wings_command(),
    {
        String::from_str("./scripts/install_wings.sh")
    }

    /// Concludes the phase from what the run of its command gave.
    pub fn install(&self, state: &InstallState, run: Result<i32, InstallerError>) -> (result:
        Result<(), InstallerError>)
        ensures
            outcome_view(result) == wings_result(run_view(run)),
    {
        check_run("Wings installation", run)
    }
}

} // verus!

//! The phase that installs the panel.

use vstd::prelude::*;
use vstd::string::*;
use crate::error::{outcome_view, InstallerError, InstallerErrorView};
use crate::installers::{check_run, phase_result, run_view};
use crate::utils::state::{InstallState, InstallStateView};

verus! {

/// The script that installs the panel.
pub open spec fn panel_script() -> Seq<char> {
    "./scripts/install_panel.sh"@
}

/// What the phase installs, as named in its errors.
pub open spec fn panel_subject() -> Seq<char> {
    "Panel installation"@
}

/// The command of the phase: the script with the domain, the protocol, the
/// webserver and the address for certificate notices.
pub open spec fn panel_command(state: InstallStateView) -> Seq<char> {
    panel_script() + " --domain "@ + state.domain + " --protocol "@ + state.protocol.name()
        + " --webserver "@ + state.webserver.name() + " --ssl-email "@ + state.ssl_email
}

/// What the run of the panel script means for the phase.
pub open spec fn panel_result(run: Result<i32, InstallerErrorView>) -> Result<
    (),
    InstallerErrorView,
> {
    phase_result(panel_subject(), run)
}

/// Installs the panel.
#[derive(Debug)]
pub struct PanelInstaller {}

impl PanelInstaller {
    /// Returns the installer of the panel phase.
    pub fn new() -> PanelInstaller {
        PanelInstaller {  }
    }

    /// Returns the command that the phase runs.
    pub fn command(&self, state: &InstallState) -> (cmd: String)
        ensures
            cmd@ == panel_command(state@),
    {
        let mut cmd = String::from_str("./scripts/install_panel.sh");
        cmd.append(" --domain ");
        cmd.append(state.domain.as_str());
        cmd.append(" --protocol ");
        cmd.append(state.protocol.as_str());
        cmd.append(" --webserver ");
        cmd.append(state.webserver.as_str());
        cmd.append(" --ssl-email ");
        cmd.append(state.ssl_email.as_str());
        cmd
    }

    /// Concludes the phase from what the run of its command gave.
    pub fn install(&self, state: &InstallState, run: Result<i32, InstallerError>) -> (result:
        Result<(), InstallerError>)
        ensures
            outcome_view(result) == panel_result(run_view(run)),
    {
        check_run("Panel installation", run)
    }
}

} // verus!

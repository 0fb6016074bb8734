//! The dependency phase: what a component needs before it can be installed.

use vstd::prelude::*;
use vstd::string::*;
use crate::error::{outcome_view, InstallerError, InstallerErrorView};
use crate::installers::{check_run, phase_result, run_view};
use crate::utils::state::{ComponentType, InstallState, InstallStateView};

verus! {

/// The script of the dependency phase.
pub open spec fn dependency_script() -> Seq<char> {
    "./scripts/install_dependencies.sh"@
}

/// The reason given where no component was chosen.
pub open spec fn no_component() -> InstallerErrorView {
    InstallerErrorView::InvalidInput("No component selected"@)
}

/// What the dependency phase installs, as named in its errors.
pub open spec fn dependency_subject(component: ComponentType) -> Seq<char> {
    match component {
        ComponentType::Panel => "Dependency installation"@,
        ComponentType::Wings => "Docker installation"@,
    }
}

/// The command of the dependency phase: for the panel, the script with the
/// component and the chosen webserver; for wings, the script with the
/// component. With no component chosen there is no command.
pub open spec fn dependency_command(state: InstallStateView) -> Result<
    Seq<char>,
    InstallerErrorView,
> {
    match state.component {
        Some(ComponentType::Panel) => Ok(
            dependency_script() + " --component panel --webserver "@ + state.webserver.name(),
        ),
        Some(ComponentType::Wings) => Ok(dependency_script() + " --component wings"@),
        None => Err(no_component()),
    }
}

/// What the run of the dependency script means for the phase. With no
/// component chosen the phase fails whatever the run gave.
pub open spec fn dependency_result(
    state: InstallStateView,
    run: Result<i32, InstallerErrorView>,
) -> Result<(), InstallerErrorView> {
    match state.component {
        Some(component) => phase_result(dependency_subject(component), run),
        None => Err(no_component()),
    }
}

/// Installs what the chosen component depends on.
#[derive(Debug)]
pub struct DependencyInstaller {}

impl DependencyInstaller {
    /// Returns the installer of the dependency phase.
    pub fn new() -> DependencyInstaller {
        DependencyInstaller {  }
    }

    /// Returns the command that the phase runs, or the error that no
    /// component was chosen.
    pub fn command(&self, state: &InstallState) -> (cmd: Result<String, InstallerError>)
        ensures
            match cmd {
                Ok(text) => dependency_command(state@) == Ok::<Seq<char>, InstallerErrorView>(
                    text@,
                ),
                Err(e) => dependency_command(state@) == Err::<Seq<char>, InstallerErrorView>(e@),
            },
    {
        match state.component {
            Some(ComponentType::Panel) => {
                let mut cmd = String::from_str("./scripts/install_dependencies.sh");
                cmd.append(" --component panel --webserver ");
                cmd.append(state.webserver.as_str());
                Ok(cmd)
            },
            Some(ComponentType::Wings) => {
                let mut cmd = String::from_str("./scripts/install_dependencies.sh");
                cmd.append(" --component wings");
                Ok(cmd)
            },
            None => Err(InstallerError::InvalidInput(String::from_str("No component selected"))),
        }
    }

    /// Concludes the phase from what the run of its command gave.
    pub fn install(&self, state: &InstallState, run: Result<i32, InstallerError>) -> (result:
        Result<(), InstallerError>)
        ensures
            outcome_view(result) == dependency_result(state@, run_view(run)),
    {
        match state.component {
            Some(ComponentType::Panel) => check_run("Dependency installation", run),
            Some(ComponentType::Wings) => check_run("Docker installation", run),
            None => Err(InstallerError::InvalidInput(String::from_str("No component selected"))),
        }
    }
}

} // verus!

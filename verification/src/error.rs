//! The errors of the installer.

use vstd::prelude::*;
use vstd::string::*;

verus! {

/// What can go wrong while the wizard runs or an installation is carried out.
#[derive(Debug, PartialEq, Eq)]
pub enum InstallerError {
    /// Reading from or writing to a file or a stream failed.
    Io(String),
    /// An external program could not be started or waited for.
    CommandFailed(String),
    /// The facts about the system could not be read at startup.
    SystemDetection(String),
    /// A phase of the installation failed, or could not be started.
    InstallationFailed(String),
    /// The wizard was asked to go on from a state that allows no step.
    InvalidInput(String),
    /// A text could not be read as the value it should hold.
    ParseError(String),
}

/// The mathematical content of an [`InstallerError`].
pub enum InstallerErrorView {
    Io(Seq<char>),
    CommandFailed(Seq<char>),
    SystemDetection(Seq<char>),
    InstallationFailed(Seq<char>),
    InvalidInput(Seq<char>),
    ParseError(Seq<char>),
}

impl InstallerErrorView {
    /// The words that introduce an error of this kind.
    pub open spec fn prefix(self) -> Seq<char> {
        match self {
            InstallerErrorView::Io(_) => "IO error: "@,
            InstallerErrorView::CommandFailed(_) => "Command execution failed: "@,
            InstallerErrorView::SystemDetection(_) => "System detection failed: "@,
            InstallerErrorView::InstallationFailed(_) => "Installation failed: "@,
            InstallerErrorView::InvalidInput(_) => "Invalid input: "@,
            InstallerErrorView::ParseError(_) => "Parsing error: "@,
        }
    }

    /// What the error carries: the reason, in words.
    pub open spec fn detail(self) -> Seq<char> {
        match self {
            InstallerErrorView::Io(d) => d,
            InstallerErrorView::CommandFailed(d) => d,
            InstallerErrorView::SystemDetection(d) => d,
            InstallerErrorView::InstallationFailed(d) => d,
            InstallerErrorView::InvalidInput(d) => d,
            InstallerErrorView::ParseError(d) => d,
        }
    }

    /// The error as shown to the user: the kind's words, then the reason.
    pub open spec fn message(self) -> Seq<char> {
        self.prefix() + self.detail()
    }
}

impl View for InstallerError {
    type V = InstallerErrorView;

    open spec fn view(&self) -> InstallerErrorView {
        match self {
            InstallerError::Io(d) => InstallerErrorView::Io(d@),
            InstallerError::CommandFailed(d) => InstallerErrorView::CommandFailed(d@),
            InstallerError::SystemDetection(d) => InstallerErrorView::SystemDetection(d@),
            InstallerError::InstallationFailed(d) => InstallerErrorView::InstallationFailed(d@),
            InstallerError::InvalidInput(d) => InstallerErrorView::InvalidInput(d@),
            InstallerError::ParseError(d) => InstallerErrorView::ParseError(d@),
        }
    }
}

impl Clone for InstallerError {
    fn clone(&self) -> (copy: InstallerError)
        ensures
            copy@ == self@,
    {
        match self {
            InstallerError::Io(d) => InstallerError::Io(d.clone()),
            InstallerError::CommandFailed(d) => InstallerError::CommandFailed(d.clone()),
            InstallerError::SystemDetection(d) => InstallerError::SystemDetection(d.clone()),
            InstallerError::InstallationFailed(d) => InstallerError::InstallationFailed(d.clone()),
            InstallerError::InvalidInput(d) => InstallerError::InvalidInput(d.clone()),
            InstallerError::ParseError(d) => InstallerError::ParseError(d.clone()),
        }
    }
}

impl InstallerError {
    /// Returns the error as shown to the user.
    pub fn to_string(&self) -> (text: String)
        ensures
            text@ == self@.message(),
    {
        let (prefix, detail) = match self {
            InstallerError::Io(d) => ("IO error: ", d),
            InstallerError::CommandFailed(d) => ("Command execution failed: ", d),
            InstallerError::SystemDetection(d) => ("System detection failed: ", d),
            InstallerError::InstallationFailed(d) => ("Installation failed: ", d),
            InstallerError::InvalidInput(d) => ("Invalid input: ", d),
            InstallerError::ParseError(d) => ("Parsing error: ", d),
        };
        let mut text = String::from_str(prefix);
        text.append(detail.as_str());
        text
    }
}

/// The view of a result that may hold an [`InstallerError`].
pub open spec fn outcome_view(r: Result<(), InstallerError>) -> Result<(), InstallerErrorView> {
    match r {
        Ok(_) => Ok(()),
        Err(e) => Err(e@),
    }
}

} // verus!

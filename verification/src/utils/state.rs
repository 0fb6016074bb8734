//! The choices a user makes in the wizard and the status of the installation.

use vstd::prelude::*;
use vstd::string::*;

verus! {

/// The component that the wizard installs.
#[derive(Debug, Clone, Copy, PartialEq, Eq, Structural)]
pub enum ComponentType {
    Panel,
    Wings,
}

impl ComponentType {
    /// The name by which installation scripts know the component.
    pub open spec fn name(self) -> Seq<char> {
        match self {
            ComponentType::Panel => "panel"@,
            ComponentType::Wings => "wings"@,
        }
    }

    /// Returns the name by which installation scripts know the component.
    pub fn as_str(&self) -> (s: &'static str)
        ensures
            s@ == self.name(),
    {
        match self {
            ComponentType::Panel => "panel",
            ComponentType::Wings => "wings",
        }
    }
}

/// The webserver that serves the panel.
#[derive(Debug, Clone, Copy, PartialEq, Eq, Structural)]
pub enum WebserverType {
    Nginx,
    Apache,
    Caddy,
}

impl WebserverType {
    /// The name by which installation scripts know the webserver.
    pub open spec fn name(self) -> Seq<char> {
        match self {
            WebserverType::Nginx => "nginx"@,
            WebserverType::Apache => "apache"@,
            WebserverType::Caddy => "caddy"@,
        }
    }

    /// The name shown to the user.
    pub open spec fn display_name(self) -> Seq<char> {
        match self {
            WebserverType::Nginx => "Nginx"@,
            WebserverType::Apache => "Apache"@,
            WebserverType::Caddy => "Caddy"@,
        }
    }

    /// Returns the name by which installation scripts know the webserver.
    pub fn as_str(&self) -> (s: &'static str)
        ensures
            s@ == self.name(),
    {
        match self {
            WebserverType::Nginx => "nginx",
            WebserverType::Apache => "apache",
            WebserverType::Caddy => "caddy",
        }
    }

    /// Returns the name shown to the user.
    pub fn title(&self) -> (s: &'static str)
        ensures
            s@ == self.display_name(),
    {
        match self {
            WebserverType::Nginx => "Nginx",
            WebserverType::Apache => "Apache",
            WebserverType::Caddy => "Caddy",
        }
    }
}

/// The protocol under which the panel is reached.
#[derive(Debug, Clone, Copy, PartialEq, Eq, Structural)]
pub enum ProtocolType {
    Http,
    Https,
}

impl ProtocolType {
    /// The name by which installation scripts know the protocol.
    pub open spec fn name(self) -> Seq<char> {
        match self {
            ProtocolType::Http => "http"@,
            ProtocolType::Https => "https"@,
        }
    }

    /// The name shown to the user.
    pub open spec fn display_name(self) -> Seq<char> {
        match self {
            ProtocolType::Http => "HTTP"@,
            ProtocolType::Https => "HTTPS"@,
        }
    }

    /// Returns the name by which installation scripts know the protocol.
    pub fn as_str(&self) -> (s: &'static str)
        ensures
            s@ == self.name(),
    {
        match self {
            ProtocolType::Http => "http",
            ProtocolType::Https => "https",
        }
    }

    /// Returns the name shown to the user.
    pub fn title(&self) -> (s: &'static str)
        ensures
            s@ == self.display_name(),
    {
        match self {
            ProtocolType::Http => "HTTP",
            ProtocolType::Https => "HTTPS",
        }
    }
}

/// The highest percentage that the install state records.
pub const MAX_PROGRESS: u16 = 100;

/// Everything the wizard knows: the user's choices, the facts detected at
/// startup and the status of the current installation attempt.
#[derive(Debug, PartialEq, Eq)]
pub struct InstallState {
    pub component: Option<ComponentType>,
    pub webserver: WebserverType,
    pub protocol: ProtocolType,
    pub domain: String,
    pub use_ssl: bool,
    pub ssl_email: String,
    pub dependencies_installed: bool,
    pub panel_installed: bool,
    pub wings_installed: bool,
    pub os_name: String,
    pub os_version: String,
    pub current_phase: String,
    pub installation_complete: bool,
    pub progress: u16,
    pub progress_message: String,
    pub installation_error: Option<String>,
    pub retry_count: u32,
}

/// The mathematical content of an [`InstallState`].
pub struct InstallStateView {
    pub component: Option<ComponentType>,
    pub webserver: WebserverType,
    pub protocol: ProtocolType,
    pub domain: Seq<char>,
    pub use_ssl: bool,
    pub ssl_email: Seq<char>,
    pub dependencies_installed: bool,
    pub panel_installed: bool,
    pub wings_installed: bool,
    pub os_name: Seq<char>,
    pub os_version: Seq<char>,
    pub current_phase: Seq<char>,
    pub installation_complete: bool,
    pub progress: u16,
    pub progress_message: Seq<char>,
    pub installation_error: Option<Seq<char>>,
    pub retry_count: u32,
}

impl InstallStateView {
    /// The state before any choice was made and before anything was detected.
    pub open spec fn initial() -> InstallStateView {
        InstallStateView {
            component: None,
            webserver: WebserverType::Nginx,
            protocol: ProtocolType::Https,
            domain: Seq::empty(),
            use_ssl: true,
            ssl_email: Seq::empty(),
            dependencies_installed: false,
            panel_installed: false,
            wings_installed: false,
            os_name: Seq::empty(),
            os_version: Seq::empty(),
            current_phase: "menu"@,
            installation_complete: false,
            progress: 0,
            progress_message: Seq::empty(),
            installation_error: None,
            retry_count: 0,
        }
    }

    /// The counter of attempts after one more attempt; it stays at the
    /// largest value a `u32` holds once it has reached it.
    pub open spec fn next_retry_count(self) -> u32 {
        if self.retry_count < u32::MAX {
            (self.retry_count + 1) as u32
        } else {
            u32::MAX
        }
    }

    /// The state at the start of a new attempt: progress, message,
    /// completion flag and error are cleared, the attempt is counted.
    pub open spec fn reset(self) -> InstallStateView {
        InstallStateView {
            progress: 0,
            progress_message: Seq::empty(),
            installation_complete: false,
            installation_error: None,
            retry_count: self.next_retry_count(),
            ..self
        }
    }

    /// The state with `error` recorded as the outcome of the attempt.
    pub open spec fn with_error(self, error: Seq<char>) -> InstallStateView {
        InstallStateView { installation_error: Some(error), ..self }
    }

    /// The state with no error recorded.
    pub open spec fn without_error(self) -> InstallStateView {
        InstallStateView { installation_error: None, ..self }
    }

    /// The state after a progress report: the percentage, held to at most
    /// [`MAX_PROGRESS`], and the message replace the previous ones.
    pub open spec fn with_progress(self, percentage: u16, message: Seq<char>) -> InstallStateView {
        InstallStateView {
            progress: if percentage > MAX_PROGRESS {
                MAX_PROGRESS
            } else {
                percentage
            },
            progress_message: message,
            ..self
        }
    }

    /// The state after an attempt ended well.
    pub open spec fn completed(self) -> InstallStateView {
        InstallStateView { installation_complete: true, installation_error: None, ..self }
    }

    /// The attempt this state describes ended well.
    pub open spec fn succeeded(self) -> bool {
        self.installation_complete && self.installation_error is None
    }

    /// The attempt this state describes ended with an error.
    pub open spec fn failed(self) -> bool {
        self.installation_error is Some
    }
}

/// The view of an optional string.
pub open spec fn option_string_view(s: Option<String>) -> Option<Seq<char>> {
    match s {
        Some(text) => Some(text@),
        None => None,
    }
}

impl View for InstallState {
    type V = InstallStateView;

    open spec fn view(&self) -> InstallStateView {
        InstallStateView {
            component: self.component,
            webserver: self.webserver,
            protocol: self.protocol,
            domain: self.domain@,
            use_ssl: self.use_ssl,
            ssl_email: self.ssl_email@,
            dependencies_installed: self.dependencies_installed,
            panel_installed: self.panel_installed,
            wings_installed: self.wings_installed,
            os_name: self.os_name@,
            os_version: self.os_version@,
            current_phase: self.current_phase@,
            installation_complete: self.installation_complete,
            progress: self.progress,
            progress_message: self.progress_message@,
            installation_error: option_string_view(self.installation_error),
            retry_count: self.retry_count,
        }
    }
}

impl Default for InstallState {
    fn default() -> (state: InstallState)
        ensures
            state@ == InstallStateView::initial(),
    {
        InstallState {
            component: None,
            webserver: WebserverType::Nginx,
            protocol: ProtocolType::Https,
            domain: String::new(),
            use_ssl: true,
            ssl_email: String::new(),
            dependencies_installed: false,
            panel_installed: false,
            wings_installed: false,
            os_name: String::new(),
            os_version: String::new(),
            current_phase: String::from_str("menu"),
            installation_complete: false,
            progress: 0,
            progress_message: String::new(),
            installation_error: None,
            retry_count: 0,
        }
    }
}

impl Clone for InstallState {
    fn clone(&self) -> (copy: InstallState)
        ensures
            copy@ == self@,
    {
        let installation_error = match &self.installation_error {
            Some(text) => Some(text.clone()),
            None => None,
        };
        InstallState {
            component: self.component,
            webserver: self.webserver,
            protocol: self.protocol,
            domain: self.domain.clone(),
            use_ssl: self.use_ssl,
            ssl_email: self.ssl_email.clone(),
            dependencies_installed: self.dependencies_installed,
            panel_installed: self.panel_installed,
            wings_installed: self.wings_installed,
            os_name: self.os_name.clone(),
            os_version: self.os_version.clone(),
            current_phase: self.current_phase.clone(),
            installation_complete: self.installation_complete,
            progress: self.progress,
            progress_message: self.progress_message.clone(),
            installation_error,
            retry_count: self.retry_count,
        }
    }
}

impl InstallState {
    /// Starts a new attempt: clears progress, message, completion flag and
    /// error, and counts the attempt.
    pub fn reset_installation(&mut self)
        ensures
            final(self)@ == old(self)@.reset(),
            final(self)@.progress == 0,
            !final(self)@.installation_complete,
            final(self)@.installation_error is None,
            old(self)@.retry_count < u32::MAX ==> final(self)@.retry_count == old(self)@.retry_count
                + 1,
    {
        self.progress = 0;
        self.progress_message = String::new();
        self.installation_complete = false;
        self.installation_error = None;
        if self.retry_count < u32::MAX {
            self.retry_count = self.retry_count + 1;
        }
    }

    /// Records `error` as the outcome of the attempt.
    pub fn set_error(&mut self, error: String)
        ensures
            final(self)@ == old(self)@.with_error(error@),
    {
        self.installation_error = Some(error);
    }

    /// Forgets a recorded error.
    pub fn clear_error(&mut self)
        ensures
            final(self)@ == old(self)@.without_error(),
    {
        self.installation_error = None;
    }

    /// Records a progress report. A percentage above [`MAX_PROGRESS`] is
    /// recorded as [`MAX_PROGRESS`].
    pub fn record_progress(&mut self, percentage: u16, message: String)
        ensures
            final(self)@ == old(self)@.with_progress(percentage, message@),
            percentage <= MAX_PROGRESS ==> final(self)@.progress == percentage,
            final(self)@.progress <= MAX_PROGRESS,
            final(self)@.progress_message == message@,
    {
        self.progress = if percentage > MAX_PROGRESS {
            MAX_PROGRESS
        } else {
            percentage
        };
        self.progress_message = message;
    }

    /// Records that the attempt ended well.
    pub fn mark_complete(&mut self)
        ensures
            final(self)@ == old(self)@.completed(),
            final(self)@.succeeded(),
            !final(self)@.failed(),
    {
        self.installation_complete = true;
        self.installation_error = None;
    }
}

} // verus!

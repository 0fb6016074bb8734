//! The screen that sums up a finished installation.

use vstd::prelude::*;
use vstd::string::*;
use crate::error::InstallerError;
use crate::screens::install::{component_name, component_title};
use crate::screens::{answer_view, Key, KeyOutcome, ScreenResult, ScreenText, ScreenTextView};
use crate::utils::state::{ComponentType, InstallState, InstallStateView};
use crate::utils::text::strings_view;

verus! {

/// The mathematical content of a [`SummaryScreen`]: it holds nothing.
pub struct SummaryScreenView {}

/// The lines that name the choices made for the panel: webserver, protocol
/// and domain, and the certificate where one is used.
pub open spec fn panel_lines(state: InstallStateView) -> Seq<Seq<char>> {
    let choices = seq![
        "\u{2713} Webserver: "@ + state.webserver.display_name(),
        "\u{2713} Protocol: "@ + state.protocol.display_name(),
        "\u{2713} Domain: "@ + state.domain,
    ];
    if state.use_ssl {
        choices.push("\u{2713} SSL Certificate: "@ + state.domain)
    } else {
        choices
    }
}

/// The lines of the summary: a heading, the component, for the panel the
/// choices made, and what was done.
pub open spec fn summary_lines(state: InstallStateView) -> Seq<Seq<char>> {
    let name = component_title(state.component);
    let head = seq!["INSTALLATION SUMMARY"@, ""@, "\u{2713} Component: "@ + name];
    let choices = if state.component == Some(ComponentType::Panel) {
        panel_lines(state)
    } else {
        Seq::empty()
    };
    let done = seq![""@, "\u{2713} Dependencies installed"@, "\u{2713} "@ + name + " configured"@];
    head + choices + done
}

/// What the user does next: for the panel, where to reach it.
pub open spec fn next_steps(state: InstallStateView) -> Seq<char> {
    if state.component == Some(ComponentType::Panel) {
        "Access Panel: "@ + state.protocol.name() + "://"@ + state.domain + "/installer"@
    } else {
        "Configure Wings through Panel dashboard"@
    }
}

impl SummaryScreenView {
    /// The texts of the screen: the lines of the summary, then what the
    /// user does next, and the keys.
    pub open spec fn text(self, state: InstallStateView) -> ScreenTextView {
        ScreenTextView {
            title: "Installation Complete! \u{2713}"@,
            lines: summary_lines(state).push(next_steps(state)),
            hint: "Installation complete! Press Exit to close."@,
            footer: "Exit (c)"@,
        }
    }

    /// What a key does on this screen: `c` and enter leave the wizard.
    pub open spec fn on_key(self, key: Key, state: InstallStateView) -> KeyOutcome<
        SummaryScreenView,
    > {
        match key {
            Key::Enter => KeyOutcome::exit(self, state),
            Key::Char(c) => if c == 'c' {
                KeyOutcome::exit(self, state)
            } else {
                KeyOutcome::stay(self, state)
            },
            _ => KeyOutcome::stay(self, state),
        }
    }
}

/// The screen that sums up a finished installation.
#[derive(Debug)]
pub struct SummaryScreen {}

impl View for SummaryScreen {
    type V = SummaryScreenView;

    open spec fn view(&self) -> SummaryScreenView {
        SummaryScreenView {  }
    }
}

/// Returns `label` followed by `value`.
fn labelled(label: &str, value: &str) -> (text: String)
    ensures
        text@ == label@ + value@,
{
    let mut text = String::from_str(label);
    text.append(value);
    text
}

impl SummaryScreen {
    /// Returns the screen.
    pub fn new() -> (screen: SummaryScreen)
        ensures
            screen@ == (SummaryScreenView {  }),
    {
        SummaryScreen {  }
    }

    /// The lines of the summary.
    pub fn summary(&self, state: &InstallState) -> (lines: Vec<String>)
        ensures
            strings_view(lines@) == summary_lines(state@),
    {
        let name = component_name(state.component);
        let mut lines: Vec<String> = Vec::new();
        lines.push(String::from_str("INSTALLATION SUMMARY"));
        lines.push(String::from_str(""));
        lines.push(labelled("\u{2713} Component: ", name));
        let is_panel = match state.component {
            Some(ComponentType::Panel) => true,
            _ => false,
        };
        if is_panel {
            lines.push(labelled("\u{2713} Webserver: ", state.webserver.title()));
            lines.push(labelled("\u{2713} Protocol: ", state.protocol.title()));
            lines.push(labelled("\u{2713} Domain: ", state.domain.as_str()));
            if state.use_ssl {
                lines.push(labelled("\u{2713} SSL Certificate: ", state.domain.as_str()));
            }
        }
        lines.push(String::from_str(""));
        lines.push(String::from_str("\u{2713} Dependencies installed"));
        let mut configured = labelled("\u{2713} ", name);
        configured.append(" configured");
        lines.push(configured);
        lines
    }

    /// What the user does next.
    pub fn next_steps(&self, state: &InstallState) -> (text: String)
        ensures
            text@ == next_steps(state@),
    {
        let is_panel = match state.component {
            Some(ComponentType::Panel) => true,
            _ => false,
        };
        if is_panel {
            let mut text = labelled("Access Panel: ", state.protocol.as_str());
            text.append("://");
            text.append(state.domain.as_str());
            text.append("/installer");
            text
        } else {
            String::from_str("Configure Wings through Panel dashboard")
        }
    }

    /// Returns the texts of the screen as they are drawn.
    pub fn render(&self, state: &InstallState) -> (text: ScreenText)
        ensures
            text@ == self@.text(state@),
    {
        let mut lines = self.summary(state);
        lines.push(self.next_steps(state));
        let text = ScreenText {
            title: String::from_str("Installation Complete! \u{2713}"),
            lines,
            hint: String::from_str("Installation complete! Press Exit to close."),
            footer: String::from_str("Exit (c)"),
        };
        assert(text@.lines =~= self@.text(state@).lines);
        text
    }

    /// Called once when the screen becomes the active one.
    pub fn on_mount(&mut self, state: &mut InstallState) -> (result: Result<(), InstallerError>)
        ensures
            result is Ok,
            final(self)@ == old(self)@,
            final(state)@ == old(state)@,
    {
        Ok(())
    }

    /// Takes a key.
    pub fn handle_key(&mut self, key: Key, state: &mut InstallState) -> (answer: Result<
        ScreenResult,
        InstallerError,
    >)
        ensures
            (KeyOutcome {
                screen: final(self)@,
                state: final(state)@,
                answer: answer_view(answer),
            }) == old(self)@.on_key(key, old(state)@),
            answer is Ok,
    {
        match key {
            Key::Enter => Ok(ScreenResult::Exit),
            Key::Char(c) => {
                if c == 'c' {
                    Ok(ScreenResult::Exit)
                } else {
                    Ok(ScreenResult::Stay)
                }
            },
            _ => Ok(ScreenResult::Stay),
        }
    }
}

} // verus!

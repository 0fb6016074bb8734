//! The screen that shows an installation while it runs and once it ended.

use vstd::prelude::*;
use vstd::string::*;
use crate::error::InstallerError;
use crate::screens::summary::{SummaryScreen, SummaryScreenView};
use crate::screens::{
    answer_view,
    one_line_text,
    Key,
    KeyOutcome,
    Screen,
    ScreenResult,
    ScreenText,
    ScreenTextView,
    ScreenView,
};
use crate::ui::components::{ProgressWidget, ProgressWidgetView, FULL};
use crate::utils::state::{ComponentType, InstallState, InstallStateView};
use crate::utils::text::{join, join_lines, strings_view};

verus! {

/// The number of progress messages that the screen keeps.
pub const MAX_LOGS: usize = 20;

/// The label of the progress bar before anything was reported.
pub open spec fn progress_title() -> Seq<char> {
    "Installation Progress"@
}

/// The last `n` of the given lines, or all of them where they are fewer.
pub open spec fn keep_last(lines: Seq<Seq<char>>, n: nat) -> Seq<Seq<char>> {
    if lines.len() > n {
        lines.subrange(lines.len() - n, lines.len() as int)
    } else {
        lines
    }
}

/// The name under which a component is shown.
pub open spec fn component_title(component: Option<ComponentType>) -> Seq<char> {
    match component {
        Some(ComponentType::Panel) => "Panel"@,
        Some(ComponentType::Wings) => "Wings"@,
        None => "Component"@,
    }
}

/// Returns the name under which a component is shown.
pub fn component_name(component: Option<ComponentType>) -> (name: &'static str)
    ensures
        name@ == component_title(component),
{
    match component {
        Some(ComponentType::Panel) => "Panel",
        Some(ComponentType::Wings) => "Wings",
        None => "Component",
    }
}

/// The mathematical content of an [`InstallScreen`].
pub struct InstallScreenView {
    pub progress: ProgressWidgetView,
    pub logs: Seq<Seq<char>>,
    pub installation_started: bool,
    pub installation_complete: bool,
    pub show_retry: bool,
}

impl InstallScreenView {
    /// The screen before it is entered.
    pub open spec fn initial() -> InstallScreenView {
        InstallScreenView {
            progress: ProgressWidgetView { percentage: 0, label: progress_title() },
            logs: Seq::empty(),
            installation_started: false,
            installation_complete: false,
            show_retry: false,
        }
    }

    /// The screen once it is the active one: the installation counts as
    /// started, and a first message says so.
    pub open spec fn mounted(self) -> InstallScreenView {
        InstallScreenView {
            installation_started: true,
            logs: self.logs.push("Initializing installation..."@),
            ..self
        }
    }

    /// The screen after a progress report: the bar is filled to the
    /// percentage, at most to [`FULL`], and labelled with the message; the
    /// message joins the kept messages, of which the last [`MAX_LOGS`]
    /// stay.
    pub open spec fn with_progress(self, percentage: u16, message: Seq<char>) -> InstallScreenView {
        InstallScreenView {
            progress: ProgressWidgetView {
                percentage: if percentage <= FULL {
                    percentage
                } else {
                    FULL
                },
                label: message,
            },
            logs: keep_last(self.logs.push(message), MAX_LOGS as nat),
            ..self
        }
    }

    /// The screen after the installation ended well.
    pub open spec fn completed(self) -> InstallScreenView {
        InstallScreenView {
            installation_complete: true,
            progress: ProgressWidgetView { label: "Installation complete!"@, ..self.progress },
            ..self
        }
    }

    /// The screen after the installation failed with `error`: it is over,
    /// and a retry is offered.
    pub open spec fn failed(self, error: Seq<char>) -> InstallScreenView {
        InstallScreenView {
            installation_complete: true,
            show_retry: true,
            progress: ProgressWidgetView {
                label: "Installation failed: "@ + error,
                ..self.progress
            },
            ..self
        }
    }

    /// The screen made ready for another attempt.
    pub open spec fn reset(self) -> InstallScreenView {
        InstallScreenView::initial()
    }

    /// The installation shown is running: it started and did not end.
    pub open spec fn running(self) -> bool {
        self.installation_started && !self.installation_complete && !self.show_retry
    }

    /// What a key does on this screen. `n` goes on to the summary once the
    /// installation ended well; `r`, where a retry is offered, makes the
    /// screen ready for another attempt and goes on to a new installation
    /// screen, which starts it; `c` leaves the wizard.
    pub open spec fn on_key(self, key: Key, state: InstallStateView) -> KeyOutcome<
        InstallScreenView,
    > {
        match key {
            Key::Char(c) => if c == 'n' && self.installation_complete && !self.show_retry {
                KeyOutcome::next(self, state, ScreenView::Summary(SummaryScreenView {  }), false)
            } else if c == 'r' && self.show_retry {
                KeyOutcome::next(
                    self.reset(),
                    state,
                    ScreenView::Install(InstallScreenView::initial()),
                    true,
                )
            } else if c == 'c' {
                KeyOutcome::exit(self, state)
            } else {
                KeyOutcome::stay(self, state)
            },
            _ => KeyOutcome::stay(self, state),
        }
    }

    /// The heading: which component is installed.
    pub open spec fn title(state: InstallStateView) -> Seq<char> {
        "Installing "@ + component_title(state.component)
    }

    /// The text below the progress bar: the error where the state holds
    /// one, else the kept messages, one per line, or a word of patience
    /// where there are none.
    pub open spec fn body(self, state: InstallStateView) -> Seq<char> {
        match state.installation_error {
            Some(error) => "ERROR: "@ + error,
            None => if self.logs.len() == 0 {
                "Initializing..."@
            } else {
                join_lines(self.logs)
            },
        }
    }

    /// The texts of the screen: which component is installed, the error
    /// or the kept messages, and what the user can do now.
    pub open spec fn text(self, state: InstallStateView) -> ScreenTextView {
        ScreenTextView {
            title: InstallScreenView::title(state),
            lines: seq![self.body(state)],
            hint: self.hint(),
            footer: self.footer(),
        }
    }

    /// The hint: what the user can do now.
    pub open spec fn hint(self) -> Seq<char> {
        if self.show_retry {
            "Retry: r | Close: c"@
        } else if self.installation_complete {
            "Press n to continue"@
        } else {
            "Installation in progress..."@
        }
    }

    /// The footer: the keys that do something now.
    pub open spec fn footer(self) -> Seq<char> {
        if self.show_retry {
            "Retry (r) | Close (c)"@
        } else if self.installation_complete {
            "Next (n) | Close (c)"@
        } else {
            "Close (c)"@
        }
    }
}

/// The screen that shows an installation while it runs and once it ended.
#[derive(Debug)]
pub struct InstallScreen {
    progress: ProgressWidget,
    logs: Vec<String>,
    installation_started: bool,
    installation_complete: bool,
    show_retry: bool,
}

impl View for InstallScreen {
    type V = InstallScreenView;

    closed spec fn view(&self) -> InstallScreenView {
        InstallScreenView {
            progress: self.progress@,
            logs: strings_view(self.logs@),
            installation_started: self.installation_started,
            installation_complete: self.installation_complete,
            show_retry: self.show_retry,
        }
    }
}

impl InstallScreen {
    /// Returns the screen before it is entered.
    pub fn new() -> (screen: InstallScreen)
        ensures
            screen@ == InstallScreenView::initial(),
    {
        let screen = InstallScreen {
            progress: ProgressWidget::new("Installation Progress"),
            logs: Vec::new(),
            installation_started: false,
            installation_complete: false,
            show_retry: false,
        };
        assert(screen@.logs =~= Seq::empty());
        screen
    }

    /// Shows a progress report.
    pub fn update_progress(&mut self, percentage: u16, message: String)
        ensures
            final(self)@ == old(self)@.with_progress(percentage, message@),
    {
        self.progress.set_progress(percentage);
        self.progress.set_label(message.clone());
        self.logs.push(message);
        let ghost all = strings_view(self.logs@);
        let ghost bar = self.progress@;
        assert(all =~= old(self)@.logs.push(message@));
        while self.logs.len() > MAX_LOGS
            invariant
                self.logs@.len() <= all.len(),
                strings_view(self.logs@) == all.subrange(
                    all.len() - self.logs@.len(),
                    all.len() as int,
                ),
                all.len() > MAX_LOGS ==> self.logs@.len() >= MAX_LOGS,
                all.len() <= MAX_LOGS ==> self.logs@.len() == all.len(),
                self.progress@ == bar,
                self.installation_started == old(self).installation_started,
                self.installation_complete == old(self).installation_complete,
                self.show_retry == old(self).show_retry,
            decreases self.logs@.len(),
        {
            let ghost before = strings_view(self.logs@);
            self.logs.remove(0);
            assert(strings_view(self.logs@) =~= before.remove(0));
        }
        assert(strings_view(self.logs@) =~= keep_last(all, MAX_LOGS as nat));
    }

    /// Shows that the installation ended well.
    pub fn set_complete(&mut self)
        ensures
            final(self)@ == old(self)@.completed(),
    {
        self.installation_complete = true;
        self.progress.set_label(String::from_str("Installation complete!"));
    }

    /// Shows that the installation failed with `error`, and offers a retry.
    pub fn set_error(&mut self, error: &str)
        ensures
            final(self)@ == old(self)@.failed(error@),
    {
        self.installation_complete = true;
        self.show_retry = true;
        let mut label = String::from_str("Installation failed: ");
        label.append(error);
        self.progress.set_label(label);
    }

    /// Marks the installation as started.
    pub fn start_installation(&mut self)
        ensures
            final(self)@ == old(self)@.mounted(),
    {
        self.installation_started = true;
        self.logs.push(String::from_str("Initializing installation..."));
        assert(final(self)@.logs =~= old(self)@.logs.push("Initializing installation..."@));
    }

    /// Tells whether the installation was started.
    pub fn is_installation_started(&self) -> (started: bool)
        ensures
            started == self@.installation_started,
    {
        self.installation_started
    }

    /// Tells whether the installation is over.
    pub fn is_installation_complete(&self) -> (complete: bool)
        ensures
            complete == self@.installation_complete,
    {
        self.installation_complete
    }

    /// Tells whether a retry is offered.
    pub fn should_show_retry(&self) -> (retry: bool)
        ensures
            retry == self@.show_retry,
    {
        self.show_retry
    }

    /// Makes the screen ready for another attempt.
    pub fn reset_for_retry(&mut self)
        ensures
            final(self)@ == old(self)@.reset(),
    {
        self.progress.set_progress(0);
        self.progress.set_label(String::from_str("Installation Progress"));
        self.logs.clear();
        self.installation_started = false;
        self.installation_complete = false;
        self.show_retry = false;
        assert(final(self)@.logs =~= Seq::empty());
    }

    /// The progress messages that the screen keeps, oldest first.
    pub fn logs(&self) -> (logs: &Vec<String>)
        ensures
            strings_view(logs@) == self@.logs,
    {
        &self.logs
    }

    /// The progress bar of the screen.
    pub fn progress(&self) -> (progress: &ProgressWidget)
        ensures
            progress@ == self@.progress,
    {
        &self.progress
    }

    /// The heading: which component is installed.
    pub fn title(&self, state: &InstallState) -> (text: String)
        ensures
            text@ == InstallScreenView::title(state@),
    {
        let mut text = String::from_str("Installing ");
        text.append(component_name(state.component));
        text
    }

    /// The text below the progress bar.
    pub fn body(&self, state: &InstallState) -> (text: String)
        ensures
            text@ == self@.body(state@),
    {
        match &state.installation_error {
            Some(error) => {
                let mut text = String::from_str("ERROR: ");
                text.append(error.as_str());
                text
            },
            None => {
                if self.logs.len() == 0 {
                    String::from_str("Initializing...")
                } else {
                    join(&self.logs)
                }
            },
        }
    }

    /// The hint: what the user can do now.
    pub fn hint(&self) -> (text: &'static str)
        ensures
            text@ == self@.hint(),
    {
        if self.show_retry {
            "Retry: r | Close: c"
        } else if self.installation_complete {
            "Press n to continue"
        } else {
            "Installation in progress..."
        }
    }

    /// The footer: the keys that do something now.
    pub fn footer(&self) -> (text: &'static str)
        ensures
            text@ == self@.footer(),
    {
        if self.show_retry {
            "Retry (r) | Close (c)"
        } else if self.installation_complete {
            "Next (n) | Close (c)"
        } else {
            "Close (c)"
        }
    }

    /// Returns the texts of the screen as they are drawn.
    pub fn render(&self, state: &InstallState) -> (text: ScreenText)
        ensures
            text@ == self@.text(state@),
    {
        let title = self.title(state);
        one_line_text(title.as_str(), self.body(state), self.hint(), self.footer())
    }

    /// Called once when the screen becomes the active one: marks the
    /// installation as started.
    pub fn on_mount(&mut self, state: &mut InstallState) -> (result: Result<(), InstallerError>)
        ensures
            result is Ok,
            final(self)@ == old(self)@.mounted(),
            final(state)@ == old(state)@,
    {
        self.start_installation();
        Ok(())
    }

    /// Takes a key.
    pub fn handle_key(&mut self, key: Key, state: &mut InstallState) -> (answer: Result<
        ScreenResult,
        InstallerError,
    >)
        ensures
            (KeyOutcome {
                screen: final(self)@,
                state: final(state)@,
                answer: answer_view(answer),
            }) == old(self)@.on_key(key, old(state)@),
            answer is Ok,
    {
        match key {
            Key::Char(c) => {
                if c == 'n' && self.installation_complete && !self.show_retry {
                    return Ok(
                        ScreenResult::Next(Screen::Summary(SummaryScreen::new()), false),
                    );
                } else if c == 'r' && self.show_retry {
                    self.reset_for_retry();
                    return Ok(ScreenResult::Next(Screen::Install(InstallScreen::new()), true));
                } else if c == 'c' {
                    return Ok(ScreenResult::Exit);
                }
            },
            _ => {},
        }
        Ok(ScreenResult::Stay)
    }
}

} // verus!

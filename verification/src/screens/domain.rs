//! The screen on which the domain is entered.

use vstd::prelude::*;
use vstd::string::*;
use crate::error::InstallerError;
use crate::screens::install::{InstallScreen, InstallScreenView};
use crate::screens::ssl::{SSLScreen, SSLScreenView};
use crate::screens::{
    answer_view,
    next_footer,
    Key,
    KeyOutcome,
    Screen,
    ScreenResult,
    ScreenText,
    ScreenTextView,
    ScreenView,
};
use crate::ui::components::{TextInput, TextInputView};
use crate::utils::state::{InstallState, InstallStateView, ProtocolType};
use crate::utils::text::{chars_of, contains_between, trim_bounds, trimmed};

verus! {

/// The text shown while no domain was typed.
pub open spec fn domain_placeholder() -> Seq<char> {
    "panel.example.com"@
}

/// A domain is accepted where, white space at its start and end apart, it
/// is not empty and holds no space.
pub open spec fn domain_acceptable(value: Seq<char>) -> bool {
    trimmed(value).len() > 0 && !trimmed(value).contains(' ')
}

/// The line above the input: what is asked for, and for which protocol.
pub open spec fn domain_prompt(state: InstallStateView) -> Seq<char> {
    "Enter your domain or IP address ("@ + state.protocol.display_name() + "):"@
}

/// The mathematical content of a [`DomainScreen`].
pub struct DomainScreenView {
    pub input: TextInputView,
    pub can_proceed: bool,
}

impl DomainScreenView {
    /// The screen before it is entered: nothing was typed, and the wizard
    /// cannot go on.
    pub open spec fn initial() -> DomainScreenView {
        DomainScreenView {
            input: TextInputView::initial(domain_placeholder()),
            can_proceed: false,
        }
    }

    /// The texts of the screen: what is asked for, an example, and the
    /// keys.
    pub open spec fn text(self, state: InstallStateView) -> ScreenTextView {
        ScreenTextView {
            title: "Domain Configuration"@,
            lines: seq![domain_prompt(state), "Example: panel.example.com or 192.168.1.100"@],
            hint: "Type domain/IP and press Next (n)"@,
            footer: next_footer(),
        }
    }

    /// The screen once it is the active one: the input has the focus.
    pub open spec fn mounted(self) -> DomainScreenView {
        DomainScreenView { input: TextInputView { focused: true, ..self.input }, ..self }
    }

    /// The screen after its text was changed to that of `input`: the
    /// wizard can go on where the text is an acceptable domain.
    pub open spec fn edited(self, input: TextInputView) -> DomainScreenView {
        DomainScreenView { input, can_proceed: domain_acceptable(input.value) }
    }

    /// The screen after its cursor was moved to that of `input`.
    pub open spec fn moved(self, input: TextInputView) -> DomainScreenView {
        DomainScreenView { input, ..self }
    }

    /// What a key does on this screen. Every character is typed into the
    /// input; backspace and delete remove a character; left, right, home
    /// and end move the cursor. Enter, where the text is an acceptable
    /// domain, records it and goes on: with HTTPS to the certificate
    /// screen, else to the installation, which it starts.
    pub open spec fn on_key(self, key: Key, state: InstallStateView) -> KeyOutcome<
        DomainScreenView,
    > {
        match key {
            Key::Char(c) => KeyOutcome::stay(self.edited(self.input.typed(c)), state),
            Key::Backspace => KeyOutcome::stay(self.edited(self.input.backspace()), state),
            Key::Delete => KeyOutcome::stay(self.edited(self.input.delete()), state),
            Key::Left => KeyOutcome::stay(self.moved(self.input.left()), state),
            Key::Right => KeyOutcome::stay(self.moved(self.input.right()), state),
            Key::Home => KeyOutcome::stay(self.moved(self.input.home()), state),
            Key::End => KeyOutcome::stay(self.moved(self.input.end()), state),
            Key::Enter => if self.can_proceed {
                let recorded = InstallStateView { domain: self.input.value, ..state };
                if state.protocol == ProtocolType::Https {
                    KeyOutcome::next(self, recorded, ScreenView::Ssl(SSLScreenView::initial()), false)
                } else {
                    KeyOutcome::next(
                        self,
                        recorded,
                        ScreenView::Install(InstallScreenView::initial()),
                        true,
                    )
                }
            } else {
                KeyOutcome::stay(self, state)
            },
            _ => KeyOutcome::stay(self, state),
        }
    }
}

/// The screen on which the domain is entered.
#[derive(Debug)]
pub struct DomainScreen {
    input: TextInput,
    can_proceed: bool,
}

impl View for DomainScreen {
    type V = DomainScreenView;

    closed spec fn view(&self) -> DomainScreenView {
        DomainScreenView { input: self.input@, can_proceed: self.can_proceed }
    }
}

/// Tells whether a text is an acceptable domain.
pub fn is_acceptable_domain(value: &str) -> (ok: bool)
    ensures
        ok == domain_acceptable(value@),
{
    let chars = chars_of(value);
    let (start, end) = trim_bounds(&chars);
    if start < end {
        !contains_between(&chars, ' ', start, end)
    } else {
        false
    }
}

impl DomainScreen {
    /// Returns the screen before it is entered.
    pub fn new() -> (screen: DomainScreen)
        ensures
            screen@ == DomainScreenView::initial(),
    {
        DomainScreen { input: TextInput::new("panel.example.com"), can_proceed: false }
    }

    /// The input of the screen.
    pub fn input(&self) -> (input: &TextInput)
        ensures
            input@ == self@.input,
    {
        &self.input
    }

    /// Tells whether enter goes on to the next screen.
    pub fn can_proceed(&self) -> (b: bool)
        ensures
            b == self@.can_proceed,
    {
        self.can_proceed
    }

    /// The line above the input: what is asked for, and for which protocol.
    pub fn prompt(&self, state: &InstallState) -> (text: String)
        ensures
            text@ == domain_prompt(state@),
    {
        let mut text = String::from_str("Enter your domain or IP address (");
        text.append(state.protocol.title());
        text.append("):");
        text
    }

    /// Returns the texts of the screen as they are drawn.
    pub fn render(&self, state: &InstallState) -> (text: ScreenText)
        ensures
            text@ == self@.text(state@),
    {
        let mut lines: Vec<String> = Vec::new();
        lines.push(self.prompt(state));
        lines.push(String::from_str("Example: panel.example.com or 192.168.1.100"));
        let text = ScreenText {
            title: String::from_str("Domain Configuration"),
            lines,
            hint: String::from_str("Type domain/IP and press Next (n)"),
            footer: String::from_str("Back: b | Next: n | Close: c"),
        };
        assert(text@.lines =~= self@.text(state@).lines);
        text
    }

    /// Called once when the screen becomes the active one: gives the input
    /// the focus.
    pub fn on_mount(&mut self, state: &mut InstallState) -> (result: Result<(), InstallerError>)
        ensures
            result is Ok,
            final(self)@ == old(self)@.mounted(),
            final(state)@ == old(state)@,
    {
        self.input.set_focused(true);
        Ok(())
    }

    /// Decides anew whether the wizard can go on.
    fn validate(&mut self)
        ensures
            final(self)@ == old(self)@.edited(old(self)@.input),
    {
        self.can_proceed = is_acceptable_domain(self.input.value());
    }

    /// Takes a key.
    pub fn handle_key(&mut self, key: Key, state: &mut InstallState) -> (answer: Result<
        ScreenResult,
        InstallerError,
    >)
        ensures
            (KeyOutcome {
                screen: final(self)@,
                state: final(state)@,
                answer: answer_view(answer),
            }) == old(self)@.on_key(key, old(state)@),
            answer is Ok,
    {
        match key {
            Key::Char(c) => {
                self.input.handle_char(c);
                self.validate();
            },
            Key::Backspace => {
                self.input.backspace();
                self.validate();
            },
            Key::Delete => {
                self.input.delete();
                self.validate();
            },
            Key::Left => self.input.move_left(),
            Key::Right => self.input.move_right(),
            Key::Home => self.input.move_home(),
            Key::End => self.input.move_end(),
            Key::Enter => {
                if self.can_proceed {
                    state.domain = self.input.value().to_owned();
                    if state.protocol == ProtocolType::Https {
                        return Ok(ScreenResult::Next(Screen::Ssl(SSLScreen::new()), false));
                    } else {
                        return Ok(ScreenResult::Next(Screen::Install(InstallScreen::new()), true));
                    }
                }
            },
            _ => {},
        }
        Ok(ScreenResult::Stay)
    }
}

} // verus!

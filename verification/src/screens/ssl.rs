//! The screen on which the address for certificate notices is entered.

use vstd::prelude::*;
use vstd::string::*;
use crate::error::InstallerError;
use crate::screens::install::{InstallScreen, InstallScreenView};
use crate::screens::{
    answer_view,
    next_footer,
    Key,
    KeyOutcome,
    Screen,
    ScreenResult,
    ScreenText,
    ScreenTextView,
    ScreenView,
};
use crate::ui::components::{TextInput, TextInputView};
use crate::utils::state::{InstallState, InstallStateView};
use crate::utils::text::{chars_of, contains_between};

verus! {

/// The text shown while no address was typed.
pub open spec fn email_placeholder() -> Seq<char> {
    "admin@example.com"@
}

/// An address is accepted where it holds an `@` and a dot.
pub open spec fn email_acceptable(value: Seq<char>) -> bool {
    value.contains('@') && value.contains('.')
}

/// The line that names the domain the certificate is for.
pub open spec fn domain_line(state: InstallStateView) -> Seq<char> {
    "Domain: "@ + state.domain
}

/// The mathematical content of an [`SSLScreen`].
pub struct SSLScreenView {
    pub input: TextInputView,
    pub can_proceed: bool,
}

impl SSLScreenView {
    /// The screen before it is entered: nothing was typed, and the wizard
    /// cannot go on.
    pub open spec fn initial() -> SSLScreenView {
        SSLScreenView { input: TextInputView::initial(email_placeholder()), can_proceed: false }
    }

    /// The texts of the screen: who issues the certificate, the domain it
    /// is for, what is asked for, and the keys.
    pub open spec fn text(self, state: InstallStateView) -> ScreenTextView {
        ScreenTextView {
            title: "SSL Certificate Setup"@,
            lines: seq![
                "Let's Encrypt will generate free SSL certificates"@,
                domain_line(state),
                "Email for certificate notifications:"@,
            ],
            hint: "Enter email and press Next (n)"@,
            footer: next_footer(),
        }
    }

    /// The screen once it is the active one: the input has the focus.
    pub open spec fn mounted(self) -> SSLScreenView {
        SSLScreenView { input: TextInputView { focused: true, ..self.input }, ..self }
    }

    /// The screen after its text was changed to that of `input`: the
    /// wizard can go on where the text is an acceptable address.
    pub open spec fn edited(self, input: TextInputView) -> SSLScreenView {
        SSLScreenView { input, can_proceed: email_acceptable(input.value) }
    }

    /// The screen after its cursor was moved to that of `input`.
    pub open spec fn moved(self, input: TextInputView) -> SSLScreenView {
        SSLScreenView { input, ..self }
    }

    /// What a key does on this screen. Every character is typed into the
    /// input; backspace and delete remove a character; left, right, home
    /// and end move the cursor. Enter, where the text is an acceptable
    /// address, records it and goes on to the installation, which it
    /// starts.
    pub open spec fn on_key(self, key: Key, state: InstallStateView) -> KeyOutcome<SSLScreenView> {
        match key {
            Key::Char(c) => KeyOutcome::stay(self.edited(self.input.typed(c)), state),
            Key::Backspace => KeyOutcome::stay(self.edited(self.input.backspace()), state),
            Key::Delete => KeyOutcome::stay(self.edited(self.input.delete()), state),
            Key::Left => KeyOutcome::stay(self.moved(self.input.left()), state),
            Key::Right => KeyOutcome::stay(self.moved(self.input.right()), state),
            Key::Home => KeyOutcome::stay(self.moved(self.input.home()), state),
            Key::End => KeyOutcome::stay(self.moved(self.input.end()), state),
            Key::Enter => if self.can_proceed {
                KeyOutcome::next(
                    self,
                    InstallStateView { ssl_email: self.input.value, ..state },
                    ScreenView::Install(InstallScreenView::initial()),
                    true,
                )
            } else {
                KeyOutcome::stay(self, state)
            },
            _ => KeyOutcome::stay(self, state),
        }
    }
}

/// The screen on which the address for certificate notices is entered.
#[derive(Debug)]
pub struct SSLScreen {
    input: TextInput,
    can_proceed: bool,
}

impl View for SSLScreen {
    type V = SSLScreenView;

    closed spec fn view(&self) -> SSLScreenView {
        SSLScreenView { input: self.input@, can_proceed: self.can_proceed }
    }
}

/// Tells whether a text is an acceptable address.
pub fn is_acceptable_email(value: &str) -> (ok: bool)
    ensures
        ok == email_acceptable(value@),
{
    let chars = chars_of(value);
    assert(chars@.subrange(0, chars.len() as int) =~= chars@);
    contains_between(&chars, '@', 0, chars.len()) && contains_between(&chars, '.', 0, chars.len())
}

impl SSLScreen {
    /// Returns the screen before it is entered.
    pub fn new() -> (screen: SSLScreen)
        ensures
            screen@ == SSLScreenView::initial(),
    {
        SSLScreen { input: TextInput::new("admin@example.com"), can_proceed: false }
    }

    /// The input of the screen.
    pub fn input(&self) -> (input: &TextInput)
        ensures
            input@ == self@.input,
    {
        &self.input
    }

    /// Tells whether enter goes on to the next screen.
    pub fn can_proceed(&self) -> (b: bool)
        ensures
            b == self@.can_proceed,
    {
        self.can_proceed
    }

    /// The line that names the domain the certificate is for.
    pub fn domain_info(&self, state: &InstallState) -> (text: String)
        ensures
            text@ == domain_line(state@),
    {
        let mut text = String::from_str("Domain: ");
        text.append(state.domain.as_str());
        text
    }

    /// Returns the texts of the screen as they are drawn.
    pub fn render(&self, state: &InstallState) -> (text: ScreenText)
        ensures
            text@ == self@.text(state@),
    {
        let mut lines: Vec<String> = Vec::new();
        lines.push(String::from_str("Let's Encrypt will generate free SSL certificates"));
        lines.push(self.domain_info(state));
        lines.push(String::from_str("Email for certificate notifications:"));
        let text = ScreenText {
            title: String::from_str("SSL Certificate Setup"),
            lines,
            hint: String::from_str("Enter email and press Next (n)"),
            footer: String::from_str("Back: b | Next: n | Close: c"),
        };
        assert(text@.lines =~= self@.text(state@).lines);
        text
    }

    /// Called once when the screen becomes the active one: gives the input
    /// the focus.
    pub fn on_mount(&mut self, state: &mut InstallState) -> (result: Result<(), InstallerError>)
        ensures
            result is Ok,
            final(self)@ == old(self)@.mounted(),
            final(state)@ == old(state)@,
    {
        self.input.set_focused(true);
        Ok(())
    }

    /// Decides anew whether the wizard can go on.
    fn validate(&mut self)
        ensures
            final(self)@ == old(self)@.edited(old(self)@.input),
    {
        self.can_proceed = is_acceptable_email(self.input.value());
    }

    /// Takes a key.
    pub fn handle_key(&mut self, key: Key, state: &mut InstallState) -> (answer: Result<
        ScreenResult,
        InstallerError,
    >)
        ensures
            (KeyOutcome {
                screen: final(self)@,
                state: final(state)@,
                answer: answer_view(answer),
            }) == old(self)@.on_key(key, old(state)@),
            answer is Ok,
    {
        match key {
            Key::Char(c) => {
                self.input.handle_char(c);
                self.validate();
            },
            Key::Backspace => {
                self.input.backspace();
                self.validate();
            },
            Key::Delete => {
                self.input.delete();
                self.validate();
            },
            Key::Left => self.input.move_left(),
            Key::Right => self.input.move_right(),
            Key::Home => self.input.move_home(),
            Key::End => self.input.move_end(),
            Key::Enter => {
                if self.can_proceed {
                    state.ssl_email = self.input.value().to_owned();
                    return Ok(ScreenResult::Next(Screen::Install(InstallScreen::new()), true));
                }
            },
            _ => {},
        }
        Ok(ScreenResult::Stay)
    }
}

} // verus!

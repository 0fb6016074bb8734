//! The screens of the wizard and the stack that holds them.
//!
//! A screen takes a key, may change itself and the install state, and
//! answers with a [`ScreenResult`]: stay, go on to a new screen, go back, or
//! leave the wizard. The [`ScreenStack`] holds the screens entered so far;
//! the last one is the active one.

use vstd::prelude::*;
use crate::error::{InstallerError, InstallerErrorView};
use crate::screens::domain::{DomainScreen, DomainScreenView};
use crate::screens::install::{InstallScreen, InstallScreenView};
use crate::screens::menu::{MenuScreen, MenuScreenView};
use crate::screens::protocol::{ProtocolScreen, ProtocolScreenView};
use crate::screens::ssl::{SSLScreen, SSLScreenView};
use crate::screens::summary::{SummaryScreen, SummaryScreenView};
use crate::screens::webserver::{WebserverScreen, WebserverScreenView};
use crate::utils::state::{InstallState, InstallStateView};
use crate::utils::text::strings_view;

pub mod domain;
pub mod install;
pub mod menu;
pub mod protocol;
pub mod ssl;
pub mod summary;
pub mod webserver;

verus! {

/// A key as far as the screens tell keys apart.
#[derive(Debug, Clone, Copy, PartialEq, Eq, Structural)]
pub enum Key {
    Char(char),
    Enter,
    Up,
    Down,
    Left,
    Right,
    Home,
    End,
    Backspace,
    Delete,
    /// Any other key.
    Other,
}

/// One step of the wizard.
#[derive(Debug)]
pub enum Screen {
    Menu(MenuScreen),
    Webserver(WebserverScreen),
    Protocol(ProtocolScreen),
    Domain(DomainScreen),
    Ssl(SSLScreen),
    Install(InstallScreen),
    Summary(SummaryScreen),
}

/// The mathematical content of a [`Screen`].
pub enum ScreenView {
    Menu(MenuScreenView),
    Webserver(WebserverScreenView),
    Protocol(ProtocolScreenView),
    Domain(DomainScreenView),
    Ssl(SSLScreenView),
    Install(InstallScreenView),
    Summary(SummaryScreenView),
}

impl View for Screen {
    type V = ScreenView;

    open spec fn view(&self) -> ScreenView {
        match self {
            Screen::Menu(s) => ScreenView::Menu(s@),
            Screen::Webserver(s) => ScreenView::Webserver(s@),
            Screen::Protocol(s) => ScreenView::Protocol(s@),
            Screen::Domain(s) => ScreenView::Domain(s@),
            Screen::Ssl(s) => ScreenView::Ssl(s@),
            Screen::Install(s) => ScreenView::Install(s@),
            Screen::Summary(s) => ScreenView::Summary(s@),
        }
    }
}

/// The texts of a screen as they are drawn: the heading, the lines below
/// it from top to bottom, the hint and the footer. The widgets of a screen
/// are drawn from the widgets themselves.
#[derive(Debug, PartialEq, Eq)]
pub struct ScreenText {
    pub title: String,
    pub lines: Vec<String>,
    pub hint: String,
    pub footer: String,
}

/// The mathematical content of a [`ScreenText`].
pub struct ScreenTextView {
    pub title: Seq<char>,
    pub lines: Seq<Seq<char>>,
    pub hint: Seq<char>,
    pub footer: Seq<char>,
}

impl View for ScreenText {
    type V = ScreenTextView;

    open spec fn view(&self) -> ScreenTextView {
        ScreenTextView {
            title: self.title@,
            lines: strings_view(self.lines@),
            hint: self.hint@,
            footer: self.footer@,
        }
    }
}

/// The footer of a screen that can be left for the one before it.
pub open spec fn back_footer() -> Seq<char> {
    "Back: b | Close: c"@
}

/// The footer of a screen from which the wizard goes on.
pub open spec fn next_footer() -> Seq<char> {
    "Back: b | Next: n | Close: c"@
}

/// Returns the texts of a screen with one line below the heading.
pub(crate) fn one_line_text(title: &str, line: String, hint: &str, footer: &str) -> (text:
    ScreenText)
    ensures
        text@ == (ScreenTextView {
            title: title@,
            lines: seq![line@],
            hint: hint@,
            footer: footer@,
        }),
{
    let mut lines: Vec<String> = Vec::new();
    lines.push(line);
    let text = ScreenText {
        title: title.to_owned(),
        lines,
        hint: hint.to_owned(),
        footer: footer.to_owned(),
    };
    assert(text@.lines =~= seq![line@]);
    text
}

/// What a screen answers to a key.
#[derive(Debug)]
pub enum ScreenResult {
    /// Stay on the screen.
    Stay,
    /// Go on to the given screen. The flag says whether entering it starts
    /// an installation.
    Next(Screen, bool),
    /// Go back to the screen before.
    Back,
    /// Leave the wizard.
    Exit,
}

/// The mathematical content of a [`ScreenResult`].
pub enum ScreenResultView {
    Stay,
    Next(ScreenView, bool),
    Back,
    Exit,
}

impl View for ScreenResult {
    type V = ScreenResultView;

    open spec fn view(&self) -> ScreenResultView {
        match self {
            ScreenResult::Stay => ScreenResultView::Stay,
            ScreenResult::Next(screen, starts) => ScreenResultView::Next(screen@, *starts),
            ScreenResult::Back => ScreenResultView::Back,
            ScreenResult::Exit => ScreenResultView::Exit,
        }
    }
}

/// The view of what handling a key gave.
pub open spec fn answer_view(answer: Result<ScreenResult, InstallerError>) -> Result<
    ScreenResultView,
    InstallerErrorView,
> {
    match answer {
        Ok(result) => Ok(result@),
        Err(e) => Err(e@),
    }
}

/// What handling a key leaves behind: the screen, the install state, and
/// the answer.
pub struct KeyOutcome<S> {
    pub screen: S,
    pub state: InstallStateView,
    pub answer: Result<ScreenResultView, InstallerErrorView>,
}

impl<S> KeyOutcome<S> {
    /// The outcome with the given screen and state in which the wizard
    /// stays on the screen.
    pub open spec fn stay(screen: S, state: InstallStateView) -> KeyOutcome<S> {
        KeyOutcome { screen, state, answer: Ok(ScreenResultView::Stay) }
    }

    /// The outcome with the given screen and state in which the wizard
    /// goes back.
    pub open spec fn back(screen: S, state: InstallStateView) -> KeyOutcome<S> {
        KeyOutcome { screen, state, answer: Ok(ScreenResultView::Back) }
    }

    /// The outcome with the given screen and state in which the wizard
    /// is left.
    pub open spec fn exit(screen: S, state: InstallStateView) -> KeyOutcome<S> {
        KeyOutcome { screen, state, answer: Ok(ScreenResultView::Exit) }
    }

    /// The outcome with the given screen and state in which the wizard
    /// goes on to `next`.
    pub open spec fn next(
        screen: S,
        state: InstallStateView,
        next: ScreenView,
        starts_installation: bool,
    ) -> KeyOutcome<S> {
        KeyOutcome { screen, state, answer: Ok(ScreenResultView::Next(next, starts_installation)) }
    }
}

/// The number that a digit key stands for, where `c` is a decimal digit.
pub open spec fn digit_key(c: char) -> Option<nat> {
    if '0' <= c && c <= '9' {
        Some((c as int - '0' as int) as nat)
    } else {
        None
    }
}

/// The outcome of a key on one kind of screen, as the outcome on a screen
/// of any kind.
pub open spec fn lift<S>(outcome: KeyOutcome<S>, wrap: spec_fn(S) -> ScreenView) -> KeyOutcome<
    ScreenView,
> {
    KeyOutcome { screen: wrap(outcome.screen), state: outcome.state, answer: outcome.answer }
}

impl ScreenView {
    /// The screen once it is the active one. The screens with a text input
    /// give it the focus; the installation screen marks the installation
    /// as started; the others stay as they are.
    pub open spec fn mounted(self) -> ScreenView {
        match self {
            ScreenView::Domain(s) => ScreenView::Domain(s.mounted()),
            ScreenView::Ssl(s) => ScreenView::Ssl(s.mounted()),
            ScreenView::Install(s) => ScreenView::Install(s.mounted()),
            _ => self,
        }
    }

    /// What a key does on the screen.
    pub open spec fn on_key(self, key: Key, state: InstallStateView) -> KeyOutcome<ScreenView> {
        match self {
            ScreenView::Menu(s) => lift(s.on_key(key, state), |x: MenuScreenView| ScreenView::Menu(x)),
            ScreenView::Webserver(s) => lift(
                s.on_key(key, state),
                |x: WebserverScreenView| ScreenView::Webserver(x),
            ),
            ScreenView::Protocol(s) => lift(
                s.on_key(key, state),
                |x: ProtocolScreenView| ScreenView::Protocol(x),
            ),
            ScreenView::Domain(s) => lift(
                s.on_key(key, state),
                |x: DomainScreenView| ScreenView::Domain(x),
            ),
            ScreenView::Ssl(s) => lift(s.on_key(key, state), |x: SSLScreenView| ScreenView::Ssl(x)),
            ScreenView::Install(s) => lift(
                s.on_key(key, state),
                |x: InstallScreenView| ScreenView::Install(x),
            ),
            ScreenView::Summary(s) => lift(
                s.on_key(key, state),
                |x: SummaryScreenView| ScreenView::Summary(x),
            ),
        }
    }

    /// The texts of the screen as they are drawn.
    pub open spec fn text(self, state: InstallStateView) -> ScreenTextView {
        match self {
            ScreenView::Menu(s) => s.text(state),
            ScreenView::Webserver(s) => s.text(),
            ScreenView::Protocol(s) => s.text(),
            ScreenView::Domain(s) => s.text(state),
            ScreenView::Ssl(s) => s.text(state),
            ScreenView::Install(s) => s.text(state),
            ScreenView::Summary(s) => s.text(state),
        }
    }

    /// The screen shows an installation that is running.
    pub open spec fn shows_running_installation(self) -> bool {
        self matches ScreenView::Install(s) && s.running()
    }

    /// The screen after a progress report: the installation screen shows
    /// it, any other screen stays as it is.
    pub open spec fn with_progress(self, percentage: u16, message: Seq<char>) -> ScreenView {
        match self {
            ScreenView::Install(s) => ScreenView::Install(s.with_progress(percentage, message)),
            _ => self,
        }
    }

    /// The screen after the installation ended well: the installation
    /// screen shows it, any other screen stays as it is.
    pub open spec fn completed(self) -> ScreenView {
        match self {
            ScreenView::Install(s) => ScreenView::Install(s.completed()),
            _ => self,
        }
    }

    /// The screen after the installation failed: the installation screen
    /// shows the error and offers a retry, any other screen stays as it
    /// is.
    pub open spec fn failed(self, error: Seq<char>) -> ScreenView {
        match self {
            ScreenView::Install(s) => ScreenView::Install(s.failed(error)),
            _ => self,
        }
    }
}

/// A screen says that entering the next screen starts an installation
/// exactly where the next screen is the installation screen, and the
/// installation screen it goes on to is as new.
pub proof fn lemma_next_starts_installation(screen: ScreenView, key: Key, state: InstallStateView)
    ensures
        screen.on_key(key, state).answer matches Ok(ScreenResultView::Next(next, starts)) ==> {
            &&& starts == (next is Install)
            &&& next is Install ==> next == ScreenView::Install(InstallScreenView::initial())
        },
{
}

/// The first screen never answers with a step back.
pub proof fn lemma_menu_never_goes_back(screen: MenuScreenView, key: Key, state: InstallStateView)
    ensures
        screen.on_key(key, state).answer != Ok::<ScreenResultView, InstallerErrorView>(
            ScreenResultView::Back,
        ),
{
}

impl Screen {
    /// Called once when the screen becomes the active one.
    pub fn on_mount(&mut self, state: &mut InstallState) -> (result: Result<(), InstallerError>)
        ensures
            result is Ok,
            final(self)@ == old(self)@.mounted(),
            final(state)@ == old(state)@,
    {
        match self {
            Screen::Menu(s) => s.on_mount(state),
            Screen::Webserver(s) => s.on_mount(state),
            Screen::Protocol(s) => s.on_mount(state),
            Screen::Domain(s) => s.on_mount(state),
            Screen::Ssl(s) => s.on_mount(state),
            Screen::Install(s) => s.on_mount(state),
            Screen::Summary(s) => s.on_mount(state),
        }
    }

    /// Returns the texts of the screen as they are drawn.
    pub fn render(&self, state: &InstallState) -> (text: ScreenText)
        ensures
            text@ == self@.text(state@),
    {
        match self {
            Screen::Menu(s) => s.render(state),
            Screen::Webserver(s) => s.render(state),
            Screen::Protocol(s) => s.render(state),
            Screen::Domain(s) => s.render(state),
            Screen::Ssl(s) => s.render(state),
            Screen::Install(s) => s.render(state),
            Screen::Summary(s) => s.render(state),
        }
    }

    /// Shows a progress report, where the screen is the installation
    /// screen.
    pub fn update_progress(&mut self, percentage: u16, message: String)
        ensures
            final(self)@ == old(self)@.with_progress(percentage, message@),
    {
        match self {
            Screen::Install(s) => s.update_progress(percentage, message),
            _ => {},
        }
    }

    /// Shows that the installation ended well, where the screen is the
    /// installation screen.
    pub fn set_complete(&mut self)
        ensures
            final(self)@ == old(self)@.completed(),
    {
        match self {
            Screen::Install(s) => s.set_complete(),
            _ => {},
        }
    }

    /// Shows that the installation failed with `error`, where the screen
    /// is the installation screen.
    pub fn set_error(&mut self, error: &str)
        ensures
            final(self)@ == old(self)@.failed(error@),
    {
        match self {
            Screen::Install(s) => s.set_error(error),
            _ => {},
        }
    }

    /// Tells whether the screen is the installation screen.
    pub fn is_install(&self) -> (b: bool)
        ensures
            b == (self@ is Install),
    {
        match self {
            Screen::Install(_) => true,
            _ => false,
        }
    }

    /// Takes a key.
    pub fn handle_key(&mut self, key: Key, state: &mut InstallState) -> (answer: Result<
        ScreenResult,
        InstallerError,
    >)
        ensures
            (KeyOutcome {
                screen: final(self)@,
                state: final(state)@,
                answer: answer_view(answer),
            }) == old(self)@.on_key(key, old(state)@),
    {
        match self {
            Screen::Menu(s) => s.handle_key(key, state),
            Screen::Webserver(s) => s.handle_key(key, state),
            Screen::Protocol(s) => s.handle_key(key, state),
            Screen::Domain(s) => s.handle_key(key, state),
            Screen::Ssl(s) => s.handle_key(key, state),
            Screen::Install(s) => s.handle_key(key, state),
            Screen::Summary(s) => s.handle_key(key, state),
        }
    }
}

/// Where the wizard stands after a screen's answer was applied to the
/// stack.
#[derive(Debug, Clone, Copy, PartialEq, Eq, Structural)]
pub enum Navigation {
    /// The active screen is the same as before.
    Stayed,
    /// A new screen was entered; the flag says whether entering it starts
    /// an installation.
    Entered(bool),
    /// The active screen was left for the one before it.
    Returned,
    /// The wizard is to be left.
    Exit,
}

/// The views of the screens of a vector, in order.
pub open spec fn screens_view(screens: Seq<Screen>) -> Seq<ScreenView> {
    screens.map_values(|screen: Screen| screen@)
}

/// The stack after a screen's answer was applied. Going on puts the new
/// screen, made active, on top. Going back takes the top away where a
/// screen is left below it. Nothing else changes the stack.
pub open spec fn stack_after(stack: Seq<ScreenView>, answer: ScreenResultView) -> Seq<ScreenView> {
    match answer {
        ScreenResultView::Next(screen, _) => stack.push(screen.mounted()),
        ScreenResultView::Back => if stack.len() > 1 {
            stack.drop_last()
        } else {
            stack
        },
        _ => stack,
    }
}

/// Where the wizard stands after a screen's answer was applied. Going
/// back from the only screen left is leaving the wizard.
pub open spec fn navigation(stack: Seq<ScreenView>, answer: ScreenResultView) -> Navigation {
    match answer {
        ScreenResultView::Stay => Navigation::Stayed,
        ScreenResultView::Next(_, starts) => Navigation::Entered(starts),
        ScreenResultView::Back => if stack.len() > 1 {
            Navigation::Returned
        } else {
            Navigation::Exit
        },
        ScreenResultView::Exit => Navigation::Exit,
    }
}

/// The stack after the given answers were applied one after the other.
pub open spec fn stack_after_all(stack: Seq<ScreenView>, answers: Seq<ScreenResultView>) -> Seq<
    ScreenView,
>
    decreases answers.len(),
{
    if answers.len() == 0 {
        stack
    } else {
        stack_after_all(stack_after(stack, answers[0]), answers.drop_first())
    }
}

/// Whatever answers are applied to a stack that holds a screen, in
/// whatever order, the stack holds a screen afterwards: it never
/// underflows, and its last screen is the one active screen.
pub proof fn lemma_stack_never_empty(stack: Seq<ScreenView>, answers: Seq<ScreenResultView>)
    requires
        stack.len() >= 1,
    ensures
        stack_after_all(stack, answers).len() >= 1,
    decreases answers.len(),
{
    if answers.len() > 0 {
        lemma_stack_never_empty(stack_after(stack, answers[0]), answers.drop_first());
    }
}

/// The screens entered and not left, in the order in which they were
/// entered. The last one is the active one; there always is one.
#[derive(Debug)]
pub struct ScreenStack {
    below: Vec<Screen>,
    active: Screen,
}

impl View for ScreenStack {
    type V = Seq<ScreenView>;

    closed spec fn view(&self) -> Seq<ScreenView> {
        screens_view(self.below@).push(self.active@)
    }
}

impl ScreenStack {
    /// Returns the stack that holds `first`, made active, and nothing else.
    pub fn new(first: Screen, state: &mut InstallState) -> (stack: ScreenStack)
        ensures
            stack@ == seq![first@.mounted()],
            final(state)@ == old(state)@,
    {
        let mut first = first;
        let _ = first.on_mount(state);
        let stack = ScreenStack { below: Vec::new(), active: first };
        stack
    }

    /// The number of screens below the active one.
    pub fn depth(&self) -> (n: usize)
        ensures
            n == self@.len() - 1,
    {
        self.below.len()
    }

    /// The active screen.
    pub fn active(&self) -> (screen: &Screen)
        ensures
            self@.len() >= 1,
            screen@ == self@.last(),
    {
        &self.active
    }

    /// Hands a key to the active screen.
    pub fn handle_key(&mut self, key: Key, state: &mut InstallState) -> (answer: Result<
        ScreenResult,
        InstallerError,
    >)
        ensures
            old(self)@.len() >= 1,
            (KeyOutcome {
                screen: final(self)@.last(),
                state: final(state)@,
                answer: answer_view(answer),
            }) == old(self)@.last().on_key(key, old(state)@),
            final(self)@ == old(self)@.update(old(self)@.len() - 1, final(self)@.last()),
    {
        let answer = self.active.handle_key(key, state);
        answer
    }

    /// Shows a progress report on the active screen, where it is the
    /// installation screen.
    pub fn update_progress(&mut self, percentage: u16, message: String)
        ensures
            old(self)@.len() >= 1,
            final(self)@ == old(self)@.update(
                old(self)@.len() - 1,
                old(self)@.last().with_progress(percentage, message@),
            ),
    {
        self.active.update_progress(percentage, message);
    }

    /// Shows on the active screen that the installation ended well, where
    /// it is the installation screen.
    pub fn set_complete(&mut self)
        ensures
            old(self)@.len() >= 1,
            final(self)@ == old(self)@.update(old(self)@.len() - 1, old(self)@.last().completed()),
    {
        self.active.set_complete();
    }

    /// Shows on the active screen that the installation failed, where it
    /// is the installation screen.
    pub fn set_error(&mut self, error: &str)
        ensures
            old(self)@.len() >= 1,
            final(self)@ == old(self)@.update(
                old(self)@.len() - 1,
                old(self)@.last().failed(error@),
            ),
    {
        self.active.set_error(error);
    }

    /// Applies a screen's answer to the stack, and says where the wizard
    /// stands.
    pub fn apply(&mut self, answer: ScreenResult, state: &mut InstallState) -> (to: Navigation)
        ensures
            final(self)@ == stack_after(old(self)@, answer@),
            to == navigation(old(self)@, answer@),
            final(self)@.len() >= 1,
            final(state)@ == old(state)@,
    {
        match answer {
            ScreenResult::Stay => Navigation::Stayed,
            ScreenResult::Next(screen, starts) => {
                let mut screen = screen;
                let _ = screen.on_mount(state);
                std::mem::swap(&mut screen, &mut self.active);
                self.below.push(screen);
                Navigation::Entered(starts)
            },
            ScreenResult::Back => {
                match self.below.pop() {
                    Some(screen) => {
                        self.active = screen;
                        Navigation::Returned
                    },
                    None => Navigation::Exit,
                }
            },
            ScreenResult::Exit => Navigation::Exit,
        }
    }
}

} // verus!

//! The screen on which the webserver is chosen.

use vstd::prelude::*;
use vstd::string::*;
use crate::error::InstallerError;
use crate::screens::protocol::{ProtocolScreen, ProtocolScreenView};
use crate::screens::{
    answer_view,
    back_footer,
    digit_key,
    one_line_text,
    Key,
    KeyOutcome,
    Screen,
    ScreenResult,
    ScreenText,
    ScreenTextView,
    ScreenView,
};
use crate::ui::components::{SelectMenu, SelectMenuView};
use crate::utils::state::{InstallState, InstallStateView, WebserverType};
use crate::utils::text::digit_of;

verus! {

/// The mathematical content of a [`WebserverScreen`].
pub struct WebserverScreenView {
    pub menu: SelectMenuView,
}

/// The items of the webserver menu.
pub open spec fn webserver_items() -> Seq<Seq<char>> {
    seq!["1) Nginx (recommended)"@, "2) Apache"@, "3) Caddy"@]
}

/// The webserver that the item at `index` stands for.
pub open spec fn webserver_at(index: nat) -> Option<WebserverType> {
    if index == 0 {
        Some(WebserverType::Nginx)
    } else if index == 1 {
        Some(WebserverType::Apache)
    } else if index == 2 {
        Some(WebserverType::Caddy)
    } else {
        None
    }
}

impl WebserverScreenView {
    /// The screen as it is entered: the first item is selected.
    pub open spec fn initial() -> WebserverScreenView {
        WebserverScreenView { menu: SelectMenuView { items: webserver_items(), selected: 0 } }
    }

    /// The texts of the screen: what is chosen here, and the keys.
    pub open spec fn text(self) -> ScreenTextView {
        ScreenTextView {
            title: "Webserver Configuration"@,
            lines: seq!["Select your preferred webserver:"@],
            hint: "Use \u{2191}\u{2193}, 1-3, Enter to select"@,
            footer: back_footer(),
        }
    }

    /// The screen with another menu.
    pub open spec fn with_menu(self, menu: SelectMenuView) -> WebserverScreenView {
        WebserverScreenView { menu }
    }

    /// The install state with the selected webserver chosen.
    pub open spec fn chosen(self, state: InstallStateView) -> InstallStateView {
        match webserver_at(self.menu.selected) {
            Some(webserver) => InstallStateView { webserver, ..state },
            None => state,
        }
    }

    /// What a key does on this screen. Up and `k`, down and `j` move the
    /// selection, a digit from one to three selects that item, enter
    /// chooses the selected webserver and goes on to the protocol, `b` goes
    /// back, `c` leaves the wizard.
    pub open spec fn on_key(self, key: Key, state: InstallStateView) -> KeyOutcome<
        WebserverScreenView,
    > {
        match key {
            Key::Up => KeyOutcome::stay(self.with_menu(self.menu.previous()), state),
            Key::Down => KeyOutcome::stay(self.with_menu(self.menu.next()), state),
            Key::Enter => KeyOutcome::next(
                self,
                self.chosen(state),
                ScreenView::Protocol(ProtocolScreenView::initial()),
                false,
            ),
            Key::Char(c) => if c == 'k' {
                KeyOutcome::stay(self.with_menu(self.menu.previous()), state)
            } else if c == 'j' {
                KeyOutcome::stay(self.with_menu(self.menu.next()), state)
            } else if c == 'b' {
                KeyOutcome::back(self, state)
            } else if c == 'c' {
                KeyOutcome::exit(self, state)
            } else {
                match digit_key(c) {
                    Some(d) => if 0 < d && d <= 3 {
                        KeyOutcome::stay(self.with_menu(self.menu.select((d - 1) as nat)), state)
                    } else {
                        KeyOutcome::stay(self, state)
                    },
                    None => KeyOutcome::stay(self, state),
                }
            },
            _ => KeyOutcome::stay(self, state),
        }
    }
}

/// The screen on which the webserver is chosen.
#[derive(Debug)]
pub struct WebserverScreen {
    menu: SelectMenu,
}

impl View for WebserverScreen {
    type V = WebserverScreenView;

    closed spec fn view(&self) -> WebserverScreenView {
        WebserverScreenView { menu: self.menu@ }
    }
}

impl WebserverScreen {
    /// Returns the screen as it is entered.
    pub fn new() -> (screen: WebserverScreen)
        ensures
            screen@ == WebserverScreenView::initial(),
    {
        let mut items: Vec<String> = Vec::new();
        items.push(String::from_str("1) Nginx (recommended)"));
        items.push(String::from_str("2) Apache"));
        items.push(String::from_str("3) Caddy"));
        let menu = SelectMenu::new(items);
        assert(menu@.items =~= webserver_items());
        WebserverScreen { menu }
    }

    /// The menu of the screen.
    pub fn menu(&self) -> (menu: &SelectMenu)
        ensures
            menu@ == self@.menu,
    {
        &self.menu
    }

    /// Returns the texts of the screen as they are drawn.
    pub fn render(&self, state: &InstallState) -> (text: ScreenText)
        ensures
            text@ == self@.text(),
    {
        one_line_text(
            "Webserver Configuration",
            String::from_str("Select your preferred webserver:"),
            "Use \u{2191}\u{2193}, 1-3, Enter to select",
            "Back: b | Close: c",
        )
    }

    /// Called once when the screen becomes the active one.
    pub fn on_mount(&mut self, state: &mut InstallState) -> (result: Result<(), InstallerError>)
        ensures
            result is Ok,
            final(self)@ == old(self)@,
            final(state)@ == old(state)@,
    {
        Ok(())
    }

    /// Takes a key.
    pub fn handle_key(&mut self, key: Key, state: &mut InstallState) -> (answer: Result<
        ScreenResult,
        InstallerError,
    >)
        ensures
            (KeyOutcome {
                screen: final(self)@,
                state: final(state)@,
                answer: answer_view(answer),
            }) == old(self)@.on_key(key, old(state)@),
            answer is Ok,
    {
        match key {
            Key::Up => self.menu.previous(),
            Key::Down => self.menu.next(),
            Key::Enter => {
                let index = self.menu.selected_index();
                if index == 0 {
                    state.webserver = WebserverType::Nginx;
                } else if index == 1 {
                    state.webserver = WebserverType::Apache;
                } else if index == 2 {
                    state.webserver = WebserverType::Caddy;
                }
                return Ok(ScreenResult::Next(Screen::Protocol(ProtocolScreen::new()), false));
            },
            Key::Char(c) => {
                if c == 'k' {
                    self.menu.previous();
                } else if c == 'j' {
                    self.menu.next();
                } else if c == 'b' {
                    return Ok(ScreenResult::Back);
                } else if c == 'c' {
                    return Ok(ScreenResult::Exit);
                } else {
                    match digit_of(c) {
                        Some(d) => {
                            if 0 < d && d <= 3 {
                                self.menu.select_by_index((d - 1) as usize);
                            }
                        },
                        None => {},
                    }
                }
            },
            _ => {},
        }
        Ok(ScreenResult::Stay)
    }
}

} // verus!

//! The screen on which the protocol is chosen.

use vstd::prelude::*;
use vstd::string::*;
use crate::error::InstallerError;
use crate::screens::domain::{DomainScreen, DomainScreenView};
use crate::screens::{
    answer_view,
    back_footer,
    digit_key,
    one_line_text,
    Key,
    KeyOutcome,
    Screen,
    ScreenResult,
    ScreenText,
    ScreenTextView,
    ScreenView,
};
use crate::ui::components::{SelectMenu, SelectMenuView};
use crate::utils::state::{InstallState, InstallStateView, ProtocolType};
use crate::utils::text::digit_of;

verus! {

/// The mathematical content of a [`ProtocolScreen`].
pub struct ProtocolScreenView {
    pub menu: SelectMenuView,
}

/// The items of the protocol menu.
pub open spec fn protocol_items() -> Seq<Seq<char>> {
    seq!["1) HTTPS (SSL/TLS) [RECOMMENDED]"@, "2) HTTP (development only)"@]
}

/// The protocol that the item at `index` stands for.
pub open spec fn protocol_at(index: nat) -> Option<ProtocolType> {
    if index == 0 {
        Some(ProtocolType::Https)
    } else if index == 1 {
        Some(ProtocolType::Http)
    } else {
        None
    }
}

impl ProtocolScreenView {
    /// The screen as it is entered: the first item is selected.
    pub open spec fn initial() -> ProtocolScreenView {
        ProtocolScreenView { menu: SelectMenuView { items: protocol_items(), selected: 0 } }
    }

    /// The texts of the screen: what is chosen here, and the keys.
    pub open spec fn text(self) -> ScreenTextView {
        ScreenTextView {
            title: "Connection Protocol"@,
            lines: seq!["Select connection protocol:"@],
            hint: "Use \u{2191}\u{2193}, 1-2, Enter to select"@,
            footer: back_footer(),
        }
    }

    /// The screen with another menu.
    pub open spec fn with_menu(self, menu: SelectMenuView) -> ProtocolScreenView {
        ProtocolScreenView { menu }
    }

    /// The install state with the selected protocol chosen; certificates
    /// are used with HTTPS and not with HTTP.
    pub open spec fn chosen(self, state: InstallStateView) -> InstallStateView {
        match protocol_at(self.menu.selected) {
            Some(protocol) => InstallStateView {
                protocol,
                use_ssl: protocol == ProtocolType::Https,
                ..state
            },
            None => state,
        }
    }

    /// What a key does on this screen. Up and `k`, down and `j` move the
    /// selection, the digits one and two select that item, enter chooses
    /// the selected protocol and goes on to the domain, `b` goes back, `c`
    /// leaves the wizard.
    pub open spec fn on_key(self, key: Key, state: InstallStateView) -> KeyOutcome<
        ProtocolScreenView,
    > {
        match key {
            Key::Up => KeyOutcome::stay(self.with_menu(self.menu.previous()), state),
            Key::Down => KeyOutcome::stay(self.with_menu(self.menu.next()), state),
            Key::Enter => KeyOutcome::next(
                self,
                self.chosen(state),
                ScreenView::Domain(DomainScreenView::initial()),
                false,
            ),
            Key::Char(c) => if c == 'k' {
                KeyOutcome::stay(self.with_menu(self.menu.previous()), state)
            } else if c == 'j' {
                KeyOutcome::stay(self.with_menu(self.menu.next()), state)
            } else if c == 'b' {
                KeyOutcome::back(self, state)
            } else if c == 'c' {
                KeyOutcome::exit(self, state)
            } else {
                match digit_key(c) {
                    Some(d) => if 0 < d && d <= 2 {
                        KeyOutcome::stay(self.with_menu(self.menu.select((d - 1) as nat)), state)
                    } else {
                        KeyOutcome::stay(self, state)
                    },
                    None => KeyOutcome::stay(self, state),
                }
            },
            _ => KeyOutcome::stay(self, state),
        }
    }
}

/// The screen on which the protocol is chosen.
#[derive(Debug)]
pub struct ProtocolScreen {
    menu: SelectMenu,
}

impl View for ProtocolScreen {
    type V = ProtocolScreenView;

    closed spec fn view(&self) -> ProtocolScreenView {
        ProtocolScreenView { menu: self.menu@ }
    }
}

impl ProtocolScreen {
    /// Returns the screen as it is entered.
    pub fn new() -> (screen: ProtocolScreen)
        ensures
            screen@ == ProtocolScreenView::initial(),
    {
        let mut items: Vec<String> = Vec::new();
        items.push(String::from_str("1) HTTPS (SSL/TLS) [RECOMMENDED]"));
        items.push(String::from_str("2) HTTP (development only)"));
        let menu = SelectMenu::new(items);
        assert(menu@.items =~= protocol_items());
        ProtocolScreen { menu }
    }

    /// The menu of the screen.
    pub fn menu(&self) -> (menu: &SelectMenu)
        ensures
            menu@ == self@.menu,
    {
        &self.menu
    }

    /// Returns the texts of the screen as they are drawn.
    pub fn render(&self, state: &InstallState) -> (text: ScreenText)
        ensures
            text@ == self@.text(),
    {
        one_line_text(
            "Connection Protocol",
            String::from_str("Select connection protocol:"),
            "Use \u{2191}\u{2193}, 1-2, Enter to select",
            "Back: b | Close: c",
        )
    }

    /// Called once when the screen becomes the active one.
    pub fn on_mount(&mut self, state: &mut InstallState) -> (result: Result<(), InstallerError>)
        ensures
            result is Ok,
            final(self)@ == old(self)@,
            final(state)@ == old(state)@,
    {
        Ok(())
    }

    /// Takes a key.
    pub fn handle_key(&mut self, key: Key, state: &mut InstallState) -> (answer: Result<
        ScreenResult,
        InstallerError,
    >)
        ensures
            (KeyOutcome {
                screen: final(self)@,
                state: final(state)@,
                answer: answer_view(answer),
            }) == old(self)@.on_key(key, old(state)@),
            answer is Ok,
    {
        match key {
            Key::Up => self.menu.previous(),
            Key::Down => self.menu.next(),
            Key::Enter => {
                let index = self.menu.selected_index();
                if index == 0 {
                    state.protocol = ProtocolType::Https;
                    state.use_ssl = true;
                } else if index == 1 {
                    state.protocol = ProtocolType::Http;
                    state.use_ssl = false;
                }
                return Ok(ScreenResult::Next(Screen::Domain(DomainScreen::new()), false));
            },
            Key::Char(c) => {
                if c == 'k' {
                    self.menu.previous();
                } else if c == 'j' {
                    self.menu.next();
                } else if c == 'b' {
                    return Ok(ScreenResult::Back);
                } else if c == 'c' {
                    return Ok(ScreenResult::Exit);
                } else {
                    match digit_of(c) {
                        Some(d) => {
                            if 0 < d && d <= 2 {
                                self.menu.select_by_index((d - 1) as usize);
                            }
                        },
                        None => {},
                    }
                }
            },
            _ => {},
        }
        Ok(ScreenResult::Stay)
    }
}

} // verus!

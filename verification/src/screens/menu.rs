//! The first screen: what to install.

use vstd::prelude::*;
use vstd::string::*;
use crate::error::{InstallerError, InstallerErrorView};
use crate::screens::install::{InstallScreen, InstallScreenView};
use crate::screens::webserver::{WebserverScreen, WebserverScreenView};
use crate::screens::{
    answer_view,
    digit_key,
    one_line_text,
    Key,
    KeyOutcome,
    Screen,
    ScreenResult,
    ScreenText,
    ScreenTextView,
    ScreenView,
};
use crate::ui::components::{SelectMenu, SelectMenuView};
use crate::utils::state::{ComponentType, InstallState, InstallStateView};
use crate::utils::text::{decimal_digits, digit_of, push_decimal};

verus! {

/// What an item of the menu does.
#[derive(Debug, Clone, Copy, PartialEq, Eq, Structural)]
pub enum MenuEntry {
    InstallPanel,
    UpdatePanel,
    UninstallPanel,
    InstallWings,
    UpdateWings,
    UninstallWings,
}

impl MenuEntry {
    /// The words of the item, behind its number.
    pub open spec fn label(self) -> Seq<char> {
        match self {
            MenuEntry::InstallPanel => "Install Panel"@,
            MenuEntry::UpdatePanel => "Update/Reinstall Panel"@,
            MenuEntry::UninstallPanel => "Uninstall Panel"@,
            MenuEntry::InstallWings => "Install Wings"@,
            MenuEntry::UpdateWings => "Update/Reinstall Wings"@,
            MenuEntry::UninstallWings => "Uninstall Wings"@,
        }
    }

    /// The component that the item installs; an item that removes one
    /// installs none.
    pub open spec fn installs(self) -> Option<ComponentType> {
        match self {
            MenuEntry::InstallPanel | MenuEntry::UpdatePanel => Some(ComponentType::Panel),
            MenuEntry::InstallWings | MenuEntry::UpdateWings => Some(ComponentType::Wings),
            MenuEntry::UninstallPanel | MenuEntry::UninstallWings => None,
        }
    }

    /// Returns the words of the item.
    pub fn text(&self) -> (s: &'static str)
        ensures
            s@ == self.label(),
    {
        match self {
            MenuEntry::InstallPanel => "Install Panel",
            MenuEntry::UpdatePanel => "Update/Reinstall Panel",
            MenuEntry::UninstallPanel => "Uninstall Panel",
            MenuEntry::InstallWings => "Install Wings",
            MenuEntry::UpdateWings => "Update/Reinstall Wings",
            MenuEntry::UninstallWings => "Uninstall Wings",
        }
    }
}

/// The entries of the menu: for a component that is not installed, the
/// entry that installs it; for one that is, the entries that update and
/// remove it. The panel comes before wings.
pub open spec fn menu_entries(panel_installed: bool, wings_installed: bool) -> Seq<MenuEntry> {
    let panel = if panel_installed {
        seq![MenuEntry::UpdatePanel, MenuEntry::UninstallPanel]
    } else {
        seq![MenuEntry::InstallPanel]
    };
    let wings = if wings_installed {
        seq![MenuEntry::UpdateWings, MenuEntry::UninstallWings]
    } else {
        seq![MenuEntry::InstallWings]
    };
    panel + wings
}

/// The text of the item at `index`: its number, counted from one, a
/// bracket, and the words of its entry.
pub open spec fn item_text(index: nat, entry: MenuEntry) -> Seq<char> {
    decimal_digits(index + 1) + ") "@ + entry.label()
}

/// The texts of the items for the given entries.
pub open spec fn menu_items(entries: Seq<MenuEntry>) -> Seq<Seq<char>> {
    Seq::new(entries.len(), |i: int| item_text(i as nat, entries[i]))
}

/// The error of a menu in which nothing is selected.
pub open spec fn nothing_selected() -> InstallerErrorView {
    InstallerErrorView::InvalidInput("No item selected"@)
}

/// The line that names the system.
pub open spec fn system_line(state: InstallStateView) -> Seq<char> {
    "OS: "@ + state.os_name + " "@ + state.os_version
}

/// The mathematical content of a [`MenuScreen`].
pub struct MenuScreenView {
    pub menu: SelectMenuView,
    pub entries: Seq<MenuEntry>,
}

impl MenuScreenView {
    /// The menu for a system on which the components are installed or not,
    /// as given; the first item is selected.
    pub open spec fn initial(panel_installed: bool, wings_installed: bool) -> MenuScreenView {
        let entries = menu_entries(panel_installed, wings_installed);
        MenuScreenView { menu: SelectMenuView { items: menu_items(entries), selected: 0 }, entries }
    }

    /// The texts of the screen: the name of the installer, the system, and
    /// the keys.
    pub open spec fn text(self, state: InstallStateView) -> ScreenTextView {
        ScreenTextView {
            title: "Pelican Panel Installer"@,
            lines: seq![system_line(state)],
            hint: "Use \u{2191}\u{2193}, 1-9, Enter to select | Close: c"@,
            footer: "Press c to close"@,
        }
    }

    /// The screen with another menu.
    pub open spec fn with_menu(self, menu: SelectMenuView) -> MenuScreenView {
        MenuScreenView { menu, ..self }
    }

    /// What enter does: the selected entry decides. One that installs the
    /// panel chooses it and goes on to the webserver; one that installs
    /// wings chooses it and goes on to the installation, which it starts;
    /// one that removes a component does nothing. With nothing selected
    /// the answer is an error.
    pub open spec fn on_enter(self, state: InstallStateView) -> KeyOutcome<MenuScreenView> {
        if self.menu.selected < self.entries.len() {
            match self.entries[self.menu.selected as int].installs() {
                Some(ComponentType::Panel) => KeyOutcome::next(
                    self,
                    InstallStateView { component: Some(ComponentType::Panel), ..state },
                    ScreenView::Webserver(WebserverScreenView::initial()),
                    false,
                ),
                Some(ComponentType::Wings) => KeyOutcome::next(
                    self,
                    InstallStateView { component: Some(ComponentType::Wings), ..state },
                    ScreenView::Install(InstallScreenView::initial()),
                    true,
                ),
                None => KeyOutcome::stay(self, state),
            }
        } else {
            KeyOutcome { screen: self, state, answer: Err(nothing_selected()) }
        }
    }

    /// What a key does on this screen. Up and `k`, down and `j` move the
    /// selection; enter acts on the selected entry; `c` leaves the wizard;
    /// a digit other than zero selects the item of that number where the
    /// number is at most one more than that of the selected item. The
    /// screen never answers with a step back.
    pub open spec fn on_key(self, key: Key, state: InstallStateView) -> KeyOutcome<MenuScreenView> {
        match key {
            Key::Up => KeyOutcome::stay(self.with_menu(self.menu.previous()), state),
            Key::Down => KeyOutcome::stay(self.with_menu(self.menu.next()), state),
            Key::Enter => self.on_enter(state),
            Key::Char(c) => if c == 'k' {
                KeyOutcome::stay(self.with_menu(self.menu.previous()), state)
            } else if c == 'j' {
                KeyOutcome::stay(self.with_menu(self.menu.next()), state)
            } else if c == 'c' {
                KeyOutcome::exit(self, state)
            } else {
                match digit_key(c) {
                    Some(d) => if 0 < d && d <= self.menu.selected + 1 {
                        KeyOutcome::stay(self.with_menu(self.menu.select((d - 1) as nat)), state)
                    } else {
                        KeyOutcome::stay(self, state)
                    },
                    None => KeyOutcome::stay(self, state),
                }
            },
            _ => KeyOutcome::stay(self, state),
        }
    }
}

/// The first screen: what to install.
#[derive(Debug)]
pub struct MenuScreen {
    menu: SelectMenu,
    entries: Vec<MenuEntry>,
}

impl View for MenuScreen {
    type V = MenuScreenView;

    closed spec fn view(&self) -> MenuScreenView {
        MenuScreenView { menu: self.menu@, entries: self.entries@ }
    }
}

/// Returns the entries of the menu.
fn entries_for(panel_installed: bool, wings_installed: bool) -> (entries: Vec<MenuEntry>)
    ensures
        entries@ == menu_entries(panel_installed, wings_installed),
{
    let mut entries: Vec<MenuEntry> = Vec::new();
    if panel_installed {
        entries.push(MenuEntry::UpdatePanel);
        entries.push(MenuEntry::UninstallPanel);
    } else {
        entries.push(MenuEntry::InstallPanel);
    }
    if wings_installed {
        entries.push(MenuEntry::UpdateWings);
        entries.push(MenuEntry::UninstallWings);
    } else {
        entries.push(MenuEntry::InstallWings);
    }
    entries
}

impl MenuScreen {
    /// Returns the menu for a system on which the components are installed
    /// or not, as given.
    pub fn new(panel_installed: bool, wings_installed: bool) -> (screen: MenuScreen)
        ensures
            screen@ == MenuScreenView::initial(panel_installed, wings_installed),
    {
        let entries = entries_for(panel_installed, wings_installed);
        let mut items: Vec<String> = Vec::new();
        let mut i: usize = 0;
        while i < entries.len()
            invariant
                i <= entries.len() <= 4,
                entries@ == menu_entries(panel_installed, wings_installed),
                items@.len() == i,
                forall|j: int|
                    0 <= j < i ==> (#[trigger] items@[j])@ == item_text(j as nat, entries@[j]),
            decreases entries.len() - i,
        {
            let mut item = String::new();
            push_decimal(&mut item, (i + 1) as u64);
            item.append(") ");
            item.append(entries[i].text());
            items.push(item);
            i = i + 1;
        }
        let menu = SelectMenu::new(items);
        assert(menu@.items =~= menu_items(entries@));
        MenuScreen { menu, entries }
    }

    /// The menu of the screen.
    pub fn menu(&self) -> (menu: &SelectMenu)
        ensures
            menu@ == self@.menu,
    {
        &self.menu
    }

    /// The line that names the system.
    pub fn system_info(&self, state: &InstallState) -> (text: String)
        ensures
            text@ == system_line(state@),
    {
        let mut text = String::from_str("OS: ");
        text.append(state.os_name.as_str());
        text.append(" ");
        text.append(state.os_version.as_str());
        text
    }

    /// Returns the texts of the screen as they are drawn.
    pub fn render(&self, state: &InstallState) -> (text: ScreenText)
        ensures
            text@ == self@.text(state@),
    {
        one_line_text(
            "Pelican Panel Installer",
            self.system_info(state),
            "Use \u{2191}\u{2193}, 1-9, Enter to select | Close: c",
            "Press c to close",
        )
    }

    /// Called once when the screen becomes the active one.
    pub fn on_mount(&mut self, state: &mut InstallState) -> (result: Result<(), InstallerError>)
        ensures
            result is Ok,
            final(self)@ == old(self)@,
            final(state)@ == old(state)@,
    {
        Ok(())
    }

    /// Takes a key.
    pub fn handle_key(&mut self, key: Key, state: &mut InstallState) -> (answer: Result<
        ScreenResult,
        InstallerError,
    >)
        ensures
            (KeyOutcome {
                screen: final(self)@,
                state: final(state)@,
                answer: answer_view(answer),
            }) == old(self)@.on_key(key, old(state)@),
            !(answer_view(answer) == Ok::<crate::screens::ScreenResultView, InstallerErrorView>(
                crate::screens::ScreenResultView::Back,
            )),
    {
        match key {
            Key::Up => self.menu.previous(),
            Key::Down => self.menu.next(),
            Key::Enter => {
                let index = self.menu.selected_index();
                if index < self.entries.len() {
                    match self.entries[index] {
                        MenuEntry::InstallPanel | MenuEntry::UpdatePanel => {
                            state.component = Some(ComponentType::Panel);
                            return Ok(
                                ScreenResult::Next(Screen::Webserver(WebserverScreen::new()), false),
                            );
                        },
                        MenuEntry::InstallWings | MenuEntry::UpdateWings => {
                            state.component = Some(ComponentType::Wings);
                            return Ok(
                                ScreenResult::Next(Screen::Install(InstallScreen::new()), true),
                            );
                        },
                        MenuEntry::UninstallPanel | MenuEntry::UninstallWings => {},
                    }
                } else {
                    return Err(InstallerError::InvalidInput(String::from_str("No item selected")));
                }
            },
            Key::Char(c) => {
                if c == 'k' {
                    self.menu.previous();
                } else if c == 'j' {
                    self.menu.next();
                } else if c == 'c' {
                    return Ok(ScreenResult::Exit);
                } else {
                    match digit_of(c) {
                        Some(d) => {
                            let index = self.menu.selected_index();
                            if 0 < d && (d as usize) - 1 <= index {
                                self.menu.select_by_index((d - 1) as usize);
                            }
                        },
                        None => {},
                    }
                }
            },
            _ => {},
        }
        Ok(ScreenResult::Stay)
    }
}

} // verus!

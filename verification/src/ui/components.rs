//! A menu with one selected item, a one-line text input with a cursor, and
//! a progress bar.

use vstd::prelude::*;
use vstd::string::*;
use unicode_width::UnicodeWidthStr;
use crate::utils::text::{
    char_is_control,
    chars_of,
    is_control,
    string_of,
    string_of_range,
    strings_view,
};

verus! {

/// The mathematical content of a [`SelectMenu`]: its items and the index of
/// the selected one.
pub struct SelectMenuView {
    pub items: Seq<Seq<char>>,
    pub selected: nat,
}

impl SelectMenuView {
    /// The selection lies inside the menu; in an empty menu it is zero.
    pub open spec fn wf(self) -> bool {
        if self.items.len() == 0 {
            self.selected == 0
        } else {
            self.selected < self.items.len()
        }
    }

    /// The menu with the selection moved down by one item, from the last
    /// item to the first.
    pub open spec fn next(self) -> SelectMenuView {
        if self.items.len() > 0 {
            SelectMenuView { selected: (self.selected + 1) % self.items.len(), ..self }
        } else {
            self
        }
    }

    /// The menu with the selection moved up by one item; on the first item
    /// it stays.
    pub open spec fn previous(self) -> SelectMenuView {
        if self.selected > 0 {
            SelectMenuView { selected: (self.selected - 1) as nat, ..self }
        } else {
            self
        }
    }

    /// The menu with the item at `index` selected, where there is one.
    pub open spec fn select(self, index: nat) -> SelectMenuView {
        if index < self.items.len() {
            SelectMenuView { selected: index, ..self }
        } else {
            self
        }
    }

    /// The number of rows that an area of the given height shows: one for
    /// each item, as far as the height goes.
    pub open spec fn shown_rows(self, height: nat) -> nat {
        if self.items.len() <= height {
            self.items.len()
        } else {
            height
        }
    }

    /// The rows that an area of the given height shows.
    pub open spec fn rows(self, height: nat) -> Seq<MenuRowView> {
        Seq::new(
            self.shown_rows(height),
            |i: int| MenuRowView { text: self.items[i], selected: i == self.selected },
        )
    }

    /// The text of the selected item, where the menu has one.
    pub open spec fn selected_text(self) -> Option<Seq<char>> {
        if self.selected < self.items.len() {
            Some(self.items[self.selected as int])
        } else {
            None
        }
    }
}

/// One row of a menu as it is drawn: the text of an item, and whether the
/// item is the selected one.
#[derive(Debug, PartialEq, Eq)]
pub struct MenuRow {
    pub text: String,
    pub selected: bool,
}

/// The mathematical content of a [`MenuRow`].
pub struct MenuRowView {
    pub text: Seq<char>,
    pub selected: bool,
}

impl View for MenuRow {
    type V = MenuRowView;

    open spec fn view(&self) -> MenuRowView {
        MenuRowView { text: self.text@, selected: self.selected }
    }
}

/// The views of the rows of a vector, in order.
pub open spec fn rows_view(rows: Seq<MenuRow>) -> Seq<MenuRowView> {
    rows.map_values(|row: MenuRow| row@)
}

/// A list of items of which one is selected.
#[derive(Debug)]
pub struct SelectMenu {
    items: Vec<String>,
    selected: usize,
}

impl View for SelectMenu {
    type V = SelectMenuView;

    closed spec fn view(&self) -> SelectMenuView {
        SelectMenuView { items: strings_view(self.items@), selected: self.selected as nat }
    }
}

impl SelectMenu {
    #[verifier::type_invariant]
    spec fn inv(self) -> bool {
        self@.wf()
    }

    /// Returns a menu of the given items with the first one selected.
    pub fn new(items: Vec<String>) -> (menu: SelectMenu)
        ensures
            menu@ == (SelectMenuView { items: strings_view(items@), selected: 0 }),
            menu@.wf(),
    {
        SelectMenu { items, selected: 0 }
    }

    /// Moves the selection down by one item, from the last item to the
    /// first.
    pub fn next(&mut self)
        ensures
            final(self)@ == old(self)@.next(),
            final(self)@.wf(),
    {
        proof {
            use_type_invariant(&*self);
        }
        let n = self.items.len();
        if n > 0 {
            self.selected = (self.selected + 1) % n;
        }
    }

    /// Moves the selection up by one item; on the first item it stays.
    pub fn previous(&mut self)
        ensures
            final(self)@ == old(self)@.previous(),
            final(self)@.wf(),
    {
        proof {
            use_type_invariant(&*self);
        }
        if self.selected > 0 {
            self.selected = self.selected - 1;
        }
    }

    /// Selects the item at `index` and returns `true`, or returns `false`
    /// and leaves the selection where the menu has no such item.
    pub fn select_by_index(&mut self, index: usize) -> (selected: bool)
        ensures
            final(self)@ == old(self)@.select(index as nat),
            selected == (index < old(self)@.items.len()),
            final(self)@.wf(),
    {
        proof {
            use_type_invariant(&*self);
        }
        if index < self.items.len() {
            self.selected = index;
            true
        } else {
            false
        }
    }

    /// The index of the selected item.
    pub fn selected_index(&self) -> (index: usize)
        ensures
            index == self@.selected,
            self@.wf(),
    {
        proof {
            use_type_invariant(self);
        }
        self.selected
    }

    /// The text of the selected item, or `None` in an empty menu.
    pub fn selected_text(&self) -> (text: Option<&str>)
        ensures
            match text {
                Some(t) => self@.selected_text() == Some(t@),
                None => self@.selected_text() is None,
            },
            self@.wf(),
    {
        proof {
            use_type_invariant(self);
        }
        if self.selected < self.items.len() {
            Some(self.items[self.selected].as_str())
        } else {
            None
        }
    }

    /// Returns the rows that an area of the given height shows: one row
    /// for each item, from the first item on, as far as the height goes;
    /// the row of the selected item is marked.
    pub fn render(&self, height: u16) -> (rows: Vec<MenuRow>)
        ensures
            rows_view(rows@) == self@.rows(height as nat),
    {
        let n = self.items.len();
        let shown = if n <= height as usize {
            n
        } else {
            height as usize
        };
        let mut rows: Vec<MenuRow> = Vec::new();
        let mut i: usize = 0;
        while i < shown
            invariant
                i <= shown <= self.items.len(),
                shown == self@.shown_rows(height as nat),
                rows@.len() == i,
                forall|j: int|
                    0 <= j < i ==> (#[trigger] rows@[j])@ == (MenuRowView {
                        text: self@.items[j],
                        selected: j == self@.selected,
                    }),
            decreases shown - i,
        {
            rows.push(MenuRow { text: self.items[i].clone(), selected: i == self.selected });
            i = i + 1;
        }
        rows
    }

    /// The number of items.
    pub fn len(&self) -> (n: usize)
        ensures
            n == self@.items.len(),
    {
        self.items.len()
    }

    /// The items, in order.
    pub fn items(&self) -> (items: &Vec<String>)
        ensures
            strings_view(items@) == self@.items,
    {
        &self.items
    }
}

/// The number of terminal columns that a text takes when it is shown, as
/// the width tables of Unicode give it.
pub uninterp spec fn display_width(text: Seq<char>) -> nat;

/// `UnicodeWidthStr::width` of the crate `unicode-width`: the number of
/// columns that the string takes when it is shown. The number depends on the
/// characters of the string alone.
#[verifier::external_body]
fn str_width(text: &str) -> (width: usize)
    ensures
        width == display_width(text@),
{
    UnicodeWidthStr::width(text)
}

/// The number of bytes that a character takes in UTF-8.
pub open spec fn utf8_len(c: char) -> nat {
    if c <= '\u{7f}' {
        1
    } else if c <= '\u{7ff}' {
        2
    } else if c <= '\u{ffff}' {
        3
    } else {
        4
    }
}

/// Returns the number of bytes that a character takes in UTF-8.
pub fn char_utf8_len(c: char) -> (n: usize)
    ensures
        n == utf8_len(c),
{
    if c <= '\u{7f}' {
        1
    } else if c <= '\u{7ff}' {
        2
    } else if c <= '\u{ffff}' {
        3
    } else {
        4
    }
}

/// The lesser of two numbers.
pub open spec fn at_most(n: nat, limit: nat) -> nat {
    if n <= limit {
        n
    } else {
        limit
    }
}

/// The mathematical content of a [`TextInput`]: the text typed so far, the
/// text shown while nothing was typed, whether the input has the focus, and
/// the cursor, counted in characters from the start of the text.
pub struct TextInputView {
    pub value: Seq<char>,
    pub placeholder: Seq<char>,
    pub focused: bool,
    pub cursor: nat,
}

impl TextInputView {
    /// The cursor stands inside the text or at its end.
    pub open spec fn wf(self) -> bool {
        self.cursor <= self.value.len()
    }

    /// The empty input with the given placeholder.
    pub open spec fn initial(placeholder: Seq<char>) -> TextInputView {
        TextInputView { value: Seq::empty(), placeholder, focused: false, cursor: 0 }
    }

    /// The input holding `value`. The cursor stands as many characters from
    /// the start as the value is wide when shown, and at the end where the
    /// value has fewer characters than that.
    pub open spec fn with_value(self, value: Seq<char>) -> TextInputView {
        TextInputView { value, cursor: at_most(display_width(value), value.len()), ..self }
    }

    /// The input after `c` was typed. A control character changes nothing.
    /// Any other character is put in at the cursor, and the cursor moves on
    /// by the number of bytes that the character takes in UTF-8, at most to
    /// the end of the text.
    pub open spec fn typed(self, c: char) -> TextInputView {
        if is_control(c) {
            self
        } else {
            TextInputView {
                value: self.value.insert(self.cursor as int, c),
                cursor: at_most(self.cursor + utf8_len(c), self.value.len() + 1),
                ..self
            }
        }
    }

    /// The input after the character before the cursor was removed, where
    /// there is one.
    pub open spec fn backspace(self) -> TextInputView {
        if self.cursor > 0 {
            TextInputView {
                value: self.value.remove(self.cursor - 1),
                cursor: (self.cursor - 1) as nat,
                ..self
            }
        } else {
            self
        }
    }

    /// The input after the character at the cursor was removed, where there
    /// is one.
    pub open spec fn delete(self) -> TextInputView {
        if self.cursor < self.value.len() {
            TextInputView { value: self.value.remove(self.cursor as int), ..self }
        } else {
            self
        }
    }

    /// The input with the cursor one character to the left, where it is not
    /// at the start.
    pub open spec fn left(self) -> TextInputView {
        if self.cursor > 0 {
            TextInputView { cursor: (self.cursor - 1) as nat, ..self }
        } else {
            self
        }
    }

    /// The input with the cursor one character to the right, where it is
    /// not at the end.
    pub open spec fn right(self) -> TextInputView {
        if self.cursor < self.value.len() {
            TextInputView { cursor: self.cursor + 1, ..self }
        } else {
            self
        }
    }

    /// The input with the cursor at the start.
    pub open spec fn home(self) -> TextInputView {
        TextInputView { cursor: 0, ..self }
    }

    /// The input with the cursor at the end.
    pub open spec fn end(self) -> TextInputView {
        TextInputView { cursor: self.value.len(), ..self }
    }

    /// The text that the input shows: the value, or the placeholder while
    /// the value is empty.
    pub open spec fn shown(self) -> Seq<char> {
        if self.value.len() == 0 {
            self.placeholder
        } else {
            self.value
        }
    }

    /// The column at which the cursor is drawn: the width of the text
    /// before it.
    pub open spec fn cursor_column(self) -> nat {
        display_width(self.value.subrange(0, self.cursor as int))
    }

    /// The cursor is drawn: the input has the focus and holds some text.
    pub open spec fn cursor_visible(self) -> bool {
        self.focused && self.value.len() > 0
    }

    /// The input as it is drawn.
    pub open spec fn drawn(self) -> InputRenderView {
        InputRenderView {
            text: self.shown(),
            focused: self.focused,
            cursor: if self.cursor_visible() {
                Some(self.cursor_column())
            } else {
                None
            },
        }
    }
}

/// A text input as it is drawn: the text shown, whether it is drawn as
/// focused, and the column of the cursor where the cursor is drawn.
#[derive(Debug, PartialEq, Eq)]
pub struct InputRender {
    pub text: String,
    pub focused: bool,
    pub cursor: Option<usize>,
}

/// The mathematical content of an [`InputRender`].
pub struct InputRenderView {
    pub text: Seq<char>,
    pub focused: bool,
    pub cursor: Option<nat>,
}

impl View for InputRender {
    type V = InputRenderView;

    open spec fn view(&self) -> InputRenderView {
        InputRenderView {
            text: self.text@,
            focused: self.focused,
            cursor: match self.cursor {
                Some(column) => Some(column as nat),
                None => None,
            },
        }
    }
}

/// A one-line text input with a cursor.
#[derive(Debug)]
pub struct TextInput {
    value: String,
    placeholder: String,
    focused: bool,
    cursor_pos: usize,
}

impl View for TextInput {
    type V = TextInputView;

    closed spec fn view(&self) -> TextInputView {
        TextInputView {
            value: self.value@,
            placeholder: self.placeholder@,
            focused: self.focused,
            cursor: self.cursor_pos as nat,
        }
    }
}

impl TextInput {
    #[verifier::type_invariant]
    spec fn inv(self) -> bool {
        self@.wf()
    }

    /// Returns an empty input that shows `placeholder`.
    pub fn new(placeholder: &str) -> (input: TextInput)
        ensures
            input@ == TextInputView::initial(placeholder@),
            input@.wf(),
    {
        TextInput {
            value: String::new(),
            placeholder: placeholder.to_owned(),
            focused: false,
            cursor_pos: 0,
        }
    }

    /// The text typed so far.
    pub fn value(&self) -> (value: &str)
        ensures
            value@ == self@.value,
            self@.wf(),
    {
        proof {
            use_type_invariant(self);
        }
        self.value.as_str()
    }

    /// Replaces the text and puts the cursor behind it.
    pub fn set_value(&mut self, value: String)
        ensures
            final(self)@ == old(self)@.with_value(value@),
            final(self)@.wf(),
    {
        let width = str_width(value.as_str());
        let len = value.as_str().unicode_len();
        self.cursor_pos = 0;
        self.value = value;
        self.cursor_pos = if width <= len {
            width
        } else {
            len
        };
    }

    /// Gives the input the focus, or takes it away.
    pub fn set_focused(&mut self, focused: bool)
        ensures
            final(self)@ == (TextInputView { focused, ..old(self)@ }),
            final(self)@.wf(),
    {
        proof {
            use_type_invariant(&*self);
        }
        self.focused = focused;
    }

    /// Tells whether the input has the focus.
    pub fn is_focused(&self) -> (focused: bool)
        ensures
            focused == self@.focused,
    {
        self.focused
    }

    /// Takes a typed character.
    pub fn handle_char(&mut self, c: char)
        ensures
            final(self)@ == old(self)@.typed(c),
            final(self)@.wf(),
    {
        proof {
            use_type_invariant(&*self);
        }
        if !char_is_control(c) {
            let mut chars = chars_of(self.value.as_str());
            let step = char_utf8_len(c);
            let at = self.cursor_pos;
            chars.insert(at, c);
            let limit = chars.len();
            self.cursor_pos = 0;
            self.value = string_of(&chars);
            self.cursor_pos = if step <= limit - at {
                at + step
            } else {
                limit
            };
        }
    }

    /// Removes the character before the cursor, where there is one.
    pub fn backspace(&mut self)
        ensures
            final(self)@ == old(self)@.backspace(),
            final(self)@.wf(),
    {
        proof {
            use_type_invariant(&*self);
        }
        if self.cursor_pos > 0 {
            let mut chars = chars_of(self.value.as_str());
            let at = self.cursor_pos - 1;
            chars.remove(at);
            self.cursor_pos = at;
            self.value = string_of(&chars);
        }
    }

    /// Removes the character at the cursor, where there is one.
    pub fn delete(&mut self)
        ensures
            final(self)@ == old(self)@.delete(),
            final(self)@.wf(),
    {
        proof {
            use_type_invariant(&*self);
        }
        let mut chars = chars_of(self.value.as_str());
        if self.cursor_pos < chars.len() {
            chars.remove(self.cursor_pos);
            self.value = string_of(&chars);
        }
    }

    /// Moves the cursor one character to the left, where it is not at the
    /// start.
    pub fn move_left(&mut self)
        ensures
            final(self)@ == old(self)@.left(),
            final(self)@.wf(),
    {
        proof {
            use_type_invariant(&*self);
        }
        if self.cursor_pos > 0 {
            self.cursor_pos = self.cursor_pos - 1;
        }
    }

    /// Moves the cursor one character to the right, where it is not at the
    /// end.
    pub fn move_right(&mut self)
        ensures
            final(self)@ == old(self)@.right(),
            final(self)@.wf(),
    {
        proof {
            use_type_invariant(&*self);
        }
        let len = self.value.as_str().unicode_len();
        if self.cursor_pos < len {
            self.cursor_pos = self.cursor_pos + 1;
        }
    }

    /// Moves the cursor to the start.
    pub fn move_home(&mut self)
        ensures
            final(self)@ == old(self)@.home(),
            final(self)@.wf(),
    {
        self.cursor_pos = 0;
    }

    /// Moves the cursor to the end.
    pub fn move_end(&mut self)
        ensures
            final(self)@ == old(self)@.end(),
            final(self)@.wf(),
    {
        self.cursor_pos = self.value.as_str().unicode_len();
    }

    /// The text that the input shows: the value, or the placeholder while
    /// the value is empty.
    pub fn shown_text(&self) -> (text: &str)
        ensures
            text@ == self@.shown(),
    {
        if self.value.as_str().unicode_len() == 0 {
            self.placeholder.as_str()
        } else {
            self.value.as_str()
        }
    }

    /// Tells whether the cursor is drawn: the input has the focus and
    /// holds some text.
    pub fn cursor_visible(&self) -> (visible: bool)
        ensures
            visible == self@.cursor_visible(),
    {
        self.focused && self.value.as_str().unicode_len() > 0
    }

    /// Returns the input as it is drawn: the text shown, whether it is
    /// drawn as focused, and the column of the cursor where the cursor is
    /// drawn.
    pub fn render(&self) -> (drawn: InputRender)
        ensures
            drawn@ == self@.drawn(),
    {
        let cursor = if self.cursor_visible() {
            Some(self.cursor_column())
        } else {
            None
        };
        InputRender { text: self.shown_text().to_owned(), focused: self.focused, cursor }
    }

    /// The column at which the cursor is drawn: the width of the text
    /// before it.
    pub fn cursor_column(&self) -> (column: usize)
        ensures
            column == self@.cursor_column(),
    {
        proof {
            use_type_invariant(self);
        }
        let chars = chars_of(self.value.as_str());
        let before = string_of_range(&chars, 0, self.cursor_pos);
        str_width(before.as_str())
    }
}

/// The mathematical content of a [`ProgressWidget`].
pub struct ProgressWidgetView {
    pub percentage: u16,
    pub label: Seq<char>,
}

/// The highest percentage that a progress bar shows.
pub const FULL: u16 = 100;

/// A progress bar as it is drawn.
#[derive(Debug, PartialEq, Eq)]
pub struct GaugeRender {
    pub percent: u16,
    pub label: String,
}

/// A progress bar with a label.
#[derive(Debug)]
pub struct ProgressWidget {
    percentage: u16,
    label: String,
}

impl View for ProgressWidget {
    type V = ProgressWidgetView;

    closed spec fn view(&self) -> ProgressWidgetView {
        ProgressWidgetView { percentage: self.percentage, label: self.label@ }
    }
}

impl ProgressWidget {
    #[verifier::type_invariant]
    spec fn inv(self) -> bool {
        self.percentage <= FULL
    }

    /// Returns an empty progress bar with the given label.
    pub fn new(label: &str) -> (widget: ProgressWidget)
        ensures
            widget@ == (ProgressWidgetView { percentage: 0, label: label@ }),
    {
        ProgressWidget { percentage: 0, label: label.to_owned() }
    }

    /// Fills the bar to `percentage`, at most to [`FULL`].
    pub fn set_progress(&mut self, percentage: u16)
        ensures
            final(self)@.percentage == if percentage <= FULL {
                percentage
            } else {
                FULL
            },
            final(self)@.label == old(self)@.label,
    {
        self.percentage = if percentage <= FULL {
            percentage
        } else {
            FULL
        };
    }

    /// Replaces the label.
    pub fn set_label(&mut self, label: String)
        ensures
            final(self)@ == (ProgressWidgetView { label: label@, ..old(self)@ }),
    {
        proof {
            use_type_invariant(&*self);
        }
        self.label = label;
    }

    /// Returns the bar as it is drawn: the percentage to which it is
    /// filled, never more than [`FULL`], and the label.
    pub fn render(&self) -> (drawn: GaugeRender)
        ensures
            drawn.percent == self@.percentage,
            drawn.label@ == self@.label,
            drawn.percent <= FULL,
    {
        proof {
            use_type_invariant(self);
        }
        GaugeRender { percent: self.percentage, label: self.label.clone() }
    }

    /// The percentage to which the bar is filled; never more than [`FULL`].
    pub fn percentage(&self) -> (percentage: u16)
        ensures
            percentage == self@.percentage,
            percentage <= FULL,
    {
        proof {
            use_type_invariant(self);
        }
        self.percentage
    }

    /// The label.
    pub fn label(&self) -> (label: &str)
        ensures
            label@ == self@.label,
    {
        self.label.as_str()
    }
}

} // verus!

use vstd::prelude::*;
use vstd::string::*;

use crate::filter::{filter_choices, filtered, lemma_filter_empty, lemma_filter_subsequence};
use crate::text::string_of;
use crate::words::{catalog, languages, order_word_lists, word_list_order, word_views};

verus! {

/// A key press, as far as the selector tells keys apart.
#[derive(Clone, Copy, Debug, PartialEq, Eq, Structural)]
pub enum Key {
    Char(char),
    Backspace,
    Enter,
    Esc,
    Left,
    Right,
    Up,
    Down,
    Other,
}

/// What the selector asks of its owner after a key press.
#[derive(Clone, Debug, PartialEq)]
pub enum PopupAction {
    Nothing,
    Close,
    SelectWordList(String),
    SelectColorScheme(usize),
    SelectCursorStyle(usize),
}

/// The three sections of the selector, in their cyclic order.
#[derive(Clone, Copy, Debug, PartialEq, Eq, Structural)]
pub enum Section {
    WordList,
    ColorScheme,
    CursorStyle,
}

pub open spec fn next_section(s: Section) -> Section {
    match s {
        Section::WordList => Section::ColorScheme,
        Section::ColorScheme => Section::CursorStyle,
        Section::CursorStyle => Section::WordList,
    }
}

pub open spec fn prev_section(s: Section) -> Section {
    match s {
        Section::WordList => Section::CursorStyle,
        Section::ColorScheme => Section::WordList,
        Section::CursorStyle => Section::ColorScheme,
    }
}

/// Rows of the word-list section shown at once.
pub const VISIBLE_ROWS: usize = 5;

/// The color themes offered, in their canonical order.
pub open spec fn theme_names() -> Seq<Seq<char>> {
    seq!["gruvbox"@, "dracula"@, "nord"@, "solarized"@]
}

/// The cursor styles offered, in their canonical order.
pub open spec fn cursor_names() -> Seq<Seq<char>> {
    seq!["underline"@, "block"@, "default"@]
}

/// `i` is the first position of `items` whose text is `x`.
pub open spec fn is_first_index(items: Seq<String>, x: Seq<char>, i: int) -> bool {
    &&& 0 <= i < items.len()
    &&& items[i]@ == x
    &&& forall|k: int| 0 <= k < i ==> items[k]@ != x
}

/// The first position of `items` holding the text of `x`.
fn position_of(items: &Vec<String>, x: &String) -> (r: usize)
    requires
        items@.contains(*x),
    ensures
        is_first_index(items@, x@, r as int),
{
    let mut i: usize = 0;
    while i < items.len()
        invariant
            i <= items@.len(),
            items@.contains(*x),
            forall|k: int| 0 <= k < i ==> items@[k]@ != x@,
        decreases items@.len() - i,
    {
        if items[i] == *x {
            return i;
        }
        i = i + 1;
    }
    proof {
        let j = choose|j: int| 0 <= j < items@.len() && items@[j] == *x;
        assert(items@[j]@ == x@);
    }
    0
}

/// The settings selector: three sections of choices, a shared filter on the
/// active one, and a selection per section into what the filter shows.
pub struct PopupManager {
    is_open: bool,
    current_section: Section,
    word_list_selected: usize,
    word_list_visible_start: usize,
    color_scheme_selected: usize,
    cursor_style_selected: usize,
    word_lists: Vec<String>,
    color_schemes: Vec<String>,
    cursor_styles: Vec<String>,
    filter: Vec<char>,
}

impl PopupManager {
    pub closed spec fn open_view(&self) -> bool {
        self.is_open
    }

    pub closed spec fn section_view(&self) -> Section {
        self.current_section
    }

    pub closed spec fn filter_view(&self) -> Seq<char> {
        self.filter@
    }

    /// The first row of the word-list section on screen.
    pub closed spec fn window_view(&self) -> usize {
        self.word_list_visible_start
    }

    pub closed spec fn selected_view(&self, s: Section) -> usize {
        match s {
            Section::WordList => self.word_list_selected,
            Section::ColorScheme => self.color_scheme_selected,
            Section::CursorStyle => self.cursor_style_selected,
        }
    }

    /// The master list of choices of section `s`.
    pub closed spec fn choices_view(&self, s: Section) -> Seq<String> {
        match s {
            Section::WordList => self.word_lists@,
            Section::ColorScheme => self.color_schemes@,
            Section::CursorStyle => self.cursor_styles@,
        }
    }

    /// What section `s` shows: its choices, narrowed by the filter when it is
    /// the active section.
    pub open spec fn shown(&self, s: Section) -> Seq<String> {
        if s == self.section_view() {
            filtered(self.choices_view(s), self.filter_view())
        } else {
            self.choices_view(s)
        }
    }

    pub open spec fn selection_in_range(&self, s: Section) -> bool {
        self.selected_view(s) < self.shown(s).len() || self.selected_view(s) == 0
    }

    pub open spec fn wf(&self) -> bool {
        &&& self.selection_in_range(Section::WordList)
        &&& self.selection_in_range(Section::ColorScheme)
        &&& self.selection_in_range(Section::CursorStyle)
        &&& self.window_view() <= self.selected_view(Section::WordList) < self.window_view()
            + VISIBLE_ROWS
        &&& word_views(self.choices_view(Section::ColorScheme)) == theme_names()
        &&& word_views(self.choices_view(Section::CursorStyle)) == cursor_names()
    }

    pub open spec fn same_choices(&self, o: &PopupManager) -> bool {
        &&& self.choices_view(Section::WordList) == o.choices_view(Section::WordList)
        &&& self.choices_view(Section::ColorScheme) == o.choices_view(Section::ColorScheme)
        &&& self.choices_view(Section::CursorStyle) == o.choices_view(Section::CursorStyle)
    }

    pub open spec fn same_selection(&self, o: &PopupManager) -> bool {
        &&& self.selected_view(Section::WordList) == o.selected_view(Section::WordList)
        &&& self.selected_view(Section::ColorScheme) == o.selected_view(Section::ColorScheme)
        &&& self.selected_view(Section::CursorStyle) == o.selected_view(Section::CursorStyle)
        &&& self.window_view() == o.window_view()
    }

    /// The selection of the active section moved to `sel`, the others kept;
    /// for the word-list section, the window is moved to `window`.
    pub open spec fn moved_to(&self, o: &PopupManager, sel: int, window: int) -> bool {
        let cur = o.section_view();
        &&& self.selected_view(cur) == sel
        &&& forall|s: Section| s != cur ==> self.selected_view(s) == o.selected_view(s)
        &&& self.window_view() == if cur == Section::WordList {
            window
        } else {
            o.window_view() as int
        }
    }

    /// `self` is `o` after moving the active selection one row up, stopping at
    /// the top, with the word-list window following it.
    pub open spec fn moved_up(&self, o: &PopupManager) -> bool {
        let sel = o.selected_view(o.section_view());
        let to = if sel > 0 { sel - 1 } else { sel as int };
        self.moved_to(o, to, if to < o.window_view() { to } else { o.window_view() as int })
    }

    /// `self` is `o` after moving the active selection one row down, stopping
    /// at the last row shown, with the word-list window following it.
    pub open spec fn moved_down(&self, o: &PopupManager) -> bool {
        let sel = o.selected_view(o.section_view());
        let len = o.shown(o.section_view()).len();
        let to = if sel + 1 < len { sel + 1 } else { sel as int };
        self.moved_to(
            o,
            to,
            if to >= o.window_view() + VISIBLE_ROWS {
                to - VISIBLE_ROWS + 1
            } else {
                o.window_view() as int
            },
        )
    }

    /// The item selected in the active section, among those it shows.
    pub open spec fn selected_item(&self) -> String {
        self.shown(self.section_view())[self.selected_view(self.section_view()) as int]
    }

    /// `r` reports the selected item by identity: a word list by its name, a
    /// theme or cursor style by its first position in the unfiltered list.
    pub open spec fn reports_selection(&self, r: PopupAction) -> bool {
        let item = self.selected_item();
        match self.section_view() {
            Section::WordList => r is SelectWordList && r->SelectWordList_0@ == item@,
            Section::ColorScheme => r is SelectColorScheme && is_first_index(
                self.choices_view(Section::ColorScheme),
                item@,
                r->SelectColorScheme_0 as int,
            ),
            Section::CursorStyle => r is SelectCursorStyle && is_first_index(
                self.choices_view(Section::CursorStyle),
                item@,
                r->SelectCursorStyle_0 as int,
            ),
        }
    }

    /// The selector `self`, given `key`, answers `r` and becomes `after`.
    pub open spec fn key_outcome(&self, key: Key, r: PopupAction, after: PopupManager) -> bool {
        &&& !self.open_view() ==> r == PopupAction::Nothing && after == *self
        &&& self.open_view() ==> match key {
            Key::Esc => {
                &&& r == PopupAction::Close
                &&& !after.open_view()
                &&& after.section_view() == self.section_view()
                &&& after.filter_view().len() == 0
                &&& after.same_selection(self)
            },
            Key::Right => {
                &&& r == PopupAction::Nothing
                &&& after.open_view()
                &&& after.section_view() == next_section(self.section_view())
                &&& after.filter_view().len() == 0
                &&& after.same_selection(self)
            },
            Key::Left => {
                &&& r == PopupAction::Nothing
                &&& after.open_view()
                &&& after.section_view() == prev_section(self.section_view())
                &&& after.filter_view().len() == 0
                &&& after.same_selection(self)
            },
            Key::Up => {
                &&& r == PopupAction::Nothing
                &&& after.open_view()
                &&& after.section_view() == self.section_view()
                &&& after.filter_view() == self.filter_view()
                &&& after.moved_up(self)
            },
            Key::Down => {
                &&& r == PopupAction::Nothing
                &&& after.open_view()
                &&& after.section_view() == self.section_view()
                &&& after.filter_view() == self.filter_view()
                &&& after.moved_down(self)
            },
            Key::Enter => if self.selected_view(self.section_view()) < self.shown(self.section_view()).len() {
                &&& self.reports_selection(r)
                &&& !after.open_view()
                &&& after.section_view() == self.section_view()
                &&& after.filter_view() == self.filter_view()
                &&& after.same_selection(self)
            } else {
                r == PopupAction::Nothing && after == *self
            },
            Key::Backspace => {
                &&& r == PopupAction::Nothing
                &&& after.open_view()
                &&& after.section_view() == self.section_view()
                &&& after.filter_view() == if self.filter_view().len() > 0 {
                    self.filter_view().drop_last()
                } else {
                    self.filter_view()
                }
                &&& after.moved_to(self, 0, 0)
            },
            Key::Char(c) => {
                &&& r == PopupAction::Nothing
                &&& after.open_view()
                &&& after.section_view() == self.section_view()
                &&& after.filter_view() == self.filter_view().push(c)
                &&& after.moved_to(self, 0, 0)
            },
            Key::Other => r == PopupAction::Nothing && after == *self,
        }
    }

    /// A closed selector on the word-list section with an empty filter and
    /// every selection at the top, whose word lists are ordered from
    /// `downloaded` and the catalog of known lists.
    pub open spec fn is_initial(&self, downloaded: Seq<Seq<char>>) -> bool {
        &&& !self.open_view()
        &&& self.section_view() == Section::WordList
        &&& self.filter_view().len() == 0
        &&& self.selected_view(Section::WordList) == 0
        &&& self.selected_view(Section::ColorScheme) == 0
        &&& self.selected_view(Section::CursorStyle) == 0
        &&& self.window_view() == 0
        &&& word_views(self.choices_view(Section::WordList)) == word_list_order(downloaded, catalog())
    }

    /// A closed selector on the word-list section, whose word lists are the two
    /// built-in lists, then `downloaded`, then the other known lists.
    pub fn new(downloaded: &Vec<String>) -> (r: PopupManager)
        ensures
            r.wf(),
            r.is_initial(word_views(downloaded@)),
    {
        let available = languages();
        let word_lists = order_word_lists(downloaded, &available);
        let color_schemes = vec![
            String::from_str("gruvbox"),
            String::from_str("dracula"),
            String::from_str("nord"),
            String::from_str("solarized"),
        ];
        let cursor_styles = vec![
            String::from_str("underline"),
            String::from_str("block"),
            String::from_str("default"),
        ];
        let r = PopupManager {
            is_open: false,
            current_section: Section::WordList,
            word_list_selected: 0,
            word_list_visible_start: 0,
            color_scheme_selected: 0,
            cursor_style_selected: 0,
            word_lists,
            color_schemes,
            cursor_styles,
            filter: Vec::new(),
        };
        assert(word_views(r.color_schemes@) =~= theme_names());
        assert(word_views(r.cursor_styles@) =~= cursor_names());
        r
    }

    /// Closes an open selector; opens a closed one on the word-list section,
    /// clearing the filter when that changes the section.
    pub fn toggle(&mut self)
        requires
            old(self).wf(),
        ensures
            final(self).wf(),
            final(self).open_view() == !old(self).open_view(),
            final(self).section_view() == if old(self).open_view() {
                old(self).section_view()
            } else {
                Section::WordList
            },
            !old(self).open_view() && old(self).section_view() != Section::WordList
                ==> final(self).filter_view().len() == 0,
            old(self).open_view() || old(self).section_view() == Section::WordList
                ==> final(self).filter_view() == old(self).filter_view(),
            final(self).same_choices(old(self)),
            final(self).same_selection(old(self)),
    {
        if !self.is_open {
            match self.current_section {
                Section::WordList => {},
                _ => self.switch_section(Section::WordList),
            }
        }
        self.is_open = !self.is_open;
    }

    pub fn close(&mut self)
        ensures
            !final(self).open_view(),
            final(self).section_view() == old(self).section_view(),
            final(self).filter_view() == old(self).filter_view(),
            final(self).same_choices(old(self)),
            final(self).same_selection(old(self)),
    {
        self.is_open = false;
    }

    pub fn is_open(&self) -> (r: bool)
        ensures
            r == self.open_view(),
    {
        self.is_open
    }

    /// Rebuilds the word lists from `downloaded` (built-in lists first, then
    /// the downloaded ones, then the remaining lists of the catalog) and puts the word-list
    /// selection and window back at the top.
    pub fn refresh_languages(&mut self, downloaded: &Vec<String>)
        requires
            old(self).wf(),
        ensures
            final(self).wf(),
            word_views(final(self).choices_view(Section::WordList)) == word_list_order(
                word_views(downloaded@),
                catalog(),
            ),
            final(self).selected_view(Section::WordList) == 0,
            final(self).window_view() == 0,
            final(self).selected_view(Section::ColorScheme) == old(self).selected_view(Section::ColorScheme),
            final(self).selected_view(Section::CursorStyle) == old(self).selected_view(Section::CursorStyle),
            final(self).choices_view(Section::ColorScheme) == old(self).choices_view(Section::ColorScheme),
            final(self).choices_view(Section::CursorStyle) == old(self).choices_view(Section::CursorStyle),
            final(self).open_view() == old(self).open_view(),
            final(self).section_view() == old(self).section_view(),
            final(self).filter_view() == old(self).filter_view(),
    {
        let available = languages();
        self.word_lists = order_word_lists(downloaded, &available);
        self.word_list_selected = 0;
        self.word_list_visible_start = 0;
    }

    /// What the active section shows.
    pub fn current_filtered(&self) -> (r: Vec<String>)
        ensures
            r@ == self.shown(self.section_view()),
    {
        let query = string_of(&self.filter);
        match self.current_section {
            Section::WordList => filter_choices(&self.word_lists, query.as_str()),
            Section::ColorScheme => filter_choices(&self.color_schemes, query.as_str()),
            Section::CursorStyle => filter_choices(&self.cursor_styles, query.as_str()),
        }
    }

    proof fn lemma_shown_bounds(&self)
        ensures
            forall|s: Section| #[trigger] self.shown(s).len() <= self.choices_view(s).len(),
    {
        lemma_filter_subsequence(self.choices_view(self.section_view()), self.filter_view());
    }

    /// Switches to section `to` and clears the filter; selections are kept.
    fn switch_section(&mut self, to: Section)
        requires
            old(self).wf(),
        ensures
            final(self).wf(),
            final(self).section_view() == to,
            final(self).filter_view().len() == 0,
            final(self).open_view() == old(self).open_view(),
            final(self).same_choices(old(self)),
            final(self).same_selection(old(self)),
    {
        proof {
            self.lemma_shown_bounds();
        }
        self.current_section = to;
        self.filter = Vec::new();
        proof {
            lemma_filter_empty(self.choices_view(to), self.filter_view());
        }
    }

    fn next_section(&mut self)
        requires
            old(self).wf(),
        ensures
            final(self).wf(),
            final(self).section_view() == next_section(old(self).section_view()),
            final(self).filter_view().len() == 0,
            final(self).open_view() == old(self).open_view(),
            final(self).same_choices(old(self)),
            final(self).same_selection(old(self)),
    {
        let to = match self.current_section {
            Section::WordList => Section::ColorScheme,
            Section::ColorScheme => Section::CursorStyle,
            Section::CursorStyle => Section::WordList,
        };
        self.switch_section(to);
    }

    fn prev_section(&mut self)
        requires
            old(self).wf(),
        ensures
            final(self).wf(),
            final(self).section_view() == prev_section(old(self).section_view()),
            final(self).filter_view().len() == 0,
            final(self).open_view() == old(self).open_view(),
            final(self).same_choices(old(self)),
            final(self).same_selection(old(self)),
    {
        let to = match self.current_section {
            Section::WordList => Section::CursorStyle,
            Section::ColorScheme => Section::WordList,
            Section::CursorStyle => Section::ColorScheme,
        };
        self.switch_section(to);
    }

    /// Keeps the selected word list inside the window of visible rows.
    fn update_word_list_scroll(&mut self)
        ensures
            final(self).word_list_visible_start == if old(self).word_list_selected
                >= old(self).word_list_visible_start + VISIBLE_ROWS {
                (old(self).word_list_selected - VISIBLE_ROWS + 1) as usize
            } else if old(self).word_list_selected < old(self).word_list_visible_start {
                old(self).word_list_selected
            } else {
                old(self).word_list_visible_start
            },
            final(self).word_list_visible_start <= final(self).word_list_selected
                < final(self).word_list_visible_start + VISIBLE_ROWS,
            *final(self) == (PopupManager {
                word_list_visible_start: final(self).word_list_visible_start,
                ..*old(self)
            }),
    {
        if self.word_list_selected >= VISIBLE_ROWS && self.word_list_selected - VISIBLE_ROWS
            >= self.word_list_visible_start {
            self.word_list_visible_start = self.word_list_selected - VISIBLE_ROWS + 1;
        } else if self.word_list_selected < self.word_list_visible_start {
            self.word_list_visible_start = self.word_list_selected;
        }
    }

    /// Moves the selection of the active section one row up, stopping at the top.
    fn move_up(&mut self)
        requires
            old(self).wf(),
        ensures
            final(self).wf(),
            final(self).moved_up(old(self)),
            final(self).open_view() == old(self).open_view(),
            final(self).section_view() == old(self).section_view(),
            final(self).filter_view() == old(self).filter_view(),
            final(self).same_choices(old(self)),
    {
        match self.current_section {
            Section::WordList => {
                if self.word_list_selected > 0 {
                    self.word_list_selected = self.word_list_selected - 1;
                    self.update_word_list_scroll();
                }
            },
            Section::ColorScheme => {
                if self.color_scheme_selected > 0 {
                    self.color_scheme_selected = self.color_scheme_selected - 1;
                }
            },
            Section::CursorStyle => {
                if self.cursor_style_selected > 0 {
                    self.cursor_style_selected = self.cursor_style_selected - 1;
                }
            },
        }
    }

    /// Moves the selection of the active section one row down, stopping at the
    /// last row that the filter shows.
    fn move_down(&mut self)
        requires
            old(self).wf(),
        ensures
            final(self).wf(),
            final(self).moved_down(old(self)),
            final(self).open_view() == old(self).open_view(),
            final(self).section_view() == old(self).section_view(),
            final(self).filter_view() == old(self).filter_view(),
            final(self).same_choices(old(self)),
    {
        let filtered_len = self.current_filtered().len();
        match self.current_section {
            Section::WordList => {
                if self.word_list_selected + 1 < filtered_len {
                    self.word_list_selected = self.word_list_selected + 1;
                    self.update_word_list_scroll();
                }
            },
            Section::ColorScheme => {
                if self.color_scheme_selected + 1 < filtered_len {
                    self.color_scheme_selected = self.color_scheme_selected + 1;
                }
            },
            Section::CursorStyle => {
                if self.cursor_style_selected + 1 < filtered_len {
                    self.cursor_style_selected = self.cursor_style_selected + 1;
                }
            },
        }
    }

    /// Handles a key while the selector is open; a closed selector ignores
    /// every key. Left and Right cycle the sections and clear the filter; Up and
    /// Down move the selection within what the filter shows; a character or
    /// Backspace edits the filter and puts the selection back at the top; Esc
    /// closes; Enter closes and reports the selected item, or does nothing when
    /// the filter shows no item; any other key is absorbed.
    pub fn handle_key(&mut self, key: Key) -> (r: PopupAction)
        requires
            old(self).wf(),
        ensures
            final(self).wf(),
            final(self).same_choices(old(self)),
            old(self).key_outcome(key, r, *final(self)),
    {
        if !self.is_open {
            return PopupAction::Nothing;
        }
        match key {
            Key::Esc => {
                let current = self.current_section;
                self.switch_section(current);
                self.close();
                PopupAction::Close
            },
            Key::Right => {
                self.next_section();
                PopupAction::Nothing
            },
            Key::Left => {
                self.prev_section();
                PopupAction::Nothing
            },
            Key::Up => {
                self.move_up();
                PopupAction::Nothing
            },
            Key::Down => {
                self.move_down();
                PopupAction::Nothing
            },
            Key::Enter => {
                let filtered = self.current_filtered();
                let sel = match self.current_section {
                    Section::WordList => self.word_list_selected,
                    Section::ColorScheme => self.color_scheme_selected,
                    Section::CursorStyle => self.cursor_style_selected,
                };
                if sel >= filtered.len() {
                    return PopupAction::Nothing;
                }
                proof {
                    lemma_filter_subsequence(
                        self.choices_view(self.section_view()),
                        self.filter_view(),
                    );
                }
                let action = match self.current_section {
                    Section::WordList => PopupAction::SelectWordList(filtered[sel].clone()),
                    Section::ColorScheme => PopupAction::SelectColorScheme(
                        position_of(&self.color_schemes, &filtered[sel]),
                    ),
                    Section::CursorStyle => PopupAction::SelectCursorStyle(
                        position_of(&self.cursor_styles, &filtered[sel]),
                    ),
                };
                self.close();
                action
            },
            Key::Backspace => {
                self.filter.pop();
                self.reset_selection();
                PopupAction::Nothing
            },
            Key::Char(c) => {
                self.filter.push(c);
                self.reset_selection();
                PopupAction::Nothing
            },
            Key::Other => PopupAction::Nothing,
        }
    }

    /// What section `s` shows: its choices, filtered when it is the active one.
    pub fn shown_items(&self, s: Section) -> (r: Vec<String>)
        ensures
            r@ == self.shown(s),
    {
        if s == self.current_section {
            self.current_filtered()
        } else {
            match s {
                Section::WordList => self.word_lists.clone(),
                Section::ColorScheme => self.color_schemes.clone(),
                Section::CursorStyle => self.cursor_styles.clone(),
            }
        }
    }

    /// The word-list rows on screen: at most `VISIBLE_ROWS` of what the section
    /// shows, from the first row of the window on.
    pub fn visible_word_lists(&self) -> (r: Vec<String>)
        ensures
            ({
                let shown = self.shown(Section::WordList);
                let start = self.window_view() as int;
                let end = if start + VISIBLE_ROWS < shown.len() {
                    start + VISIBLE_ROWS
                } else {
                    shown.len() as int
                };
                r@ == if start < end {
                    shown.subrange(start, end)
                } else {
                    Seq::<String>::empty()
                }
            }),
    {
        let shown = self.shown_items(Section::WordList);
        let start = self.word_list_visible_start;
        let mut r: Vec<String> = Vec::new();
        let mut i: usize = start;
        while i < shown.len() && i - start < VISIBLE_ROWS
            invariant
                start <= i,
                i - start <= VISIBLE_ROWS,
                i <= shown@.len() || i == start,
                r@ == if start < i {
                    shown@.subrange(start as int, i as int)
                } else {
                    Seq::<String>::empty()
                },
            decreases shown@.len() - i,
        {
            r.push(shown[i].clone());
            i = i + 1;
            assert(r@ =~= shown@.subrange(start as int, i as int));
        }
        r
    }

    /// The active section.
    pub fn current_section(&self) -> (r: Section)
        ensures
            r == self.section_view(),
    {
        self.current_section
    }

    /// The selection of section `s`, a position in what it shows.
    pub fn selected(&self, s: Section) -> (r: usize)
        ensures
            r == self.selected_view(s),
    {
        match s {
            Section::WordList => self.word_list_selected,
            Section::ColorScheme => self.color_scheme_selected,
            Section::CursorStyle => self.cursor_style_selected,
        }
    }

    /// The first word-list row on screen.
    pub fn visible_start(&self) -> (r: usize)
        ensures
            r == self.window_view(),
    {
        self.word_list_visible_start
    }

    /// The filter typed so far.
    pub fn filter_text(&self) -> (r: String)
        ensures
            r@ == self.filter_view(),
    {
        string_of(&self.filter)
    }

    /// The master list of choices of section `s`.
    pub fn choices(&self, s: Section) -> (r: &Vec<String>)
        ensures
            r@ == self.choices_view(s),
    {
        match s {
            Section::WordList => &self.word_lists,
            Section::ColorScheme => &self.color_schemes,
            Section::CursorStyle => &self.cursor_styles,
        }
    }

    /// Puts the selection of the active section (and the word-list window) at the top.
    fn reset_selection(&mut self)
        ensures
            final(self).moved_to(old(self), 0, 0),
            final(self).open_view() == old(self).open_view(),
            final(self).section_view() == old(self).section_view(),
            final(self).filter_view() == old(self).filter_view(),
            final(self).same_choices(old(self)),
    {
        match self.current_section {
            Section::WordList => {
                self.word_list_selected = 0;
                self.word_list_visible_start = 0;
            },
            Section::ColorScheme => self.color_scheme_selected = 0,
            Section::CursorStyle => self.cursor_style_selected = 0,
        }
    }
}

/// A single-list picker of word lists.
pub struct WordListPopup {
    pub selected: usize,
    pub word_lists: Vec<String>,
}

impl WordListPopup {
    pub fn new(word_lists: Vec<String>) -> (r: WordListPopup)
        ensures
            r.selected == 0,
            r.word_lists == word_lists,
    {
        WordListPopup { selected: 0, word_lists }
    }

    /// Moves the selection one row down, stopping at the last row.
    pub fn next(&mut self)
        ensures
            final(self).selected == if old(self).selected + 1 < old(self).word_lists@.len() {
                old(self).selected + 1
            } else {
                old(self).selected as int
            },
            final(self).word_lists == old(self).word_lists,
    {
        if self.selected < self.word_lists.len() && self.selected < self.word_lists.len() - 1 {
            self.selected = self.selected + 1;
        }
    }

    /// Moves the selection one row up, stopping at the top.
    pub fn previous(&mut self)
        ensures
            final(self).selected == if old(self).selected > 0 {
                old(self).selected - 1
            } else {
                old(self).selected as int
            },
            final(self).word_lists == old(self).word_lists,
    {
        if self.selected > 0 {
            self.selected = self.selected - 1;
        }
    }
}

/// Moving down neither wraps nor leaves what the active section shows: from
/// any well-formed state the selection goes to the next row, or stays on the
/// last one.
pub proof fn lemma_down_is_clamped(before: PopupManager, after: PopupManager)
    requires
        before.wf(),
        after.moved_down(&before),
        before.shown(before.section_view()).len() > 0,
    ensures
        ({
            let cur = before.section_view();
            let len = before.shown(cur).len();
            let sel = before.selected_view(cur);
            &&& after.selected_view(cur) == if sel + 1 < len {
                sel + 1
            } else {
                len - 1
            }
            &&& after.selected_view(cur) < len
        }),
{
}

} // verus!

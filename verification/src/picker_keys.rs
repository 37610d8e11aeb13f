//! Keys of the source picker popup: browsing the list and the tabs, typing
//! a search query, and choosing a source.
use vstd::prelude::*;
use crate::panes::NavKey;
use crate::picker::{PickerInputMode, PickerView, SourcePickerState, SourcePickerTab};
use crate::text::{path_has_prefix, pop_char, push_char, same_path};

verus! {

/// Work that a key in the source picker asks of the caller.
#[derive(Debug, Clone, Copy, PartialEq, Eq, Structural)]
pub enum PickerAction {
    Nothing,
    /// The picker closes (back to pane select).
    Close,
    /// The tab changed: its source list is rebuilt.
    Rescan,
    /// The parent of the current directory is browsed.
    EnterParent,
    /// The selected directory is browsed.
    EnterSelected,
    /// The selected source is loaded on the deck and the picker closes.
    Choose,
}

/// Rows of the list shown in the popup.
pub open spec fn list_rows() -> usize {
    13
}

/// The selected list item is a directory, if an item is selected.
pub open spec fn selected_is_dir(v: PickerView) -> Option<bool> {
    if v.selected < v.filtered.len() && v.filtered[v.selected as int] < v.items.len() {
        Some(v.items[v.filtered[v.selected as int] as int].is_dir)
    } else {
        None
    }
}

/// What choosing the selected item does: browse a directory, load anything
/// else.
pub open spec fn chosen(v: PickerView) -> PickerAction {
    match selected_is_dir(v) {
        Some(true) => PickerAction::EnterSelected,
        Some(false) => PickerAction::Choose,
        None => PickerAction::Nothing,
    }
}

/// The list gets the focus with its first item selected.
pub open spec fn list_top(v: PickerView) -> PickerView {
    PickerView { tab_focused: false, selected: 0, scroll_offset: 0, ..v }
}

/// The list gets the focus with its last item selected.
pub open spec fn list_bottom(v: PickerView) -> PickerView {
    PickerView {
        tab_focused: false,
        selected: if v.filtered.len() == 0 {
            0
        } else {
            (v.filtered.len() - 1) as usize
        },
        ..v
    }.clamped()
}

/// The current directory lies strictly below the root.
pub open spec fn below_root(v: PickerView) -> bool {
    !same_path(v.current_dir, v.root_dir) && path_has_prefix(v.current_dir, v.root_dir)
}

/// Moving down in normal mode: from the tab bar into the list.
pub open spec fn down_step(v: PickerView) -> (PickerView, PickerAction) {
    if v.tab_focused {
        (list_top(v), PickerAction::Nothing)
    } else {
        (v.moved_down(), PickerAction::Nothing)
    }
}

/// Moving up in normal mode: from the tab bar to the list's end, from the
/// list's first item to the tab bar.
pub open spec fn up_step(v: PickerView) -> (PickerView, PickerAction) {
    if v.tab_focused {
        (list_bottom(v), PickerAction::Nothing)
    } else if v.selected == 0 {
        (PickerView { tab_focused: true, selected: v.filtered.len() as usize, ..v }, PickerAction::Nothing)
    } else {
        (v.moved_up(), PickerAction::Nothing)
    }
}

/// Moving left in normal mode: the previous tab, or up a directory when
/// browsing files below the root.
pub open spec fn left_step(v: PickerView) -> (PickerView, PickerAction) {
    if !v.tab_focused && v.tab == SourcePickerTab::AudioFiles && below_root(v) {
        (v, PickerAction::EnterParent)
    } else {
        (v.prev_tabbed(), PickerAction::Rescan)
    }
}

/// Moving right in normal mode: the next tab, or into the selected
/// directory when browsing files.
pub open spec fn right_step(v: PickerView) -> (PickerView, PickerAction) {
    if !v.tab_focused && v.tab == SourcePickerTab::AudioFiles {
        match selected_is_dir(v) {
            Some(true) => (v, PickerAction::EnterSelected),
            Some(false) => (v.next_tabbed(), PickerAction::Rescan),
            None => (v, PickerAction::Nothing),
        }
    } else {
        (v.next_tabbed(), PickerAction::Rescan)
    }
}

/// What a key does in the source picker: the next state and the work asked
/// of the caller.  The list shows `list_rows()` rows.
pub open spec fn picker_step(v0: PickerView, key: NavKey) -> (PickerView, PickerAction) {
    let v = PickerView { visible_height: list_rows(), ..v0 };
    let nothing = (v, PickerAction::Nothing);
    match v.input_mode {
        PickerInputMode::Normal => match key {
            NavKey::Esc => (v, PickerAction::Close),
            NavKey::Down => down_step(v),
            NavKey::Up => up_step(v),
            NavKey::Left => left_step(v),
            NavKey::Right => right_step(v),
            NavKey::Tab => (v.next_tabbed(), PickerAction::Rescan),
            NavKey::BackTab => (v.prev_tabbed(), PickerAction::Rescan),
            NavKey::Enter => if v.tab_focused {
                (list_top(v), PickerAction::Nothing)
            } else {
                (v, chosen(v))
            },
            NavKey::Char(c) => if c == 'i' {
                if v.tab_focused {
                    nothing
                } else {
                    (PickerView { input_mode: PickerInputMode::Insert, ..v }, PickerAction::Nothing)
                }
            } else if c == 'j' {
                down_step(v)
            } else if c == 'k' {
                up_step(v)
            } else if c == 'h' {
                left_step(v)
            } else if c == 'l' {
                right_step(v)
            } else if c == 'g' {
                (list_top(v), PickerAction::Nothing)
            } else if c == 'G' {
                (list_bottom(v), PickerAction::Nothing)
            } else {
                nothing
            },
            _ => nothing,
        },
        PickerInputMode::Insert => match key {
            NavKey::Esc => (PickerView { input_mode: PickerInputMode::Normal, ..v }, PickerAction::Nothing),
            NavKey::Enter => (v, chosen(v)),
            NavKey::Backspace => (
                PickerView {
                    query: if v.query.len() > 0 {
                        v.query.drop_last()
                    } else {
                        v.query
                    },
                    ..v
                }.refiltered(),
                PickerAction::Nothing,
            ),
            NavKey::Tab => (v.next_tabbed(), PickerAction::Rescan),
            NavKey::BackTab => (v.prev_tabbed(), PickerAction::Rescan),
            NavKey::Up => (v.moved_up(), PickerAction::Nothing),
            NavKey::Down => (v.moved_down(), PickerAction::Nothing),
            NavKey::Char(c) => (PickerView { query: v.query.push(c), ..v }.refiltered(), PickerAction::Nothing),
            _ => nothing,
        },
    }
}

/// Work that a key in the sample picker asks of the caller.
#[derive(Debug, Clone, Copy, PartialEq, Eq, Structural)]
pub enum SamplePickerAction {
    Nothing,
    /// The picker closes, back to the pad configuration.
    Close,
    /// The parent of the current directory is browsed.
    EnterParent,
    /// The selected directory is browsed.
    EnterSelected,
    /// The selected sample is assigned to the pad and the picker closes.
    Assign,
    /// The selected sample is previewed.
    Preview,
}

/// Rows of the list shown in the sample picker popup.
pub open spec fn sample_rows() -> usize {
    15
}

/// What choosing the selected item does in the sample picker.
pub open spec fn sample_chosen(v: PickerView) -> SamplePickerAction {
    match selected_is_dir(v) {
        Some(true) => SamplePickerAction::EnterSelected,
        Some(false) => SamplePickerAction::Assign,
        None => SamplePickerAction::Nothing,
    }
}

/// Going up a directory, when below the root.
pub open spec fn sample_up_dir(v: PickerView) -> SamplePickerAction {
    if below_root(v) {
        SamplePickerAction::EnterParent
    } else {
        SamplePickerAction::Nothing
    }
}

/// What a key does in the sample picker.  The list shows `sample_rows()`
/// rows.
pub open spec fn sample_picker_step(v0: PickerView, key: NavKey) -> (PickerView, SamplePickerAction) {
    let v = PickerView { visible_height: sample_rows(), ..v0 };
    let nothing = (v, SamplePickerAction::Nothing);
    match v.input_mode {
        PickerInputMode::Normal => match key {
            NavKey::Esc => (v, SamplePickerAction::Close),
            NavKey::Down => (v.moved_down(), SamplePickerAction::Nothing),
            NavKey::Up => (v.moved_up(), SamplePickerAction::Nothing),
            NavKey::Left => (v, sample_up_dir(v)),
            NavKey::Right | NavKey::Enter => (v, sample_chosen(v)),
            NavKey::Char(c) => if c == 'i' {
                (PickerView { input_mode: PickerInputMode::Insert, ..v }, SamplePickerAction::Nothing)
            } else if c == 'j' {
                (v.moved_down(), SamplePickerAction::Nothing)
            } else if c == 'k' {
                (v.moved_up(), SamplePickerAction::Nothing)
            } else if c == 'h' {
                (v, sample_up_dir(v))
            } else if c == 'l' {
                (v, sample_chosen(v))
            } else if c == ' ' {
                (v, SamplePickerAction::Preview)
            } else if c == 'g' {
                (PickerView { selected: 0, scroll_offset: 0, ..v }, SamplePickerAction::Nothing)
            } else if c == 'G' {
                (
                    PickerView {
                        selected: if v.filtered.len() == 0 {
                            0
                        } else {
                            (v.filtered.len() - 1) as usize
                        },
                        ..v
                    }.clamped(),
                    SamplePickerAction::Nothing,
                )
            } else {
                nothing
            },
            _ => nothing,
        },
        PickerInputMode::Insert => match key {
            NavKey::Esc => (PickerView { input_mode: PickerInputMode::Normal, ..v }, SamplePickerAction::Nothing),
            NavKey::Enter => (v, sample_chosen(v)),
            NavKey::Backspace => if v.query.len() == 0 {
                (v, sample_up_dir(v))
            } else {
                (PickerView { query: v.query.drop_last(), ..v }.refiltered(), SamplePickerAction::Nothing)
            },
            NavKey::Up => (v.moved_up(), SamplePickerAction::Nothing),
            NavKey::Down => (v.moved_down(), SamplePickerAction::Nothing),
            NavKey::Char(c) => (PickerView { query: v.query.push(c), ..v }.refiltered(), SamplePickerAction::Nothing),
            _ => nothing,
        },
    }
}

impl SourcePickerState {
    /// Whether the selected item is a directory, if an item is selected.
    fn selected_dir(&self) -> (r: Option<bool>)
        ensures
            r == selected_is_dir(self@),
    {
        match self.selected_item() {
            Some(item) => Some(item.is_dir),
            None => None,
        }
    }

    /// Choosing the selected item.
    fn choose_selected(&self) -> (a: PickerAction)
        ensures
            a == chosen(self@),
    {
        match self.selected_dir() {
            Some(true) => PickerAction::EnterSelected,
            Some(false) => PickerAction::Choose,
            None => PickerAction::Nothing,
        }
    }

    /// Give the list the focus with its first item selected.
    fn focus_list_top(&mut self)
        ensures
            final(self)@ == list_top(old(self)@),
    {
        self.tab_focused = false;
        self.selected = 0;
        self.scroll_offset = 0;
    }

    /// Give the list the focus with its last item selected.
    fn focus_list_bottom(&mut self)
        ensures
            final(self)@ == list_bottom(old(self)@),
    {
        self.tab_focused = false;
        self.selected = if self.filtered.len() == 0 {
            0
        } else {
            self.filtered.len() - 1
        };
        self.clamp_scroll();
    }

    /// Switch to the next tab.
    fn tab_forward(&mut self) -> (a: PickerAction)
        ensures
            final(self)@ == old(self)@.next_tabbed(),
            a == PickerAction::Rescan,
    {
        self.next_tab();
        PickerAction::Rescan
    }

    /// Switch to the previous tab.
    fn tab_back(&mut self) -> (a: PickerAction)
        ensures
            final(self)@ == old(self)@.prev_tabbed(),
            a == PickerAction::Rescan,
    {
        self.prev_tab();
        PickerAction::Rescan
    }

    /// Move the selection down.
    fn step_down(&mut self)
        requires
            old(self).visible_height == list_rows(),
            old(self).selected < usize::MAX,
            old(self).scroll_offset <= usize::MAX - list_rows(),
        ensures
            final(self)@ == old(self)@.moved_down(),
    {
        self.move_down();
    }

    /// Move the selection up.
    fn step_up(&mut self)
        ensures
            final(self)@ == old(self)@.moved_up(),
    {
        self.move_up();
    }

    /// Normal mode, moving down.
    fn normal_down(&mut self) -> (a: PickerAction)
        requires
            old(self).visible_height == list_rows(),
            old(self).selected < usize::MAX,
            old(self).scroll_offset <= usize::MAX - list_rows(),
        ensures
            (final(self)@, a) == down_step(old(self)@),
    {
        if self.tab_focused {
            self.focus_list_top();
        } else {
            self.step_down();
        }
        PickerAction::Nothing
    }

    /// Normal mode, moving up.
    fn normal_up(&mut self) -> (a: PickerAction)
        ensures
            (final(self)@, a) == up_step(old(self)@),
    {
        if self.tab_focused {
            self.focus_list_bottom();
        } else if self.selected == 0 {
            self.tab_focused = true;
            self.selected = self.filtered.len();
        } else {
            self.step_up();
        }
        PickerAction::Nothing
    }

    /// Normal mode, moving left.
    fn normal_left(&mut self) -> (a: PickerAction)
        ensures
            (final(self)@, a) == left_step(old(self)@),
    {
        if !self.tab_focused && matches!(self.tab, SourcePickerTab::AudioFiles) && self.can_go_up() {
            PickerAction::EnterParent
        } else {
            self.tab_back()
        }
    }

    /// Normal mode, moving right.
    fn normal_right(&mut self) -> (a: PickerAction)
        ensures
            (final(self)@, a) == right_step(old(self)@),
    {
        if !self.tab_focused && matches!(self.tab, SourcePickerTab::AudioFiles) {
            match self.selected_dir() {
                Some(true) => PickerAction::EnterSelected,
                Some(false) => self.tab_forward(),
                None => PickerAction::Nothing,
            }
        } else {
            self.tab_forward()
        }
    }

    /// Normal mode keys.
    fn normal_key(&mut self, key: NavKey) -> (a: PickerAction)
        requires
            old(self).visible_height == list_rows(),
            old(self).input_mode == PickerInputMode::Normal,
            old(self).selected < usize::MAX,
            old(self).scroll_offset <= usize::MAX - list_rows(),
        ensures
            (final(self)@, a) == picker_step(old(self)@, key),
    {
        match key {
            NavKey::Esc => PickerAction::Close,
            NavKey::Down => self.normal_down(),
            NavKey::Up => self.normal_up(),
            NavKey::Left => self.normal_left(),
            NavKey::Right => self.normal_right(),
            NavKey::Tab => self.tab_forward(),
            NavKey::BackTab => self.tab_back(),
            NavKey::Enter => {
                if self.tab_focused {
                    self.focus_list_top();
                    PickerAction::Nothing
                } else {
                    self.choose_selected()
                }
            },
            NavKey::Char(c) => {
                if c == 'i' {
                    if !self.tab_focused {
                        self.input_mode = PickerInputMode::Insert;
                    }
                    PickerAction::Nothing
                } else if c == 'j' {
                    self.normal_down()
                } else if c == 'k' {
                    self.normal_up()
                } else if c == 'h' {
                    self.normal_left()
                } else if c == 'l' {
                    self.normal_right()
                } else if c == 'g' {
                    self.focus_list_top();
                    PickerAction::Nothing
                } else if c == 'G' {
                    self.focus_list_bottom();
                    PickerAction::Nothing
                } else {
                    PickerAction::Nothing
                }
            },
            _ => PickerAction::Nothing,
        }
    }

    /// Insert (search) mode keys.
    fn insert_key(&mut self, key: NavKey) -> (a: PickerAction)
        requires
            old(self).visible_height == list_rows(),
            old(self).input_mode == PickerInputMode::Insert,
            old(self).selected < usize::MAX,
            old(self).scroll_offset <= usize::MAX - list_rows(),
        ensures
            (final(self)@, a) == picker_step(old(self)@, key),
    {
        match key {
            NavKey::Esc => {
                self.input_mode = PickerInputMode::Normal;
                PickerAction::Nothing
            },
            NavKey::Enter => self.choose_selected(),
            NavKey::Backspace => {
                pop_char(&mut self.query);
                self.filter();
                PickerAction::Nothing
            },
            NavKey::Tab => self.tab_forward(),
            NavKey::BackTab => self.tab_back(),
            NavKey::Up => {
                self.step_up();
                PickerAction::Nothing
            },
            NavKey::Down => {
                self.step_down();
                PickerAction::Nothing
            },
            NavKey::Char(c) => {
                push_char(&mut self.query, c);
                self.filter();
                PickerAction::Nothing
            },
            _ => PickerAction::Nothing,
        }
    }

    /// Handle a key while the source picker is open (its list shows
    /// `list_rows()` rows).
    pub fn handle_source_picker_key(&mut self, key: NavKey) -> (a: PickerAction)
        requires
            old(self).selected < usize::MAX,
            old(self).scroll_offset <= usize::MAX - list_rows(),
        ensures
            (final(self)@, a) == picker_step(old(self)@, key),
    {
        self.visible_height = 13;
        match self.input_mode {
            PickerInputMode::Normal => self.normal_key(key),
            PickerInputMode::Insert => self.insert_key(key),
        }
    }

    /// Choosing the selected item in the sample picker.
    fn sample_choose(&self) -> (a: SamplePickerAction)
        ensures
            a == sample_chosen(self@),
    {
        match self.selected_dir() {
            Some(true) => SamplePickerAction::EnterSelected,
            Some(false) => SamplePickerAction::Assign,
            None => SamplePickerAction::Nothing,
        }
    }

    /// Going up a directory in the sample picker.
    fn sample_parent(&self) -> (a: SamplePickerAction)
        ensures
            a == sample_up_dir(self@),
    {
        if self.can_go_up() {
            SamplePickerAction::EnterParent
        } else {
            SamplePickerAction::Nothing
        }
    }

    /// Sample picker keys in normal mode.
    fn sample_normal_key(&mut self, key: NavKey) -> (a: SamplePickerAction)
        requires
            old(self).visible_height == sample_rows(),
            old(self).input_mode == PickerInputMode::Normal,
            old(self).selected < usize::MAX,
            old(self).scroll_offset <= usize::MAX - sample_rows(),
        ensures
            (final(self)@, a) == sample_picker_step(old(self)@, key),
    {
        match key {
            NavKey::Esc => SamplePickerAction::Close,
            NavKey::Down => {
                self.move_down();
                SamplePickerAction::Nothing
            },
            NavKey::Up => {
                self.move_up();
                SamplePickerAction::Nothing
            },
            NavKey::Left => self.sample_parent(),
            NavKey::Right | NavKey::Enter => self.sample_choose(),
            NavKey::Char(c) => {
                if c == 'i' {
                    self.input_mode = PickerInputMode::Insert;
                    SamplePickerAction::Nothing
                } else if c == 'j' {
                    self.move_down();
                    SamplePickerAction::Nothing
                } else if c == 'k' {
                    self.move_up();
                    SamplePickerAction::Nothing
                } else if c == 'h' {
                    self.sample_parent()
                } else if c == 'l' {
                    self.sample_choose()
                } else if c == ' ' {
                    SamplePickerAction::Preview
                } else if c == 'g' {
                    self.selected = 0;
                    self.scroll_offset = 0;
                    SamplePickerAction::Nothing
                } else if c == 'G' {
                    self.selected = if self.filtered.len() == 0 {
                        0
                    } else {
                        self.filtered.len() - 1
                    };
                    self.clamp_scroll();
                    SamplePickerAction::Nothing
                } else {
                    SamplePickerAction::Nothing
                }
            },
            _ => SamplePickerAction::Nothing,
        }
    }

    /// Sample picker keys in insert (search) mode.
    fn sample_insert_key(&mut self, key: NavKey) -> (a: SamplePickerAction)
        requires
            old(self).visible_height == sample_rows(),
            old(self).input_mode == PickerInputMode::Insert,
            old(self).selected < usize::MAX,
            old(self).scroll_offset <= usize::MAX - sample_rows(),
        ensures
            (final(self)@, a) == sample_picker_step(old(self)@, key),
    {
        match key {
            NavKey::Esc => {
                self.input_mode = PickerInputMode::Normal;
                SamplePickerAction::Nothing
            },
            NavKey::Enter => self.sample_choose(),
            NavKey::Backspace => {
                if self.query.as_str().is_empty() {
                    self.sample_parent()
                } else {
                    pop_char(&mut self.query);
                    self.filter();
                    SamplePickerAction::Nothing
                }
            },
            NavKey::Up => {
                self.move_up();
                SamplePickerAction::Nothing
            },
            NavKey::Down => {
                self.move_down();
                SamplePickerAction::Nothing
            },
            NavKey::Char(c) => {
                push_char(&mut self.query, c);
                self.filter();
                SamplePickerAction::Nothing
            },
            _ => SamplePickerAction::Nothing,
        }
    }

    /// Handle a key while the sample picker is open (its list shows
    /// `sample_rows()` rows).
    pub fn handle_sample_picker_key(&mut self, key: NavKey) -> (a: SamplePickerAction)
        requires
            old(self).selected < usize::MAX,
            old(self).scroll_offset <= usize::MAX - sample_rows(),
        ensures
            (final(self)@, a) == sample_picker_step(old(self)@, key),
    {
        self.visible_height = 15;
        match self.input_mode {
            PickerInputMode::Normal => self.sample_normal_key(key),
            PickerInputMode::Insert => self.sample_insert_key(key),
        }
    }
}


/// Typing a character into the search and deleting it again gives back the
/// query and the list as filtered by it.
pub proof fn lemma_type_then_delete(v: PickerView, c: char)
    requires
        v.input_mode == PickerInputMode::Insert,
    ensures
        picker_step(picker_step(v, NavKey::Char(c)).0, NavKey::Backspace).0 == (PickerView {
            visible_height: list_rows(),
            ..v
        }).refiltered(),
{
    let w = picker_step(v, NavKey::Char(c)).0;
    assert(w.query.drop_last() =~= v.query);
}

/// Every key keeps the selection within the list or on the position just
/// past it (which means nothing is selected).
pub proof fn lemma_selection_stays_in_list(v: PickerView, key: NavKey)
    requires
        v.selected <= v.filtered.len(),
        v.filtered.len() <= usize::MAX,
        v.items.len() <= usize::MAX,
    ensures
        picker_step(v, key).0.selected <= picker_step(v, key).0.filtered.len(),
{
    crate::picker::lemma_filter_keeps_matches(v.items, v.query);
    let q = if v.query.len() > 0 {
        v.query.drop_last()
    } else {
        v.query
    };
    crate::picker::lemma_filter_keeps_matches(v.items, q);
    if let NavKey::Char(c) = key {
        crate::picker::lemma_filter_keeps_matches(v.items, v.query.push(c));
    }
}

} // verus!

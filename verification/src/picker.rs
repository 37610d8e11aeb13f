//! State of the source picker popup: tabs, the filtered item list, the
//! selection and its scroll window, and the directory being browsed.
use vstd::prelude::*;
use crate::text::{
    lowercase, occurs_in, path_has_prefix, paths_equal, path_starts_with, same_path,
    str_contains, strip_path_prefix, stripped_path, to_lowercase,
};

verus! {

/// Source picker input mode
#[derive(Debug, Clone, Copy, PartialEq, Eq, Structural)]
pub enum PickerInputMode {
    Normal,
    Insert,
}

/// Source picker tab
#[derive(Debug, Clone, Copy, PartialEq, Eq, Structural)]
pub enum SourcePickerTab {
    MpvSockets,
    AudioFiles,
    SuperCollider,
    DeckActions,
}

impl SourcePickerTab {
    /// Position of a tab, left to right.
    pub open spec fn order(self) -> int {
        match self {
            SourcePickerTab::MpvSockets => 0,
            SourcePickerTab::AudioFiles => 1,
            SourcePickerTab::SuperCollider => 2,
            SourcePickerTab::DeckActions => 3,
        }
    }

    /// The tab at a position, left to right.
    pub open spec fn at_order(k: int) -> SourcePickerTab {
        if k == 0 {
            SourcePickerTab::MpvSockets
        } else if k == 1 {
            SourcePickerTab::AudioFiles
        } else if k == 2 {
            SourcePickerTab::SuperCollider
        } else {
            SourcePickerTab::DeckActions
        }
    }

    /// Horizontal position of a tab's label in the tab bar.
    pub open spec fn label_x(self) -> int {
        match self {
            SourcePickerTab::MpvSockets => 0,
            SourcePickerTab::AudioFiles => 14,
            SourcePickerTab::SuperCollider => 28,
            SourcePickerTab::DeckActions => 44,
        }
    }

    /// Width of a tab's label in the tab bar.
    pub open spec fn label_width(self) -> int {
        match self {
            SourcePickerTab::MpvSockets => 14,
            SourcePickerTab::AudioFiles => 14,
            SourcePickerTab::SuperCollider => 16,
            SourcePickerTab::DeckActions => 15,
        }
    }
}

/// One entry of the source picker list.
#[derive(Debug, Clone)]
pub struct SourcePickerItem {
    pub name: String,
    pub path: String,
    pub is_socket: bool,
    pub is_pcm_fifo: bool,
    pub is_udp: bool,
    pub is_dir: bool,
    pub camelot_key: Option<String>,
}

/// Source picker state
#[derive(Debug, Clone)]
pub struct SourcePickerState {
    pub tab: SourcePickerTab,
    /// When true, h/l navigates tabs instead of entering dirs
    pub tab_focused: bool,
    pub input_mode: PickerInputMode,
    pub query: String,
    pub items: Vec<SourcePickerItem>,
    /// Indices into items
    pub filtered: Vec<usize>,
    /// Index into filtered
    pub selected: usize,
    pub scroll_offset: usize,
    /// Current directory being browsed
    pub current_dir: String,
    /// Root samples directory (can't go above this)
    pub root_dir: String,
    /// Number of visible items (set by UI)
    pub visible_height: usize,
    /// Character offset for horizontal tab scrolling
    pub tab_scroll_offset: usize,
}

/// What the source picker holds, as mathematical values.
#[verifier::ext_equal]
pub struct PickerView {
    pub tab: SourcePickerTab,
    pub tab_focused: bool,
    pub input_mode: PickerInputMode,
    pub query: Seq<char>,
    pub items: Seq<SourcePickerItem>,
    pub filtered: Seq<usize>,
    pub selected: usize,
    pub scroll_offset: usize,
    pub current_dir: Seq<char>,
    pub root_dir: Seq<char>,
    pub visible_height: usize,
    pub tab_scroll_offset: usize,
}

impl View for SourcePickerState {
    type V = PickerView;

    open spec fn view(&self) -> PickerView {
        PickerView {
            tab: self.tab,
            tab_focused: self.tab_focused,
            input_mode: self.input_mode,
            query: self.query@,
            items: self.items@,
            filtered: self.filtered@,
            selected: self.selected,
            scroll_offset: self.scroll_offset,
            current_dir: self.current_dir@,
            root_dir: self.root_dir@,
            visible_height: self.visible_height,
            tab_scroll_offset: self.tab_scroll_offset,
        }
    }
}

impl PickerView {
    /// After moving the selection up (see `move_up`).
    pub open spec fn moved_up(self) -> PickerView {
        let len = self.filtered.len();
        let sel = index_above(self.selected, len);
        PickerView {
            selected: sel,
            scroll_offset: if len != 0 && sel < self.scroll_offset {
                sel
            } else {
                self.scroll_offset
            },
            ..self
        }
    }

    /// After moving the selection down (see `move_down`).
    pub open spec fn moved_down(self) -> PickerView {
        let len = self.filtered.len();
        let sel = index_below(self.selected, len);
        let h = self.visible_height;
        PickerView {
            selected: sel as usize,
            scroll_offset: (if len != 0 && sel >= self.scroll_offset + h {
                if sel - (h - 1) > 0 {
                    sel - (h - 1)
                } else {
                    0
                }
            } else {
                self.scroll_offset as int
            }) as usize,
            ..self
        }
    }

    /// After scrolling to keep the selection visible (see `clamp_scroll`).
    pub open spec fn clamped(self) -> PickerView {
        let h = self.visible_height as int;
        let len = self.filtered.len() as int;
        let max_scroll = if len > h {
            len - h
        } else {
            0
        };
        let clamped = if self.scroll_offset < max_scroll {
            self.scroll_offset as int
        } else {
            max_scroll
        };
        let sel = self.selected as int;
        PickerView {
            scroll_offset: (if h == 0 {
                self.scroll_offset as int
            } else if sel < clamped {
                sel
            } else if sel >= clamped + h {
                sel - (h - 1)
            } else {
                clamped
            }) as usize,
            ..self
        }
    }

    /// After switching to tab `t`: the tab bar has the focus and shows the
    /// tab's label.
    pub open spec fn on_tab(self, t: SourcePickerTab) -> PickerView {
        PickerView {
            tab: t,
            tab_focused: true,
            tab_scroll_offset: tab_scroll_for(t, self.tab_scroll_offset),
            ..self
        }
    }

    /// After switching to the next tab.
    pub open spec fn next_tabbed(self) -> PickerView {
        self.on_tab(SourcePickerTab::at_order((self.tab.order() + 1) % 4))
    }

    /// After switching to the previous tab.
    pub open spec fn prev_tabbed(self) -> PickerView {
        self.on_tab(SourcePickerTab::at_order((self.tab.order() + 3) % 4))
    }

    /// After filtering again with the current query (see `filter`).
    pub open spec fn refiltered(self) -> PickerView {
        let f = matching_indices(self.items, self.query, self.items.len() as int);
        PickerView { filtered: f, selected: f.len() as usize, scroll_offset: 0, ..self }
    }
}

/// Whether an item name matches a query: every name matches an empty query,
/// otherwise the lowercased query must occur in the lowercased name.
pub open spec fn name_matches(name: Seq<char>, query: Seq<char>) -> bool {
    lowercase(query).len() == 0 || occurs_in(lowercase(name), lowercase(query))
}

/// Indices of the first `n` items whose names match the query, in order.
pub open spec fn matching_indices(items: Seq<SourcePickerItem>, query: Seq<char>, n: int) -> Seq<usize>
    decreases n,
{
    if n <= 0 {
        Seq::empty()
    } else if name_matches(items[n - 1].name@, query) {
        matching_indices(items, query, n - 1).push((n - 1) as usize)
    } else {
        matching_indices(items, query, n - 1)
    }
}

/// Scroll offset that brings the active tab's label into a viewport of
/// `vw` columns: the bar scrolls left to the label when the label starts
/// before the offset, scrolls right just far enough when it ends past the
/// viewport, and otherwise stays.
pub open spec fn tab_scroll_in(tab: SourcePickerTab, offset: usize, vw: usize) -> usize {
    if tab.label_x() < offset {
        tab.label_x() as usize
    } else if tab.label_x() + tab.label_width() > offset + vw {
        (tab.label_x() + tab.label_width() - vw) as usize
    } else {
        offset
    }
}

/// Scroll offset that brings the active tab's label into the tab bar's
/// 60-column viewport.
pub open spec fn tab_scroll_for(tab: SourcePickerTab, offset: usize) -> usize {
    tab_scroll_in(tab, offset, 60)
}

/// Selection after moving up in a list of `len` items: the item above, or
/// the last item from the top or from no selection; unchanged in an empty list.
pub open spec fn index_above(sel: usize, len: nat) -> usize {
    if len == 0 {
        sel
    } else if sel == 0 || sel >= len {
        (len - 1) as usize
    } else {
        (sel - 1) as usize
    }
}

/// Selection after moving down in a list of `len` items: the item below, or
/// the first item from the last one (or from no selection); unchanged in an
/// empty list.
pub open spec fn index_below(sel: usize, len: nat) -> int {
    if len == 0 {
        sel as int
    } else if sel + 1 >= len {
        0
    } else {
        sel + 1
    }
}

impl SourcePickerState {
    pub fn new() -> (s: Self)
        ensures
            s.tab == SourcePickerTab::MpvSockets,
            s.tab_focused,
            s.input_mode == PickerInputMode::Normal,
            s.query@ == Seq::<char>::empty(),
            s.items@.len() == 0,
            s.filtered@.len() == 0,
            s.selected == 0,
            s.scroll_offset == 0,
            s.current_dir@ == Seq::<char>::empty(),
            s.root_dir@ == Seq::<char>::empty(),
            s.visible_height == 12,
            s.tab_scroll_offset == 0,
    {
        SourcePickerState {
            tab: SourcePickerTab::MpvSockets,
            tab_focused: true,
            input_mode: PickerInputMode::Normal,
            query: String::new(),
            items: Vec::new(),
            filtered: Vec::new(),
            selected: 0,
            scroll_offset: 0,
            current_dir: String::new(),
            root_dir: String::new(),
            visible_height: 12,
            tab_scroll_offset: 0,
        }
    }

    /// Browse from a new root directory.
    pub fn set_root(&mut self, root: String)
        ensures
            final(self).root_dir@ == root@,
            final(self).current_dir@ == root@,
            final(self).tab == old(self).tab,
            final(self).tab_focused == old(self).tab_focused,
            final(self).input_mode == old(self).input_mode,
            final(self).query == old(self).query,
            final(self).items == old(self).items,
            final(self).filtered == old(self).filtered,
            final(self).selected == old(self).selected,
            final(self).scroll_offset == old(self).scroll_offset,
            final(self).visible_height == old(self).visible_height,
            final(self).tab_scroll_offset == old(self).tab_scroll_offset,
    {
        self.root_dir = root.clone();
        self.current_dir = root;
    }

    /// Recompute the filtered list from the query; no item is selected
    /// afterwards and the list scrolls back to the top.
    pub fn filter(&mut self)
        ensures
            final(self).filtered@ == matching_indices(
                old(self).items@,
                old(self).query@,
                old(self).items@.len() as int,
            ),
            final(self).selected == final(self).filtered@.len(),
            final(self).scroll_offset == 0,
            final(self).tab == old(self).tab,
            final(self).tab_focused == old(self).tab_focused,
            final(self).input_mode == old(self).input_mode,
            final(self).query == old(self).query,
            final(self).items == old(self).items,
            final(self).current_dir == old(self).current_dir,
            final(self).root_dir == old(self).root_dir,
            final(self).visible_height == old(self).visible_height,
            final(self).tab_scroll_offset == old(self).tab_scroll_offset,
    {
        let query_lower = to_lowercase(self.query.as_str());
        let mut filtered: Vec<usize> = Vec::new();
        let n = self.items.len();
        let mut i: usize = 0;
        while i < n
            invariant
                n == self.items@.len(),
                i <= n,
                query_lower@ == lowercase(self.query@),
                filtered@ == matching_indices(self.items@, self.query@, i as int),
            decreases n - i,
        {
            let keep = if query_lower.as_str().is_empty() {
                true
            } else {
                let name_lower = to_lowercase(self.items[i].name.as_str());
                str_contains(name_lower.as_str(), query_lower.as_str())
            };
            if keep {
                filtered.push(i);
            }
            i = i + 1;
        }
        let len = filtered.len();
        self.filtered = filtered;
        self.selected = len;
        self.scroll_offset = 0;
    }

    /// The item under the selection, if the selection points at one.
    pub fn selected_item(&self) -> (r: Option<&SourcePickerItem>)
        ensures
            r is Some <==> self.selected < self.filtered@.len() && self.filtered@[self.selected as int]
                < self.items@.len(),
            r matches Some(item) ==> *item == self.items@[self.filtered@[self.selected as int] as int],
    {
        if self.selected < self.filtered.len() {
            let i = self.filtered[self.selected];
            if i < self.items.len() {
                return Some(&self.items[i]);
            }
        }
        None
    }

    /// Move the selection up one item, wrapping from the top (or from no
    /// selection) to the last item; scroll up if the selection went above
    /// the window.
    pub fn move_up(&mut self)
        ensures
            ({
                let len = old(self).filtered@.len();
                let sel = index_above(old(self).selected, len);
                &&& final(self).selected == sel
                &&& final(self).scroll_offset == (if len != 0 && sel < old(self).scroll_offset {
                    sel
                } else {
                    old(self).scroll_offset
                })
            }),
            final(self).tab == old(self).tab,
            final(self).tab_focused == old(self).tab_focused,
            final(self).input_mode == old(self).input_mode,
            final(self).query == old(self).query,
            final(self).items == old(self).items,
            final(self).filtered == old(self).filtered,
            final(self).current_dir == old(self).current_dir,
            final(self).root_dir == old(self).root_dir,
            final(self).visible_height == old(self).visible_height,
            final(self).tab_scroll_offset == old(self).tab_scroll_offset,
    {
        if self.filtered.len() == 0 {
            return;
        }
        if self.selected == 0 || self.selected >= self.filtered.len() {
            self.selected = self.filtered.len() - 1;
        } else {
            self.selected = self.selected - 1;
        }
        if self.selected < self.scroll_offset {
            self.scroll_offset = self.selected;
        }
    }

    /// The inputs on which moving down does not overflow: the selection can
    /// be incremented, and when the new selection lies at or past the end of
    /// the window the window end and its last row can be computed.
    pub open spec fn move_down_ok(self) -> bool {
        let len = self.filtered@.len();
        len != 0 ==> {
            &&& self.selected + 1 <= usize::MAX
            &&& self.scroll_offset + self.visible_height <= usize::MAX
            &&& ({
                let sel = if self.selected + 1 >= len {
                    0
                } else {
                    self.selected + 1
                };
                sel >= self.scroll_offset + self.visible_height ==> self.visible_height >= 1
            })
        }
    }

    /// Move the selection down one item, wrapping from the last item to the
    /// first; scroll down if the selection went past the window.
    pub fn move_down(&mut self)
        requires
            old(self).move_down_ok(),
        ensures
            ({
                let len = old(self).filtered@.len();
                let sel = index_below(old(self).selected, len);
                let h = old(self).visible_height;
                &&& final(self).selected == sel
                &&& final(self).scroll_offset == (if len != 0 && sel >= old(self).scroll_offset + h {
                    if sel - (h - 1) > 0 {
                        sel - (h - 1)
                    } else {
                        0
                    }
                } else {
                    old(self).scroll_offset as int
                })
            }),
            final(self).tab == old(self).tab,
            final(self).tab_focused == old(self).tab_focused,
            final(self).input_mode == old(self).input_mode,
            final(self).query == old(self).query,
            final(self).items == old(self).items,
            final(self).filtered == old(self).filtered,
            final(self).current_dir == old(self).current_dir,
            final(self).root_dir == old(self).root_dir,
            final(self).visible_height == old(self).visible_height,
            final(self).tab_scroll_offset == old(self).tab_scroll_offset,
    {
        if self.filtered.len() == 0 {
            return;
        }
        if self.selected + 1 >= self.filtered.len() {
            self.selected = 0;
        } else {
            self.selected = self.selected + 1;
        }
        if self.selected >= self.scroll_offset + self.visible_height {
            self.scroll_offset = self.selected.saturating_sub(self.visible_height - 1);
        }
    }

    /// Ensure scroll offset keeps selected item visible
    pub fn clamp_scroll(&mut self)
        ensures
            ({
                let h = old(self).visible_height as int;
                let len = old(self).filtered@.len() as int;
                let max_scroll = if len > h {
                    len - h
                } else {
                    0
                };
                let clamped = if old(self).scroll_offset < max_scroll {
                    old(self).scroll_offset as int
                } else {
                    max_scroll
                };
                let sel = old(self).selected as int;
                final(self).scroll_offset == (if h == 0 {
                    old(self).scroll_offset as int
                } else if sel < clamped {
                    sel
                } else if sel >= clamped + h {
                    sel - (h - 1)
                } else {
                    clamped
                })
            }),
            final(self).selected == old(self).selected,
            final(self).tab == old(self).tab,
            final(self).tab_focused == old(self).tab_focused,
            final(self).input_mode == old(self).input_mode,
            final(self).query == old(self).query,
            final(self).items == old(self).items,
            final(self).filtered == old(self).filtered,
            final(self).current_dir == old(self).current_dir,
            final(self).root_dir == old(self).root_dir,
            final(self).visible_height == old(self).visible_height,
            final(self).tab_scroll_offset == old(self).tab_scroll_offset,
    {
        if self.visible_height == 0 {
            return;
        }
        let max_scroll = self.filtered.len().saturating_sub(self.visible_height);
        if max_scroll < self.scroll_offset {
            self.scroll_offset = max_scroll;
        }
        if self.selected < self.scroll_offset {
            self.scroll_offset = self.selected;
        } else if self.selected >= self.scroll_offset + self.visible_height {
            self.scroll_offset = self.selected.saturating_sub(self.visible_height - 1);
        }
    }

    /// Cycle to the next tab (forward round-robin)
    pub fn next_tab(&mut self)
        ensures
            final(self).tab == SourcePickerTab::at_order((old(self).tab.order() + 1) % 4),
            final(self).tab_focused,
            final(self).tab_scroll_offset == tab_scroll_for(
                final(self).tab,
                old(self).tab_scroll_offset,
            ),
            final(self).input_mode == old(self).input_mode,
            final(self).query == old(self).query,
            final(self).items == old(self).items,
            final(self).filtered == old(self).filtered,
            final(self).selected == old(self).selected,
            final(self).scroll_offset == old(self).scroll_offset,
            final(self).current_dir == old(self).current_dir,
            final(self).root_dir == old(self).root_dir,
            final(self).visible_height == old(self).visible_height,
    {
        self.tab =
        match self.tab {
            SourcePickerTab::MpvSockets => SourcePickerTab::AudioFiles,
            SourcePickerTab::AudioFiles => SourcePickerTab::SuperCollider,
            SourcePickerTab::SuperCollider => SourcePickerTab::DeckActions,
            SourcePickerTab::DeckActions => SourcePickerTab::MpvSockets,
        };
        self.tab_focused = true;
        self.scroll_tab_into_view(60);
    }

    /// Cycle to the previous tab (backward round-robin)
    pub fn prev_tab(&mut self)
        ensures
            final(self).tab == SourcePickerTab::at_order((old(self).tab.order() + 3) % 4),
            final(self).tab_focused,
            final(self).tab_scroll_offset == tab_scroll_for(
                final(self).tab,
                old(self).tab_scroll_offset,
            ),
            final(self).input_mode == old(self).input_mode,
            final(self).query == old(self).query,
            final(self).items == old(self).items,
            final(self).filtered == old(self).filtered,
            final(self).selected == old(self).selected,
            final(self).scroll_offset == old(self).scroll_offset,
            final(self).current_dir == old(self).current_dir,
            final(self).root_dir == old(self).root_dir,
            final(self).visible_height == old(self).visible_height,
    {
        self.tab =
        match self.tab {
            SourcePickerTab::MpvSockets => SourcePickerTab::DeckActions,
            SourcePickerTab::DeckActions => SourcePickerTab::SuperCollider,
            SourcePickerTab::SuperCollider => SourcePickerTab::AudioFiles,
            SourcePickerTab::AudioFiles => SourcePickerTab::MpvSockets,
        };
        self.tab_focused = true;
        self.scroll_tab_into_view(60);
    }

    /// Ensure the selected tab is visible within the given viewport width.
    /// Adjusts tab_scroll_offset so the active tab label fits on screen.
    fn scroll_tab_into_view(&mut self, viewport_width: usize)
        requires
            old(self).tab.label_x() < old(self).tab_scroll_offset || old(self).tab_scroll_offset
                + viewport_width <= usize::MAX,
        ensures
            final(self).tab_scroll_offset == tab_scroll_in(
                old(self).tab,
                old(self).tab_scroll_offset,
                viewport_width,
            ),
            viewport_width >= old(self).tab.label_width() ==> final(self).tab_scroll_offset
                <= old(self).tab.label_x() && old(self).tab.label_x() + old(self).tab.label_width()
                <= final(self).tab_scroll_offset + viewport_width,
            old(self).tab_scroll_offset <= old(self).tab.label_x() && old(self).tab.label_x()
                + old(self).tab.label_width() <= old(self).tab_scroll_offset + viewport_width
                ==> final(self).tab_scroll_offset == old(self).tab_scroll_offset,
            final(self).tab == old(self).tab,
            final(self).tab_focused == old(self).tab_focused,
            final(self).input_mode == old(self).input_mode,
            final(self).query == old(self).query,
            final(self).items == old(self).items,
            final(self).filtered == old(self).filtered,
            final(self).selected == old(self).selected,
            final(self).scroll_offset == old(self).scroll_offset,
            final(self).current_dir == old(self).current_dir,
            final(self).root_dir == old(self).root_dir,
            final(self).visible_height == old(self).visible_height,
    {
        let tabs = [
            SourcePickerTab::MpvSockets,
            SourcePickerTab::AudioFiles,
            SourcePickerTab::SuperCollider,
            SourcePickerTab::DeckActions,
        ];
        let widths: [usize; 4] = [14, 14, 16, 15];
        let mut x: usize = 0;
        let mut active_x: usize = 0;
        let mut active_width: usize = 16;
        let mut k: usize = 0;
        while k < 4
            invariant
                k <= 4,
                tabs@ == seq![
                    SourcePickerTab::MpvSockets,
                    SourcePickerTab::AudioFiles,
                    SourcePickerTab::SuperCollider,
                    SourcePickerTab::DeckActions,
                ],
                widths@ == seq![14usize, 14, 16, 15],
                x == (if k == 0 {
                    0usize
                } else if k == 1 {
                    14
                } else if k == 2 {
                    28
                } else if k == 3 {
                    44
                } else {
                    59
                }),
                self.tab.order() < k ==> active_x == self.tab.label_x() && active_width
                    == self.tab.label_width(),
            decreases 4 - k,
        {
            if tabs[k] == self.tab {
                active_x = x;
                active_width = widths[k];
            }
            x = x + widths[k];
            k = k + 1;
        }
        if active_x < self.tab_scroll_offset {
            self.tab_scroll_offset = active_x;
        } else if active_x + active_width > self.tab_scroll_offset + viewport_width {
            self.tab_scroll_offset = active_x + active_width - viewport_width;
        }
    }

    /// Check if we can go up a directory (not at root)
    pub fn can_go_up(&self) -> (b: bool)
        ensures
            b == (!same_path(self.current_dir@, self.root_dir@) && path_has_prefix(
                self.current_dir@,
                self.root_dir@,
            )),
            self.current_dir@ == self.root_dir@ ==> !b,
    {
        !paths_equal(self.current_dir.as_str(), self.root_dir.as_str()) && path_starts_with(
            self.current_dir.as_str(),
            self.root_dir.as_str(),
        )
    }

    /// Get display path relative to root (empty when the current directory
    /// is not under the root).
    pub fn relative_path(&self) -> (r: String)
        ensures
            r@ == (if path_has_prefix(self.current_dir@, self.root_dir@) {
                stripped_path(self.current_dir@, self.root_dir@)
            } else {
                Seq::empty()
            }),
            self.current_dir@ == self.root_dir@ ==> r@ == Seq::<char>::empty(),
    {
        match strip_path_prefix(self.current_dir.as_str(), self.root_dir.as_str()) {
            Some(p) => p,
            None => String::new(),
        }
    }
}

/// Moving down and then up, or up and then down, in a non-empty list comes
/// back to the item that was selected, the wrap between the last and the
/// first item included: the selections `move_down` and `move_up` make
/// (`index_below` and `index_above`) undo each other.
pub proof fn lemma_up_down_round_trip(sel: usize, len: nat)
    requires
        0 < len <= usize::MAX,
        sel < len,
    ensures
        index_above(index_below(sel, len) as usize, len) == sel,
        index_below(index_above(sel, len), len) == sel,
{
}

/// Moving up or down in a non-empty list always selects an item of the list.
pub proof fn lemma_moves_select_an_item(sel: usize, len: nat)
    requires
        0 < len <= usize::MAX,
    ensures
        index_above(sel, len) < len,
        0 <= index_below(sel, len) < len,
{
}

/// After clamping, the selected row lies inside the visible window whenever
/// the window has at least one row.
pub proof fn lemma_clamp_shows_selection(p: SourcePickerState, q: SourcePickerState)
    requires
        p.visible_height > 0,
        q.selected == p.selected,
        q.visible_height == p.visible_height,
        ({
            let h = p.visible_height as int;
            let len = p.filtered@.len() as int;
            let max_scroll = if len > h {
                len - h
            } else {
                0
            };
            let clamped = if p.scroll_offset < max_scroll {
                p.scroll_offset as int
            } else {
                max_scroll
            };
            let sel = p.selected as int;
            q.scroll_offset == (if sel < clamped {
                sel
            } else if sel >= clamped + h {
                sel - (h - 1)
            } else {
                clamped
            })
        }),
    ensures
        q.scroll_offset <= q.selected < q.scroll_offset + q.visible_height,
{
}

/// Going to the next tab and then the previous one, or the other way round,
/// comes back to the same tab.
pub proof fn lemma_tab_cycle(t: SourcePickerTab)
    ensures
        SourcePickerTab::at_order((SourcePickerTab::at_order((t.order() + 1) % 4).order() + 3) % 4)
            == t,
        SourcePickerTab::at_order((SourcePickerTab::at_order((t.order() + 3) % 4).order() + 1) % 4)
            == t,
{
}

/// Scrolling the tab bar brings the active tab's label entirely into any
/// viewport at least 16 columns wide (the widest label), and leaves the
/// offset alone when the label is already in view.
pub proof fn lemma_active_tab_visible(t: SourcePickerTab, offset: usize, vw: usize)
    requires
        vw >= 16,
        t.label_x() < offset || offset + vw <= usize::MAX,
    ensures
        tab_scroll_in(t, offset, vw) <= t.label_x(),
        t.label_x() + t.label_width() <= tab_scroll_in(t, offset, vw) + vw,
        offset <= t.label_x() && t.label_x() + t.label_width() <= offset + vw ==> tab_scroll_in(
            t,
            offset,
            vw,
        ) == offset,
{
}

proof fn lemma_matching_indices(items: Seq<SourcePickerItem>, query: Seq<char>, n: int)
    requires
        0 <= n <= items.len(),
        items.len() <= usize::MAX,
    ensures
        forall|k: int|
            0 <= k < matching_indices(items, query, n).len() ==> {
                let i = #[trigger] matching_indices(items, query, n)[k] as int;
                0 <= i < n && name_matches(items[i].name@, query)
            },
        forall|k1: int, k2: int|
            0 <= k1 < k2 < matching_indices(items, query, n).len() ==> matching_indices(
                items,
                query,
                n,
            )[k1] < matching_indices(items, query, n)[k2],
        forall|i: int|
            0 <= i < n && name_matches(items[i].name@, query) ==> matching_indices(
                items,
                query,
                n,
            ).contains(i as usize),
    decreases n,
{
    if n > 0 {
        lemma_matching_indices(items, query, n - 1);
        let prev = matching_indices(items, query, n - 1);
        if name_matches(items[n - 1].name@, query) {
            let cur = prev.push((n - 1) as usize);
            assert forall|k: int| 0 <= k < prev.len() implies cur[k] == prev[k] && prev[k] < n - 1 by {
                let i = prev[k] as int;
                assert(0 <= i < n - 1);
            }
            assert(cur[prev.len() as int] == (n - 1) as usize);
            assert forall|i: int|
                0 <= i < n && name_matches(items[i].name@, query) implies cur.contains(
                i as usize,
            ) by {
                if i < n - 1 {
                    let k = choose|k: int| 0 <= k < prev.len() && prev[k] == i as usize;
                    assert(cur[k] == i as usize);
                } else {
                    assert(cur[prev.len() as int] == i as usize);
                }
            }
        }
    }
}

/// Filtering keeps exactly the items whose names match the query, each once
/// and in their original order.
pub proof fn lemma_filter_keeps_matches(items: Seq<SourcePickerItem>, query: Seq<char>)
    requires
        items.len() <= usize::MAX,
    ensures
        forall|k: int|
            0 <= k < matching_indices(items, query, items.len() as int).len() ==> {
                let i = #[trigger] matching_indices(items, query, items.len() as int)[k] as int;
                0 <= i < items.len() && name_matches(items[i].name@, query)
            },
        forall|k1: int, k2: int|
            0 <= k1 < k2 < matching_indices(items, query, items.len() as int).len()
                ==> matching_indices(items, query, items.len() as int)[k1] < matching_indices(
                items,
                query,
                items.len() as int,
            )[k2],
        forall|i: int|
            0 <= i < items.len() && name_matches(items[i].name@, query) ==> matching_indices(
                items,
                query,
                items.len() as int,
            ).contains(i as usize),
{
    lemma_matching_indices(items, query, items.len() as int);
}

} // verus!

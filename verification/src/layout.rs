//! Pane selection and the horizontal layout of the mixer row.
use vstd::prelude::*;

verus! {

/// Which pane is selected
#[derive(Debug, Clone, Copy, PartialEq, Eq, Structural)]
pub enum SelectedPane {
    DeckA,
    DjCenter,
    Loops,
    Crossfader,
    DeckB,
    DeckC,
    Master,
}

impl SelectedPane {
    /// Position of a pane in the tab order, starting at Deck A.
    pub open spec fn order(self) -> int {
        match self {
            SelectedPane::DeckA => 0,
            SelectedPane::DjCenter => 1,
            SelectedPane::Loops => 2,
            SelectedPane::Crossfader => 3,
            SelectedPane::DeckB => 4,
            SelectedPane::DeckC => 5,
            SelectedPane::Master => 6,
        }
    }

    /// The pane at a position of the tab order.
    pub open spec fn at_order(k: int) -> SelectedPane {
        if k == 0 {
            SelectedPane::DeckA
        } else if k == 1 {
            SelectedPane::DjCenter
        } else if k == 2 {
            SelectedPane::Loops
        } else if k == 3 {
            SelectedPane::Crossfader
        } else if k == 4 {
            SelectedPane::DeckB
        } else if k == 5 {
            SelectedPane::DeckC
        } else {
            SelectedPane::Master
        }
    }

    /// The column of the mixer row that shows a pane (0 = Deck A .. 4 = Master).
    pub open spec fn column(self) -> int {
        match self {
            SelectedPane::DeckA => 0,
            SelectedPane::DjCenter | SelectedPane::Loops | SelectedPane::Crossfader => 1,
            SelectedPane::DeckB => 2,
            SelectedPane::DeckC => 3,
            SelectedPane::Master => 4,
        }
    }

    /// The next pane in the tab order, wrapping from Master to Deck A.
    pub fn next(self) -> (r: Self)
        ensures
            r == Self::at_order((self.order() + 1) % 7),
    {
        match self {
            SelectedPane::DeckA => SelectedPane::DjCenter,
            SelectedPane::DjCenter => SelectedPane::Loops,
            SelectedPane::Loops => SelectedPane::Crossfader,
            SelectedPane::Crossfader => SelectedPane::DeckB,
            SelectedPane::DeckB => SelectedPane::DeckC,
            SelectedPane::DeckC => SelectedPane::Master,
            SelectedPane::Master => SelectedPane::DeckA,
        }
    }

    /// The previous pane in the tab order, wrapping from Deck A to Master.
    pub fn prev(self) -> (r: Self)
        ensures
            r == Self::at_order((self.order() + 6) % 7),
    {
        match self {
            SelectedPane::DeckA => SelectedPane::Master,
            SelectedPane::DjCenter => SelectedPane::DeckA,
            SelectedPane::Loops => SelectedPane::DjCenter,
            SelectedPane::Crossfader => SelectedPane::Loops,
            SelectedPane::DeckB => SelectedPane::Crossfader,
            SelectedPane::DeckC => SelectedPane::DeckB,
            SelectedPane::Master => SelectedPane::DeckC,
        }
    }

    fn column_index(self) -> (c: usize)
        ensures
            c == self.column(),
    {
        match self {
            SelectedPane::DeckA => 0,
            SelectedPane::DjCenter | SelectedPane::Loops | SelectedPane::Crossfader => 1,
            SelectedPane::DeckB => 2,
            SelectedPane::DeckC => 3,
            SelectedPane::Master => 4,
        }
    }
}

/// Moving to the previous pane undoes moving to the next one and vice versa,
/// and every pane is reached again after going forward through all seven.
pub proof fn lemma_pane_cycle(p: SelectedPane)
    ensures
        SelectedPane::at_order(p.order()) == p,
        SelectedPane::at_order((SelectedPane::at_order((p.order() + 1) % 7).order() + 6) % 7)
            == p,
        SelectedPane::at_order((SelectedPane::at_order((p.order() + 6) % 7).order() + 1) % 7)
            == p,
        0 <= p.order() < 7,
{
}

/// Generic rectangular area for a pane (crossfader, master, CUE, etc.)
#[derive(Debug, Clone, Copy, Default, PartialEq, Eq, Structural)]
pub struct PaneArea {
    pub x: u16,
    pub y: u16,
    pub w: u16,
    pub h: u16,
}

impl PaneArea {
    /// The area's right and bottom edges stay within the screen coordinates.
    pub open spec fn in_bounds(self) -> bool {
        self.x + self.w <= u16::MAX && self.y + self.h <= u16::MAX
    }

    /// Whether a point lies inside the area (right and bottom edges excluded).
    pub open spec fn holds(self, px: int, py: int) -> bool {
        self.x <= px < self.x + self.w && self.y <= py < self.y + self.h
    }

    pub fn contains(&self, px: u16, py: u16) -> (b: bool)
        requires
            px >= self.x ==> self.x + self.w <= u16::MAX,
            px >= self.x && px < self.x + self.w && py >= self.y ==> self.y + self.h
                <= u16::MAX,
        ensures
            b == self.holds(px as int, py as int),
    {
        px >= self.x && px < self.x + self.w && py >= self.y && py < self.y + self.h
    }
}

/// Minimum width of each column of the mixer row.
pub open spec fn col_min(i: int) -> int {
    if i == 1 {
        48
    } else if i == 4 {
        21
    } else {
        13
    }
}

/// Sum of the minimum widths of columns `s..=e`.
pub open spec fn min_sum(s: int, e: int) -> int
    decreases e + 1 - s,
{
    if s > e {
        0
    } else {
        col_min(s) + min_sum(s + 1, e)
    }
}

proof fn lemma_min_sum_right(s: int, e: int)
    requires
        s <= e + 1,
    ensures
        min_sum(s, e + 1) == min_sum(s, e) + col_min(e + 1),
    decreases e + 1 - s,
{
    if s <= e {
        lemma_min_sum_right(s + 1, e);
    } else {
        reveal_with_fuel(min_sum, 2);
    }
}

proof fn lemma_min_sum_nonneg(s: int, e: int)
    ensures
        min_sum(s, e) >= 0,
    decreases e + 1 - s,
{
    if s <= e {
        lemma_min_sum_nonneg(s + 1, e);
    }
}

/// Splitting a window before column `m`.
proof fn lemma_min_sum_split(a: int, m: int, e: int)
    requires
        a <= m,
        m <= e + 1,
    ensures
        min_sum(a, e) == min_sum(a, m - 1) + min_sum(m, e),
    decreases m - a,
{
    if a < m {
        lemma_min_sum_split(a + 1, m, e);
    }
}

proof fn lemma_min_sum_bounds(s: int, e: int)
    requires
        0 <= s,
        e <= 4,
    ensures
        0 <= min_sum(s, e) <= 108,
{
    lemma_min_sum_nonneg(s, e);
    if s <= e {
        assert(min_sum(0, 4) == 108) by {
            reveal_with_fuel(min_sum, 6);
        }
        lemma_min_sum_split(0, s, 4);
        lemma_min_sum_split(s, e + 1, 4);
        lemma_min_sum_nonneg(0, s - 1);
        lemma_min_sum_nonneg(e + 1, 4);
    }
}

/// A visible column is at most as wide as the whole window's minimum.
proof fn lemma_col_le_sum(s: int, i: int, e: int)
    requires
        s <= i <= e,
    ensures
        col_min(i) <= min_sum(s, e),
{
    lemma_min_sum_split(s, i, e);
    lemma_min_sum_nonneg(s, i - 1);
    lemma_min_sum_nonneg(i + 1, e);
}

/// Leftmost start of a window that ends at Master: columns are added on the
/// left for as long as the window still fits the viewport.
pub open spec fn master_window_start(vw: int, s: int) -> int
    decreases s,
{
    if 0 < s && min_sum(s - 1, 4) <= vw {
        master_window_start(vw, s - 1)
    } else {
        s
    }
}

/// Window grown around the selected column, one neighbour at a time, taking
/// the narrower neighbour when both fit (the left one on a tie).
pub open spec fn grown_window(vw: int, s: int, e: int) -> (int, int)
    decreases s + 4 - e,
{
    if !(0 <= s && e <= 4) {
        (s, e)
    } else {
        let used = min_sum(s, e);
        let fit_left = s > 0 && used + col_min(s - 1) <= vw;
        let fit_right = e < 4 && used + col_min(e + 1) <= vw;
        if fit_left && fit_right {
            if col_min(s - 1) <= col_min(e + 1) {
                grown_window(vw, s - 1, e)
            } else {
                grown_window(vw, s, e + 1)
            }
        } else if fit_left {
            grown_window(vw, s - 1, e)
        } else if fit_right {
            grown_window(vw, s, e + 1)
        } else {
            (s, e)
        }
    }
}

/// Window shrunk from its far edge (relative to the selected column) until
/// it fits the viewport or holds a single column.
pub open spec fn shrunk_window(vw: int, sel: int, s: int, e: int) -> (int, int)
    decreases e - s,
{
    if s < e && min_sum(s, e) > vw {
        if sel - s <= e - sel {
            shrunk_window(vw, sel, s, e - 1)
        } else {
            shrunk_window(vw, sel, s + 1, e)
        }
    } else {
        (s, e)
    }
}

/// First column of the current window `cs..=ce` moved by its own width to
/// reach the selected column `sel` (clamped to the existing columns).
pub open spec fn shifted_start(sel: int, cs: int, ce: int) -> int {
    let width = ce - cs;
    let s0 = if sel < cs {
        sel
    } else if sel - width > 0 {
        sel - width
    } else {
        0
    };
    if s0 < 4 {
        s0
    } else {
        4
    }
}

/// Last column of the current window moved to reach the selected column.
pub open spec fn shifted_end(sel: int, cs: int, ce: int) -> int {
    let width = ce - cs;
    let e0 = if sel < cs {
        sel + width
    } else {
        sel
    };
    if e0 < 4 {
        e0
    } else {
        4
    }
}

/// The window kept from the current one `cs..=ce`: unchanged when it shows
/// the selected column and fits; else moved by its own width to reach the
/// selected column, shrunk from its far edge until it fits, and then grown
/// around the selected column by as many neighbours as fit.
pub open spec fn current_window(vw: int, sel: int, cs: int, ce: int) -> (int, int) {
    if cs <= sel <= ce && min_sum(cs, ce) <= vw {
        (cs, ce)
    } else {
        let sh = shrunk_window(vw, sel, shifted_start(sel, cs, ce), shifted_end(sel, cs, ce));
        grown_window(vw, sh.0, sh.1)
    }
}

/// The visible columns `(start, end)` when not all five columns fit.
pub open spec fn window_of(
    vw: int,
    selected: SelectedPane,
    cur_start: Option<usize>,
    cur_end: Option<usize>,
) -> (int, int) {
    let sel = selected.column();
    if selected == SelectedPane::Master {
        (master_window_start(vw, 4), 4)
    } else if cur_start is Some && cur_end is Some {
        current_window(vw, sel, cur_start->0 as int, cur_end->0 as int)
    } else {
        grown_window(vw, sel, sel)
    }
}

/// Number of visible columns other than Master in `start..=end`.
pub open spec fn non_master_count(start: int, end: int) -> int {
    if end == 4 {
        end - start
    } else {
        end - start + 1
    }
}

/// Width of column `i` when the columns `start..=end` are visible and not
/// all five fit: visible columns share the space beyond their minimums
/// evenly (earlier ones take the remainder), Master keeps its minimum unless
/// it is alone, dropped columns on the left keep their minimum and columns
/// past the window get no width.
pub open spec fn width_of(vw: int, start: int, end: int, i: int) -> int {
    let total = min_sum(start, end);
    let extra = if vw > total {
        vw - total
    } else {
        0
    };
    let n = non_master_count(start, end);
    if i < start {
        col_min(i)
    } else if i > end {
        0
    } else if start == 4 && end == 4 {
        vw
    } else if i == 4 {
        21
    } else {
        col_min(i) + extra / n + (if i - start < extra % n {
            1int
        } else {
            0int
        })
    }
}

/// Deck width when all five columns fit.
pub open spec fn full_deck_width(vw: int) -> int {
    let w = (vw - 21 - 48) / 3;
    if w < 13 {
        13
    } else if w > 21 {
        21
    } else {
        w
    }
}

/// Horizontal layout for the mixer row.
///
/// The 5 columns, left to right, are: Deck A, DJ Center (PADS), Deck B,
/// Deck C, Master. When the viewport is too narrow for everything, the
/// window of visible columns scrolls so the selected column (and as many
/// neighbours as fit) stays visible.
#[derive(Debug, Clone, Copy, PartialEq, Eq, Structural)]
pub struct MixerLayout {
    pub deck_a: u16,
    pub dj: u16,
    pub deck_b: u16,
    pub deck_c: u16,
    pub master: u16,
    /// First visible column index (0=DeckA, 1=DJ, 2=DeckB, 3=DeckC, 4=Master).
    pub start: u8,
    /// Last visible column index (inclusive).
    pub end: u8,
}

impl MixerLayout {
    /// Width of column `i`.
    pub open spec fn width(self, i: int) -> int {
        if i == 0 {
            self.deck_a as int
        } else if i == 1 {
            self.dj as int
        } else if i == 2 {
            self.deck_b as int
        } else if i == 3 {
            self.deck_c as int
        } else {
            self.master as int
        }
    }

    /// The inputs on which computing a layout does not fail: a current window,
    /// when it is consulted, must be a range of existing columns.
    pub open spec fn window_ok(
        viewport_w: u16,
        selected: SelectedPane,
        cur_start: Option<usize>,
        cur_end: Option<usize>,
    ) -> bool {
        viewport_w < 108 && selected != SelectedPane::Master && cur_start is Some
            && cur_end is Some ==> cur_start->0 <= cur_end->0 <= 4
    }

    /// The layout for a viewport width, a selected pane and the current window.
    pub open spec fn layout_of(
        viewport_w: u16,
        selected: SelectedPane,
        cur_start: Option<usize>,
        cur_end: Option<usize>,
        r: MixerLayout,
    ) -> bool {
        let vw = viewport_w as int;
        if vw >= 108 {
            let w = full_deck_width(vw);
            &&& r.deck_a == w
            &&& r.deck_b == w
            &&& r.deck_c == w
            &&& r.dj == vw - 3 * w - 21
            &&& r.master == 21
            &&& r.start == 0
            &&& r.end == 4
        } else {
            let (s, e) = window_of(vw, selected, cur_start, cur_end);
            &&& r.start == s
            &&& r.end == e
            &&& forall|i: int| 0 <= i < 5 ==> #[trigger] r.width(i) == width_of(vw, s, e, i)
        }
    }

    pub fn compute(
        viewport_w: u16,
        selected: SelectedPane,
        cur_start: Option<usize>,
        cur_end: Option<usize>,
    ) -> (r: Self)
        requires
            Self::window_ok(viewport_w, selected, cur_start, cur_end),
        ensures
            Self::layout_of(viewport_w, selected, cur_start, cur_end, r),
    {
        let vw = viewport_w;
        // All 5 columns fit: full layout, no scrolling.
        if vw >= 108 {
            let q = (vw - 21 - 48) / 3;
            let w: u16 = if q < 13 {
                13
            } else if q > 21 {
                21
            } else {
                q
            };
            return MixerLayout {
                deck_a: w,
                dj: vw - w * 3 - 21,
                deck_b: w,
                deck_c: w,
                master: 21,
                start: 0,
                end: 4,
            };
        }
        let sel = selected.column_index();
        let (start, end) = if selected == SelectedPane::Master {
            Self::master_window(vw)
        } else {
            match (cur_start, cur_end) {
                (Some(cs), Some(ce)) => Self::keep_or_shift_window(vw, sel, cs, ce),
                _ => Self::grow_window(vw, sel),
            }
        };
        let ws = Self::distribute(vw, start, end);
        MixerLayout {
            deck_a: ws[0],
            dj: ws[1],
            deck_b: ws[2],
            deck_c: ws[3],
            master: ws[4],
            start: start as u8,
            end: end as u8,
        }
    }

    fn col_min_exec(i: usize) -> (m: u16)
        requires
            i <= 4,
        ensures
            m == col_min(i as int),
    {
        if i == 1 {
            48
        } else if i == 4 {
            21
        } else {
            13
        }
    }

    fn window_min(s: usize, e: usize) -> (t: u16)
        requires
            s <= e <= 4,
        ensures
            t == min_sum(s as int, e as int),
    {
        let mut acc: u16 = 0;
        let mut i: usize = e + 1;
        while i > s
            invariant
                s <= i <= e + 1,
                e <= 4,
                acc == min_sum(i as int, e as int),
            decreases i,
        {
            proof {
                lemma_min_sum_bounds(i - 1, e as int);
            }
            i = i - 1;
            acc = Self::col_min_exec(i) + acc;
        }
        acc
    }

    fn master_window(vw: u16) -> (r: (usize, usize))
        ensures
            r.0 == master_window_start(vw as int, 4),
            r.1 == 4,
            r.0 <= 4,
    {
        let mut s: usize = 4;
        let mut used: u16 = 21;
        assert(min_sum(4, 4) == 21) by {
            reveal_with_fuel(min_sum, 2);
        }
        while s > 0
            invariant
                s <= 4,
                used == min_sum(s as int, 4),
                master_window_start(vw as int, s as int) == master_window_start(vw as int, 4),
            ensures
                s <= 4,
                master_window_start(vw as int, 4) == s,
            decreases s,
        {
            proof {
                lemma_min_sum_bounds(s - 1, 4);
            }
            let cand = Self::col_min_exec(s - 1);
            if used + cand <= vw {
                used = used + cand;
                s = s - 1;
            } else {
                break;
            }
        }
        (s, 4)
    }

    fn grow_window(vw: u16, sel: usize) -> (r: (usize, usize))
        requires
            sel <= 4,
        ensures
            (r.0 as int, r.1 as int) == grown_window(vw as int, sel as int, sel as int),
            r.0 <= r.1 <= 4,
    {
        Self::grow_from(vw, sel, sel)
    }

    /// Grows the window `s0..=e0` around itself while neighbours fit.
    fn grow_from(vw: u16, s0: usize, e0: usize) -> (r: (usize, usize))
        requires
            s0 <= e0 <= 4,
        ensures
            (r.0 as int, r.1 as int) == grown_window(vw as int, s0 as int, e0 as int),
            r.0 <= r.1 <= 4,
    {
        let mut s = s0;
        let mut e = e0;
        let mut used = Self::window_min(s0, e0);
        loop
            invariant
                s <= e <= 4,
                used == min_sum(s as int, e as int),
                grown_window(vw as int, s as int, e as int) == grown_window(
                    vw as int,
                    s0 as int,
                    e0 as int,
                ),
            ensures
                s <= e <= 4,
                grown_window(vw as int, s0 as int, e0 as int) == (s as int, e as int),
            decreases s + 4 - e,
        {
            proof {
                lemma_min_sum_bounds(s as int, e as int);
            }
            let fit_left = s > 0 && used + Self::col_min_exec(s - 1) <= vw;
            let fit_right = e < 4 && used + Self::col_min_exec(e + 1) <= vw;
            if fit_left && fit_right {
                if Self::col_min_exec(s - 1) <= Self::col_min_exec(e + 1) {
                    used = used + Self::col_min_exec(s - 1);
                    s = s - 1;
                } else {
                    proof {
                        lemma_min_sum_right(s as int, e as int);
                    }
                    used = used + Self::col_min_exec(e + 1);
                    e = e + 1;
                }
            } else if fit_left {
                used = used + Self::col_min_exec(s - 1);
                s = s - 1;
            } else if fit_right {
                proof {
                    lemma_min_sum_right(s as int, e as int);
                }
                used = used + Self::col_min_exec(e + 1);
                e = e + 1;
            } else {
                break;
            }
        }
        (s, e)
    }

    fn keep_or_shift_window(vw: u16, sel: usize, cs: usize, ce: usize) -> (r: (usize, usize))
        requires
            sel <= 3,
            cs <= ce <= 4,
        ensures
            (r.0 as int, r.1 as int) == current_window(vw as int, sel as int, cs as int, ce as int),
            r.0 <= r.1 <= 4,
    {
        let window_min = Self::window_min(cs, ce);
        if sel >= cs && sel <= ce && window_min <= vw {
            return (cs, ce);
        }
        let width = ce - cs;
        let (s0, e0) = if sel < cs {
            (sel, sel + width)
        } else {
            (sel.saturating_sub(width), sel)
        };
        let mut s = if s0 < 4 {
            s0
        } else {
            4
        };
        let mut e = if e0 < 4 {
            e0
        } else {
            4
        };
        let ghost sh = shrunk_window(vw as int, sel as int, s as int, e as int);
        while s < e && Self::window_min(s, e) > vw
            invariant
                s <= sel <= e <= 4,
                shrunk_window(vw as int, sel as int, s as int, e as int) == sh,
            decreases e - s,
        {
            if sel - s <= e - sel {
                e = e - 1;
            } else {
                s = s + 1;
            }
        }
        Self::grow_from(vw, s, e)
    }

    fn distribute(vw: u16, start: usize, end: usize) -> (ws: [u16; 5])
        requires
            start <= end <= 4,
        ensures
            forall|i: int| 0 <= i < 5 ==> ws@[i] == width_of(vw as int, start as int, end as int, i),
    {
        let min_total = Self::window_min(start, end);
        let extra = vw.saturating_sub(min_total);
        let mut widths: [u16; 5] = [0, 0, 0, 0, 0];
        if start == 4 && end == 4 {
            widths[4] = vw;
        } else {
            let n: u16 = if end == 4 {
                (end - start) as u16
            } else {
                (end - start + 1) as u16
            };
            let per = extra / n;
            let rem = extra % n;
            proof {
                lemma_share_bounds(extra as int, n as int);
            }
            let mut assigned: u16 = 0;
            let mut i = start;
            while i <= end
                invariant
                    start <= i <= end + 1,
                    end <= 4,
                    !(start == 4 && end == 4),
                    n == non_master_count(start as int, end as int),
                    1 <= n <= 5,
                    per == extra / n,
                    rem == extra % n,
                    per <= extra,
                    rem > 0 ==> per + 1 <= extra,
                    extra <= vw,
                    min_total == min_sum(start as int, end as int),
                    extra as int == (if vw > min_total {
                        vw - min_total
                    } else {
                        0
                    }),
                    i <= 4 ==> assigned == i - start,
                    forall|j: int| 0 <= j < start ==> widths@[j] == 0,
                    forall|j: int| end < j < 5 ==> widths@[j] == 0,
                    forall|j: int|
                        start <= j < i ==> widths@[j] == width_of(
                            vw as int,
                            start as int,
                            end as int,
                            j,
                        ),
                decreases end + 1 - i,
            {
                if i == 4 {
                    widths[i] = 21;
                } else {
                    proof {
                        lemma_col_le_sum(start as int, i as int, end as int);
                    }
                    let add = per + if assigned < rem {
                        1
                    } else {
                        0
                    };
                    assigned = assigned + 1;
                    widths[i] = Self::col_min_exec(i) + add;
                }
                i = i + 1;
            }
        }
        let mut k: usize = 0;
        while k < start
            invariant
                k <= start <= end <= 4,
                forall|j: int| 0 <= j < k ==> widths@[j] == col_min(j),
                forall|j: int|
                    start <= j < 5 ==> widths@[j] == width_of(vw as int, start as int, end as int, j),
            decreases start - k,
        {
            widths[k] = Self::col_min_exec(k);
            k = k + 1;
        }
        widths
    }
}

proof fn lemma_share_bounds(extra: int, n: int)
    requires
        0 <= extra <= 65535,
        1 <= n <= 5,
    ensures
        0 <= extra / n <= extra,
        0 <= extra % n < n,
        extra % n > 0 ==> extra / n + 1 <= extra,
        n * (extra / n) + extra % n == extra,
{
    assert(0 <= extra / n <= extra) by (nonlinear_arith)
        requires
            0 <= extra,
            1 <= n,
    ;
    assert(n * (extra / n) + extra % n == extra) by (nonlinear_arith)
        requires
            1 <= n,
    ;
    if extra % n > 0 {
        if n == 1 {
            assert(extra % 1 == 0);
        } else {
            assert(extra / n + 1 <= extra) by (nonlinear_arith)
                requires
                    2 <= n,
                    n * (extra / n) + extra % n == extra,
                    0 < extra % n,
                    0 <= extra / n,
            ;
        }
    }
}

proof fn lemma_master_start(vw: int, s: int)
    requires
        0 <= s <= 4,
    ensures
        0 <= master_window_start(vw, s) <= s,
        master_window_start(vw, s) == s || min_sum(master_window_start(vw, s), 4) <= vw,
        master_window_start(vw, s) == 0 || min_sum(master_window_start(vw, s) - 1, 4) > vw,
    decreases s,
{
    if 0 < s && min_sum(s - 1, 4) <= vw {
        lemma_master_start(vw, s - 1);
    }
}

proof fn lemma_grown(vw: int, s: int, e: int)
    requires
        0 <= s <= e <= 4,
    ensures
        0 <= grown_window(vw, s, e).0 <= s,
        e <= grown_window(vw, s, e).1 <= 4,
        !(grown_window(vw, s, e).0 > 0 && min_sum(grown_window(vw, s, e).0, grown_window(vw, s, e).1)
            + col_min(grown_window(vw, s, e).0 - 1) <= vw),
        !(grown_window(vw, s, e).1 < 4 && min_sum(grown_window(vw, s, e).0, grown_window(vw, s, e).1)
            + col_min(grown_window(vw, s, e).1 + 1) <= vw),
    decreases s + 4 - e,
{
    let used = min_sum(s, e);
    let fit_left = s > 0 && used + col_min(s - 1) <= vw;
    let fit_right = e < 4 && used + col_min(e + 1) <= vw;
    if fit_left && fit_right {
        if col_min(s - 1) <= col_min(e + 1) {
            lemma_grown(vw, s - 1, e);
        } else {
            lemma_grown(vw, s, e + 1);
        }
    } else if fit_left {
        lemma_grown(vw, s - 1, e);
    } else if fit_right {
        lemma_grown(vw, s, e + 1);
    }
}

proof fn lemma_shrunk(vw: int, sel: int, s: int, e: int)
    requires
        0 <= s <= sel <= e <= 4,
    ensures
        s <= shrunk_window(vw, sel, s, e).0 <= sel <= shrunk_window(vw, sel, s, e).1 <= e,
        shrunk_window(vw, sel, s, e).0 == shrunk_window(vw, sel, s, e).1 || min_sum(
            shrunk_window(vw, sel, s, e).0,
            shrunk_window(vw, sel, s, e).1,
        ) <= vw,
    decreases e - s,
{
    if s < e && min_sum(s, e) > vw {
        if sel - s <= e - sel {
            lemma_shrunk(vw, sel, s, e - 1);
        } else {
            lemma_shrunk(vw, sel, s + 1, e);
        }
    }
}

/// The window chosen for a narrow viewport always shows the selected
/// pane's column and is a range of existing columns.
pub proof fn lemma_window_range(
    vw: int,
    selected: SelectedPane,
    cur_start: Option<usize>,
    cur_end: Option<usize>,
)
    requires
        MixerLayout::window_ok(vw as u16, selected, cur_start, cur_end),
        0 <= vw < 108,
    ensures
        0 <= window_of(vw, selected, cur_start, cur_end).0 <= selected.column() <= window_of(
            vw,
            selected,
            cur_start,
            cur_end,
        ).1 <= 4,
{
    let sel = selected.column();
    if selected == SelectedPane::Master {
        lemma_master_start(vw, 4);
    } else if cur_start is Some && cur_end is Some {
        let cs = cur_start->0 as int;
        let ce = cur_end->0 as int;
        if !(cs <= sel <= ce && min_sum(cs, ce) <= vw) {
            let s1 = shifted_start(sel, cs, ce);
            let e1 = shifted_end(sel, cs, ce);
            lemma_shrunk(vw, sel, s1, e1);
            let sh = shrunk_window(vw, sel, s1, e1);
            lemma_grown(vw, sh.0, sh.1);
        }
    } else {
        lemma_grown(vw, sel, sel);
    }
}

/// Sum of the widths of the columns `from..=e` of a layout.
pub open spec fn width_total(r: MixerLayout, from: int, e: int) -> int
    decreases e + 1 - from,
{
    if from > e {
        0
    } else {
        r.width(from) + width_total(r, from + 1, e)
    }
}

proof fn lemma_width_total_step(vw: int, r: MixerLayout, start: int, end: int, from: int)
    requires
        0 <= start <= from <= end + 1,
        start <= end <= 4,
        !(start == 4 && end == 4),
        0 <= vw,
        forall|i: int| 0 <= i < 5 ==> #[trigger] r.width(i) == width_of(vw, start, end, i),
    ensures
        ({
            let total = min_sum(start, end);
            let extra = if vw > total {
                vw - total
            } else {
                0
            };
            let n = non_master_count(start, end);
            let t = from - start;
            let nm = if from > end {
                0
            } else if end == 4 {
                end - from
            } else {
                end - from + 1
            };
            width_total(r, from, end) == min_sum(from, end) + (extra / n) * nm + (if extra % n > t {
                extra % n - t
            } else {
                0
            })
        }),
    decreases end + 1 - from,
{
    let total = min_sum(start, end);
    let extra = if vw > total {
        vw - total
    } else {
        0
    };
    let n = non_master_count(start, end);
    let per = extra / n;
    let rem = extra % n;
    assert(0 <= rem < n) by (nonlinear_arith)
        requires
            n >= 1,
            rem == extra % n,
    ;
    if from <= end {
        lemma_width_total_step(vw, r, start, end, from + 1);
        let nm1 = if from + 1 > end {
            0
        } else if end == 4 {
            end - from - 1
        } else {
            end - from
        };
        assert(per * (nm1 + 1) == per * nm1 + per) by (nonlinear_arith);
    }
}

/// The visible columns of a layout always include the column of the selected
/// pane, and the window `start..=end` is a range of existing columns.
pub proof fn lemma_layout_shows_selection(
    viewport_w: u16,
    selected: SelectedPane,
    cur_start: Option<usize>,
    cur_end: Option<usize>,
    r: MixerLayout,
)
    requires
        MixerLayout::window_ok(viewport_w, selected, cur_start, cur_end),
        MixerLayout::layout_of(viewport_w, selected, cur_start, cur_end, r),
    ensures
        r.start <= selected.column() <= r.end <= 4,
{
    if viewport_w < 108 {
        lemma_window_range(viewport_w as int, selected, cur_start, cur_end);
    }
}

/// When the minimum widths of the visible columns fit the viewport, or Master
/// is shown alone, the visible columns fill the viewport exactly.
pub proof fn lemma_layout_fills_viewport(
    viewport_w: u16,
    selected: SelectedPane,
    cur_start: Option<usize>,
    cur_end: Option<usize>,
    r: MixerLayout,
)
    requires
        MixerLayout::window_ok(viewport_w, selected, cur_start, cur_end),
        MixerLayout::layout_of(viewport_w, selected, cur_start, cur_end, r),
        min_sum(r.start as int, r.end as int) <= viewport_w || (r.start == 4 && r.end == 4),
    ensures
        width_total(r, r.start as int, r.end as int) == viewport_w,
{
    let vw = viewport_w as int;
    if vw >= 108 {
        reveal_with_fuel(width_total, 6);
    } else {
        lemma_window_range(vw, selected, cur_start, cur_end);
        let s = r.start as int;
        let e = r.end as int;
        if s == 4 && e == 4 {
            reveal_with_fuel(width_total, 2);
            assert(r.width(4) == width_of(vw, s, e, 4));
        } else {
            lemma_width_total_step(vw, r, s, e, s);
            let n = non_master_count(s, e);
            let extra = vw - min_sum(s, e);
            assert(n * (extra / n) + extra % n == extra) by (nonlinear_arith)
                requires
                    n >= 1,
            ;
            assert((extra / n) * n == n * (extra / n)) by (nonlinear_arith);
        }
    }
}

/// With Master selected on a narrow viewport, the window ends at Master and
/// drops the fewest leftmost columns needed for the rest to fit.
pub proof fn lemma_master_window_minimal(
    viewport_w: u16,
    cur_start: Option<usize>,
    cur_end: Option<usize>,
    r: MixerLayout,
)
    requires
        viewport_w < 108,
        MixerLayout::layout_of(viewport_w, SelectedPane::Master, cur_start, cur_end, r),
    ensures
        r.end == 4,
        r.start == 4 || min_sum(r.start as int, 4) <= viewport_w,
        r.start == 0 || min_sum(r.start - 1, 4) > viewport_w,
{
    lemma_master_start(viewport_w as int, 4);
}

/// Without a current window, the window around the selected column grows
/// until neither neighbouring column fits any more.
pub proof fn lemma_fresh_window_maximal(viewport_w: u16, selected: SelectedPane, r: MixerLayout)
    requires
        viewport_w < 108,
        selected != SelectedPane::Master,
        MixerLayout::layout_of(viewport_w, selected, None, None, r),
    ensures
        !(r.start > 0 && min_sum(r.start as int, r.end as int) + col_min(r.start - 1)
            <= viewport_w),
        !(r.end < 4 && min_sum(r.start as int, r.end as int) + col_min(r.end + 1) <= viewport_w),
{
    lemma_grown(viewport_w as int, selected.column(), selected.column());
}

proof fn lemma_grown_fits(vw: int, s: int, e: int)
    requires
        0 <= s <= e <= 4,
        s == e || min_sum(s, e) <= vw,
    ensures
        (grown_window(vw, s, e) == (s, e)) || min_sum(grown_window(vw, s, e).0, grown_window(vw, s, e).1)
            <= vw,
    decreases s + 4 - e,
{
    let used = min_sum(s, e);
    let fit_left = s > 0 && used + col_min(s - 1) <= vw;
    let fit_right = e < 4 && used + col_min(e + 1) <= vw;
    if fit_left && fit_right {
        if col_min(s - 1) <= col_min(e + 1) {
            assert(min_sum(s - 1, e) == col_min(s - 1) + min_sum(s, e));
            lemma_grown_fits(vw, s - 1, e);
        } else {
            lemma_min_sum_right(s, e);
            lemma_grown_fits(vw, s, e + 1);
        }
    } else if fit_left {
        assert(min_sum(s - 1, e) == col_min(s - 1) + min_sum(s, e));
        lemma_grown_fits(vw, s - 1, e);
    } else if fit_right {
        lemma_min_sum_right(s, e);
        lemma_grown_fits(vw, s, e + 1);
    }
}

/// On a narrow viewport, a window of two or more columns always fits: the
/// minimum widths of its columns add up to at most the viewport's width.
pub proof fn lemma_window_fits(
    vw: int,
    selected: SelectedPane,
    cur_start: Option<usize>,
    cur_end: Option<usize>,
)
    requires
        MixerLayout::window_ok(vw as u16, selected, cur_start, cur_end),
        0 <= vw < 108,
    ensures
        window_of(vw, selected, cur_start, cur_end).0 < window_of(vw, selected, cur_start, cur_end).1
            ==> min_sum(
            window_of(vw, selected, cur_start, cur_end).0,
            window_of(vw, selected, cur_start, cur_end).1,
        ) <= vw,
{
    let sel = selected.column();
    if selected == SelectedPane::Master {
        lemma_master_start(vw, 4);
    } else if cur_start is Some && cur_end is Some {
        let cs = cur_start->0 as int;
        let ce = cur_end->0 as int;
        if !(cs <= sel <= ce && min_sum(cs, ce) <= vw) {
            let s1 = shifted_start(sel, cs, ce);
            let e1 = shifted_end(sel, cs, ce);
            lemma_shrunk(vw, sel, s1, e1);
            let sh = shrunk_window(vw, sel, s1, e1);
            lemma_grown_fits(vw, sh.0, sh.1);
        }
    } else {
        lemma_grown_fits(vw, sel, sel);
    }
}

/// Feeding the window that was chosen back as the current window chooses
/// it again: a window, once computed, stays put while the viewport and the
/// selected pane stay the same.
pub proof fn lemma_window_stable(
    vw: int,
    selected: SelectedPane,
    cur_start: Option<usize>,
    cur_end: Option<usize>,
)
    requires
        MixerLayout::window_ok(vw as u16, selected, cur_start, cur_end),
        0 <= vw < 108,
    ensures
        ({
            let w = window_of(vw, selected, cur_start, cur_end);
            &&& MixerLayout::window_ok(vw as u16, selected, Some(w.0 as usize), Some(w.1 as usize))
            &&& window_of(vw, selected, Some(w.0 as usize), Some(w.1 as usize)) == w
        }),
{
    lemma_window_range(vw, selected, cur_start, cur_end);
    lemma_window_fits(vw, selected, cur_start, cur_end);
    let w = window_of(vw, selected, cur_start, cur_end);
    let sel = selected.column();
    if selected != SelectedPane::Master && !(min_sum(w.0, w.1) <= vw) {
        assert(w.0 == sel && w.1 == sel);
        assert(min_sum(sel, sel) == col_min(sel)) by {
            reveal_with_fuel(min_sum, 2);
        }
        assert(shifted_start(sel, sel, sel) == sel);
        assert(shifted_end(sel, sel, sel) == sel);
        assert(shrunk_window(vw, sel, sel, sel) == (sel, sel));
        assert(grown_window(vw, sel, sel) == (sel, sel));
    }
}

/// A computed layout is a fixed point: computing the layout again with its
/// own window as the current one gives the same layout.
pub proof fn lemma_layout_stable(
    viewport_w: u16,
    selected: SelectedPane,
    cur_start: Option<usize>,
    cur_end: Option<usize>,
    r: MixerLayout,
    r2: MixerLayout,
)
    requires
        MixerLayout::window_ok(viewport_w, selected, cur_start, cur_end),
        MixerLayout::layout_of(viewport_w, selected, cur_start, cur_end, r),
        MixerLayout::layout_of(
            viewport_w,
            selected,
            Some(r.start as usize),
            Some(r.end as usize),
            r2,
        ),
    ensures
        r2 == r,
{
    if viewport_w < 108 {
        lemma_window_stable(viewport_w as int, selected, cur_start, cur_end);
        assert(r.width(0) == r2.width(0));
        assert(r.width(1) == r2.width(1));
        assert(r.width(2) == r2.width(2));
        assert(r.width(3) == r2.width(3));
        assert(r.width(4) == r2.width(4));
    }
}

} // verus!

//! Screen areas of the panes and the mouse hit test across them.
use vstd::prelude::*;
use crate::controls::ChannelControl;
use crate::layout::PaneArea;

verus! {

/// Tracks the screen areas for each channel for mouse interaction
#[derive(Debug)]
pub struct ChannelArea {
    /// x, y, width, height
    pub bounds: (u16, u16, u16, u16),
    /// control, y_start, y_end
    pub control_rows: Vec<(ChannelControl, u16, u16)>,
}

impl Default for ChannelArea {
    /// An empty area at the origin with no control rows.
    fn default() -> (r: Self)
        ensures
            r.bounds == (0u16, 0u16, 0u16, 0u16),
            r.control_rows@.len() == 0,
    {
        ChannelArea { bounds: (0, 0, 0, 0), control_rows: Vec::new() }
    }
}

/// Result of a mouse hit-test across all panes
#[derive(Debug, Clone, Copy, PartialEq, Eq, Structural)]
pub enum HitResult {
    /// Click on a channel strip control
    Channel(usize, ChannelControl),
    /// Click on a sample pad
    Pad(usize),
    /// Click/drag on the crossfader
    Crossfader,
    /// Click on master pane (specific control inferred from y position)
    Master,
    /// Click on CUE pane (specific control inferred from y position)
    Cue,
    /// Click on loops pane
    Loops,
}

/// Whether a point lies in the rectangle `(x, y, w, h)` (right and bottom
/// edges excluded).
pub open spec fn in_rect(px: int, py: int, x: int, y: int, w: int, h: int) -> bool {
    x <= px < x + w && y <= py < y + h
}

/// The control under height `py` among the first `n` control rows of a
/// strip: the first row whose span holds it, else the fader.
pub open spec fn control_under(rows: Seq<(ChannelControl, u16, u16)>, py: int, n: int) -> ChannelControl
    decreases n,
{
    if n <= 0 {
        ChannelControl::Fader
    } else if control_under_found(rows, py, n - 1) {
        control_under(rows, py, n - 1)
    } else if rows[n - 1].1 <= py < rows[n - 1].2 {
        rows[n - 1].0
    } else {
        ChannelControl::Fader
    }
}

/// Whether one of the first `n` control rows holds height `py`.
pub open spec fn control_under_found(rows: Seq<(ChannelControl, u16, u16)>, py: int, n: int) -> bool
    decreases n,
{
    if n <= 0 {
        false
    } else {
        control_under_found(rows, py, n - 1) || (rows[n - 1].1 <= py < rows[n - 1].2)
    }
}

/// The first of the first `n` channel strips that holds a point.
pub open spec fn first_channel(areas: Seq<ChannelArea>, px: int, py: int, n: int) -> Option<usize>
    decreases n,
{
    if n <= 0 {
        None
    } else {
        match first_channel(areas, px, py, n - 1) {
            Some(i) => Some(i),
            None => {
                let b = areas[n - 1].bounds;
                if in_rect(px, py, b.0 as int, b.1 as int, b.2 as int, b.3 as int) {
                    Some((n - 1) as usize)
                } else {
                    None
                }
            },
        }
    }
}

/// The strip and control under a point, if a strip holds it.
pub open spec fn channel_hit(areas: Seq<ChannelArea>, px: int, py: int) -> Option<(usize, ChannelControl)> {
    match first_channel(areas, px, py, areas.len() as int) {
        Some(i) => Some(
            (
                i,
                control_under(
                    areas[i as int].control_rows@,
                    py,
                    areas[i as int].control_rows@.len() as int,
                ),
            ),
        ),
        None => None,
    }
}

/// The first of the first `n` pads whose cell holds a point.
pub open spec fn first_pad(pads: Seq<(usize, u16, u16, u16, u16)>, px: int, py: int, n: int) -> Option<usize>
    decreases n,
{
    if n <= 0 {
        None
    } else {
        match first_pad(pads, px, py, n - 1) {
            Some(p) => Some(p),
            None => {
                let c = pads[n - 1];
                if in_rect(px, py, c.1 as int, c.2 as int, c.3 as int, c.4 as int) {
                    Some(c.0)
                } else {
                    None
                }
            },
        }
    }
}

/// Whether an optional pane area holds a point.
pub open spec fn area_holds(a: Option<PaneArea>, px: int, py: int) -> bool {
    match a {
        Some(area) => area.holds(px, py),
        None => false,
    }
}

/// Rectangle edges that stay within screen coordinates.
pub open spec fn rect_ok(x: u16, y: u16, w: u16, h: u16) -> bool {
    x + w <= u16::MAX && y + h <= u16::MAX
}

/// Screen areas of the panes, as last drawn, for mouse hit testing.
#[derive(Debug)]
pub struct HitAreas {
    /// Channel strip areas
    pub channel_areas: Vec<ChannelArea>,
    /// Sample pad cells: (pad_idx, x, y, w, h)
    pub pad_areas: Vec<(usize, u16, u16, u16, u16)>,
    pub crossfader_area: Option<PaneArea>,
    pub master_area: Option<PaneArea>,
    pub cue_area: Option<PaneArea>,
    pub loops_area: Option<PaneArea>,
}

impl HitAreas {
    /// Every area's edges stay within screen coordinates.
    pub open spec fn in_bounds(&self) -> bool {
        &&& forall|i: int|
            0 <= i < self.channel_areas@.len() ==> {
                let b = #[trigger] self.channel_areas@[i].bounds;
                rect_ok(b.0, b.1, b.2, b.3)
            }
        &&& forall|i: int|
            0 <= i < self.pad_areas@.len() ==> {
                let c = #[trigger] self.pad_areas@[i];
                rect_ok(c.1, c.2, c.3, c.4)
            }
        &&& (self.crossfader_area matches Some(a) ==> a.in_bounds())
        &&& (self.master_area matches Some(a) ==> a.in_bounds())
        &&& (self.cue_area matches Some(a) ==> a.in_bounds())
        &&& (self.loops_area matches Some(a) ==> a.in_bounds())
    }

    /// The hit-test result for a point: channel strips first, then pads,
    /// the crossfader, master, CUE and loops panes.
    pub open spec fn hit(&self, px: int, py: int) -> Option<HitResult> {
        match channel_hit(self.channel_areas@, px, py) {
            Some((i, c)) => Some(HitResult::Channel(i, c)),
            None => match first_pad(self.pad_areas@, px, py, self.pad_areas@.len() as int) {
                Some(p) => Some(HitResult::Pad(p)),
                None => if area_holds(self.crossfader_area, px, py) {
                    Some(HitResult::Crossfader)
                } else if area_holds(self.master_area, px, py) {
                    Some(HitResult::Master)
                } else if area_holds(self.cue_area, px, py) {
                    Some(HitResult::Cue)
                } else if area_holds(self.loops_area, px, py) {
                    Some(HitResult::Loops)
                } else {
                    None
                },
            },
        }
    }

    /// No areas at all.
    pub fn new() -> (r: Self)
        ensures
            r.channel_areas@.len() == 0,
            r.pad_areas@.len() == 0,
            r.crossfader_area is None,
            r.master_area is None,
            r.cue_area is None,
            r.loops_area is None,
    {
        HitAreas {
            channel_areas: Vec::new(),
            pad_areas: Vec::new(),
            crossfader_area: None,
            master_area: None,
            cue_area: None,
            loops_area: None,
        }
    }

    /// Replace the channel strip areas.
    pub fn update_channel_areas(&mut self, areas: Vec<ChannelArea>)
        ensures
            final(self).channel_areas@ == areas@,
            final(self).pad_areas@ == old(self).pad_areas@,
            final(self).crossfader_area == old(self).crossfader_area,
            final(self).master_area == old(self).master_area,
            final(self).cue_area == old(self).cue_area,
            final(self).loops_area == old(self).loops_area,
    {
        self.channel_areas = areas;
    }

    /// Replace the pane and pad areas.
    pub fn update_pane_areas(
        &mut self,
        crossfader: Option<PaneArea>,
        master: Option<PaneArea>,
        cue: Option<PaneArea>,
        loops: Option<PaneArea>,
        pads: Vec<(usize, u16, u16, u16, u16)>,
    )
        ensures
            final(self).channel_areas@ == old(self).channel_areas@,
            final(self).pad_areas@ == pads@,
            final(self).crossfader_area == crossfader,
            final(self).master_area == master,
            final(self).cue_area == cue,
            final(self).loops_area == loops,
    {
        self.crossfader_area = crossfader;
        self.master_area = master;
        self.cue_area = cue;
        self.loops_area = loops;
        self.pad_areas = pads;
    }

    /// General hit-test across all panes
    pub fn hit_test_all(&self, x: u16, y: u16) -> (r: Option<HitResult>)
        requires
            self.in_bounds(),
        ensures
            r == self.hit(x as int, y as int),
    {
        if let Some((idx, ctrl)) = self.hit_test(x, y) {
            return Some(HitResult::Channel(idx, ctrl));
        }
        let mut k: usize = 0;
        while k < self.pad_areas.len()
            invariant
                k <= self.pad_areas@.len(),
                self.in_bounds(),
                channel_hit(self.channel_areas@, x as int, y as int) is None,
                first_pad(self.pad_areas@, x as int, y as int, k as int) is None,
            decreases self.pad_areas@.len() - k,
        {
            let (pad_idx, px, py, pw, ph) = self.pad_areas[k];
            if x >= px && x < px + pw && y >= py && y < py + ph {
                proof {
                    assert(first_pad(self.pad_areas@, x as int, y as int, k as int + 1) == Some(
                        pad_idx,
                    ));
                    lemma_first_pad_stays(self.pad_areas@, x as int, y as int, k as int + 1);
                    assert(channel_hit(self.channel_areas@, x as int, y as int) is None);
                }
                return Some(HitResult::Pad(pad_idx));
            }
            k = k + 1;
        }
        proof {
            lemma_first_pad_stays(self.pad_areas@, x as int, y as int, self.pad_areas@.len() as int);
        }
        if let Some(area) = &self.crossfader_area {
            if area.contains(x, y) {
                return Some(HitResult::Crossfader);
            }
        }
        if let Some(area) = &self.master_area {
            if area.contains(x, y) {
                return Some(HitResult::Master);
            }
        }
        if let Some(area) = &self.cue_area {
            if area.contains(x, y) {
                return Some(HitResult::Cue);
            }
        }
        if let Some(area) = &self.loops_area {
            if area.contains(x, y) {
                return Some(HitResult::Loops);
            }
        }
        None
    }

    /// Hit test to find which channel/control is at a screen position
    pub fn hit_test(&self, x: u16, y: u16) -> (r: Option<(usize, ChannelControl)>)
        requires
            self.in_bounds(),
        ensures
            r == channel_hit(self.channel_areas@, x as int, y as int),
    {
        let mut idx: usize = 0;
        while idx < self.channel_areas.len()
            invariant
                idx <= self.channel_areas@.len(),
                self.in_bounds(),
                first_channel(self.channel_areas@, x as int, y as int, idx as int) is None,
            decreases self.channel_areas@.len() - idx,
        {
            let area = &self.channel_areas[idx];
            let (ax, ay, aw, ah) = area.bounds;
            if x >= ax && x < ax + aw && y >= ay && y < ay + ah {
                proof {
                    assert(first_channel(self.channel_areas@, x as int, y as int, idx as int + 1) == Some(idx));
                    lemma_first_channel_stays(
                        self.channel_areas@,
                        x as int,
                        y as int,
                        idx as int + 1,
                    );
                }
                let rows = &area.control_rows;
                let mut j: usize = 0;
                while j < rows.len()
                    invariant
                        j <= rows@.len(),
                        idx < self.channel_areas@.len(),
                        rows@ == self.channel_areas@[idx as int].control_rows@,
                        first_channel(self.channel_areas@, x as int, y as int, self.channel_areas@.len() as int) == Some(idx),
                        !control_under_found(rows@, y as int, j as int),
                    decreases rows@.len() - j,
                {
                    let (control, y_start, y_end) = rows[j];
                    if y >= y_start && y < y_end {
                        proof {
                            assert(control_under_found(rows@, y as int, j as int + 1));
                            assert(control_under(rows@, y as int, j as int + 1) == control);
                            lemma_control_under_stays(rows@, y as int, j as int + 1);
                        }
                        return Some((idx, control));
                    }
                    j = j + 1;
                }
                return Some((idx, ChannelControl::Fader));
            }
            idx = idx + 1;
        }
        proof {
            lemma_first_channel_stays(
                self.channel_areas@,
                x as int,
                y as int,
                self.channel_areas@.len() as int,
            );
        }
        None
    }
}

proof fn lemma_first_pad_stays(pads: Seq<(usize, u16, u16, u16, u16)>, px: int, py: int, n: int)
    requires
        0 <= n <= pads.len(),
    ensures
        forall|m: int|
            n <= m <= pads.len() ==> #[trigger] first_pad(pads, px, py, m) == first_pad(pads, px, py, n)
                || first_pad(pads, px, py, n) is None,
        forall|m: int|
            n <= m <= pads.len() && first_pad(pads, px, py, n) is Some ==> #[trigger] first_pad(
                pads,
                px,
                py,
                m,
            ) == first_pad(pads, px, py, n),
    decreases pads.len() - n,
{
    if n < pads.len() {
        lemma_first_pad_stays(pads, px, py, n + 1);
    }
}

proof fn lemma_first_channel_stays(areas: Seq<ChannelArea>, px: int, py: int, n: int)
    requires
        0 <= n <= areas.len(),
    ensures
        forall|m: int|
            n <= m <= areas.len() && first_channel(areas, px, py, n) is Some
                ==> #[trigger] first_channel(areas, px, py, m) == first_channel(areas, px, py, n),
    decreases areas.len() - n,
{
    if n < areas.len() {
        lemma_first_channel_stays(areas, px, py, n + 1);
    }
}

proof fn lemma_control_under_stays(rows: Seq<(ChannelControl, u16, u16)>, py: int, n: int)
    requires
        0 <= n <= rows.len(),
        control_under_found(rows, py, n),
    ensures
        forall|m: int|
            n <= m <= rows.len() ==> #[trigger] control_under(rows, py, m) == control_under(
                rows,
                py,
                n,
            ) && control_under_found(rows, py, m),
    decreases rows.len() - n,
{
    if n < rows.len() {
        lemma_control_under_stays(rows, py, n + 1);
    }
}

} // verus!

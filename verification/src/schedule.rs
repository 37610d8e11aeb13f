//! The polling schedule of the UI tick: which slow queries a tick runs,
//! when a route's metadata, playlist and timeline are read again, when a
//! player's state is trusted, and keeping the picker's selection when its
//! list is scanned again.
use vstd::prelude::*;
use crate::picker::{matching_indices, SourcePickerItem, SourcePickerState};
use crate::text::{paths_equal, same_path};

verus! {

/// Tick counters of the polling schedule; each wraps from 255 to 0.
#[derive(Debug, Clone, Copy, PartialEq, Eq, Structural)]
pub struct PollSchedule {
    pub mpv_poll: u8,
    pub source_refresh: u8,
    pub tidal_bpm_poll: u8,
    pub route_meta_poll: u8,
}

/// The slow queries that one tick runs.
#[derive(Debug, Clone, Copy, PartialEq, Eq, Structural)]
pub struct TickPolls {
    /// Read MPV's play state and the engine's positions (every 25 ticks).
    pub mpv_state: bool,
    /// Read the tempo that Tidal publishes (every 100 ticks).
    pub tidal_bpm: bool,
    /// Read the routes' metadata for tempo and key (every other tick).
    pub route_meta: bool,
    /// Scan the picker's socket list again (every 50 ticks while it is open
    /// on that tab).
    pub source_refresh: bool,
}

/// A counter advanced by one tick.
pub open spec fn next_count(c: u8) -> u8 {
    if c == 255 {
        0
    } else {
        (c + 1) as u8
    }
}

impl PollSchedule {
    /// All counters at zero.
    pub fn new() -> (r: Self)
        ensures
            r == (PollSchedule { mpv_poll: 0, source_refresh: 0, tidal_bpm_poll: 0, route_meta_poll: 0 }),
    {
        PollSchedule { mpv_poll: 0, source_refresh: 0, tidal_bpm_poll: 0, route_meta_poll: 0 }
    }

    /// Advances the counters by one tick and tells which queries run: each
    /// runs when its counter, once advanced, is a multiple of its period.
    /// The picker's counter advances only while the picker is open on the
    /// socket list.
    pub fn tick(&mut self, picking_sockets: bool) -> (polls: TickPolls)
        ensures
            final(self).mpv_poll == next_count(old(self).mpv_poll),
            final(self).tidal_bpm_poll == next_count(old(self).tidal_bpm_poll),
            final(self).route_meta_poll == next_count(old(self).route_meta_poll),
            final(self).source_refresh == if picking_sockets {
                next_count(old(self).source_refresh)
            } else {
                old(self).source_refresh
            },
            polls.mpv_state == (final(self).mpv_poll % 25 == 0),
            polls.tidal_bpm == (final(self).tidal_bpm_poll % 100 == 0),
            polls.route_meta == (final(self).route_meta_poll % 2 == 0),
            polls.source_refresh == (picking_sockets && final(self).source_refresh % 50 == 0),
    {
        self.mpv_poll = self.mpv_poll.wrapping_add(1);
        self.tidal_bpm_poll = self.tidal_bpm_poll.wrapping_add(1);
        self.route_meta_poll = self.route_meta_poll.wrapping_add(1);
        let mut refresh = false;
        if picking_sockets {
            self.source_refresh = self.source_refresh.wrapping_add(1);
            refresh = self.source_refresh % 50 == 0;
        }
        TickPolls {
            mpv_state: self.mpv_poll % 25 == 0,
            tidal_bpm: self.tidal_bpm_poll % 100 == 0,
            route_meta: self.route_meta_poll % 2 == 0,
            source_refresh: refresh,
        }
    }

    /// Restarts the metadata counter (when a deck is cleared).
    pub fn reset_route_meta(&mut self)
        ensures
            *final(self) == (PollSchedule { route_meta_poll: 0, ..*old(self) }),
    {
        self.route_meta_poll = 0;
    }
}

/// The counter after `k` ticks.
pub open spec fn count_after(c: u8, k: nat) -> u8
    decreases k,
{
    if k == 0 {
        c
    } else {
        next_count(count_after(c, (k - 1) as nat))
    }
}

proof fn lemma_count_after(c: u8, k: nat)
    requires
        k <= 256,
    ensures
        count_after(c, k) == (c + k) % 256,
    decreases k,
{
    if k > 0 {
        lemma_count_after(c, (k - 1) as nat);
    }
}

/// MPV's state is read at least once in any 25 consecutive ticks, and the
/// routes' metadata in any 2.
pub proof fn lemma_polls_come_round(c: u8)
    ensures
        exists|k: nat| 1 <= k <= 25 && #[trigger] count_after(c, k) % 25 == 0,
        count_after(c, 1) % 2 == 0 || count_after(c, 2) % 2 == 0,
{
    lemma_count_after(c, 1);
    lemma_count_after(c, 2);
    let k: nat = if c >= 231 {
        (256 - c) as nat
    } else {
        (25 - c % 25) as nat
    };
    lemma_count_after(c, k);
    assert(count_after(c, k) % 25 == 0);
}

/// The first index of an item whose path is `path`.
pub open spec fn index_of_path(items: Seq<SourcePickerItem>, path: Seq<char>, n: int) -> Option<usize>
    decreases n,
{
    if n <= 0 {
        None
    } else {
        match index_of_path(items, path, n - 1) {
            Some(i) => Some(i),
            None => if same_path(items[n - 1].path@, path) {
                Some((n - 1) as usize)
            } else {
                None
            },
        }
    }
}

/// The first position at which a list holds a value.
pub open spec fn position_of(v: Seq<usize>, x: usize, n: int) -> Option<usize>
    decreases n,
{
    if n <= 0 {
        None
    } else {
        match position_of(v, x, n - 1) {
            Some(i) => Some(i),
            None => if v[n - 1] == x {
                Some((n - 1) as usize)
            } else {
                None
            },
        }
    }
}

fn find_path(items: &Vec<SourcePickerItem>, path: &str) -> (r: Option<usize>)
    ensures
        r == index_of_path(items@, path@, items@.len() as int),
{
    let mut i: usize = 0;
    while i < items.len()
        invariant
            i <= items@.len(),
            index_of_path(items@, path@, i as int) is None,
        decreases items@.len() - i,
    {
        if paths_equal(items[i].path.as_str(), path) {
            proof {
                lemma_index_of_path_stays(items@, path@, i as int + 1, items@.len() as int);
            }
            return Some(i);
        }
        i = i + 1;
    }
    None
}

proof fn lemma_index_of_path_stays(items: Seq<SourcePickerItem>, path: Seq<char>, m: int, n: int)
    requires
        0 <= m <= n,
        index_of_path(items, path, m) is Some,
    ensures
        index_of_path(items, path, n) == index_of_path(items, path, m),
    decreases n - m,
{
    if m < n {
        lemma_index_of_path_stays(items, path, m, n - 1);
    }
}

proof fn lemma_position_stays(v: Seq<usize>, x: usize, m: int, n: int)
    requires
        0 <= m <= n,
        position_of(v, x, m) is Some,
    ensures
        position_of(v, x, n) == position_of(v, x, m),
    decreases n - m,
{
    if m < n {
        lemma_position_stays(v, x, m, n - 1);
    }
}

fn find_position(v: &Vec<usize>, x: usize) -> (r: Option<usize>)
    ensures
        r == position_of(v@, x, v@.len() as int),
{
    let mut i: usize = 0;
    while i < v.len()
        invariant
            i <= v@.len(),
            position_of(v@, x, i as int) is None,
        decreases v@.len() - i,
    {
        if v[i] == x {
            proof {
                lemma_position_stays(v@, x, i as int + 1, v@.len() as int);
            }
            return Some(i);
        }
        i = i + 1;
    }
    None
}

impl SourcePickerState {
    /// After the list was scanned again, selects again the entry whose path
    /// was selected before: when an item with that path is still listed,
    /// the list is filtered again and the selection moves to that item if
    /// the filter keeps it (else nothing is selected); otherwise nothing
    /// changes.
    pub fn restore_selection(&mut self, prev_path: Option<String>)
        ensures
            match prev_path {
                None => *final(self) == *old(self),
                Some(p) => match index_of_path(old(self).items@, p@, old(self).items@.len() as int) {
                    None => *final(self) == *old(self),
                    Some(idx) => {
                        let f = matching_indices(
                            old(self).items@,
                            old(self).query@,
                            old(self).items@.len() as int,
                        );
                        &&& final(self).filtered@ == f
                        &&& final(self).selected == match position_of(f, idx, f.len() as int) {
                            Some(k) => k,
                            None => f.len() as usize,
                        }
                        &&& final(self).scroll_offset == 0
                        &&& final(self).items == old(self).items
                        &&& final(self).query == old(self).query
                        &&& final(self).tab == old(self).tab
                        &&& final(self).tab_focused == old(self).tab_focused
                        &&& final(self).input_mode == old(self).input_mode
                        &&& final(self).current_dir == old(self).current_dir
                        &&& final(self).root_dir == old(self).root_dir
                        &&& final(self).visible_height == old(self).visible_height
                        &&& final(self).tab_scroll_offset == old(self).tab_scroll_offset
                    },
                },
            },
    {
        if let Some(path) = prev_path {
            if let Some(new_idx) = find_path(&self.items, path.as_str()) {
                self.filter();
                if let Some(k) = find_position(&self.filtered, new_idx) {
                    self.selected = k;
                }
            }
        }
    }
}

/// `now - then`, or 0 when `then` is later.
pub open spec fn elapsed(now: u64, then: u64) -> u64 {
    if now > then {
        (now - then) as u64
    } else {
        0
    }
}

/// Whether a route deck's metadata is read on this pass: always for the
/// selected deck and for a deck not read yet, otherwise once 200 ms have
/// passed since the last read.
pub fn route_meta_due(selected: bool, last_ms: u64, now_ms: u64) -> (due: bool)
    ensures
        due == (selected || last_ms == 0 || elapsed(now_ms, last_ms) >= 200),
{
    if !selected && last_ms != 0 {
        let age = now_ms.saturating_sub(last_ms);
        if age < 200 {
            return false;
        }
    }
    true
}

/// Whether a cached answer about a route's playlist (is there a previous
/// and a next track) is still used: it is less than 250 ms old.
pub fn nav_cache_fresh(cached: bool, last_ms: u64, now_ms: u64) -> (fresh: bool)
    ensures
        fresh == (cached && elapsed(now_ms, last_ms) < 250),
{
    cached && now_ms.saturating_sub(last_ms) < 250
}

/// Age in milliseconds of a timeline snapshot made at `generated_ms`
/// (0 when it carries no time), kept in 32 bits.
pub fn timeline_age(now_ms: u64, generated_ms: u64) -> (age: u32)
    ensures
        age == if generated_ms > 0 {
            elapsed(now_ms, generated_ms) as u32
        } else {
            0
        },
{
    if generated_ms > 0 {
        #[verifier::truncate] (now_ms.saturating_sub(generated_ms) as u32)
    } else {
        0
    }
}

/// Whether a route's timeline reader is started again: its channel was
/// disconnected, or it sent nothing this pass and its latest snapshot is
/// more than 300 ms old.
pub fn restart_timeline_reader(disconnected: bool, updates: u32, age_ms: u32) -> (restart: bool)
    ensures
        restart == (disconnected || (updates == 0 && age_ms > 300)),
{
    disconnected || (updates == 0 && age_ms > 300)
}

/// Records the outcome of polling an MPV deck and tells whether the deck is
/// cleared: a poll that cannot read the play state counts as a failure, and
/// the second failure in a row clears the deck; a good poll resets the
/// count.
pub fn note_poll_outcome(failures: &mut u8, pause_ok: bool) -> (clear: bool)
    requires
        !pause_ok ==> *old(failures) < u8::MAX,
    ensures
        *final(failures) == if pause_ok {
            0
        } else {
            (*old(failures) + 1) as u8
        },
        clear == (!pause_ok && *old(failures) + 1 >= 2),
{
    if !pause_ok {
        *failures = *failures + 1;
        return *failures >= 2;
    }
    *failures = 0;
    false
}

/// Whether an MPV deck's volume is read back into its fader: not while a
/// deck is soloed (solo mutes the players), nor within a second of the
/// mixer pushing a volume to it.
pub fn volume_readback_allowed(solo_active: bool, last_push_ms: u64, now_ms: u64) -> (ok: bool)
    ensures
        ok == (!solo_active && elapsed(now_ms, last_push_ms) >= 1000),
{
    !solo_active && now_ms.saturating_sub(last_push_ms) >= 1000
}

} // verus!

//! Mute, solo and button toggles of the channel strips, and the fader levels
//! kept aside while a channel is soloed.
//!
//! A fader level is only ever copied here, never computed with, so its type
//! is a parameter `L`.
use vstd::prelude::*;
use std::collections::HashMap;
use crate::controls::{ChannelControl, GlobalControl, SelectionFocus};
use crate::selection::MixerSelection;

verus! {

/// Index of the CUE channel (deck C), which is stored apart from the others.
pub const CUE_CHANNEL: usize = 2;

/// The switches of one channel strip, and its fader level.
#[derive(Debug, Clone, Copy)]
pub struct ChannelSwitches<L> {
    /// Main fader level
    pub fader: L,
    /// Mute state
    pub muted: bool,
    /// Solo state
    pub solo: bool,
    /// Is the source currently playing audio
    pub playing: bool,
    /// EQ kill switches
    pub eq_low_kill: bool,
    pub eq_mid_kill: bool,
    pub eq_high_kill: bool,
}

/// The switches of the whole mixer, with the fader levels saved before solo
/// (channel index to level; the CUE channel's level is kept apart).
#[derive(Debug)]
pub struct MixerSwitches<L> {
    /// Deck channels (A and B)
    pub channels: Vec<ChannelSwitches<L>>,
    /// CUE channel (deck C)
    pub cue_channel: ChannelSwitches<L>,
    /// Master mute
    pub master_muted: bool,
    /// Master play state
    pub master_playing: bool,
    /// Is any solo active (for solo-in-place logic)
    pub solo_active: bool,
    /// Per-channel fader levels saved before solo was activated.
    pub pre_solo_faders: HashMap<usize, L>,
    /// CUE channel fader saved before solo was activated
    pub pre_solo_cue_fader: Option<L>,
}

/// What the mixer switches hold, as mathematical values.
#[verifier::ext_equal]
pub struct SwitchesView<L> {
    pub channels: Seq<ChannelSwitches<L>>,
    pub cue_channel: ChannelSwitches<L>,
    pub master_muted: bool,
    pub master_playing: bool,
    pub solo_active: bool,
    pub pre_solo_faders: Map<usize, L>,
    pub pre_solo_cue_fader: Option<L>,
}

impl<L> View for MixerSwitches<L> {
    type V = SwitchesView<L>;

    open spec fn view(&self) -> SwitchesView<L> {
        SwitchesView {
            channels: self.channels@,
            cue_channel: self.cue_channel,
            master_muted: self.master_muted,
            master_playing: self.master_playing,
            solo_active: self.solo_active,
            pre_solo_faders: self.pre_solo_faders@,
            pre_solo_cue_fader: self.pre_solo_cue_fader,
        }
    }
}

/// A strip with the button under `control` flipped (other controls are not
/// buttons and leave it as it is).
pub open spec fn toggled<L>(c: ChannelSwitches<L>, control: ChannelControl) -> ChannelSwitches<L> {
    match control {
        ChannelControl::PlayPause => ChannelSwitches { playing: !c.playing, ..c },
        ChannelControl::Mute => ChannelSwitches { muted: !c.muted, ..c },
        ChannelControl::Solo => ChannelSwitches { solo: !c.solo, ..c },
        ChannelControl::EqLowKill => ChannelSwitches { eq_low_kill: !c.eq_low_kill, ..c },
        ChannelControl::EqMidKill => ChannelSwitches { eq_mid_kill: !c.eq_mid_kill, ..c },
        ChannelControl::EqHighKill => ChannelSwitches { eq_high_kill: !c.eq_high_kill, ..c },
        _ => c,
    }
}

/// Some strip of `chs` is soloed.
pub open spec fn any_solo<L>(chs: Seq<ChannelSwitches<L>>) -> bool {
    exists|i: int| 0 <= i < chs.len() && #[trigger] chs[i].solo
}

/// Some strip of `chs` is muted.
pub open spec fn any_muted<L>(chs: Seq<ChannelSwitches<L>>) -> bool {
    exists|i: int| 0 <= i < chs.len() && #[trigger] chs[i].muted
}

impl<L> SwitchesView<L> {
    /// Is any deck (A, B, CUE) or the master muted.
    pub open spec fn mute_active(self) -> bool {
        any_muted(self.channels) || self.cue_channel.muted || self.master_muted
    }

    /// The button `control` of channel `sel` flipped (channel 2 is the CUE
    /// channel; an unknown channel changes nothing); toggling a solo
    /// recomputes whether a deck channel is soloed.
    pub open spec fn with_toggle(self, sel: usize, control: ChannelControl) -> Self {
        if sel == CUE_CHANNEL {
            SwitchesView {
                cue_channel: toggled(self.cue_channel, control),
                solo_active: if control == ChannelControl::Solo {
                    any_solo(self.channels)
                } else {
                    self.solo_active
                },
                ..self
            }
        } else if sel < self.channels.len() {
            let chs = self.channels.update(sel as int, toggled(self.channels[sel as int], control));
            SwitchesView {
                channels: chs,
                solo_active: if control == ChannelControl::Solo {
                    any_solo(chs)
                } else {
                    self.solo_active
                },
                ..self
            }
        } else {
            self
        }
    }

    /// Channel `idx`'s fader saved before it enters solo, unless a level is
    /// saved for it already (that one is kept).
    pub open spec fn with_saved(self, idx: usize) -> Self {
        if idx == CUE_CHANNEL {
            if self.pre_solo_cue_fader is None {
                SwitchesView { pre_solo_cue_fader: Some(self.cue_channel.fader), ..self }
            } else {
                self
            }
        } else if idx < self.channels.len() && !self.pre_solo_faders.contains_key(idx) {
            SwitchesView {
                pre_solo_faders: self.pre_solo_faders.insert(idx, self.channels[idx as int].fader),
                ..self
            }
        } else {
            self
        }
    }

    /// A saved level for channel `idx` exists and the channel exists, so a
    /// restore puts it back.
    pub open spec fn restore_happens(self, idx: usize) -> bool {
        if idx == CUE_CHANNEL {
            self.pre_solo_cue_fader is Some
        } else {
            self.pre_solo_faders.contains_key(idx) && idx < self.channels.len()
        }
    }

    /// Channel `idx`'s saved level put back on its fader and forgotten.  For
    /// a deck channel the saved level is forgotten even when the channel
    /// does not exist.
    pub open spec fn with_restored(self, idx: usize) -> Self {
        if idx == CUE_CHANNEL {
            match self.pre_solo_cue_fader {
                Some(f) => SwitchesView {
                    cue_channel: ChannelSwitches { fader: f, ..self.cue_channel },
                    pre_solo_cue_fader: None,
                    ..self
                },
                None => self,
            }
        } else if self.restore_happens(idx) {
            SwitchesView {
                channels: self.channels.update(
                    idx as int,
                    ChannelSwitches { fader: self.pre_solo_faders[idx], ..self.channels[idx as int] },
                ),
                pre_solo_faders: self.pre_solo_faders.remove(idx),
                ..self
            }
        } else {
            SwitchesView { pre_solo_faders: self.pre_solo_faders.remove(idx), ..self }
        }
    }

    /// Deck channel `i` taken out of solo and its saved level restored.
    pub open spec fn with_unsoloed(self, i: usize) -> Self {
        SwitchesView {
            channels: self.channels.update(i as int, ChannelSwitches { solo: false, ..self.channels[i as int] }),
            ..self
        }.with_restored(i)
    }

    /// Deck channels `0..n` other than `keep` taken out of solo, in order.
    pub open spec fn unsolo_below(self, keep: usize, n: nat) -> Self
        decreases n,
    {
        if n == 0 {
            self
        } else {
            let w = self.unsolo_below(keep, (n - 1) as nat);
            let i = (n - 1) as usize;
            if i != keep && i < w.channels.len() && w.channels[i as int].solo {
                w.with_unsoloed(i)
            } else {
                w
            }
        }
    }

    /// Every soloed channel other than `keep` taken out of solo, the CUE
    /// channel last.
    pub open spec fn with_others_unsoloed(self, keep: usize) -> Self {
        let w = self.unsolo_below(keep, self.channels.len());
        if w.cue_channel.solo {
            SwitchesView { cue_channel: ChannelSwitches { solo: false, ..w.cue_channel }, ..w }.with_restored(
                CUE_CHANNEL,
            )
        } else {
            w
        }
    }

    /// Solo flag of the channel shown at index `idx` (the CUE channel at
    /// `deck_c`; false for an unknown channel).
    pub open spec fn solo_of(self, idx: usize, deck_c: usize) -> bool {
        if idx == deck_c {
            self.cue_channel.solo
        } else if idx < self.channels.len() {
            self.channels[idx as int].solo
        } else {
            false
        }
    }

    /// The button under the selection toggled.  Solo is exclusive: turning
    /// it on saves the channel's fader and takes every other channel out of
    /// solo (restoring their faders); turning it off restores the fader.
    pub open spec fn with_current_toggled(self, sel: MixerSelection) -> Self {
        match sel.focus {
            SelectionFocus::Channel(ch) => {
                if sel.selected_control == ChannelControl::Solo {
                    let v = if !self.solo_of(ch, sel.deck_c_channel) {
                        self.with_saved(ch).with_others_unsoloed(ch).with_toggle(
                            sel.selected_channel,
                            ChannelControl::Solo,
                        )
                    } else {
                        self.with_toggle(sel.selected_channel, ChannelControl::Solo).with_restored(ch)
                    };
                    SwitchesView {
                        solo_active: any_solo(v.channels) || v.cue_channel.solo,
                        ..v
                    }
                } else {
                    self.with_toggle(sel.selected_channel, sel.selected_control)
                }
            },
            SelectionFocus::Global => {
                if sel.selected_global == GlobalControl::MasterMute {
                    SwitchesView { master_muted: !self.master_muted, ..self }
                } else if sel.selected_global == GlobalControl::MasterPlayPause {
                    SwitchesView { master_playing: !self.master_playing, ..self }
                } else {
                    self
                }
            },
        }
    }
}

impl<L: Copy> ChannelSwitches<L> {
    /// Flip the button under `control`.
    fn toggle(&mut self, control: ChannelControl)
        ensures
            *final(self) == toggled(*old(self), control),
    {
        match control {
            ChannelControl::PlayPause => self.playing = !self.playing,
            ChannelControl::Mute => self.muted = !self.muted,
            ChannelControl::Solo => self.solo = !self.solo,
            ChannelControl::EqLowKill => self.eq_low_kill = !self.eq_low_kill,
            ChannelControl::EqMidKill => self.eq_mid_kill = !self.eq_mid_kill,
            ChannelControl::EqHighKill => self.eq_high_kill = !self.eq_high_kill,
            _ => {},
        }
    }
}


impl<L: Copy> MixerSwitches<L> {
    /// Recompute whether any deck channel is soloed.
    fn update_solo_state(&mut self)
        ensures
            final(self)@ == (SwitchesView { solo_active: any_solo(old(self)@.channels), ..old(self)@ }),
    {
        let mut any = false;
        let mut i: usize = 0;
        while i < self.channels.len()
            invariant
                i <= self.channels.len(),
                any <==> exists|j: int| 0 <= j < i && #[trigger] self.channels@[j].solo,
            decreases self.channels.len() - i,
        {
            if self.channels[i].solo {
                any = true;
            }
            i += 1;
        }
        self.solo_active = any;
    }

    /// Toggle the button under `control` on channel `selected_channel`
    /// (channel 2 is the CUE channel).
    pub fn toggle_selected(&mut self, selected_channel: usize, control: ChannelControl)
        ensures
            final(self)@ == old(self)@.with_toggle(selected_channel, control),
    {
        if selected_channel == CUE_CHANNEL {
            self.cue_channel.toggle(control);
            if matches!(control, ChannelControl::Solo) {
                self.update_solo_state();
            }
        } else if selected_channel < self.channels.len() {
            let mut c = self.channels[selected_channel];
            c.toggle(control);
            self.channels.set(selected_channel, c);
            if matches!(control, ChannelControl::Solo) {
                self.update_solo_state();
            }
        }
    }

    /// Check if any deck (A, B, CUE) or master is muted
    pub fn mute_active(&self) -> (m: bool)
        ensures
            m == self@.mute_active(),
    {
        let mut i: usize = 0;
        while i < self.channels.len()
            invariant
                i <= self.channels.len(),
                forall|j: int| 0 <= j < i ==> !(#[trigger] self.channels@[j].muted),
            decreases self.channels.len() - i,
        {
            if self.channels[i].muted {
                return true;
            }
            i += 1;
        }
        self.cue_channel.muted || self.master_muted
    }

    /// Save a channel's fader level before it enters solo mode.
    /// If the channel already has a saved level, this is a no-op (preserves the original).
    pub fn save_fader_for_solo(&mut self, channel_idx: usize)
        ensures
            final(self)@ == old(self)@.with_saved(channel_idx),
    {
        if channel_idx == CUE_CHANNEL {
            if self.pre_solo_cue_fader.is_none() {
                self.pre_solo_cue_fader = Some(self.cue_channel.fader);
            }
        } else if channel_idx < self.channels.len() {
            if !self.pre_solo_faders.contains_key(&channel_idx) {
                let f = self.channels[channel_idx].fader;
                self.pre_solo_faders.insert(channel_idx, f);
            }
        }
    }

    /// Toggle the button under the selection (on a channel: play/pause,
    /// mute, solo, EQ kills; in the master section: mute and play/pause).
    /// Solo is exclusive: turning it on saves the channel's fader and takes
    /// every other channel out of solo, restoring their faders; turning it
    /// off restores the channel's fader.
    pub fn toggle_current_control(&mut self, sel: &MixerSelection)
        ensures
            final(self)@ == old(self)@.with_current_toggled(*sel),
    {
        match sel.focus {
            SelectionFocus::Channel(ch_idx) => {
                if matches!(sel.selected_control, ChannelControl::Solo) {
                    let was_solo = if ch_idx == sel.deck_c_channel {
                        self.cue_channel.solo
                    } else if ch_idx < self.channels.len() {
                        self.channels[ch_idx].solo
                    } else {
                        false
                    };
                    if !was_solo {
                        self.save_fader_for_solo(ch_idx);
                        self.unsolo_others(ch_idx);
                        self.toggle_selected(sel.selected_channel, ChannelControl::Solo);
                    } else {
                        self.toggle_selected(sel.selected_channel, ChannelControl::Solo);
                        self.restore_fader_from_solo(ch_idx);
                    }
                    self.update_solo_state();
                    self.solo_active = self.solo_active || self.cue_channel.solo;
                } else {
                    self.toggle_selected(sel.selected_channel, sel.selected_control);
                }
            },
            SelectionFocus::Global => {
                if matches!(sel.selected_global, GlobalControl::MasterMute) {
                    self.master_muted = !self.master_muted;
                } else if matches!(sel.selected_global, GlobalControl::MasterPlayPause) {
                    self.master_playing = !self.master_playing;
                }
            },
        }
    }

    /// Take every soloed channel other than `keep` out of solo and restore
    /// its saved fader, the CUE channel last.
    fn unsolo_others(&mut self, keep: usize)
        ensures
            final(self)@ == old(self)@.with_others_unsoloed(keep),
    {
        let ghost v0 = self@;
        let n = self.channels.len();
        let mut i: usize = 0;
        while i < n
            invariant
                i <= n,
                n == v0.channels.len(),
                self@ == v0.unsolo_below(keep, i as nat),
                self.channels@.len() == n,
            decreases n - i,
        {
            if i != keep && self.channels[i].solo {
                let mut c = self.channels[i];
                c.solo = false;
                self.channels.set(i, c);
                self.restore_fader_from_solo(i);
            }
            proof {
                lemma_unsolo_below_len(v0, keep, (i + 1) as nat);
            }
            i += 1;
        }
        if self.cue_channel.solo {
            self.cue_channel.solo = false;
            self.restore_fader_from_solo(CUE_CHANNEL);
        }
    }

    /// Restore a channel's fader level saved before solo was activated.
    /// Returns true if restoration happened.
    pub fn restore_fader_from_solo(&mut self, channel_idx: usize) -> (restored: bool)
        ensures
            restored == old(self)@.restore_happens(channel_idx),
            final(self)@ == old(self)@.with_restored(channel_idx),
    {
        if channel_idx == CUE_CHANNEL {
            match self.pre_solo_cue_fader {
                Some(f) => {
                    self.pre_solo_cue_fader = None;
                    self.cue_channel.fader = f;
                    true
                },
                None => false,
            }
        } else {
            match self.pre_solo_faders.remove(&channel_idx) {
                Some(f) => {
                    if channel_idx < self.channels.len() {
                        let mut c = self.channels[channel_idx];
                        c.fader = f;
                        self.channels.set(channel_idx, c);
                        true
                    } else {
                        false
                    }
                },
                None => false,
            }
        }
    }
}


/// Taking channels out of solo keeps the number of channels.
pub proof fn lemma_unsolo_below_len<L>(v: SwitchesView<L>, keep: usize, n: nat)
    ensures
        v.unsolo_below(keep, n).channels.len() == v.channels.len(),
    decreases n,
{
    if n > 0 {
        lemma_unsolo_below_len(v, keep, (n - 1) as nat);
    }
}


/// The fader level of channel `idx` (the CUE channel at index 2).
pub open spec fn fader_of<L>(v: SwitchesView<L>, idx: usize) -> L {
    if idx == CUE_CHANNEL {
        v.cue_channel.fader
    } else {
        v.channels[idx as int].fader
    }
}

/// The level saved for channel `idx`, if any.
pub open spec fn saved_level<L>(v: SwitchesView<L>, idx: usize) -> Option<L> {
    if idx == CUE_CHANNEL {
        v.pre_solo_cue_fader
    } else if v.pre_solo_faders.contains_key(idx) {
        Some(v.pre_solo_faders[idx])
    } else {
        None
    }
}

/// `v` with channel `idx`'s fader moved to `x`.
pub open spec fn with_fader<L>(v: SwitchesView<L>, idx: usize, x: L) -> SwitchesView<L> {
    if idx == CUE_CHANNEL {
        SwitchesView { cue_channel: ChannelSwitches { fader: x, ..v.cue_channel }, ..v }
    } else {
        SwitchesView {
            channels: v.channels.update(idx as int, ChannelSwitches { fader: x, ..v.channels[idx as int] }),
            ..v
        }
    }
}

/// Each channel's level is saved once, when it first enters solo: saving
/// it again changes nothing, saving another channel leaves it as it was,
/// and the first save records the fader as it stood then.
pub proof fn lemma_save_keeps_first<L>(v: SwitchesView<L>, i: usize, j: usize)
    requires
        i == CUE_CHANNEL || i < v.channels.len(),
    ensures
        v.with_saved(i).with_saved(i) == v.with_saved(i),
        j != i ==> saved_level(v.with_saved(i).with_saved(j), i) == saved_level(v.with_saved(i), i),
        saved_level(v.with_saved(i), i) == match saved_level(v, i) {
            Some(f) => Some(f),
            None => Some(fader_of(v, i)),
        },
{
    assert(v.with_saved(i).with_saved(i) =~= v.with_saved(i));
}

/// Restoring undoes the save: however the fader moved in between, restoring
/// a saved channel puts back the level it had when it entered solo, and
/// forgets it, so a second restore does nothing.
pub proof fn lemma_restore_undoes_save<L>(v: SwitchesView<L>, i: usize, x: L)
    requires
        i == CUE_CHANNEL || i < v.channels.len(),
        saved_level(v, i) is None,
    ensures
        ({
            let w = with_fader(v.with_saved(i), i, x).with_restored(i);
            &&& with_fader(v.with_saved(i), i, x).restore_happens(i)
            &&& fader_of(w, i) == fader_of(v, i)
            &&& saved_level(w, i) is None
            &&& !w.restore_happens(i)
            &&& w.with_restored(i) == w
        }),
{
    let w = with_fader(v.with_saved(i), i, x).with_restored(i);
    assert(w.with_restored(i) =~= w);
}

/// Taking channels out of solo keeps the number of channels, clears the
/// solo of every channel below `n` but `keep`, and leaves the other solo
/// flags as they were.
pub proof fn lemma_unsolo_below<L>(v: SwitchesView<L>, keep: usize, n: nat)
    requires
        n <= v.channels.len() <= usize::MAX,
    ensures
        ({
            let w = v.unsolo_below(keep, n);
            &&& w.channels.len() == v.channels.len()
            &&& forall|j: int| 0 <= j < n && j != keep ==> !(#[trigger] w.channels[j].solo)
            &&& forall|j: int| (n <= j < v.channels.len() || j == keep) && 0 <= j < v.channels.len()
                ==> (#[trigger] w.channels[j].solo) == v.channels[j].solo
            &&& w.cue_channel.solo == v.cue_channel.solo
        }),
    decreases n,
{
    if n > 0 {
        lemma_unsolo_below(v, keep, (n - 1) as nat);
        let w = v.unsolo_below(keep, (n - 1) as nat);
        let i = (n - 1) as usize;
        if i != keep && i < w.channels.len() && w.channels[i as int].solo {
            let y = SwitchesView {
                channels: w.channels.update(i as int, ChannelSwitches { solo: false, ..w.channels[i as int] }),
                ..w
            };
            let x = y.with_restored(i);
            assert(x == w.with_unsoloed(i));
            assert(x.channels.len() == w.channels.len());
            assert(x.cue_channel.solo == w.cue_channel.solo);
            assert forall|j: int| 0 <= j < x.channels.len() implies (#[trigger] x.channels[j].solo) == y.channels[j].solo by {}
        }
    }
}

/// With no other channel soloed, taking the others out of solo changes
/// nothing.
pub proof fn lemma_unsolo_below_none<L>(v: SwitchesView<L>, keep: usize, n: nat)
    requires
        n <= v.channels.len() <= usize::MAX,
        forall|j: int| 0 <= j < v.channels.len() && j != keep ==> !(#[trigger] v.channels[j].solo),
    ensures
        v.unsolo_below(keep, n) == v,
    decreases n,
{
    if n > 0 {
        lemma_unsolo_below_none(v, keep, (n - 1) as nat);
    }
}

/// Solo is exclusive: turning it on for the selected channel leaves that
/// channel the only soloed one, and marks solo as active.  (With the CUE
/// channel selected this needs no third deck channel, which would share
/// its index.)
pub proof fn lemma_solo_is_exclusive<L>(v: SwitchesView<L>, sel: MixerSelection, ch: usize)
    requires
        sel.focus == SelectionFocus::Channel(ch),
        sel.selected_channel == ch,
        sel.selected_control == ChannelControl::Solo,
        sel.deck_c_channel == CUE_CHANNEL,
        v.channels.len() <= usize::MAX,
        ch == CUE_CHANNEL || ch < v.channels.len(),
        ch == CUE_CHANNEL ==> v.channels.len() <= CUE_CHANNEL,
        !v.solo_of(ch, CUE_CHANNEL),
    ensures
        ({
            let w = v.with_current_toggled(sel);
            &&& w.solo_of(ch, CUE_CHANNEL)
            &&& forall|j: int| 0 <= j < w.channels.len() && j != ch ==> !(#[trigger] w.channels[j].solo)
            &&& ch != CUE_CHANNEL ==> !w.cue_channel.solo
            &&& w.solo_active
            &&& w.channels.len() == v.channels.len()
        }),
{
    let s = v.with_saved(ch);
    lemma_unsolo_below(s, ch, s.channels.len());
    let u = s.with_others_unsoloed(ch);
    let t = u.with_toggle(ch, ChannelControl::Solo);
    if ch == CUE_CHANNEL {
        assert(t.cue_channel.solo);
    } else {
        assert(t.channels[ch as int].solo);
        assert(any_solo(t.channels));
    }
}

/// Solo on and off again gives the channel back its fader: from a mixer
/// with nothing soloed and nothing saved, toggling the selected channel's
/// solo twice restores its fader level, leaves nothing soloed, saved or
/// active.
pub proof fn lemma_solo_twice_restores<L>(v: SwitchesView<L>, sel: MixerSelection, ch: usize)
    requires
        sel.focus == SelectionFocus::Channel(ch),
        sel.selected_channel == ch,
        sel.selected_control == ChannelControl::Solo,
        sel.deck_c_channel == CUE_CHANNEL,
        v.channels.len() <= usize::MAX,
        ch == CUE_CHANNEL || ch < v.channels.len(),
        forall|j: int| 0 <= j < v.channels.len() ==> !(#[trigger] v.channels[j].solo),
        !v.cue_channel.solo,
        saved_level(v, ch) is None,
    ensures
        ({
            let w = v.with_current_toggled(sel).with_current_toggled(sel);
            &&& fader_of(w, ch) == fader_of(v, ch)
            &&& saved_level(w, ch) is None
            &&& !w.solo_active
            &&& !w.cue_channel.solo
            &&& forall|j: int| 0 <= j < w.channels.len() ==> !(#[trigger] w.channels[j].solo)
        }),
{
    let s = v.with_saved(ch);
    lemma_unsolo_below_none(s, ch, s.channels.len());
    assert(s.with_others_unsoloed(ch) == s);
    let w1 = v.with_current_toggled(sel);
    assert(w1.solo_of(ch, CUE_CHANNEL));
    let t = w1.with_toggle(ch, ChannelControl::Solo);
    if ch != CUE_CHANNEL {
        assert forall|j: int| 0 <= j < t.channels.len() implies !(#[trigger] t.channels[j].solo) by {
            if j != ch {
                assert(t.channels[j] == v.channels[j]);
            }
        }
    } else {
        assert forall|j: int| 0 <= j < t.channels.len() implies !(#[trigger] t.channels[j].solo) by {
            assert(t.channels[j] == v.channels[j]);
        }
    }
    let r = t.with_restored(ch);
    assert(r.channels.len() == t.channels.len());
    assert forall|j: int| 0 <= j < r.channels.len() implies !(#[trigger] r.channels[j].solo) by {
        assert(!t.channels[j].solo);
    }
}

} // verus!

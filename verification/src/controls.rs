//! Mixer controls: which control is selected inside a channel strip or in
//! the global (DJ / master) section, their labels and their layout rows.
use vstd::prelude::*;

verus! {

/// Which control is currently selected within a channel
#[derive(Debug, Clone, Copy, PartialEq, Eq, Hash, Structural)]
pub enum ChannelControl {
    PrevTrack,
    PlayPause,
    NextTrack,
    Scrub,
    Bpm,
    Key,
    Fader,
    Pan,
    FilterCutoff,
    FilterFreq,
    LfoShape,
    LfoSpeed,
    EqLow,
    EqLowKill,
    EqMid,
    EqMidKill,
    EqHigh,
    EqHighKill,
    Mute,
    Solo,
    // CUE-specific controls (Deck C only)
    CueSendToA,
    CueSendToB,
    CueOutputSelect,
}

impl ChannelControl {
    /// The label shown for a control in control-select mode.
    pub open spec fn label_of(self) -> Seq<char> {
        match self {
            ChannelControl::PrevTrack => "PREV"@,
            ChannelControl::PlayPause => "PLAY"@,
            ChannelControl::NextTrack => "NEXT"@,
            ChannelControl::Scrub => "SCRUB"@,
            ChannelControl::Bpm => "BPM"@,
            ChannelControl::Key => "KEY"@,
            ChannelControl::Fader => "GAIN"@,
            ChannelControl::Pan => "PAN"@,
            ChannelControl::FilterCutoff => "CUTOFF"@,
            ChannelControl::FilterFreq => "FREQUENCY"@,
            ChannelControl::LfoShape => "SHAPE"@,
            ChannelControl::LfoSpeed => "SPEED"@,
            ChannelControl::EqLow => "LOW"@,
            ChannelControl::EqLowKill => "L×"@,
            ChannelControl::EqMid => "MID"@,
            ChannelControl::EqMidKill => "M×"@,
            ChannelControl::EqHigh => "HIGH"@,
            ChannelControl::EqHighKill => "H×"@,
            ChannelControl::Mute => "MUTE"@,
            ChannelControl::Solo => "SOLO"@,
            ChannelControl::CueSendToA => "-> A"@,
            ChannelControl::CueSendToB => "-> B"@,
            ChannelControl::CueOutputSelect => "OUTPUT"@,
        }
    }

    /// Continuous controls (knobs and faders), as opposed to buttons.
    pub open spec fn continuous(self) -> bool {
        match self {
            ChannelControl::Fader | ChannelControl::Pan | ChannelControl::Scrub
            | ChannelControl::Bpm | ChannelControl::Key | ChannelControl::FilterCutoff
            | ChannelControl::FilterFreq | ChannelControl::LfoShape
            | ChannelControl::LfoSpeed | ChannelControl::EqLow | ChannelControl::EqMid
            | ChannelControl::EqHigh => true,
            _ => false,
        }
    }

    /// Row of a control in the vertical layout of a deck strip (top to
    /// bottom). Kill switches share rows with their EQ controls; the CUE
    /// controls (Deck C only) follow Solo: -> A on row 15, and -> B and the
    /// output select both on row 16, the last row.
    pub open spec fn deck_row(self) -> usize {
        match self {
            ChannelControl::Scrub => 0,
            ChannelControl::PrevTrack | ChannelControl::PlayPause
            | ChannelControl::NextTrack => 1,
            ChannelControl::Bpm => 2,
            ChannelControl::Key => 3,
            ChannelControl::EqHigh | ChannelControl::EqHighKill => 4,
            ChannelControl::EqMid | ChannelControl::EqMidKill => 5,
            ChannelControl::EqLow | ChannelControl::EqLowKill => 6,
            ChannelControl::FilterCutoff => 7,
            ChannelControl::FilterFreq => 8,
            ChannelControl::LfoShape => 9,
            ChannelControl::LfoSpeed => 10,
            ChannelControl::Pan => 11,
            ChannelControl::Fader => 12,
            ChannelControl::Mute => 13,
            ChannelControl::Solo => 14,
            ChannelControl::CueSendToA => 15,
            ChannelControl::CueSendToB => 16,
            ChannelControl::CueOutputSelect => 16,
        }
    }

    /// Position of a control in the order in which moves step through a
    /// deck strip: its row, except that the output select, which shares row
    /// 16 with -> B, comes after it, at the index the deck rows give it
    /// (17).
    pub open spec fn deck_step(self) -> usize {
        match self {
            ChannelControl::CueOutputSelect => 17,
            _ => self.deck_row(),
        }
    }

    /// The control that a row of a deck strip selects.
    pub open spec fn at_deck_row(index: usize) -> Option<ChannelControl> {
        if index == 0 {
            Some(ChannelControl::Scrub)
        } else if index == 1 {
            Some(ChannelControl::PlayPause)
        } else if index == 2 {
            Some(ChannelControl::Bpm)
        } else if index == 3 {
            Some(ChannelControl::Key)
        } else if index == 4 {
            Some(ChannelControl::EqHigh)
        } else if index == 5 {
            Some(ChannelControl::EqMid)
        } else if index == 6 {
            Some(ChannelControl::EqLow)
        } else if index == 7 {
            Some(ChannelControl::FilterCutoff)
        } else if index == 8 {
            Some(ChannelControl::FilterFreq)
        } else if index == 9 {
            Some(ChannelControl::LfoShape)
        } else if index == 10 {
            Some(ChannelControl::LfoSpeed)
        } else if index == 11 {
            Some(ChannelControl::Pan)
        } else if index == 12 {
            Some(ChannelControl::Fader)
        } else if index == 13 {
            Some(ChannelControl::Mute)
        } else if index == 14 {
            Some(ChannelControl::Solo)
        } else if index == 15 {
            Some(ChannelControl::CueSendToA)
        } else if index == 16 {
            Some(ChannelControl::CueSendToB)
        } else if index == 17 {
            Some(ChannelControl::CueOutputSelect)
        } else {
            None
        }
    }

    /// Row of a control in a strip that is not a deck (no transport, BPM or key).
    pub open spec fn plain_row(self) -> usize {
        match self {
            ChannelControl::PrevTrack | ChannelControl::NextTrack | ChannelControl::PlayPause
            | ChannelControl::Scrub | ChannelControl::Bpm | ChannelControl::Key => 0,
            ChannelControl::EqHigh | ChannelControl::EqHighKill => 0,
            ChannelControl::EqMid | ChannelControl::EqMidKill => 1,
            ChannelControl::EqLow | ChannelControl::EqLowKill => 2,
            ChannelControl::FilterCutoff => 3,
            ChannelControl::FilterFreq => 4,
            ChannelControl::LfoShape => 5,
            ChannelControl::LfoSpeed => 6,
            ChannelControl::Pan => 7,
            ChannelControl::Fader => 8,
            ChannelControl::Mute => 9,
            ChannelControl::Solo => 10,
            ChannelControl::CueSendToA => 11,
            ChannelControl::CueSendToB => 12,
            ChannelControl::CueOutputSelect => 13,
        }
    }

    /// The control that a row of a non-deck strip selects.
    pub open spec fn at_plain_row(index: usize) -> Option<ChannelControl> {
        if index == 0 {
            Some(ChannelControl::EqHigh)
        } else if index == 1 {
            Some(ChannelControl::EqMid)
        } else if index == 2 {
            Some(ChannelControl::EqLow)
        } else if index == 3 {
            Some(ChannelControl::FilterCutoff)
        } else if index == 4 {
            Some(ChannelControl::FilterFreq)
        } else if index == 5 {
            Some(ChannelControl::LfoShape)
        } else if index == 6 {
            Some(ChannelControl::LfoSpeed)
        } else if index == 7 {
            Some(ChannelControl::Pan)
        } else if index == 8 {
            Some(ChannelControl::Fader)
        } else if index == 9 {
            Some(ChannelControl::Mute)
        } else if index == 10 {
            Some(ChannelControl::Solo)
        } else {
            None
        }
    }

    /// Label for display in control select mode
    pub fn label(&self) -> (s: &'static str)
        ensures
            s@ == self.label_of(),
    {
        match self {
            ChannelControl::PrevTrack => "PREV",
            ChannelControl::PlayPause => "PLAY",
            ChannelControl::NextTrack => "NEXT",
            ChannelControl::Scrub => "SCRUB",
            ChannelControl::Bpm => "BPM",
            ChannelControl::Key => "KEY",
            ChannelControl::Fader => "GAIN",
            ChannelControl::Pan => "PAN",
            ChannelControl::FilterCutoff => "CUTOFF",
            ChannelControl::FilterFreq => "FREQUENCY",
            ChannelControl::LfoShape => "SHAPE",
            ChannelControl::LfoSpeed => "SPEED",
            ChannelControl::EqLow => "LOW",
            ChannelControl::EqLowKill => "L×",
            ChannelControl::EqMid => "MID",
            ChannelControl::EqMidKill => "M×",
            ChannelControl::EqHigh => "HIGH",
            ChannelControl::EqHighKill => "H×",
            ChannelControl::Mute => "MUTE",
            ChannelControl::Solo => "SOLO",
            ChannelControl::CueSendToA => "-> A",
            ChannelControl::CueSendToB => "-> B",
            ChannelControl::CueOutputSelect => "OUTPUT",
        }
    }

    /// Is this a continuous control (knob/fader) vs toggle (button)
    pub fn is_continuous(&self) -> (b: bool)
        ensures
            b == self.continuous(),
    {
        match self {
            ChannelControl::Fader | ChannelControl::Pan | ChannelControl::Scrub
            | ChannelControl::Bpm | ChannelControl::Key | ChannelControl::FilterCutoff
            | ChannelControl::FilterFreq | ChannelControl::LfoShape
            | ChannelControl::LfoSpeed | ChannelControl::EqLow | ChannelControl::EqMid
            | ChannelControl::EqHigh => true,
            _ => false,
        }
    }

    /// Get the index in the vertical layout (top to bottom)
    /// PlayPause, Bpm, and Key are only available for deck channels (A/B)
    /// Kill switches share rows with their EQ controls
    /// CUE controls (Deck C only): -> A on row 15, -> B and the output
    /// select on row 16
    pub fn row_index(&self) -> (r: usize)
        ensures
            r == self.deck_row(),
    {
        match self {
            ChannelControl::Scrub => 0,
            ChannelControl::PrevTrack | ChannelControl::PlayPause
            | ChannelControl::NextTrack => 1,
            ChannelControl::Bpm => 2,
            ChannelControl::Key => 3,
            ChannelControl::EqHigh | ChannelControl::EqHighKill => 4,
            ChannelControl::EqMid | ChannelControl::EqMidKill => 5,
            ChannelControl::EqLow | ChannelControl::EqLowKill => 6,
            ChannelControl::FilterCutoff => 7,
            ChannelControl::FilterFreq => 8,
            ChannelControl::LfoShape => 9,
            ChannelControl::LfoSpeed => 10,
            ChannelControl::Pan => 11,
            ChannelControl::Fader => 12,
            ChannelControl::Mute => 13,
            ChannelControl::Solo => 14,
            ChannelControl::CueSendToA => 15,
            ChannelControl::CueSendToB => 16,
            ChannelControl::CueOutputSelect => 16,
        }
    }

    /// Position of the control in the order in which moves step through a
    /// deck strip: its row, the output select coming after -> B.
    pub fn step_index(&self) -> (r: usize)
        ensures
            r == self.deck_step(),
    {
        match self {
            ChannelControl::CueOutputSelect => 17,
            _ => self.row_index(),
        }
    }

    /// The control selected by a row of a deck strip, if the row exists.
    pub fn from_row_index(index: usize) -> (r: Option<ChannelControl>)
        ensures
            r == Self::at_deck_row(index),
    {
        match index {
            0 => Some(ChannelControl::Scrub),
            1 => Some(ChannelControl::PlayPause),
            2 => Some(ChannelControl::Bpm),
            3 => Some(ChannelControl::Key),
            4 => Some(ChannelControl::EqHigh),
            5 => Some(ChannelControl::EqMid),
            6 => Some(ChannelControl::EqLow),
            7 => Some(ChannelControl::FilterCutoff),
            8 => Some(ChannelControl::FilterFreq),
            9 => Some(ChannelControl::LfoShape),
            10 => Some(ChannelControl::LfoSpeed),
            11 => Some(ChannelControl::Pan),
            12 => Some(ChannelControl::Fader),
            13 => Some(ChannelControl::Mute),
            14 => Some(ChannelControl::Solo),
            15 => Some(ChannelControl::CueSendToA),
            16 => Some(ChannelControl::CueSendToB),
            17 => Some(ChannelControl::CueOutputSelect),
            _ => None,
        }
    }

    /// Get row index for non-deck channels (no PlayPause/Bpm/Key)
    pub fn row_index_no_deck(&self) -> (r: usize)
        ensures
            r == self.plain_row(),
    {
        match self {
            ChannelControl::PrevTrack => 0,
            ChannelControl::NextTrack => 0,
            ChannelControl::PlayPause => 0,
            ChannelControl::Scrub => 0,
            ChannelControl::Bpm => 0,
            ChannelControl::Key => 0,
            ChannelControl::EqHigh | ChannelControl::EqHighKill => 0,
            ChannelControl::EqMid | ChannelControl::EqMidKill => 1,
            ChannelControl::EqLow | ChannelControl::EqLowKill => 2,
            ChannelControl::FilterCutoff => 3,
            ChannelControl::FilterFreq => 4,
            ChannelControl::LfoShape => 5,
            ChannelControl::LfoSpeed => 6,
            ChannelControl::Pan => 7,
            ChannelControl::Fader => 8,
            ChannelControl::Mute => 9,
            ChannelControl::Solo => 10,
            ChannelControl::CueSendToA => 11,
            ChannelControl::CueSendToB => 12,
            ChannelControl::CueOutputSelect => 13,
        }
    }

    /// The control selected by a row of a non-deck strip, if the row exists.
    pub fn from_row_index_no_deck(index: usize) -> (r: Option<ChannelControl>)
        ensures
            r == Self::at_plain_row(index),
    {
        match index {
            0 => Some(ChannelControl::EqHigh),
            1 => Some(ChannelControl::EqMid),
            2 => Some(ChannelControl::EqLow),
            3 => Some(ChannelControl::FilterCutoff),
            4 => Some(ChannelControl::FilterFreq),
            5 => Some(ChannelControl::LfoShape),
            6 => Some(ChannelControl::LfoSpeed),
            7 => Some(ChannelControl::Pan),
            8 => Some(ChannelControl::Fader),
            9 => Some(ChannelControl::Mute),
            10 => Some(ChannelControl::Solo),
            _ => None,
        }
    }
}

/// Every index of a deck strip from 0 to 17 selects a control at that same
/// position in the move order, and no index above 17 selects anything; the
/// control at an index up to 16 sits on that row, and the output select,
/// at index 17, sits on row 16.
pub proof fn lemma_deck_rows_round_trip(index: usize)
    ensures
        index <= 17 ==> ChannelControl::at_deck_row(index) is Some
            && ChannelControl::at_deck_row(index)->0.deck_step() == index,
        index <= 16 ==> ChannelControl::at_deck_row(index)->0.deck_row() == index,
        ChannelControl::at_deck_row(17) == Some(ChannelControl::CueOutputSelect),
        ChannelControl::at_deck_row(index) is Some <==> index <= 17,
{
}

/// Every row of a non-deck strip from 0 to 10 selects a control that sits on
/// that same row, and no other row selects anything.
pub proof fn lemma_plain_rows_round_trip(index: usize)
    ensures
        ChannelControl::at_plain_row(index) is Some <==> index <= 10,
        index <= 10 ==> ChannelControl::at_plain_row(index)->0.plain_row() == index,
{
}

/// No control sits below row 16: the CUE controls follow Solo, -> A on row
/// 15, and -> B and the output select share row 16.
pub proof fn lemma_cue_rows(c: ChannelControl)
    ensures
        c.deck_row() <= 16,
        ChannelControl::Solo.deck_row() < ChannelControl::CueSendToA.deck_row(),
        ChannelControl::CueSendToA.deck_row() == 15,
        ChannelControl::CueSendToB.deck_row() == 16,
        ChannelControl::CueOutputSelect.deck_row() == 16,
{
}

/// Kill switches share their row with the EQ band they belong to, in both layouts.
pub proof fn lemma_kill_switches_share_rows()
    ensures
        ChannelControl::EqHigh.deck_row() == ChannelControl::EqHighKill.deck_row(),
        ChannelControl::EqMid.deck_row() == ChannelControl::EqMidKill.deck_row(),
        ChannelControl::EqLow.deck_row() == ChannelControl::EqLowKill.deck_row(),
        ChannelControl::EqHigh.plain_row() == ChannelControl::EqHighKill.plain_row(),
        ChannelControl::EqMid.plain_row() == ChannelControl::EqMidKill.plain_row(),
        ChannelControl::EqLow.plain_row() == ChannelControl::EqLowKill.plain_row(),
{
}

/// Which global control is selected (DJ section, master)
#[derive(Debug, Clone, Copy, PartialEq, Eq, Hash, Structural)]
pub enum GlobalControl {
    MasterPlayPause,
    Crossfader,
    HeadphoneVolume,
    MasterFader,
    MasterMute,
    MasterOutputSelect,
    MasterEq32,
    MasterEq64,
    MasterEq125,
    MasterEq250,
    MasterEq500,
    MasterEq1k,
    MasterEq2k,
    MasterEq4k,
    MasterEq8k,
    MasterEq16k,
}

impl GlobalControl {
    /// The label shown for a global control in control-select mode.
    pub open spec fn label_of(self) -> Seq<char> {
        match self {
            GlobalControl::MasterPlayPause => "PLAY"@,
            GlobalControl::Crossfader => "X-FADER"@,
            GlobalControl::HeadphoneVolume => "PHONES"@,
            GlobalControl::MasterFader => "GAIN"@,
            GlobalControl::MasterMute => "MUTE"@,
            GlobalControl::MasterOutputSelect => "OUTPUT"@,
            GlobalControl::MasterEq32 => "32"@,
            GlobalControl::MasterEq64 => "64"@,
            GlobalControl::MasterEq125 => "125"@,
            GlobalControl::MasterEq250 => "250"@,
            GlobalControl::MasterEq500 => "500"@,
            GlobalControl::MasterEq1k => "1k"@,
            GlobalControl::MasterEq2k => "2k"@,
            GlobalControl::MasterEq4k => "4k"@,
            GlobalControl::MasterEq8k => "8k"@,
            GlobalControl::MasterEq16k => "16k"@,
        }
    }

    /// The band of the master EQ that a control adjusts, for the EQ controls.
    pub open spec fn band_of(self) -> Option<usize> {
        match self {
            GlobalControl::MasterEq32 => Some(0usize),
            GlobalControl::MasterEq64 => Some(1usize),
            GlobalControl::MasterEq125 => Some(2usize),
            GlobalControl::MasterEq250 => Some(3usize),
            GlobalControl::MasterEq500 => Some(4usize),
            GlobalControl::MasterEq1k => Some(5usize),
            GlobalControl::MasterEq2k => Some(6usize),
            GlobalControl::MasterEq4k => Some(7usize),
            GlobalControl::MasterEq8k => Some(8usize),
            GlobalControl::MasterEq16k => Some(9usize),
            _ => None,
        }
    }

    /// The EQ controls in band order, lowest band first.
    pub open spec fn eq_in_band_order() -> Seq<GlobalControl> {
        seq![
            GlobalControl::MasterEq32,
            GlobalControl::MasterEq64,
            GlobalControl::MasterEq125,
            GlobalControl::MasterEq250,
            GlobalControl::MasterEq500,
            GlobalControl::MasterEq1k,
            GlobalControl::MasterEq2k,
            GlobalControl::MasterEq4k,
            GlobalControl::MasterEq8k,
            GlobalControl::MasterEq16k,
        ]
    }

    /// Label for display in control select mode
    pub fn label(&self) -> (s: &'static str)
        ensures
            s@ == self.label_of(),
    {
        match self {
            GlobalControl::MasterPlayPause => "PLAY",
            GlobalControl::Crossfader => "X-FADER",
            GlobalControl::HeadphoneVolume => "PHONES",
            GlobalControl::MasterFader => "GAIN",
            GlobalControl::MasterMute => "MUTE",
            GlobalControl::MasterOutputSelect => "OUTPUT",
            GlobalControl::MasterEq32 => "32",
            GlobalControl::MasterEq64 => "64",
            GlobalControl::MasterEq125 => "125",
            GlobalControl::MasterEq250 => "250",
            GlobalControl::MasterEq500 => "500",
            GlobalControl::MasterEq1k => "1k",
            GlobalControl::MasterEq2k => "2k",
            GlobalControl::MasterEq4k => "4k",
            GlobalControl::MasterEq8k => "8k",
            GlobalControl::MasterEq16k => "16k",
        }
    }

    /// Returns the index into `master_eq` array if this is an EQ control
    pub fn eq_band_index(&self) -> (r: Option<usize>)
        ensures
            r == self.band_of(),
    {
        match self {
            GlobalControl::MasterEq32 => Some(0),
            GlobalControl::MasterEq64 => Some(1),
            GlobalControl::MasterEq125 => Some(2),
            GlobalControl::MasterEq250 => Some(3),
            GlobalControl::MasterEq500 => Some(4),
            GlobalControl::MasterEq1k => Some(5),
            GlobalControl::MasterEq2k => Some(6),
            GlobalControl::MasterEq4k => Some(7),
            GlobalControl::MasterEq8k => Some(8),
            GlobalControl::MasterEq16k => Some(9),
            _ => None,
        }
    }

    /// All EQ control variants in band order
    pub fn all_eq_variants() -> (r: [GlobalControl; 10])
        ensures
            r@ == Self::eq_in_band_order(),
    {
        let r = [
            GlobalControl::MasterEq32,
            GlobalControl::MasterEq64,
            GlobalControl::MasterEq125,
            GlobalControl::MasterEq250,
            GlobalControl::MasterEq500,
            GlobalControl::MasterEq1k,
            GlobalControl::MasterEq2k,
            GlobalControl::MasterEq4k,
            GlobalControl::MasterEq8k,
            GlobalControl::MasterEq16k,
        ];
        assert(r@ =~= Self::eq_in_band_order());
        r
    }
}

/// The i-th EQ control in band order adjusts band i; the EQ controls are
/// exactly the global controls that adjust a band.
pub proof fn lemma_eq_variants_match_bands(i: int, g: GlobalControl)
    ensures
        0 <= i < 10 ==> GlobalControl::eq_in_band_order()[i].band_of() == Some(i as usize),
        g.band_of() is Some <==> GlobalControl::eq_in_band_order().contains(g),
{
    let s = GlobalControl::eq_in_band_order();
    if g.band_of() is Some {
        let k = g.band_of()->0 as int;
        assert(s[k] == g);
    }
}

/// Selection focus - either on a channel or on global controls
#[derive(Debug, Clone, Copy, PartialEq, Eq, Structural)]
pub enum SelectionFocus {
    /// Focus on a channel strip
    Channel(usize),
    /// Focus on DJ/master section
    Global,
}

/// Target deck for sending CUE
#[derive(Debug, Clone, Copy, PartialEq, Eq, Structural)]
pub enum SendTarget {
    A,
    B,
}

} // verus!

use termixer::controls::{ChannelControl, GlobalControl};

const ALL_CHANNEL: [ChannelControl; 23] = [
    ChannelControl::PrevTrack,
    ChannelControl::PlayPause,
    ChannelControl::NextTrack,
    ChannelControl::Scrub,
    ChannelControl::Bpm,
    ChannelControl::Key,
    ChannelControl::Fader,
    ChannelControl::Pan,
    ChannelControl::FilterCutoff,
    ChannelControl::FilterFreq,
    ChannelControl::LfoShape,
    ChannelControl::LfoSpeed,
    ChannelControl::EqLow,
    ChannelControl::EqLowKill,
    ChannelControl::EqMid,
    ChannelControl::EqMidKill,
    ChannelControl::EqHigh,
    ChannelControl::EqHighKill,
    ChannelControl::Mute,
    ChannelControl::Solo,
    ChannelControl::CueSendToA,
    ChannelControl::CueSendToB,
    ChannelControl::CueOutputSelect,
];

#[test]
fn channel_labels() {
    assert_eq!(ChannelControl::Fader.label(), "GAIN");
    assert_eq!(ChannelControl::FilterFreq.label(), "FREQUENCY");
    assert_eq!(ChannelControl::EqLowKill.label(), "L×");
    assert_eq!(ChannelControl::CueSendToB.label(), "-> B");
    assert_eq!(ChannelControl::CueOutputSelect.label(), "OUTPUT");
}

#[test]
fn continuous_controls_are_knobs_and_faders() {
    let continuous: Vec<ChannelControl> =
        ALL_CHANNEL.iter().copied().filter(|c| c.is_continuous()).collect();
    assert_eq!(
        continuous,
        vec![
            ChannelControl::Scrub,
            ChannelControl::Bpm,
            ChannelControl::Key,
            ChannelControl::Fader,
            ChannelControl::Pan,
            ChannelControl::FilterCutoff,
            ChannelControl::FilterFreq,
            ChannelControl::LfoShape,
            ChannelControl::LfoSpeed,
            ChannelControl::EqLow,
            ChannelControl::EqMid,
            ChannelControl::EqHigh,
        ]
    );
}

#[test]
fn deck_rows_round_trip() {
    for i in 0..17usize {
        let c = ChannelControl::from_row_index(i).unwrap();
        assert_eq!(c.row_index(), i);
        assert_eq!(c.step_index(), i);
    }
    // Index 17 selects the output select, which shares row 16 with -> B.
    assert_eq!(ChannelControl::from_row_index(17), Some(ChannelControl::CueOutputSelect));
    assert_eq!(ChannelControl::CueOutputSelect.step_index(), 17);
    assert_eq!(ChannelControl::from_row_index(18), None);
}

#[test]
fn cue_controls_follow_solo() {
    assert_eq!(ChannelControl::CueSendToA.row_index(), 15);
    assert_eq!(ChannelControl::CueSendToB.row_index(), 16);
    assert_eq!(ChannelControl::CueOutputSelect.row_index(), 16);
    assert_eq!(ChannelControl::Solo.row_index(), 14);
}

#[test]
fn plain_rows_round_trip() {
    for i in 0..11usize {
        let c = ChannelControl::from_row_index_no_deck(i).unwrap();
        assert_eq!(c.row_index_no_deck(), i);
    }
    assert_eq!(ChannelControl::from_row_index_no_deck(11), None);
    assert_eq!(ChannelControl::PlayPause.row_index_no_deck(), 0);
    assert_eq!(ChannelControl::CueOutputSelect.row_index_no_deck(), 13);
}

#[test]
fn kill_switches_share_their_band_row() {
    assert_eq!(ChannelControl::EqLowKill.row_index(), ChannelControl::EqLow.row_index());
    assert_eq!(ChannelControl::EqMidKill.row_index(), ChannelControl::EqMid.row_index());
    assert_eq!(ChannelControl::EqHighKill.row_index(), ChannelControl::EqHigh.row_index());
    assert_eq!(ChannelControl::EqLowKill.row_index_no_deck(), 2);
}

#[test]
fn global_labels_and_bands() {
    assert_eq!(GlobalControl::Crossfader.label(), "X-FADER");
    assert_eq!(GlobalControl::MasterEq1k.label(), "1k");
    assert_eq!(GlobalControl::MasterEq32.eq_band_index(), Some(0));
    assert_eq!(GlobalControl::MasterEq16k.eq_band_index(), Some(9));
    assert_eq!(GlobalControl::MasterFader.eq_band_index(), None);
}

#[test]
fn eq_variants_in_band_order() {
    let all = GlobalControl::all_eq_variants();
    for (i, g) in all.iter().enumerate() {
        assert_eq!(g.eq_band_index(), Some(i));
    }
    assert_eq!(all[4], GlobalControl::MasterEq500);
}

use termixer::playback::{
    effective_mute, exit_step, keep_playing_on_exit, master_after_deck, pause_all, pause_route, player_level,
    resume_all, solo_mute, ExitStep, PauseRoute, PlayerLevel,
};

#[test]
fn any_mute_or_foreign_solo_silences() {
    assert!(!effective_mute(false, false, false, false));
    assert!(effective_mute(true, false, false, false));
    assert!(effective_mute(false, true, false, false));
    assert!(effective_mute(false, false, true, false));
    assert!(!effective_mute(false, false, true, true));
    assert!(effective_mute(false, true, true, true));
}

#[test]
fn solo_overrides_individual_mutes() {
    // with a solo active, non-soloed decks are muted and the soloed one is heard
    assert!(solo_mute(true, false, false));
    assert!(!solo_mute(true, true, true));
    // without solo, each deck keeps its own mute
    assert!(solo_mute(false, false, true));
    assert!(!solo_mute(false, true, false));
}

#[test]
fn engine_owned_decks_keep_the_player_muted_at_full_volume() {
    assert_eq!(player_level(true, false), PlayerLevel { mute: true, full_volume: true });
    assert_eq!(player_level(true, true), PlayerLevel { mute: true, full_volume: true });
    assert_eq!(player_level(false, true), PlayerLevel { mute: true, full_volume: false });
    assert_eq!(player_level(false, false), PlayerLevel { mute: false, full_volume: true });
}

#[test]
fn exit_hands_playing_decks_over_and_stops_the_rest() {
    assert!(keep_playing_on_exit(true, true, false));
    assert!(!keep_playing_on_exit(true, false, false));
    assert!(!keep_playing_on_exit(true, true, true));
    assert!(!keep_playing_on_exit(false, true, false));
    assert_eq!(exit_step(true, true, true), ExitStep::ClientVolume);
    assert_eq!(exit_step(true, false, false), ExitStep::ClientStop);
    assert_eq!(exit_step(false, true, true), ExitStep::RouteVolumeAndResume);
    assert_eq!(exit_step(false, true, false), ExitStep::RouteStop);
    assert_eq!(exit_step(false, false, true), ExitStep::Nothing);
}

#[test]
fn pauses_go_to_the_route_the_players_or_nowhere() {
    assert_eq!(pause_route(true, true), PauseRoute::Route);
    assert_eq!(pause_route(false, true), PauseRoute::Route);
    assert_eq!(pause_route(true, false), PauseRoute::EngineOnly);
    assert_eq!(pause_route(false, false), PauseRoute::Players);
    assert!(master_after_deck(false, true));
    assert!(!master_after_deck(false, false));
    assert!(master_after_deck(true, false));
}

#[test]
fn master_resume_restores_what_was_playing() {
    let mut channels = vec![true, false, true];
    let mut cue = true;
    let memory = pause_all(&mut channels, &[None, Some(true)], &mut cue, None);
    // the player of channel 1 reports it playing, which the pause trusts
    assert_eq!(memory, vec![true, true, true, true]);
    assert_eq!(channels, vec![false, false, false]);
    assert!(!cue);
    resume_all(&mut channels, &memory);
    assert_eq!(channels, vec![true, true, true]);
}

#[test]
fn resume_without_memory_changes_nothing() {
    let mut channels = vec![false, true];
    resume_all(&mut channels, &[]);
    assert_eq!(channels, vec![false, true]);
    let mut none: Vec<bool> = vec![];
    let mut cue = false;
    assert_eq!(pause_all(&mut none, &[], &mut cue, Some(true)), vec![true]);
}

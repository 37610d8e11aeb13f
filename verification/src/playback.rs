//! Which decks are heard and play: the mute rules applied when volumes are
//! pushed to the players, where pauses go, the master pause and resume, and
//! what each deck is left doing when the mixer quits.
use vstd::prelude::*;

verus! {

/// Whether a deck is silenced when its volume is pushed: the master is
/// muted, the deck is muted, or another deck is soloed.
pub open spec fn silenced(master_muted: bool, muted: bool, solo_active: bool, solo: bool) -> bool {
    master_muted || muted || (solo_active && !solo)
}

/// Whether a deck is silenced when its volume is pushed.
pub fn effective_mute(master_muted: bool, muted: bool, solo_active: bool, solo: bool) -> (b: bool)
    ensures
        b == silenced(master_muted, muted, solo_active, solo),
{
    master_muted || muted || (solo_active && !solo)
}

/// Whether a deck is muted when solo is applied to all players: while any
/// deck is soloed, exactly the decks without solo are muted; otherwise each
/// deck keeps its own mute.
pub open spec fn solo_muted(solo_active: bool, solo: bool, muted: bool) -> bool {
    if solo_active {
        !solo
    } else {
        muted
    }
}

/// Whether a deck is muted when solo is applied to all players.
pub fn solo_mute(solo_active: bool, solo: bool, muted: bool) -> (b: bool)
    ensures
        b == solo_muted(solo_active, solo, muted),
{
    if solo_active {
        !solo
    } else {
        muted
    }
}

/// How an MPV player's mute and volume are set when a deck's volume is
/// pushed.
#[derive(Debug, Clone, Copy, PartialEq, Eq, Structural)]
pub struct PlayerLevel {
    /// The player's mute switch.
    pub mute: bool,
    /// Whether the player gets the deck's full volume (otherwise silence).
    pub full_volume: bool,
}

/// How the MPV player behind a deck is set: when the engine decodes the
/// deck itself (it has a decoder and no capture), the player is muted but
/// keeps the full volume, so that it is not left at zero when it is
/// reconnected; otherwise the player follows the deck's mute rule.
pub fn player_level(decoder_owned: bool, silenced_deck: bool) -> (p: PlayerLevel)
    ensures
        p == if decoder_owned {
            PlayerLevel { mute: true, full_volume: true }
        } else {
            PlayerLevel { mute: silenced_deck, full_volume: !silenced_deck }
        },
{
    if decoder_owned {
        PlayerLevel { mute: true, full_volume: true }
    } else {
        PlayerLevel { mute: silenced_deck, full_volume: !silenced_deck }
    }
}

/// Whether a deck keeps playing after the mixer quits: it is playing, the
/// crossfader lets it through, and it is not silenced.
pub open spec fn keeps_playing(playing: bool, crossfader_open: bool, silenced_deck: bool) -> bool {
    playing && crossfader_open && !silenced_deck
}

/// Whether a deck keeps playing after the mixer quits.
pub fn keep_playing_on_exit(playing: bool, crossfader_open: bool, silenced_deck: bool) -> (b: bool)
    ensures
        b == keeps_playing(playing, crossfader_open, silenced_deck),
{
    playing && crossfader_open && !silenced_deck
}

/// What is sent to a deck's player when the mixer quits.
#[derive(Debug, Clone, Copy, PartialEq, Eq, Structural)]
pub enum ExitStep {
    /// The deck has no player to tell.
    Nothing,
    /// Set the volume on the deck's own MPV client.
    ClientVolume,
    /// Stop the deck's own MPV client.
    ClientStop,
    /// Set the volume of the route's player and resume it.
    RouteVolumeAndResume,
    /// Stop the route's player.
    RouteStop,
}

/// What is sent to a deck's player when the mixer quits: its own MPV
/// client is told first; failing that, the player of its captured route;
/// a deck that keeps playing gets its volume, any other is stopped.
pub fn exit_step(has_client: bool, has_capture: bool, keep: bool) -> (s: ExitStep)
    ensures
        s == if has_client {
            if keep {
                ExitStep::ClientVolume
            } else {
                ExitStep::ClientStop
            }
        } else if has_capture {
            if keep {
                ExitStep::RouteVolumeAndResume
            } else {
                ExitStep::RouteStop
            }
        } else {
            ExitStep::Nothing
        },
{
    if has_client {
        if keep {
            ExitStep::ClientVolume
        } else {
            ExitStep::ClientStop
        }
    } else if has_capture {
        if keep {
            ExitStep::RouteVolumeAndResume
        } else {
            ExitStep::RouteStop
        }
    } else {
        ExitStep::Nothing
    }
}

/// While any deck is soloed, a deck without solo is muted, whether its
/// volume is pushed on its own or solo is applied to all players, and it is
/// not left playing when the mixer quits.
pub proof fn lemma_solo_silences_the_rest(
    master_muted: bool,
    muted: bool,
    solo: bool,
    playing: bool,
    crossfader_open: bool,
)
    requires
        !solo,
    ensures
        silenced(master_muted, muted, true, solo),
        solo_muted(true, solo, muted),
        !keeps_playing(playing, crossfader_open, silenced(master_muted, muted, true, solo)),
{
}

/// Where a deck's pause or resume goes.
#[derive(Debug, Clone, Copy, PartialEq, Eq, Structural)]
pub enum PauseRoute {
    /// To the player of the captured route, as a pause property.
    Route,
    /// To the deck's own MPV and SuperCollider clients.
    Players,
    /// Nowhere outside: the engine decodes the deck itself.
    EngineOnly,
}

/// Where a deck's pause or resume goes: to the captured route when there
/// is one, else to the deck's players unless the engine decodes the deck.
pub fn pause_route(has_decoder: bool, has_capture: bool) -> (r: PauseRoute)
    ensures
        r == if has_capture {
            PauseRoute::Route
        } else if has_decoder {
            PauseRoute::EngineOnly
        } else {
            PauseRoute::Players
        },
{
    let decoder_owned = has_decoder && !has_capture;
    if has_capture {
        PauseRoute::Route
    } else if !decoder_owned {
        PauseRoute::Players
    } else {
        PauseRoute::EngineOnly
    }
}

/// Whether the master plays after a deck's play state is pushed: a deck
/// that plays starts the master too.
pub fn master_after_deck(master_playing: bool, deck_playing: bool) -> (p: bool)
    ensures
        p == (master_playing || deck_playing),
{
    master_playing || deck_playing
}

/// Whether channel `i` plays: as its player reports it, when it does, else
/// as the mixer last knew it.
pub open spec fn known_playing(reported: Seq<Option<bool>>, i: int, known: bool) -> bool {
    if i < reported.len() && reported[i] is Some {
        reported[i].unwrap()
    } else {
        known
    }
}

/// What a master pause remembers: each channel's play state, then the CUE
/// channel's.
pub open spec fn pause_memory(
    channels: Seq<bool>,
    reported: Seq<Option<bool>>,
    cue: bool,
    cue_reported: Option<bool>,
) -> Seq<bool> {
    Seq::new(
        channels.len() + 1,
        |i: int|
            if i < channels.len() {
                known_playing(reported, i, channels[i])
            } else {
                match cue_reported {
                    Some(p) => p,
                    None => cue,
                }
            },
    )
}

/// The channels' play states after a master resume: each channel that a
/// pause remembered plays as it did then.
pub open spec fn resumed(channels: Seq<bool>, memory: Seq<bool>) -> Seq<bool> {
    Seq::new(channels.len(), |i: int| if i < memory.len() { memory[i] } else { channels[i] })
}

/// Master pause: remembers what each channel (and the CUE channel) was
/// playing, as its player reports it where it can, and stops them all.
pub fn pause_all(
    channels: &mut Vec<bool>,
    reported: &[Option<bool>],
    cue: &mut bool,
    cue_reported: Option<bool>,
) -> (memory: Vec<bool>)
    ensures
        memory@ == pause_memory(old(channels)@, reported@, *old(cue), cue_reported),
        final(channels)@ == Seq::new(old(channels)@.len(), |i: int| false),
        !*final(cue),
{
    let ghost before = channels@;
    let mut memory: Vec<bool> = Vec::new();
    let mut i: usize = 0;
    while i < channels.len()
        invariant
            i <= channels@.len(),
            channels@.len() == before.len(),
            forall|k: int| i <= k < before.len() ==> channels@[k] == before[k],
            forall|k: int| 0 <= k < i ==> !channels@[k],
            memory@ == Seq::new(i as nat, |k: int| known_playing(reported@, k, before[k])),
        decreases channels@.len() - i,
    {
        let was = if i < reported.len() {
            match reported[i] {
                Some(p) => p,
                None => channels[i],
            }
        } else {
            channels[i]
        };
        memory.push(was);
        channels.set(i, false);
        proof {
            assert(memory@ =~= Seq::new(i as nat + 1, |k: int| known_playing(reported@, k, before[k])));
        }
        i = i + 1;
    }
    let cue_was = match cue_reported {
        Some(p) => p,
        None => *cue,
    };
    memory.push(cue_was);
    *cue = false;
    proof {
        assert(memory@ =~= pause_memory(before, reported@, *old(cue), cue_reported));
        assert(channels@ =~= Seq::new(before.len(), |i: int| false));
    }
    memory
}

/// Master resume: each channel plays again as the pause remembered it.
pub fn resume_all(channels: &mut Vec<bool>, memory: &[bool])
    ensures
        final(channels)@ == resumed(old(channels)@, memory@),
{
    let ghost before = channels@;
    let mut i: usize = 0;
    while i < memory.len()
        invariant
            i <= memory@.len(),
            channels@.len() == before.len(),
            forall|k: int| 0 <= k < channels@.len() ==> #[trigger] channels@[k] == if k < i {
                memory@[k]
            } else {
                before[k]
            },
        decreases memory@.len() - i,
    {
        if i < channels.len() {
            channels.set(i, memory[i]);
        }
        i = i + 1;
    }
    proof {
        assert(channels@ =~= resumed(before, memory@));
    }
}

/// Pausing the master and resuming it brings every channel back to what it
/// was playing, when the players report what the mixer knows (or report
/// nothing).
pub proof fn lemma_resume_undoes_pause(
    channels: Seq<bool>,
    reported: Seq<Option<bool>>,
    cue: bool,
    cue_reported: Option<bool>,
)
    requires
        forall|i: int|
            0 <= i < channels.len() && i < reported.len() ==> #[trigger] reported[i] is None
                || reported[i] == Some(channels[i]),
    ensures
        resumed(
            Seq::new(channels.len(), |i: int| false),
            pause_memory(channels, reported, cue, cue_reported),
        ) == channels,
{
    let paused = Seq::new(channels.len(), |i: int| false);
    let memory = pause_memory(channels, reported, cue, cue_reported);
    assert forall|i: int| 0 <= i < channels.len() implies #[trigger] resumed(paused, memory)[i]
        == channels[i] by {
        if i < reported.len() {
            assert(reported[i] is None || reported[i] == Some(channels[i]));
        }
    }
    assert(resumed(paused, memory) =~= channels);
}

} // verus!

//! What assigning the selected entry of the source picker to a deck asks
//! for: clearing a deck, capturing a route pipe, connecting to MPV or to
//! SuperCollider, or loading a file.
use vstd::prelude::*;
use crate::modes::Deck;
use crate::picker::{SourcePickerItem, SourcePickerState, SourcePickerTab};
use crate::listing::{item_views, ItemView};
use crate::text::{occurs_in, push_str, str_contains, str_starts_with};

verus! {

/// Base node id of the SuperCollider nodes that a deck creates.
pub open spec fn deck_base_node(deck: Deck) -> i32 {
    match deck {
        Deck::A => 1000,
        Deck::B => 2000,
        Deck::C => 3000,
    }
}

/// Bus on which SuperDirt's composite output arrives.
pub const SC_INPUT_BUS: i32 = 4;

/// What assigning a picker entry to a deck asks for.
pub enum SourceAction {
    /// No entry is selected.
    Nothing,
    /// From the deck actions tab: clear the deck whose action was chosen
    /// (none when the entry names no deck); the picker closes either way.
    ClearDeck(Option<Deck>),
    /// Capture the PCM pipe of an audio route.
    AttachFifo { path: String, name: String },
    /// Connect to an MPV control socket.
    ConnectMpv { socket: String, name: String },
    /// Connect to a SuperCollider server over UDP, with the deck's node ids
    /// and input bus.
    ConnectSuperCollider { addr: String, name: String, base_node_id: i32, input_bus: i32 },
    /// Load an audio file into the engine.
    LoadFile { path: String, name: String },
}

/// The deck whose clear action an entry of the deck actions tab names.
pub open spec fn clear_target(name: Seq<char>) -> Option<Deck> {
    if occurs_in(name, "Clear Deck A"@) {
        Some(Deck::A)
    } else if occurs_in(name, "Clear Deck B"@) {
        Some(Deck::B)
    } else if occurs_in(name, "Clear Deck C"@) {
        Some(Deck::C)
    } else {
        None
    }
}

/// A SuperCollider address with its `udp://` scheme, if any, removed.
pub open spec fn udp_address(path: Seq<char>) -> Seq<char> {
    if "udp://"@.len() <= path.len() && path.take("udp://"@.len() as int) == "udp://"@ {
        path.skip("udp://"@.len() as int)
    } else {
        path
    }
}

/// The entry under the picker's selection, if the selection points at one.
pub open spec fn selected_entry(p: SourcePickerState) -> Option<SourcePickerItem> {
    if p.selected < p.filtered@.len() && p.filtered@[p.selected as int] < p.items@.len() {
        Some(p.items@[p.filtered@[p.selected as int] as int])
    } else {
        None
    }
}

/// Whether `r` is what assigning `item`, chosen on tab `tab`, to `deck`
/// asks for: a route pipe is captured, an MPV socket connected, a UDP
/// address handed to SuperCollider, and anything else loaded as a file.
pub open spec fn action_for(
    tab: SourcePickerTab,
    item: Option<SourcePickerItem>,
    deck: Deck,
    r: SourceAction,
) -> bool {
    if tab == SourcePickerTab::DeckActions {
        r == SourceAction::ClearDeck(
            match item {
                Some(it) => clear_target(it.name@),
                None => None,
            },
        )
    } else {
        match item {
            None => r is Nothing,
            Some(it) => if it.is_pcm_fifo {
                r matches SourceAction::AttachFifo { path, name } && path@ == it.path@ && name@
                    == it.name@
            } else if it.is_socket {
                r matches SourceAction::ConnectMpv { socket, name } && socket@ == it.path@ && name@
                    == it.name@
            } else if it.is_udp {
                r matches SourceAction::ConnectSuperCollider { addr, name, base_node_id, input_bus }
                    && addr@ == udp_address(it.path@) && name@ == it.name@ && base_node_id
                    == deck_base_node(deck) && input_bus == SC_INPUT_BUS
            } else {
                r matches SourceAction::LoadFile { path, name } && path@ == it.path@ && name@
                    == it.name@
            },
        }
    }
}

fn clear_target_of(name: &str) -> (d: Option<Deck>)
    ensures
        d == clear_target(name@),
{
    if str_contains(name, "Clear Deck A") {
        Some(Deck::A)
    } else if str_contains(name, "Clear Deck B") {
        Some(Deck::B)
    } else if str_contains(name, "Clear Deck C") {
        Some(Deck::C)
    } else {
        None
    }
}

fn strip_udp_scheme(path: &str) -> (r: String)
    ensures
        r@ == udp_address(path@),
{
    if str_starts_with(path, "udp://") {
        proof {
            reveal_strlit("udp://");
        }
        path.substring_char(6, path.unicode_len()).to_owned()
    } else {
        path.to_owned()
    }
}

impl SourcePickerState {
    /// What assigning the selected entry to a deck asks for.
    pub fn source_action(&self, deck: Deck) -> (r: SourceAction)
        ensures
            action_for(self.tab, selected_entry(*self), deck, r),
    {
        let item = self.selected_item();
        if self.tab == SourcePickerTab::DeckActions {
            return match item {
                Some(it) => SourceAction::ClearDeck(clear_target_of(it.name.as_str())),
                None => SourceAction::ClearDeck(None),
            };
        }
        match item {
            None => SourceAction::Nothing,
            Some(it) => {
                if it.is_pcm_fifo {
                    SourceAction::AttachFifo { path: it.path.clone(), name: it.name.clone() }
                } else if it.is_socket {
                    SourceAction::ConnectMpv { socket: it.path.clone(), name: it.name.clone() }
                } else if it.is_udp {
                    let base_node_id: i32 = match deck {
                        Deck::A => 1000,
                        Deck::B => 2000,
                        Deck::C => 3000,
                    };
                    SourceAction::ConnectSuperCollider {
                        addr: strip_udp_scheme(it.path.as_str()),
                        name: it.name.clone(),
                        base_node_id,
                        input_bus: SC_INPUT_BUS,
                    }
                } else {
                    SourceAction::LoadFile { path: it.path.clone(), name: it.name.clone() }
                }
            },
        }
    }
}

/// The letter that names a deck.
pub open spec fn deck_letter(d: Deck) -> Seq<char> {
    match d {
        Deck::A => "A"@,
        Deck::B => "B"@,
        Deck::C => "C"@,
    }
}

/// The name of a deck's clear action: a filled dot when a source is
/// connected to the deck, an open one otherwise.
pub open spec fn deck_action_name(d: Deck, connected: bool) -> Seq<char> {
    (if connected {
        "\u{25cf}"@
    } else {
        "\u{25cb}"@
    }) + " Clear Deck "@ + deck_letter(d)
}

/// The entry of a deck's clear action.
pub open spec fn deck_action_entry(d: Deck, connected: bool) -> ItemView {
    ItemView {
        name: deck_action_name(d, connected),
        path: Seq::empty(),
        is_socket: false,
        is_pcm_fifo: false,
        is_udp: false,
        is_dir: false,
        camelot_key: None,
    }
}

/// The entry of the local SuperCollider server.
pub open spec fn supercollider_entry() -> ItemView {
    ItemView {
        name: "SuperCollider UDP (127.0.0.1:57110)"@,
        path: "udp://127.0.0.1:57110"@,
        is_socket: false,
        is_pcm_fifo: false,
        is_udp: true,
        is_dir: false,
        camelot_key: None,
    }
}

fn deck_action_item(d: Deck, connected: bool) -> (it: SourcePickerItem)
    ensures
        crate::listing::item_view(it) == deck_action_entry(d, connected),
{
    let mut name = String::new();
    if connected {
        push_str(&mut name, "\u{25cf}");
    } else {
        push_str(&mut name, "\u{25cb}");
    }
    push_str(&mut name, " Clear Deck ");
    match d {
        Deck::A => push_str(&mut name, "A"),
        Deck::B => push_str(&mut name, "B"),
        Deck::C => push_str(&mut name, "C"),
    }
    SourcePickerItem {
        name,
        path: String::new(),
        is_socket: false,
        is_pcm_fifo: false,
        is_udp: false,
        is_dir: false,
        camelot_key: None,
    }
}

impl SourcePickerState {
    /// Lists the clear action of each deck, A to C, marking the decks that
    /// have a source connected.
    pub fn scan_deck_actions(&mut self, connected_a: bool, connected_b: bool, connected_c: bool)
        ensures
            item_views(final(self).items@) == item_views(old(self).items@) + seq![
                deck_action_entry(Deck::A, connected_a),
                deck_action_entry(Deck::B, connected_b),
                deck_action_entry(Deck::C, connected_c),
            ],
            final(self).tab == old(self).tab,
            final(self).filtered@ == old(self).filtered@,
            final(self).selected == old(self).selected,
    {
        let ghost before = self.items@;
        self.items.push(deck_action_item(Deck::A, connected_a));
        self.items.push(deck_action_item(Deck::B, connected_b));
        self.items.push(deck_action_item(Deck::C, connected_c));
        proof {
            assert(item_views(self.items@) =~= item_views(before) + seq![
                deck_action_entry(Deck::A, connected_a),
                deck_action_entry(Deck::B, connected_b),
                deck_action_entry(Deck::C, connected_c),
            ]);
        }
    }

    /// Lists the local SuperCollider server.
    pub fn scan_supercollider_sources(&mut self)
        ensures
            item_views(final(self).items@) == item_views(old(self).items@).push(supercollider_entry()),
            final(self).tab == old(self).tab,
            final(self).filtered@ == old(self).filtered@,
            final(self).selected == old(self).selected,
    {
        let ghost before = self.items@;
        self.items.push(SourcePickerItem {
            name: "SuperCollider UDP (127.0.0.1:57110)".to_owned(),
            path: "udp://127.0.0.1:57110".to_owned(),
            is_socket: false,
            is_pcm_fifo: false,
            is_udp: true,
            is_dir: false,
            camelot_key: None,
        });
        proof {
            assert(item_views(self.items@) =~= item_views(before).push(supercollider_entry()));
        }
    }
}

proof fn lemma_needle_at(name: Seq<char>, needle: Seq<char>)
    requires
        name.len() == 14,
        needle.len() == 12,
        name.subrange(2, 14) == needle,
    ensures
        occurs_in(name, needle),
{
    assert(name.subrange(2, 2 + needle.len() as int) == needle);
}

proof fn lemma_needle_absent(name: Seq<char>, needle: Seq<char>)
    requires
        name.len() == 14,
        needle.len() == 12,
        name[0] != needle[0],
        name[1] != needle[0],
        name[13] != needle[11],
    ensures
        !occurs_in(name, needle),
{
    assert forall|i: int| 0 <= i && i + needle.len() <= name.len() implies #[trigger] name.subrange(
        i,
        i + needle.len(),
    ) != needle by {
        if i == 0 {
            assert(name.subrange(i, i + needle.len())[0] == name[0]);
        } else if i == 1 {
            assert(name.subrange(i, i + needle.len())[0] == name[1]);
        } else {
            assert(name.subrange(i, i + needle.len())[11] == name[13]);
        }
    }
}

/// Choosing a deck's clear action clears that deck, whatever its mark.
pub proof fn lemma_deck_action_clears_its_deck(d: Deck, connected: bool)
    ensures
        clear_target(deck_action_name(d, connected)) == Some(d),
{
    reveal_strlit("\u{25cf}");
    reveal_strlit("\u{25cb}");
    reveal_strlit(" Clear Deck ");
    reveal_strlit("A");
    reveal_strlit("B");
    reveal_strlit("C");
    reveal_strlit("Clear Deck A");
    reveal_strlit("Clear Deck B");
    reveal_strlit("Clear Deck C");
    let name = deck_action_name(d, connected);
    let mark: char = if connected {
        '\u{25cf}'
    } else {
        '\u{25cb}'
    };
    let letter: char = match d {
        Deck::A => 'A',
        Deck::B => 'B',
        Deck::C => 'C',
    };
    assert(name =~= seq![mark, ' ', 'C', 'l', 'e', 'a', 'r', ' ', 'D', 'e', 'c', 'k', ' ', letter]);
    match d {
        Deck::A => {
            assert(name.subrange(2, 14) =~= "Clear Deck A"@);
            lemma_needle_at(name, "Clear Deck A"@);
        },
        Deck::B => {
            lemma_needle_absent(name, "Clear Deck A"@);
            assert(name.subrange(2, 14) =~= "Clear Deck B"@);
            lemma_needle_at(name, "Clear Deck B"@);
        },
        Deck::C => {
            lemma_needle_absent(name, "Clear Deck A"@);
            lemma_needle_absent(name, "Clear Deck B"@);
            assert(name.subrange(2, 14) =~= "Clear Deck C"@);
            lemma_needle_at(name, "Clear Deck C"@);
        },
    }
}

} // verus!

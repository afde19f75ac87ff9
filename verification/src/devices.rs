//! Device enumeration: which objects of the audio server's registry are
//! offered to the host as output devices, and when a listing is complete.

use vstd::prelude::*;

verus! {

/// Registry property that holds an object's class.
pub const MEDIA_CLASS_KEY: &'static str = "media.class";

/// Registry property that holds a node's name.
pub const NODE_NAME_KEY: &'static str = "node.name";

/// Registry property that holds a node's description.
pub const NODE_DESCRIPTION_KEY: &'static str = "node.description";

/// Class of a playback sink.
pub const SINK_CLASS: &'static str = "Audio/Sink";

/// Class of a device that both plays and records.
pub const DUPLEX_CLASS: &'static str = "Audio/Duplex";

/// What the registry announced about one object: the three properties the
/// listing reads, each absent or present.
#[derive(Clone, Debug, PartialEq, Eq)]
pub struct RegistryEntry {
    pub media_class: Option<String>,
    pub node_name: Option<String>,
    pub node_description: Option<String>,
}

/// A registry entry with its texts as sequences of characters.
pub struct EntryView {
    pub media_class: Option<Seq<char>>,
    pub node_name: Option<Seq<char>>,
    pub node_description: Option<Seq<char>>,
}

/// The text of an optional string.
pub open spec fn text_of(text: Option<String>) -> Option<Seq<char>> {
    match text {
        Some(t) => Some(t@),
        None => None,
    }
}

impl View for RegistryEntry {
    type V = EntryView;

    open spec fn view(&self) -> EntryView {
        EntryView {
            media_class: text_of(self.media_class),
            node_name: text_of(self.node_name),
            node_description: text_of(self.node_description),
        }
    }
}

impl DeepView for RegistryEntry {
    type V = EntryView;

    open spec fn deep_view(&self) -> EntryView {
        self.view()
    }
}

/// An output device offered to the host.
#[derive(Clone, Debug, PartialEq, Eq)]
pub struct SoundCard {
    pub name: String,
    pub description: String,
}

/// A sound card with its texts as sequences of characters.
pub struct SoundCardView {
    pub name: Seq<char>,
    pub description: Seq<char>,
}

impl View for SoundCard {
    type V = SoundCardView;

    open spec fn view(&self) -> SoundCardView {
        SoundCardView { name: self.name@, description: self.description@ }
    }
}

impl DeepView for SoundCard {
    type V = SoundCardView;

    open spec fn deep_view(&self) -> SoundCardView {
        self.view()
    }
}

/// An absent text reads as the empty one.
pub open spec fn or_empty(text: Option<Seq<char>>) -> Seq<char> {
    match text {
        Some(t) => t,
        None => Seq::empty(),
    }
}

/// Whether objects of this class play audio.
pub open spec fn plays_audio(class: Seq<char>) -> bool {
    class == SINK_CLASS@ || class == DUPLEX_CLASS@
}

impl EntryView {
    /// Whether the entry is offered: it plays audio and has a name.
    pub open spec fn listed(self) -> bool {
        plays_audio(or_empty(self.media_class)) && or_empty(self.node_name).len() > 0
    }

    /// The device offered for the entry; its description may be empty.
    pub open spec fn card(self) -> SoundCardView {
        SoundCardView {
            name: or_empty(self.node_name),
            description: or_empty(self.node_description),
        }
    }
}

/// The devices offered for the entries of a listing: one for each listed
/// entry, in the order of the entries.
pub open spec fn sound_cards(entries: Seq<EntryView>) -> Seq<SoundCardView>
    decreases entries.len(),
{
    if entries.len() == 0 {
        Seq::empty()
    } else {
        let before = sound_cards(entries.drop_last());
        if entries.last().listed() {
            before.push(entries.last().card())
        } else {
            before
        }
    }
}

fn text_or_empty(text: &Option<String>) -> (out: String)
    ensures
        out@ == or_empty(text_of(*text)),
{
    match text {
        Some(t) => t.clone(),
        None => String::new(),
    }
}

fn same_text(left: &String, right: &str) -> (same: bool)
    ensures
        same == (left@ == right@),
{
    *left == right.to_owned()
}

/// Decides about one registry entry: the device to offer for it, if any.
pub fn sound_card(entry: &RegistryEntry) -> (card: Option<SoundCard>)
    ensures
        card is Some == entry@.listed(),
        card matches Some(c) ==> c@ == entry@.card(),
{
    let class = text_or_empty(&entry.media_class);
    if !(same_text(&class, SINK_CLASS) || same_text(&class, DUPLEX_CLASS)) {
        return None;
    }
    let name = text_or_empty(&entry.node_name);
    if name.as_str().is_empty() {
        return None;
    }
    Some(SoundCard { name, description: text_or_empty(&entry.node_description) })
}

/// The devices to offer for the entries the registry announced.
pub fn enum_soundcards(entries: &Vec<RegistryEntry>) -> (cards: Vec<SoundCard>)
    ensures
        cards.deep_view() == sound_cards(entries.deep_view()),
{
    let mut cards: Vec<SoundCard> = Vec::new();
    let mut at: usize = 0;
    while at < entries.len()
        invariant
            at <= entries.len(),
            cards.deep_view() == sound_cards(entries.deep_view().take(at as int)),
        decreases entries.len() - at,
    {
        let ghost before = cards.deep_view();
        let ghost seen = entries.deep_view().take(at as int + 1);
        assert(seen.drop_last() =~= entries.deep_view().take(at as int));
        assert(seen.last() == entries[at as int]@);
        match sound_card(&entries[at]) {
            Some(card) => {
                cards.push(card);
                assert(cards.deep_view() =~= before.push(card@));
            },
            None => {},
        }
        at += 1;
    }
    assert(entries.deep_view().take(at as int) =~= entries.deep_view());
    cards
}

/// Every device offered stands for an entry that plays audio and has a
/// name, and carries that name; an entry without a name is never offered,
/// whatever its description.
pub proof fn only_named_sinks_are_listed(entries: Seq<EntryView>)
    ensures
        ({
            let cards = sound_cards(entries);
            &&& cards.len() <= entries.len()
            &&& forall|k: int|
                #![trigger cards[k]]
                0 <= k < cards.len() ==> cards[k].name.len() > 0 && exists|i: int|
                    0 <= i < entries.len() && (#[trigger] entries[i]).listed() && cards[k]
                        == entries[i].card()
            &&& (forall|i: int|
                0 <= i < entries.len() ==> or_empty((#[trigger] entries[i]).node_name).len() == 0)
                ==> cards.len() == 0
        }),
    decreases entries.len(),
{
    if entries.len() > 0 {
        let rest = entries.drop_last();
        only_named_sinks_are_listed(rest);
        let cards = sound_cards(entries);
        let earlier = sound_cards(rest);
        assert forall|k: int| #![trigger cards[k]] 0 <= k < cards.len() implies cards[k].name.len()
            > 0 && exists|i: int|
            0 <= i < entries.len() && (#[trigger] entries[i]).listed() && cards[k]
                == entries[i].card() by {
            if k < earlier.len() {
                assert(cards[k] == earlier[k]);
                let i = choose|i: int|
                    0 <= i < rest.len() && (#[trigger] rest[i]).listed() && earlier[k]
                        == rest[i].card();
                assert(entries[i] == rest[i]);
            } else {
                assert(entries[entries.len() - 1].listed());
            }
        }
        if forall|i: int|
            0 <= i < entries.len() ==> or_empty((#[trigger] entries[i]).node_name).len() == 0 {
            assert forall|i: int| 0 <= i < rest.len() implies or_empty(
                (#[trigger] rest[i]).node_name,
            ).len() == 0 by {
                assert(rest[i] == entries[i]);
            }
            assert(or_empty(entries[entries.len() - 1].node_name).len() == 0);
        }
    }
}

/// Whether a completion event closes the listing: it must come from the
/// core object and carry the sequence number of the pending request. Other
/// completions belong to other requests and are passed over.
pub fn sync_done(id: u32, seq: i32, core_id: u32, pending: i32) -> (done: bool)
    ensures
        done == (id == core_id && seq == pending),
{
    id == core_id && seq == pending
}

} // verus!

//! What is said to a media player over the bus, and what it says back.
//!
//! Nothing here touches the bus. The functions name the player, the
//! properties to ask for and the commands to send, as plain texts that a
//! caller hands to its connection; and they decode what came back.

use crate::errors::Error;
use crate::text::same_text;
use crate::value::Value;
use vstd::prelude::*;

verus! {

/// The object path under which every MPRIS player lives.
pub open spec fn player_path() -> Seq<char> {
    "/org/mpris/MediaPlayer2"@
}

/// The interface that holds a player's properties and commands.
pub open spec fn player_interface() -> Seq<char> {
    "org.mpris.MediaPlayer2.Player"@
}

/// The name under which the player called `player` is known on the bus.
pub open spec fn bus_name(player: Seq<char>) -> Seq<char> {
    "org.mpris.MediaPlayer2."@ + player
}

/// The key of the track's title in a player's metadata.
pub open spec fn title_key() -> Seq<char> {
    "xesam:title"@
}

/// The key of the track's artists in a player's metadata.
pub open spec fn artist_key() -> Seq<char> {
    "xesam:artist"@
}

/// Where a player is reached: its name on the bus, its object path, and how
/// many milliseconds to wait for its answers.
#[derive(Debug, Clone)]
pub struct PlayerAddress {
    pub destination: String,
    pub path: String,
    pub timeout_ms: i32,
}

/// A request for one property of the player.
#[derive(Debug, Clone)]
pub struct PropertyRequest {
    pub interface: String,
    pub property: String,
}

/// A command for the player, sent without waiting for an answer.
#[derive(Debug, Clone)]
pub struct MethodCall {
    pub destination: String,
    pub path: String,
    pub interface: String,
    pub member: String,
}

/// What a player answered when asked for a property: a container around the
/// property's value.
#[derive(Debug)]
pub struct PlayerData(pub Value);

/// One item that arrives on a bus connection, as far as a listener looks at
/// it.
#[derive(Debug, Clone)]
pub enum BusItem {
    /// A signal, with the object path it came from and its member name.
    Signal { path: String, member: String },
    /// Anything else.
    Other,
}

impl MethodCall {
    /// The call of `member` on the player called `player`.
    pub open spec fn to_player(player: Seq<char>, member: Seq<char>) -> (Seq<char>, Seq<char>, Seq<char>, Seq<char>) {
        (bus_name(player), player_path(), player_interface(), member)
    }

    /// The four texts of this call: destination, path, interface, member.
    pub open spec fn view(self) -> (Seq<char>, Seq<char>, Seq<char>, Seq<char>) {
        (self.destination@, self.path@, self.interface@, self.member@)
    }
}

/// The rule by which a listener subscribes to changes of properties,
/// whichever object they belong to.
pub fn listener_match_rule() -> (rule: &'static str)
    ensures
        rule@ == "interface='org.freedesktop.DBus.Properties',member='PropertiesChanged'"@,
{
    "interface='org.freedesktop.DBus.Properties',member='PropertiesChanged'"
}

/// Whether `item` tells that a player's properties have changed: a signal
/// from the players' object path whose member is `PropertiesChanged`.
pub open spec fn is_player_change(item: BusItem) -> bool {
    match item {
        BusItem::Signal { path, member } => path@ == player_path() && member@
            == "PropertiesChanged"@,
        BusItem::Other => false,
    }
}

/// Decides what a listener does with an item from the bus: for a change of a
/// player's properties it asks for the widget `id` to be updated, and every
/// other item it drops.
pub fn listener_wake(id: &str, item: &BusItem) -> (wake: Option<String>)
    ensures
        match wake {
            Some(widget) => is_player_change(*item) && widget@ == id@,
            None => !is_player_change(*item),
        },
{
    match item {
        BusItem::Signal { path, member } => {
            if same_text(path.as_str(), "/org/mpris/MediaPlayer2") && same_text(
                member.as_str(),
                "PropertiesChanged",
            ) {
                Some(String::from_str(id))
            } else {
                None
            }
        },
        BusItem::Other => None,
    }
}

/// Says where the player called `player` is reached.
pub fn player_connection(player: &str) -> (address: PlayerAddress)
    ensures
        address.destination@ == bus_name(player@),
        address.path@ == player_path(),
        address.timeout_ms == 1000,
{
    PlayerAddress {
        destination: String::from_str("org.mpris.MediaPlayer2.").concat(player),
        path: String::from_str("/org/mpris/MediaPlayer2"),
        timeout_ms: 1000,
    }
}

/// The request for the track that is playing.
pub fn music_data() -> (request: PropertyRequest)
    ensures
        request.interface@ == player_interface(),
        request.property@ == "Metadata"@,
{
    PropertyRequest {
        interface: String::from_str("org.mpris.MediaPlayer2.Player"),
        property: String::from_str("Metadata"),
    }
}

/// The request for the state of playback.
pub fn playback_data() -> (request: PropertyRequest)
    ensures
        request.interface@ == player_interface(),
        request.property@ == "PlaybackStatus"@,
{
    PropertyRequest {
        interface: String::from_str("org.mpris.MediaPlayer2.Player"),
        property: String::from_str("PlaybackStatus"),
    }
}

/// The text three levels down: the first value of the first value of the
/// first value of `value`, decoded as a text.
pub open spec fn nested_text(value: Value) -> Option<Seq<char>> {
    match value.first() {
        Some(outer) => match outer.first() {
            Some(middle) => match middle.first() {
                Some(inner) => inner.text(),
                None => None,
            },
            None => None,
        },
        None => None,
    }
}

/// What the entry `key`, `value` of a player's metadata says of the track:
/// the title, the first artist, or nothing that is looked at.
pub open spec fn entry_is_sound(key: Value, value: Value) -> bool {
    match key.text() {
        Some(name) => {
            &&& name == artist_key() ==> nested_text(value) is Some
            &&& name == title_key() ==> value.text() is Some
        },
        None => false,
    }
}

/// Whether the entry at place `j` of `items`, counted in entries, is sound.
pub open spec fn entry_is_sound_at(items: Seq<Value>, j: int) -> bool {
    entry_is_sound(items[2 * j], items[2 * j + 1])
}

/// Whether `items` are keys and values in turn, every entry sound.
pub open spec fn are_entries(items: Seq<Value>) -> bool {
    &&& items.len() % 2 == 0
    &&& forall|j: int| 0 <= j < items.len() / 2 ==> #[trigger] entry_is_sound_at(items, j)
}

/// Whether `raw` has the shape of a player's metadata: keys and values in
/// turn, each key a text, the title a text, the artists a text three levels
/// down.
pub open spec fn is_metadata(raw: Value) -> bool {
    match raw.items() {
        Some(items) => are_entries(items),
        None => false,
    }
}

/// The title among the first `pairs` entries of `items`: that of the last
/// entry whose key is the title's, and the empty text where there is none.
pub open spec fn title_among(items: Seq<Value>, pairs: int) -> Seq<char>
    decreases pairs,
{
    if pairs <= 0 {
        Seq::empty()
    } else if items[2 * (pairs - 1)].text() == Some(title_key()) {
        match items[2 * (pairs - 1) + 1].text() {
            Some(title) => title,
            None => Seq::empty(),
        }
    } else {
        title_among(items, pairs - 1)
    }
}

/// The artist among the first `pairs` entries of `items`: that of the last
/// entry whose key is the artists', and the empty text where there is none.
pub open spec fn artist_among(items: Seq<Value>, pairs: int) -> Seq<char>
    decreases pairs,
{
    if pairs <= 0 {
        Seq::empty()
    } else if items[2 * (pairs - 1)].text() == Some(artist_key()) {
        match nested_text(items[2 * (pairs - 1) + 1]) {
            Some(artist) => artist,
            None => Seq::empty(),
        }
    } else {
        artist_among(items, pairs - 1)
    }
}

/// The title that the metadata `raw` gives.
pub open spec fn title_of(raw: Value) -> Seq<char> {
    match raw.items() {
        Some(items) => title_among(items, items.len() as int / 2),
        None => Seq::empty(),
    }
}

/// The artist that the metadata `raw` gives.
pub open spec fn artist_of(raw: Value) -> Seq<char> {
    match raw.items() {
        Some(items) => artist_among(items, items.len() as int / 2),
        None => Seq::empty(),
    }
}

/// The title among the first entries depends on those entries alone.
proof fn lemma_title_among_agrees(x: Seq<Value>, y: Seq<Value>, pairs: int)
    requires
        0 <= 2 * pairs <= x.len(),
        2 * pairs <= y.len(),
        forall|i: int| 0 <= i < 2 * pairs ==> x[i] == y[i],
    ensures
        title_among(x, pairs) == title_among(y, pairs),
    decreases pairs,
{
    if pairs > 0 {
        lemma_title_among_agrees(x, y, pairs - 1);
    }
}

/// The artist among the first entries depends on those entries alone.
proof fn lemma_artist_among_agrees(x: Seq<Value>, y: Seq<Value>, pairs: int)
    requires
        0 <= 2 * pairs <= x.len(),
        2 * pairs <= y.len(),
        forall|i: int| 0 <= i < 2 * pairs ==> x[i] == y[i],
    ensures
        artist_among(x, pairs) == artist_among(y, pairs),
    decreases pairs,
{
    if pairs > 0 {
        lemma_artist_among_agrees(x, y, pairs - 1);
    }
}

/// Title and artist are found alike with and without one entry whose key
/// is neither the title's nor the artists', counted up to `pairs` entries.
proof fn lemma_skipped_entry(with: Seq<Value>, without: Seq<Value>, at: int, pairs: int)
    requires
        0 <= at < pairs,
        2 * pairs <= with.len(),
        with.len() == without.len() + 2,
        forall|i: int| 0 <= i < 2 * at ==> with[i] == without[i],
        forall|i: int| 2 * at <= i < without.len() ==> with[i + 2] == without[i],
        with[2 * at].text() != Some(title_key()),
        with[2 * at].text() != Some(artist_key()),
    ensures
        title_among(with, pairs) == title_among(without, pairs - 1),
        artist_among(with, pairs) == artist_among(without, pairs - 1),
    decreases pairs,
{
    if pairs == at + 1 {
        lemma_title_among_agrees(with, without, at);
        lemma_artist_among_agrees(with, without, at);
    } else {
        lemma_skipped_entry(with, without, at, pairs - 1);
        assert(with[2 * (pairs - 1)] == without[2 * (pairs - 2)]);
        assert(with[2 * (pairs - 1) + 1] == without[2 * (pairs - 2) + 1]);
    }
}

/// An entry under any other key than the title's and the artists' says
/// nothing of the track. Wherever it stands among the entries, with it and
/// without it the metadata are sound alike, and the same title and the same
/// artist are found.
pub proof fn lemma_other_keys_say_nothing(
    before: Seq<Value>,
    key: Value,
    value: Value,
    after: Seq<Value>,
)
    requires
        before.len() % 2 == 0,
        key.text() is Some,
        key.text() != Some(title_key()),
        key.text() != Some(artist_key()),
    ensures
        ({
            let with = before + seq![key, value] + after;
            let without = before + after;
            &&& are_entries(with) == are_entries(without)
            &&& title_among(with, with.len() as int / 2) == title_among(
                without,
                without.len() as int / 2,
            )
            &&& artist_among(with, with.len() as int / 2) == artist_among(
                without,
                without.len() as int / 2,
            )
        }),
{
    let with = before + seq![key, value] + after;
    let without = before + after;
    let at = before.len() as int / 2;
    let pairs = with.len() as int / 2;
    assert(with[2 * at] == key && with[2 * at + 1] == value);
    assert forall|i: int| 0 <= i < 2 * at implies with[i] == without[i] by {}
    assert forall|i: int| 2 * at <= i < without.len() implies with[i + 2] == without[i] by {}
    assert(without.len() as int / 2 == pairs - 1);
    lemma_skipped_entry(with, without, at, pairs);
    assert(entry_is_sound_at(with, at));
    if are_entries(with) {
        assert forall|j: int| 0 <= j < without.len() / 2 implies #[trigger] entry_is_sound_at(
            without,
            j,
        ) by {
            if j < at {
                assert(entry_is_sound_at(with, j));
            } else {
                assert(entry_is_sound_at(with, j + 1));
                assert(with[2 * (j + 1)] == without[2 * j]);
                assert(with[2 * (j + 1) + 1] == without[2 * j + 1]);
            }
        }
    }
    if are_entries(without) {
        assert forall|j: int| 0 <= j < with.len() / 2 implies #[trigger] entry_is_sound_at(
            with,
            j,
        ) by {
            if j < at {
                assert(entry_is_sound_at(without, j));
            } else if j > at {
                assert(entry_is_sound_at(without, j - 1));
                assert(with[2 * j] == without[2 * (j - 1)]);
                assert(with[2 * j + 1] == without[2 * (j - 1) + 1]);
            }
        }
    }
}

/// Decodes the text three levels down in `value`.
fn nested_str(value: &Value) -> (out: Option<&str>)
    ensures
        match out {
            Some(s) => nested_text(*value) == Some(s@),
            None => nested_text(*value) is None,
        },
{
    match value.head() {
        Some(outer) => match outer.head() {
            Some(middle) => match middle.head() {
                Some(inner) => inner.as_str(),
                None => None,
            },
            None => None,
        },
        None => None,
    }
}

/// Pulls the title and the artist, in that order, out of a player's
/// metadata.
///
/// A key that is missing leaves its text empty. Metadata of any other shape
/// than `is_metadata` describes is refused.
pub fn extract_from_metadata(metadata: &PlayerData) -> (out: Result<(String, String), Error>)
    ensures
        match out {
            Ok((title, artist)) => {
                &&& is_metadata(metadata.0)
                &&& title@ == title_of(metadata.0)
                &&& artist@ == artist_of(metadata.0)
            },
            Err(e) => !is_metadata(metadata.0) && e is MalformedMetadata,
        },
{
    let raw = &metadata.0;
    let n = match raw.count() {
        Some(n) => n,
        None => {
            return Err(Error::MalformedMetadata);
        },
    };
    let ghost items = raw.items().unwrap();
    let mut title = String::new();
    let mut artist = String::new();
    let mut i: usize = 0;
    while i < n
        invariant
            i % 2 == 0,
            i <= n,
            *raw == metadata.0,
            raw.items() == Some(items),
            items.len() == n,
            forall|j: int| 0 <= j < i / 2 ==> #[trigger] entry_is_sound_at(items, j),
            title@ == title_among(items, i as int / 2),
            artist@ == artist_among(items, i as int / 2),
        decreases n - i,
    {
        let key = match raw.item(i) {
            Some(key) => key,
            None => {
                return Err(Error::MalformedMetadata);
            },
        };
        let value = match raw.item(i + 1) {
            Some(value) => value,
            None => {
                assert(items.len() % 2 == 1);
                return Err(Error::MalformedMetadata);
            },
        };
        let ghost pair = i as int / 2;
        assert(2 * pair == i && pair < items.len() / 2);
        assert(items[2 * pair] == *key && items[2 * pair + 1] == *value);
        let name = match key.as_str() {
            Some(name) => name,
            None => {
                assert(!entry_is_sound_at(items, pair));
                return Err(Error::MalformedMetadata);
            },
        };
        proof {
            reveal_strlit("xesam:artist");
            reveal_strlit("xesam:title");
            assert(artist_key().len() != title_key().len());
        }
        if same_text(name, "xesam:artist") {
            match nested_str(value) {
                Some(found) => {
                    artist = String::from_str(found);
                },
                None => {
                    assert(!entry_is_sound_at(items, pair));
                    return Err(Error::MalformedMetadata);
                },
            }
        } else if same_text(name, "xesam:title") {
            match value.as_str() {
                Some(found) => {
                    title = String::from_str(found);
                },
                None => {
                    assert(!entry_is_sound_at(items, pair));
                    return Err(Error::MalformedMetadata);
                },
            }
        }
        i = i + 2;
        assert(i as int / 2 == pair + 1);
        assert(entry_is_sound_at(items, pair));
    }
    Ok((title, artist))
}

/// The command `action` for the player called `player`; an empty `action` is
/// no command at all.
pub fn music_action(player: &str, action: &str) -> (call: Option<MethodCall>)
    ensures
        match call {
            Some(c) => action@.len() > 0 && c@ == MethodCall::to_player(player@, action@),
            None => action@.len() == 0,
        },
{
    if action.unicode_len() != 0 {
        Some(
            MethodCall {
                destination: String::from_str("org.mpris.MediaPlayer2.").concat(player),
                path: String::from_str("/org/mpris/MediaPlayer2"),
                interface: String::from_str("org.mpris.MediaPlayer2.Player"),
                member: String::from_str(action),
            },
        )
    } else {
        None
    }
}

/// The command that starts or pauses playback.
pub fn music_play(player: &str) -> (call: MethodCall)
    ensures
        call@ == MethodCall::to_player(player@, "PlayPause"@),
{
    proof {
        reveal_strlit("PlayPause");
    }
    music_action(player, "PlayPause").unwrap()
}

/// The command that skips to the next track.
pub fn music_next(player: &str) -> (call: MethodCall)
    ensures
        call@ == MethodCall::to_player(player@, "Next"@),
{
    proof {
        reveal_strlit("Next");
    }
    music_action(player, "Next").unwrap()
}

/// The command that goes back to the previous track.
pub fn music_prev(player: &str) -> (call: MethodCall)
    ensures
        call@ == MethodCall::to_player(player@, "Previous"@),
{
    proof {
        reveal_strlit("Previous");
    }
    music_action(player, "Previous").unwrap()
}

} // verus!

//! The music widget whose text scrolls.
//!
//! The widget hands the whole text to a scrolling element and lets it take
//! a step before each update. What the player says is asked for only when
//! that step has not moved the text.

use crate::block::{click_command, clicked, reported, speaks, track, Action, Reply};
use crate::errors::Error;
use crate::fit::joined;
use crate::ident::{fresh_id, is_widget_id};
use crate::mbackend::{extract_from_metadata, MethodCall};
use crate::utils::{
    asked_for, create_buttons, generate_view, is_button_name, is_first_unknown, play_icon, shown,
    update_play_button,
};
use crate::widget::{ButtonView, ButtonWidget, Delay, Element, State, TextView, TextWidget};
use vstd::prelude::*;

verus! {

/// What a user asks of the widget.
#[derive(Debug, Default, Clone)]
pub struct MusicConfig {
    /// The name under which the player is registered on the bus.
    pub player: String,
    /// The most characters that are visible at once, the buttons not counted.
    pub max_width: usize,
    /// Whether a text that is too long scrolls.
    pub marquee: bool,
    /// How long the text rests between two turns.
    pub marquee_interval: Delay,
    /// How long the text takes to move by one character.
    pub marquee_speed: Delay,
    /// The buttons to show: any of `prev`, `play` and `next`.
    pub buttons: Vec<String>,
}

/// How the scrolling element is set up.
#[derive(Debug, Clone, Copy, PartialEq, Eq, Structural)]
pub struct Rotation {
    /// How long the text rests between two turns.
    pub interval: Delay,
    /// How long the text takes to move by one character.
    pub speed: Delay,
    /// The most characters that are visible at once.
    pub width: usize,
}

impl MusicConfig {
    /// The width of a widget that was given none.
    pub fn default_max_width() -> (width: usize)
        ensures
            width == 21,
    {
        21
    }

    /// Whether the text of a widget scrolls that was not told: it does.
    pub fn default_marquee() -> (marquee: bool)
        ensures
            marquee,
    {
        true
    }

    /// The rest between two turns of a widget that was given none: ten
    /// seconds.
    pub fn default_marquee_interval() -> (interval: Delay)
        ensures
            interval == (Delay { secs: 10, nanos: 0 }),
    {
        Delay::from_secs(10)
    }

    /// The time per character of a widget that was given none: half a
    /// second.
    pub fn default_marquee_speed() -> (speed: Delay)
        ensures
            speed == (Delay { secs: 0, nanos: 500_000_000 }),
    {
        Delay::from_millis(500)
    }

    /// The buttons of a widget that was given none: no buttons.
    pub fn default_buttons() -> (buttons: Vec<String>)
        ensures
            buttons@.len() == 0,
    {
        Vec::new()
    }

    /// How the scrolling element of a widget with this configuration is set
    /// up: the rest is cut to whole seconds, and of the time per character
    /// only what is less than a second counts.
    pub open spec fn rotation(&self) -> Rotation {
        Rotation {
            interval: Delay { secs: self.marquee_interval.secs, nanos: 0 },
            speed: Delay { secs: 0, nanos: self.marquee_speed.nanos },
            width: self.max_width,
        }
    }
}

/// The delay after which the next update is due: the one that the scrolling
/// element asked for, and one second where it asked for none.
pub open spec fn due(pending: Option<Delay>) -> Delay {
    match pending {
        Some(delay) => delay,
        None => Delay { secs: 1, nanos: 0 },
    }
}

/// The widget: a scrolling text with the title and the artist of the track
/// that is playing, and buttons to control the player.
#[derive(Debug)]
pub struct Music {
    id: String,
    current_song: TextWidget,
    rotation: Rotation,
    prev: Option<ButtonWidget>,
    play: Option<ButtonWidget>,
    next: Option<ButtonWidget>,
    player_avail: bool,
    marquee: bool,
    player: String,
    pending: Option<Delay>,
}

impl Music {
    /// While no player is there, the text is empty and has no icon.
    #[verifier::type_invariant]
    spec fn blank_without_player(&self) -> bool {
        !self.player_avail ==> self.current_song@.text.len() == 0 && self.current_song@.icon.len()
            == 0
    }

    /// The widget's name.
    pub closed spec fn name(&self) -> Seq<char> {
        self.id@
    }

    /// The name of the player that the widget follows.
    pub closed spec fn player(&self) -> Seq<char> {
        self.player@
    }

    /// Whether the text scrolls.
    pub closed spec fn marquee(&self) -> bool {
        self.marquee
    }

    /// How the scrolling element is set up.
    pub closed spec fn rotation(&self) -> Rotation {
        self.rotation
    }

    /// The delay that the scrolling element asked for at its last step.
    pub closed spec fn pending(&self) -> Option<Delay> {
        self.pending
    }

    /// Whether a player is there.
    pub closed spec fn player_avail(&self) -> bool {
        self.player_avail
    }

    /// The text element, with the whole text.
    pub closed spec fn current_song(&self) -> TextWidget {
        self.current_song
    }

    /// The button for play and pause, if the widget has one.
    pub closed spec fn play(&self) -> Option<ButtonWidget> {
        self.play
    }

    /// The button for the previous track, if the widget has one.
    pub closed spec fn prev(&self) -> Option<ButtonWidget> {
        self.prev
    }

    /// The button for the next track, if the widget has one.
    pub closed spec fn next(&self) -> Option<ButtonWidget> {
        self.next
    }

    /// Whether `self` differs from `before` in nothing but the text element,
    /// the play button, the pending delay and the knowledge of whether a
    /// player is there.
    pub open spec fn same_setup(&self, before: &Music) -> bool {
        &&& self.name() == before.name()
        &&& self.player() == before.player()
        &&& self.marquee() == before.marquee()
        &&& self.rotation() == before.rotation()
        &&& self.prev() == before.prev()
        &&& self.next() == before.next()
        &&& (self.play() is Some) == (before.play() is Some)
    }

    /// Whether the text is blank while no player is there: empty and
    /// without an icon. Every widget is, whatever has happened to it.
    pub open spec fn blank_while_away(&self) -> bool {
        !self.player_avail() ==> self.current_song()@.text.len() == 0
            && self.current_song()@.icon.len() == 0
    }

    /// Makes a widget from its configuration, with a name drawn at random.
    ///
    /// The widget starts without a player: its text is empty. A button name
    /// that does not exist is refused, and the first such name is reported.
    pub fn new(block_config: MusicConfig) -> (out: Result<Music, Error>)
        ensures
            match out {
                Ok(widget) => {
                    &&& is_widget_id(widget.name())
                    &&& widget.player() == block_config.player@
                    &&& widget.marquee() == block_config.marquee
                    &&& widget.rotation() == block_config.rotation()
                    &&& widget.pending() is None
                    &&& !widget.player_avail()
                    &&& widget.current_song()@ == (TextView {
                        text: Seq::empty(),
                        icon: Seq::empty(),
                        state: State::Info,
                    })
                    &&& forall|i: int|
                        0 <= i < block_config.buttons@.len() ==> is_button_name(
                            (#[trigger] block_config.buttons@[i])@,
                        )
                    &&& asked_for(block_config.buttons@, "play"@, widget.play())
                    &&& asked_for(block_config.buttons@, "prev"@, widget.prev())
                    &&& asked_for(block_config.buttons@, "next"@, widget.next())
                },
                Err(e) => match e {
                    Error::UnknownButtonIdentifier(name) => exists|i: int|
                        is_first_unknown(block_config.buttons@, i) && name@ == (
                        #[trigger] block_config.buttons@[i])@,
                    _ => false,
                },
            },
    {
        let id = fresh_id();
        let rotation = Rotation {
            interval: Delay { secs: block_config.marquee_interval.secs, nanos: 0 },
            speed: Delay { secs: 0, nanos: block_config.marquee_speed.nanos },
            width: block_config.max_width,
        };
        match create_buttons(block_config.buttons.as_slice()) {
            Ok((play, prev, next)) => Ok(
                Music {
                    id,
                    current_song: TextWidget::new().with_state(State::Info),
                    rotation,
                    prev,
                    play,
                    next,
                    player_avail: false,
                    marquee: block_config.marquee,
                    player: block_config.player,
                    pending: None,
                },
            ),
            Err(e) => Err(e),
        }
    }

    /// The widget's name.
    pub fn id(&self) -> (out: &str)
        ensures
            out@ == self.name(),
    {
        self.id.as_str()
    }

    /// The name of the player that the widget follows.
    pub fn player_name(&self) -> (out: &str)
        ensures
            out@ == self.player(),
    {
        self.player.as_str()
    }

    /// How the scrolling element is to be set up.
    pub fn rotation_setup(&self) -> (out: Rotation)
        ensures
            out == self.rotation(),
    {
        self.rotation
    }

    /// Whether a player was there at the last update.
    pub fn is_player_avail(&self) -> (out: bool)
        ensures
            out == self.player_avail(),
            self.blank_while_away(),
    {
        proof {
            use_type_invariant(self);
        }
        self.player_avail
    }

    /// The text element, with the whole text.
    pub fn text(&self) -> (out: &TextWidget)
        ensures
            *out == self.current_song(),
            self.blank_while_away(),
    {
        proof {
            use_type_invariant(self);
        }
        &self.current_song
    }

    /// The first step of an update: let the text scroll on where it
    /// scrolls, and else ask the player for the track.
    pub fn start(&mut self) -> (action: Action)
        ensures
            final(self).same_setup(old(self)),
            final(self).play() == old(self).play(),
            final(self).player_avail() == old(self).player_avail(),
            final(self).current_song() == old(self).current_song(),
            final(self).pending() is None,
            action == if old(self).marquee() {
                Action::Rotate
            } else {
                Action::QueryMetadata
            },
    {
        proof {
            use_type_invariant(&*self);
        }
        self.pending = None;
        if self.marquee {
            Action::Rotate
        } else {
            Action::QueryMetadata
        }
    }

    /// Takes in what the scrolling element did: whether the visible text
    /// `moved`, and after which delay the element wants its `next` step.
    ///
    /// Where the text moved, the update ends without a word to the player;
    /// where it did not, the player is asked for the track. Either way the
    /// element's delay is kept for the end of the update.
    pub fn rotated(&mut self, moved: bool, next: Option<Delay>) -> (action: Action)
        ensures
            final(self).same_setup(old(self)),
            final(self).play() == old(self).play(),
            final(self).player_avail() == old(self).player_avail(),
            final(self).current_song() == old(self).current_song(),
            final(self).pending() == next,
            action == if moved {
                Action::Sleep(due(next))
            } else {
                Action::QueryMetadata
            },
    {
        proof {
            use_type_invariant(&*self);
        }
        self.pending = next;
        if moved {
            Action::Sleep(
                match next {
                    Some(delay) => delay,
                    None => Delay::from_secs(1),
                },
            )
        } else {
            Action::QueryMetadata
        }
    }

    /// Takes in what the player answered, and says what to do next.
    ///
    /// An answer to the request for the track decides what is shown: where
    /// it gives a title or an artist, a player is there and the text is the
    /// two joined, at full length, behind the icon `music`; where the
    /// player did not answer, its metadata cannot be decoded or both are
    /// empty, no player is there and text and icon are empty. The state of
    /// playback is asked for next if the widget has a play button.
    ///
    /// An answer to the request for the state of playback changes the icon
    /// of the play button and nothing else.
    ///
    /// The update then ends, and the next is due when the scrolling element
    /// wants its next step, or in one second where it wants none.
    pub fn update(&mut self, reply: Reply) -> (action: Action)
        ensures
            final(self).same_setup(old(self)),
            final(self).blank_while_away(),
            final(self).pending() == old(self).pending(),
            match reply {
                Reply::Metadata(data) => {
                    &&& final(self).player_avail() == speaks(data)
                    &&& final(self).current_song()@ == (TextView {
                        text: if speaks(data) {
                            joined(track(data).0, track(data).1)
                        } else {
                            Seq::empty()
                        },
                        icon: if speaks(data) {
                            "music"@
                        } else {
                            Seq::empty()
                        },
                        ..old(self).current_song()@
                    })
                    &&& final(self).play() == old(self).play()
                    &&& action == if old(self).play() is Some {
                        Action::QueryPlayback
                    } else {
                        Action::Sleep(due(old(self).pending()))
                    }
                },
                Reply::Playback(data) => {
                    &&& final(self).player_avail() == old(self).player_avail()
                    &&& final(self).current_song() == old(self).current_song()
                    &&& match old(self).play() {
                        Some(button) => final(self).play() is Some && final(self).play().unwrap()@
                            == (ButtonView { icon: play_icon(data), ..button@ }),
                        None => final(self).play() is None,
                    }
                    &&& action == Action::Sleep(due(old(self).pending()))
                },
            },
            reply matches Reply::Metadata(Err(_)) ==> {
                &&& !final(self).player_avail()
                &&& final(self).current_song()@.text.len() == 0
            },
    {
        proof {
            use_type_invariant(&*self);
            reveal_strlit("music");
            reveal_strlit(" | ");
        }
        let delay = match self.pending {
            Some(delay) => delay,
            None => Delay::from_secs(1),
        };
        match reply {
            Reply::Metadata(data) => {
                let (title, artist) = match &data {
                    Ok(metadata) => match extract_from_metadata(metadata) {
                        Ok(pair) => pair,
                        Err(_) => (String::new(), String::new()),
                    },
                    Err(_) => (String::new(), String::new()),
                };
                assert(title@ == track(data).0 && artist@ == track(data).1);
                let blank = TextWidget::new().with_state(self.current_song.state());
                if title.as_str().unicode_len() == 0 && artist.as_str().unicode_len() == 0 {
                    self.current_song = blank;
                    self.player_avail = false;
                } else {
                    let text = title.concat(" | ").concat(artist.as_str());
                    assert(text@ =~= joined(track(data).0, track(data).1));
                    self.player_avail = true;
                    self.current_song = blank.with_icon("music").with_text(text);
                }
                if self.play.is_some() {
                    Action::QueryPlayback
                } else {
                    Action::Sleep(delay)
                }
            },
            Reply::Playback(data) => {
                if let Some(shown) = &self.play {
                    let mut play = shown.duplicate();
                    update_play_button(&mut play, &data);
                    self.play = Some(play);
                }
                Action::Sleep(delay)
            },
        }
    }

    /// Turns a click on the widget into the command to send, if it stands
    /// for one. A click counts only where the widget has the button that it
    /// names. The widget itself does not change.
    pub fn click(&self, name: Option<&str>) -> (call: Option<MethodCall>)
        ensures
            match call {
                Some(c) => clicked(
                    reported(name),
                    self.play() is Some,
                    self.prev() is Some,
                    self.next() is Some,
                    self.player(),
                ) == Some(c@),
                None => clicked(
                    reported(name),
                    self.play() is Some,
                    self.prev() is Some,
                    self.next() is Some,
                    self.player(),
                ) is None,
            },
    {
        click_command(
            name,
            self.play.is_some(),
            self.prev.is_some(),
            self.next.is_some(),
            self.player.as_str(),
        )
    }

    /// The widget's elements in the order in which they are shown.
    pub fn view(&self) -> (elements: Vec<Element<'_>>)
        ensures
            elements@ == shown(
                self.player_avail(),
                &self.current_song(),
                &self.play(),
                &self.prev(),
                &self.next(),
            ),
    {
        generate_view(self.player_avail, &self.current_song, &self.play, &self.prev, &self.next)
    }
}

} // verus!

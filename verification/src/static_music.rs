//! The music widget that shows the track in a fixed width.

use crate::block::{click_command, clicked, reported, speaks, track, Action, Reply};
use crate::errors::Error;
use crate::fit::{fit, fitted};
use crate::ident::{fresh_id, is_widget_id};
use crate::mbackend::{extract_from_metadata, MethodCall};
use crate::utils::{
    asked_for, create_buttons, generate_view, is_button_name, is_first_unknown, play_icon, shown,
    update_play_button,
};
use crate::widget::{ButtonView, ButtonWidget, Delay, Element, State, TextView, TextWidget};
use vstd::prelude::*;

verus! {

/// What a user asks of the widget.
#[derive(Debug, Default, Clone)]
pub struct StaticMusicConfig {
    /// The name under which the player is registered on the bus.
    pub player: String,
    /// The most characters that the text may take, the buttons not counted.
    pub max_width: usize,
    /// The buttons to show: any of `prev`, `play` and `next`.
    pub buttons: Vec<String>,
}

impl StaticMusicConfig {
    /// The width of a widget that was given none.
    pub fn default_max_width() -> (width: usize)
        ensures
            width == 21,
    {
        21
    }

    /// The buttons of a widget that was given none: no buttons.
    pub fn default_buttons() -> (buttons: Vec<String>)
        ensures
            buttons@.len() == 0,
    {
        Vec::new()
    }
}

/// The widget: a text with the title and the artist of the track that is
/// playing, and buttons to control the player.
#[derive(Debug)]
pub struct StaticMusic {
    id: String,
    current_song: TextWidget,
    prev: Option<ButtonWidget>,
    play: Option<ButtonWidget>,
    next: Option<ButtonWidget>,
    player_avail: bool,
    player: String,
    max_width: usize,
}

impl StaticMusic {
    /// While no player is there, the text is empty and has no icon.
    #[verifier::type_invariant]
    spec fn blank_without_player(&self) -> bool {
        !self.player_avail ==> self.current_song@.text.len() == 0 && self.current_song@.icon.len()
            == 0
    }

    /// The widget's name.
    pub closed spec fn name(&self) -> Seq<char> {
        self.id@
    }

    /// The name of the player that the widget follows.
    pub closed spec fn player(&self) -> Seq<char> {
        self.player@
    }

    /// The most characters that the text may take.
    pub closed spec fn max_width(&self) -> usize {
        self.max_width
    }

    /// Whether a player is there.
    pub closed spec fn player_avail(&self) -> bool {
        self.player_avail
    }

    /// The text element.
    pub closed spec fn current_song(&self) -> TextWidget {
        self.current_song
    }

    /// The button for play and pause, if the widget has one.
    pub closed spec fn play(&self) -> Option<ButtonWidget> {
        self.play
    }

    /// The button for the previous track, if the widget has one.
    pub closed spec fn prev(&self) -> Option<ButtonWidget> {
        self.prev
    }

    /// The button for the next track, if the widget has one.
    pub closed spec fn next(&self) -> Option<ButtonWidget> {
        self.next
    }

    /// Whether `self` differs from `before` in nothing but the text element,
    /// the play button and the knowledge of whether a player is there.
    pub open spec fn same_setup(&self, before: &StaticMusic) -> bool {
        &&& self.name() == before.name()
        &&& self.player() == before.player()
        &&& self.max_width() == before.max_width()
        &&& self.prev() == before.prev()
        &&& self.next() == before.next()
        &&& (self.play() is Some) == (before.play() is Some)
    }

    /// Whether the text is blank while no player is there: empty and
    /// without an icon. Every widget is, whatever has happened to it.
    pub open spec fn blank_while_away(&self) -> bool {
        !self.player_avail() ==> self.current_song()@.text.len() == 0
            && self.current_song()@.icon.len() == 0
    }

    /// Makes a widget from its configuration, with a name drawn at random.
    ///
    /// The widget starts without a player: its text is empty. A button name
    /// that does not exist is refused, and the first such name is reported.
    pub fn new(block_config: StaticMusicConfig) -> (out: Result<StaticMusic, Error>)
        ensures
            match out {
                Ok(widget) => {
                    &&& is_widget_id(widget.name())
                    &&& widget.player() == block_config.player@
                    &&& widget.max_width() == block_config.max_width
                    &&& !widget.player_avail()
                    &&& widget.current_song()@ == (TextView {
                        text: Seq::empty(),
                        icon: Seq::empty(),
                        state: State::Info,
                    })
                    &&& forall|i: int|
                        0 <= i < block_config.buttons@.len() ==> is_button_name(
                            (#[trigger] block_config.buttons@[i])@,
                        )
                    &&& asked_for(block_config.buttons@, "play"@, widget.play())
                    &&& asked_for(block_config.buttons@, "prev"@, widget.prev())
                    &&& asked_for(block_config.buttons@, "next"@, widget.next())
                },
                Err(e) => match e {
                    Error::UnknownButtonIdentifier(name) => exists|i: int|
                        is_first_unknown(block_config.buttons@, i) && name@ == (
                        #[trigger] block_config.buttons@[i])@,
                    _ => false,
                },
            },
    {
        let id = fresh_id();
        match create_buttons(block_config.buttons.as_slice()) {
            Ok((play, prev, next)) => Ok(
                StaticMusic {
                    id,
                    current_song: TextWidget::new().with_state(State::Info),
                    prev,
                    play,
                    next,
                    player_avail: false,
                    player: block_config.player,
                    max_width: block_config.max_width,
                },
            ),
            Err(e) => Err(e),
        }
    }

    /// The widget's name.
    pub fn id(&self) -> (out: &str)
        ensures
            out@ == self.name(),
    {
        self.id.as_str()
    }

    /// The name of the player that the widget follows.
    pub fn player_name(&self) -> (out: &str)
        ensures
            out@ == self.player(),
    {
        self.player.as_str()
    }

    /// Whether a player was there at the last update.
    pub fn is_player_avail(&self) -> (out: bool)
        ensures
            out == self.player_avail(),
            self.blank_while_away(),
    {
        proof {
            use_type_invariant(self);
        }
        self.player_avail
    }

    /// The text element.
    pub fn text(&self) -> (out: &TextWidget)
        ensures
            *out == self.current_song(),
            self.blank_while_away(),
    {
        proof {
            use_type_invariant(self);
        }
        &self.current_song
    }

    /// The first step of an update: ask the player for the track.
    pub fn start(&self) -> (action: Action)
        ensures
            action == Action::QueryMetadata,
    {
        Action::QueryMetadata
    }

    /// Takes in what the player answered, and says what to do next.
    ///
    /// An answer to the request for the track decides what is shown: where
    /// it gives a title or an artist, a player is there and the text is the
    /// two fitted into the widget's width, behind the icon `music`; where
    /// the player did not answer, its metadata cannot be decoded or both
    /// are empty, no player is there and text and icon are empty. The state
    /// of playback is asked for next if the widget has a play button.
    ///
    /// An answer to the request for the state of playback changes the icon
    /// of the play button and nothing else.
    ///
    /// The update then ends, and the next is due in one second.
    pub fn update(&mut self, reply: Reply) -> (action: Action)
        ensures
            final(self).same_setup(old(self)),
            final(self).blank_while_away(),
            match reply {
                Reply::Metadata(data) => {
                    &&& final(self).player_avail() == speaks(data)
                    &&& final(self).current_song()@ == (TextView {
                        text: fitted(track(data).0, track(data).1, old(self).max_width() as int),
                        icon: if speaks(data) {
                            "music"@
                        } else {
                            Seq::empty()
                        },
                        ..old(self).current_song()@
                    })
                    &&& final(self).play() == old(self).play()
                    &&& action == if old(self).play() is Some {
                        Action::QueryPlayback
                    } else {
                        Action::Sleep(Delay { secs: 1, nanos: 0 })
                    }
                },
                Reply::Playback(data) => {
                    &&& final(self).player_avail() == old(self).player_avail()
                    &&& final(self).current_song() == old(self).current_song()
                    &&& match old(self).play() {
                        Some(button) => final(self).play() is Some && final(self).play().unwrap()@
                            == (ButtonView { icon: play_icon(data), ..button@ }),
                        None => final(self).play() is None,
                    }
                    &&& action == Action::Sleep(Delay { secs: 1, nanos: 0 })
                },
            },
            reply matches Reply::Metadata(Err(_)) ==> {
                &&& !final(self).player_avail()
                &&& final(self).current_song()@.text.len() == 0
            },
    {
        proof {
            use_type_invariant(&*self);
            reveal_strlit("music");
        }
        match reply {
            Reply::Metadata(data) => {
                let (title, artist) = match &data {
                    Ok(metadata) => match extract_from_metadata(metadata) {
                        Ok(pair) => pair,
                        Err(_) => (String::new(), String::new()),
                    },
                    Err(_) => (String::new(), String::new()),
                };
                assert(title@ == track(data).0 && artist@ == track(data).1);
                let blank = TextWidget::new().with_state(self.current_song.state());
                if title.as_str().unicode_len() == 0 && artist.as_str().unicode_len() == 0 {
                    self.current_song = blank;
                    self.player_avail = false;
                } else {
                    let text = fit(title.as_str(), artist.as_str(), self.max_width);
                    self.player_avail = true;
                    self.current_song = blank.with_icon("music").with_text(text);
                }
                if self.play.is_some() {
                    Action::QueryPlayback
                } else {
                    Action::Sleep(Delay::from_secs(1))
                }
            },
            Reply::Playback(data) => {
                if let Some(shown) = &self.play {
                    let mut play = shown.duplicate();
                    update_play_button(&mut play, &data);
                    self.play = Some(play);
                }
                Action::Sleep(Delay::from_secs(1))
            },
        }
    }

    /// Turns a click on the widget into the command to send, if it stands
    /// for one. A click counts only where the widget has the button that it
    /// names. The widget itself does not change.
    pub fn click(&self, name: Option<&str>) -> (call: Option<MethodCall>)
        ensures
            match call {
                Some(c) => clicked(
                    reported(name),
                    self.play() is Some,
                    self.prev() is Some,
                    self.next() is Some,
                    self.player(),
                ) == Some(c@),
                None => clicked(
                    reported(name),
                    self.play() is Some,
                    self.prev() is Some,
                    self.next() is Some,
                    self.player(),
                ) is None,
            },
    {
        click_command(
            name,
            self.play.is_some(),
            self.prev.is_some(),
            self.next.is_some(),
            self.player.as_str(),
        )
    }

    /// The widget's elements in the order in which they are shown.
    pub fn view(&self) -> (elements: Vec<Element<'_>>)
        ensures
            elements@ == shown(
                self.player_avail(),
                &self.current_song(),
                &self.play(),
                &self.prev(),
                &self.next(),
            ),
    {
        generate_view(self.player_avail, &self.current_song, &self.play, &self.prev, &self.next)
    }
}

} // verus!

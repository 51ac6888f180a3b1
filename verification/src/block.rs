//! What passes between a music widget and whoever runs it.
//!
//! A widget never talks to the bus itself. It says what it needs next, an
//! `Action`; its owner does that and hands the outcome back, a `Reply`; and
//! so on until the widget says how long to sleep.

use crate::errors::Error;
use crate::mbackend::{
    artist_of, is_metadata, music_next, music_play, music_prev, title_of, MethodCall, PlayerData,
};
use crate::text::same_text;
use crate::widget::Delay;
use vstd::prelude::*;

verus! {

/// What the player answered to one of the widget's two questions.
#[derive(Debug)]
pub enum Reply {
    /// The answer to the request for the track, or the failure to get one.
    Metadata(Result<PlayerData, Error>),
    /// The answer to the request for the state of playback, or the failure
    /// to get one.
    Playback(Result<PlayerData, Error>),
}

/// What the widget's owner is to do next.
#[derive(Debug, Clone, Copy, PartialEq, Eq, Structural)]
pub enum Action {
    /// Let the text scroll on by one step, and report whether it moved.
    Rotate,
    /// Ask the player for the track, and hand the answer in.
    QueryMetadata,
    /// Ask the player for the state of playback, and hand the answer in.
    QueryPlayback,
    /// The update is done: come back after this delay.
    Sleep(Delay),
}

/// The title and the artist that an answer to the request for the track
/// gives: both empty where the player did not answer or its metadata cannot
/// be decoded.
pub open spec fn track(data: Result<PlayerData, Error>) -> (Seq<char>, Seq<char>) {
    match data {
        Ok(metadata) => if is_metadata(metadata.0) {
            (title_of(metadata.0), artist_of(metadata.0))
        } else {
            (Seq::empty(), Seq::empty())
        },
        Err(_) => (Seq::empty(), Seq::empty()),
    }
}

/// Whether an answer to the request for the track shows that a player is
/// there with something to say: a title or an artist that is not empty.
pub open spec fn speaks(data: Result<PlayerData, Error>) -> bool {
    track(data).0.len() > 0 || track(data).1.len() > 0
}

/// The name under which a click was reported, as a text; a click on no
/// named element has none.
pub open spec fn reported(name: Option<&str>) -> Option<Seq<char>> {
    match name {
        Some(n) => Some(n@),
        None => None,
    }
}

/// The action that a click reported under `name` asks of the player, on a
/// widget that has the buttons told by `has_play`, `has_prev` and
/// `has_next`: `PlayPause` for `play`, `Previous` for `prev` and `Next` for
/// `next`, each only where its button exists. The action is empty for the
/// name of a button that the widget does not have, for any other name, and
/// for a click without a name.
pub open spec fn action_of(
    name: Option<Seq<char>>,
    has_play: bool,
    has_prev: bool,
    has_next: bool,
) -> Seq<char> {
    match name {
        Some(n) => if n == "play"@ && has_play {
            "PlayPause"@
        } else if n == "next"@ && has_next {
            "Next"@
        } else if n == "prev"@ && has_prev {
            "Previous"@
        } else {
            Seq::empty()
        },
        None => Seq::empty(),
    }
}

/// The command that a click reported under `name` stands for, for the
/// player called `player`: the call of its action, and nothing where the
/// action is empty.
pub open spec fn clicked(
    name: Option<Seq<char>>,
    has_play: bool,
    has_prev: bool,
    has_next: bool,
    player: Seq<char>,
) -> Option<(Seq<char>, Seq<char>, Seq<char>, Seq<char>)> {
    if action_of(name, has_play, has_prev, has_next).len() > 0 {
        Some(MethodCall::to_player(player, action_of(name, has_play, has_prev, has_next)))
    } else {
        None
    }
}

/// Turns a click into the command to send, if it stands for one.
///
/// A click counts only where the button that it names exists: on a widget
/// without that button nothing is to be sent, and nothing can go wrong.
pub fn click_command(
    name: Option<&str>,
    has_play: bool,
    has_prev: bool,
    has_next: bool,
    player: &str,
) -> (call: Option<MethodCall>)
    ensures
        match call {
            Some(c) => clicked(reported(name), has_play, has_prev, has_next, player@) == Some(c@),
            None => clicked(reported(name), has_play, has_prev, has_next, player@) is None,
        },
{
    proof {
        reveal_strlit("PlayPause");
        reveal_strlit("Next");
        reveal_strlit("Previous");
        reveal_strlit("play");
        reveal_strlit("next");
        reveal_strlit("prev");
        assert("play"@ != "next"@) by {
            assert("play"@[0] != "next"@[0]);
        }
        assert("play"@ != "prev"@) by {
            assert("play"@[1] != "prev"@[1]);
        }
        assert("next"@ != "prev"@) by {
            assert("next"@[0] != "prev"@[0]);
        }
    }
    match name {
        Some(n) => {
            if same_text(n, "play") {
                if has_play {
                    Some(music_play(player))
                } else {
                    None
                }
            } else if same_text(n, "next") {
                if has_next {
                    Some(music_next(player))
                } else {
                    None
                }
            } else if same_text(n, "prev") {
                if has_prev {
                    Some(music_prev(player))
                } else {
                    None
                }
            } else {
                None
            }
        },
        None => None,
    }
}

/// A click on a button that the widget does not have stands for no command:
/// not `play` without a play button, nor `prev` or `next` without theirs.
pub proof fn lemma_click_without_its_button(
    has_play: bool,
    has_prev: bool,
    has_next: bool,
    player: Seq<char>,
)
    ensures
        !has_play ==> clicked(Some("play"@), has_play, has_prev, has_next, player) is None,
        !has_prev ==> clicked(Some("prev"@), has_play, has_prev, has_next, player) is None,
        !has_next ==> clicked(Some("next"@), has_play, has_prev, has_next, player) is None,
{
    reveal_strlit("play");
    reveal_strlit("next");
    reveal_strlit("prev");
    assert("play"@ != "next"@) by {
        assert("play"@[0] != "next"@[0]);
    }
    assert("play"@ != "prev"@) by {
        assert("play"@[1] != "prev"@[1]);
    }
    assert("next"@ != "prev"@) by {
        assert("next"@[0] != "prev"@[0]);
    }
}

/// A click that is reported under none of the three names stands for no
/// command, whichever buttons the widget has and whoever the player is.
pub proof fn lemma_other_clicks_are_ignored(
    name: Seq<char>,
    has_play: bool,
    has_prev: bool,
    has_next: bool,
    player: Seq<char>,
)
    requires
        name != "play"@,
        name != "next"@,
        name != "prev"@,
    ensures
        clicked(Some(name), has_play, has_prev, has_next, player) is None,
        clicked(None, has_play, has_prev, has_next, player) is None,
{
}

} // verus!

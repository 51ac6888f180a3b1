//! The buttons of a music widget: which exist, how they are lined up, and
//! what the play button shows.

use crate::errors::Error;
use crate::mbackend::PlayerData;
use crate::text::same_text;
use crate::widget::{ButtonView, ButtonWidget, Element, State, TextWidget};
use vstd::prelude::*;

verus! {

/// Whether `name` names one of the three buttons.
pub open spec fn is_button_name(name: Seq<char>) -> bool {
    name == "play"@ || name == "prev"@ || name == "next"@
}

/// Whether one of `buttons` is `name`.
pub open spec fn names_button(buttons: Seq<String>, name: Seq<char>) -> bool {
    exists|i: int| 0 <= i < buttons.len() && (#[trigger] buttons[i])@ == name
}

/// Whether `i` is the place of the first of `buttons` that names no button.
pub open spec fn is_first_unknown(buttons: Seq<String>, i: int) -> bool {
    &&& 0 <= i < buttons.len()
    &&& !is_button_name(buttons[i]@)
    &&& forall|j: int| 0 <= j < i ==> is_button_name((#[trigger] buttons[j])@)
}

/// The button called `id` as a music widget shows it at first: with the
/// icon `music_` and its name, drawn as information.
pub open spec fn fresh_button(id: Seq<char>) -> ButtonView {
    ButtonView { id, icon: "music_"@ + id, state: State::Info }
}

/// The button that `buttons` asks for under `name`: a fresh one where the
/// name occurs, none where it does not.
pub open spec fn asked_for(
    buttons: Seq<String>,
    name: Seq<char>,
    button: Option<ButtonWidget>,
) -> bool {
    match button {
        Some(b) => names_button(buttons, name) && b@ == fresh_button(name),
        None => !names_button(buttons, name),
    }
}

/// Makes the button called `id`.
fn make_button(id: &str, icon: &str) -> (button: ButtonWidget)
    requires
        icon@ == "music_"@ + id@,
    ensures
        button@ == fresh_button(id@),
{
    ButtonWidget::new(id).with_icon(icon).with_state(State::Info)
}

/// Makes the buttons that a configuration asks for, in the order play,
/// previous, next.
///
/// The names may come in any order and more than once. The first name that
/// is none of `play`, `prev`, `next` is refused, and no button is made.
pub fn create_buttons(buttons: &[String]) -> (out: Result<
    (Option<ButtonWidget>, Option<ButtonWidget>, Option<ButtonWidget>),
    Error,
>)
    ensures
        match out {
            Ok((play, prev, next)) => {
                &&& forall|i: int| 0 <= i < buttons@.len() ==> is_button_name((#[trigger] buttons@[i])@)
                &&& asked_for(buttons@, "play"@, play)
                &&& asked_for(buttons@, "prev"@, prev)
                &&& asked_for(buttons@, "next"@, next)
            },
            Err(e) => match e {
                Error::UnknownButtonIdentifier(name) => exists|i: int|
                    is_first_unknown(buttons@, i) && name@ == (#[trigger] buttons@[i])@,
                _ => false,
            },
        },
{
    let mut play: Option<ButtonWidget> = None;
    let mut prev: Option<ButtonWidget> = None;
    let mut next: Option<ButtonWidget> = None;
    proof {
        reveal_strlit("play");
        reveal_strlit("prev");
        reveal_strlit("next");
        reveal_strlit("music_");
        reveal_strlit("music_play");
        reveal_strlit("music_prev");
        reveal_strlit("music_next");
        assert("music_play"@ =~= "music_"@ + "play"@);
        assert("music_prev"@ =~= "music_"@ + "prev"@);
        assert("music_next"@ =~= "music_"@ + "next"@);
        assert("play"@ != "prev"@) by {
            assert("play"@[1] != "prev"@[1]);
        }
        assert("play"@ != "next"@) by {
            assert("play"@[0] != "next"@[0]);
        }
        assert("prev"@ != "next"@) by {
            assert("prev"@[0] != "next"@[0]);
        }
    }
    let mut i: usize = 0;
    while i < buttons.len()
        invariant
            i <= buttons@.len(),
            "music_play"@ == "music_"@ + "play"@,
            "music_prev"@ == "music_"@ + "prev"@,
            "music_next"@ == "music_"@ + "next"@,
            "play"@ != "prev"@,
            "play"@ != "next"@,
            "prev"@ != "next"@,
            forall|j: int| 0 <= j < i ==> is_button_name((#[trigger] buttons@[j])@),
            asked_for(buttons@.take(i as int), "play"@, play),
            asked_for(buttons@.take(i as int), "prev"@, prev),
            asked_for(buttons@.take(i as int), "next"@, next),
        decreases buttons@.len() - i,
    {
        let name = buttons[i].as_str();
        let ghost before = buttons@.take(i as int);
        let ghost after = buttons@.take(i as int + 1);
        assert(after[i as int] == buttons@[i as int]);
        assert forall|wanted: Seq<char>| #[trigger]
            names_button(after, wanted) == (names_button(before, wanted) || wanted == name@) by {
            if names_button(before, wanted) {
                let k = choose|k: int| 0 <= k < before.len() && (#[trigger] before[k])@ == wanted;
                assert(after[k] == before[k]);
            }
            if names_button(after, wanted) {
                let k = choose|k: int| 0 <= k < after.len() && (#[trigger] after[k])@ == wanted;
                if k < i {
                    assert(before[k] == after[k]);
                }
            }
        }
        if same_text(name, "play") {
            play = Some(make_button("play", "music_play"));
        } else if same_text(name, "prev") {
            prev = Some(make_button("prev", "music_prev"));
        } else if same_text(name, "next") {
            next = Some(make_button("next", "music_next"));
        } else {
            assert(is_first_unknown(buttons@, i as int));
            return Err(Error::UnknownButtonIdentifier(String::from_str(name)));
        }
        i = i + 1;
    }
    assert(buttons@.take(i as int) =~= buttons@);
    Ok((play, prev, next))
}

/// The elements that are shown, in their order: the text alone while no
/// player is there, and else the text followed by the buttons for the
/// previous track, for play and pause, and for the next track, as far as
/// they exist.
pub open spec fn shown<'w>(
    player_avail: bool,
    current_song: &'w TextWidget,
    play: &'w Option<ButtonWidget>,
    prev: &'w Option<ButtonWidget>,
    next: &'w Option<ButtonWidget>,
) -> Seq<Element<'w>> {
    if player_avail {
        seq![Element::Text(current_song)] + button_shown(prev) + button_shown(play) + button_shown(
            next,
        )
    } else {
        seq![Element::Text(current_song)]
    }
}

/// The one element of a button that exists, and nothing for one that does
/// not.
pub open spec fn button_shown<'w>(button: &'w Option<ButtonWidget>) -> Seq<Element<'w>> {
    match button {
        Some(b) => seq![Element::Button(b)],
        None => Seq::empty(),
    }
}

/// Lines up the elements of a music widget for the bar.
pub fn generate_view<'w>(
    player_avail: bool,
    current_song: &'w TextWidget,
    play: &'w Option<ButtonWidget>,
    prev: &'w Option<ButtonWidget>,
    next: &'w Option<ButtonWidget>,
) -> (elements: Vec<Element<'w>>)
    ensures
        elements@ == shown(player_avail, current_song, play, prev, next),
{
    let mut elements: Vec<Element<'w>> = Vec::new();
    elements.push(Element::Text(current_song));
    if player_avail {
        if let Some(prev) = prev {
            elements.push(Element::Button(prev));
        }
        if let Some(play) = play {
            elements.push(Element::Button(play));
        }
        if let Some(next) = next {
            elements.push(Element::Button(next));
        }
    }
    assert(elements@ =~= shown(player_avail, current_song, play, prev, next));
    elements
}

/// The icon of the play button after the player was asked for its state of
/// playback: `music_pause` while it says `Playing`, and `music_play` in
/// every other case: where it says any other text, where what it says is no
/// text at all, and where it did not answer.
pub open spec fn play_icon(data: Result<PlayerData, Error>) -> Seq<char> {
    match data {
        Ok(status) => if status.0.text() == Some("Playing"@) {
            "music_pause"@
        } else {
            "music_play"@
        },
        Err(_) => "music_play"@,
    }
}

/// Gives the play button the icon that fits the player's answer.
pub fn update_play_button(play: &mut ButtonWidget, data: &Result<PlayerData, Error>)
    ensures
        final(play)@ == (ButtonView { icon: play_icon(*data), ..old(play)@ }),
{
    let playing = match data {
        Ok(status) => match status.0.as_str() {
            Some(word) => same_text(word, "Playing"),
            None => false,
        },
        Err(_) => false,
    };
    if playing {
        play.set_icon("music_pause")
    } else {
        play.set_icon("music_play")
    }
}

} // verus!

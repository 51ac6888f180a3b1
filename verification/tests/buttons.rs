use music_block::errors::Error;
use music_block::mbackend::PlayerData;
use music_block::utils::{create_buttons, generate_view, update_play_button};
use music_block::value::Value;
use music_block::widget::{ButtonWidget, Delay, Element, State, TextWidget};

fn names(list: &[&str]) -> Vec<String> {
    list.iter().map(|n| n.to_string()).collect()
}

fn status(word: &str) -> Result<PlayerData, Error> {
    Ok(PlayerData(Value::Str(word.to_string())))
}

fn kinds(elements: &[Element<'_>]) -> Vec<String> {
    elements
        .iter()
        .map(|e| match e {
            Element::Text(t) => format!("text:{}", t.text()),
            Element::Button(b) => format!("button:{}", b.id()),
        })
        .collect()
}

#[test]
fn all_three_buttons_can_be_asked_for() {
    let (play, prev, next) = create_buttons(&names(&["next", "play", "prev"])).unwrap();
    let play = play.unwrap();
    assert_eq!(play.id(), "play");
    assert_eq!(play.icon(), "music_play");
    assert_eq!(play.state(), State::Info);
    let prev = prev.unwrap();
    assert_eq!(prev.id(), "prev");
    assert_eq!(prev.icon(), "music_prev");
    assert_eq!(prev.state(), State::Info);
    let next = next.unwrap();
    assert_eq!(next.id(), "next");
    assert_eq!(next.icon(), "music_next");
    assert_eq!(next.state(), State::Info);
}

#[test]
fn buttons_that_are_not_asked_for_do_not_exist() {
    let (play, prev, next) = create_buttons(&names(&[])).unwrap();
    assert!(play.is_none() && prev.is_none() && next.is_none());
    let (play, prev, next) = create_buttons(&names(&["prev"])).unwrap();
    assert!(play.is_none() && prev.is_some() && next.is_none());
    let (play, prev, next) = create_buttons(&names(&["play", "play"])).unwrap();
    assert!(play.is_some() && prev.is_none() && next.is_none());
}

#[test]
fn an_unknown_button_is_refused() {
    match create_buttons(&names(&["play", "bogus"])) {
        Err(Error::UnknownButtonIdentifier(name)) => assert_eq!(name, "bogus"),
        _ => panic!("the name bogus should be refused"),
    }
}

#[test]
fn the_first_unknown_button_is_reported() {
    match create_buttons(&names(&["next", "stop", "play", "rewind"])) {
        Err(Error::UnknownButtonIdentifier(name)) => assert_eq!(name, "stop"),
        _ => panic!("the name stop should be refused"),
    }
    match create_buttons(&names(&["Play"])) {
        Err(Error::UnknownButtonIdentifier(name)) => assert_eq!(name, "Play"),
        _ => panic!("names are case sensitive"),
    }
    match create_buttons(&names(&[""])) {
        Err(Error::UnknownButtonIdentifier(name)) => assert_eq!(name, ""),
        _ => panic!("the empty name should be refused"),
    }
}

#[test]
fn without_a_player_only_the_text_is_shown() {
    let song = TextWidget::new();
    let (play, prev, next) = create_buttons(&names(&["play", "prev", "next"])).unwrap();
    let view = generate_view(false, &song, &play, &prev, &next);
    assert_eq!(kinds(&view), vec!["text:"]);
}

#[test]
fn buttons_follow_the_text_in_a_fixed_order() {
    let song = TextWidget::new().with_text("Song | Band".to_string());
    let (play, prev, next) = create_buttons(&names(&["next", "play", "prev"])).unwrap();
    let view = generate_view(true, &song, &play, &prev, &next);
    assert_eq!(
        kinds(&view),
        vec![
            "text:Song | Band",
            "button:prev",
            "button:play",
            "button:next"
        ]
    );
}

#[test]
fn buttons_that_do_not_exist_are_left_out() {
    let song = TextWidget::new();
    let (play, prev, next) = create_buttons(&names(&["next"])).unwrap();
    let view = generate_view(true, &song, &play, &prev, &next);
    assert_eq!(kinds(&view), vec!["text:", "button:next"]);
    let (play, prev, next) = create_buttons(&names(&["play", "prev"])).unwrap();
    let view = generate_view(true, &song, &play, &prev, &next);
    assert_eq!(kinds(&view), vec!["text:", "button:prev", "button:play"]);
    let (play, prev, next) = create_buttons(&names(&[])).unwrap();
    let view = generate_view(true, &song, &play, &prev, &next);
    assert_eq!(kinds(&view), vec!["text:"]);
}

#[test]
fn the_play_button_offers_a_pause_while_playing() {
    let mut play = ButtonWidget::new("play").with_icon("music_play");
    update_play_button(&mut play, &status("Playing"));
    assert_eq!(play.icon(), "music_pause");
    assert_eq!(play.id(), "play");
}

#[test]
fn the_play_button_offers_to_play_while_not_playing() {
    let mut play = ButtonWidget::new("play").with_icon("music_pause");
    update_play_button(&mut play, &status("Paused"));
    assert_eq!(play.icon(), "music_play");
    update_play_button(&mut play, &status("Playing"));
    update_play_button(&mut play, &status("Stopped"));
    assert_eq!(play.icon(), "music_play");
    update_play_button(&mut play, &status("Playing"));
    update_play_button(&mut play, &status("playing"));
    assert_eq!(play.icon(), "music_play");
}

#[test]
fn the_play_button_offers_to_play_when_the_query_fails() {
    let mut play = ButtonWidget::new("play").with_icon("music_pause");
    update_play_button(&mut play, &Err(Error::QueryFailed));
    assert_eq!(play.icon(), "music_play");
}

#[test]
fn a_state_that_is_no_text_counts_as_not_playing() {
    let mut play = ButtonWidget::new("play").with_icon("music_pause");
    update_play_button(&mut play, &Ok(PlayerData(Value::Other)));
    assert_eq!(play.icon(), "music_play");
    let mut play = ButtonWidget::new("play").with_icon("music_pause");
    let list = Value::List(vec![Value::Str("Playing".to_string())]);
    update_play_button(&mut play, &Ok(PlayerData(list)));
    assert_eq!(play.icon(), "music_play");
    assert_eq!(play.id(), "play");
}

#[test]
fn a_state_inside_a_container_is_read() {
    let mut play = ButtonWidget::new("play").with_icon("music_pause");
    let wrapped = Value::Variant(Box::new(Value::Str("Paused".to_string())));
    update_play_button(&mut play, &Ok(PlayerData(wrapped)));
    assert_eq!(play.icon(), "music_play");
    let wrapped = Value::Variant(Box::new(Value::Str("Playing".to_string())));
    update_play_button(&mut play, &Ok(PlayerData(wrapped)));
    assert_eq!(play.icon(), "music_pause");
}

#[test]
fn elements_are_built_step_by_step() {
    let text = TextWidget::new();
    assert_eq!(text.text(), "");
    assert_eq!(text.icon(), "");
    assert_eq!(text.state(), State::Idle);
    let mut text = text.with_icon("music").with_state(State::Good);
    assert_eq!(text.icon(), "music");
    assert_eq!(text.state(), State::Good);
    text.set_text("Song".to_string());
    text.set_icon("");
    assert_eq!(text.text(), "Song");
    assert_eq!(text.icon(), "");
    assert_eq!(text.state(), State::Good);
    let button = ButtonWidget::new("next");
    assert_eq!(button.id(), "next");
    assert_eq!(button.icon(), "");
    assert_eq!(button.state(), State::Idle);
    let mut button = button.with_state(State::Warning).with_icon("music_next");
    button.set_icon("other");
    let copy = button.duplicate();
    assert_eq!(copy.id(), "next");
    assert_eq!(copy.icon(), "other");
    assert_eq!(copy.state(), State::Warning);
}

#[test]
fn delays_are_made_from_seconds_and_milliseconds() {
    assert_eq!(Delay::from_secs(10), Delay { secs: 10, nanos: 0 });
    assert_eq!(Delay::from_millis(500), Delay { secs: 0, nanos: 500_000_000 });
    assert_eq!(Delay::from_millis(2001), Delay { secs: 2, nanos: 1_000_000 });
    assert_eq!(Delay::from_millis(0), Delay { secs: 0, nanos: 0 });
}

use music_block::block::{click_command, Action, Reply};
use music_block::errors::Error;
use music_block::mbackend::PlayerData;
use music_block::music::{Music, MusicConfig, Rotation};
use music_block::static_music::{StaticMusic, StaticMusicConfig};
use music_block::value::Value;
use music_block::widget::{Delay, Element, State};

fn strings(list: &[&str]) -> Vec<String> {
    list.iter().map(|n| n.to_string()).collect()
}

fn static_config(buttons: &[&str], max_width: usize) -> StaticMusicConfig {
    StaticMusicConfig {
        player: "spotify".to_string(),
        max_width,
        buttons: strings(buttons),
    }
}

fn scrolling_config(buttons: &[&str], marquee: bool) -> MusicConfig {
    MusicConfig {
        player: "vlc".to_string(),
        max_width: MusicConfig::default_max_width(),
        marquee,
        marquee_interval: Delay { secs: 7, nanos: 250 },
        marquee_speed: Delay { secs: 3, nanos: 400_000_000 },
        buttons: strings(buttons),
    }
}

fn metadata(title: &str, artist: &str) -> Reply {
    let mut entries = Vec::new();
    if !title.is_empty() {
        entries.push(Value::Str("xesam:title".to_string()));
        entries.push(Value::Variant(Box::new(Value::Str(title.to_string()))));
    }
    if !artist.is_empty() {
        entries.push(Value::Str("xesam:artist".to_string()));
        entries.push(Value::Variant(Box::new(Value::List(vec![Value::List(
            vec![Value::Str(artist.to_string())],
        )]))));
    }
    Reply::Metadata(Ok(PlayerData(Value::List(entries))))
}

fn playback(word: &str) -> Reply {
    Reply::Playback(Ok(PlayerData(Value::Variant(Box::new(Value::Str(
        word.to_string(),
    ))))))
}

fn one_second() -> Action {
    Action::Sleep(Delay { secs: 1, nanos: 0 })
}

fn labels(elements: &[Element<'_>]) -> Vec<String> {
    elements
        .iter()
        .map(|e| match e {
            Element::Text(t) => format!("{}:{}", t.icon(), t.text()),
            Element::Button(b) => format!("{}:{}", b.id(), b.icon()),
        })
        .collect()
}

#[test]
fn a_new_widget_has_no_player_and_no_text() {
    let widget = StaticMusic::new(static_config(&["play"], 21)).unwrap();
    assert!(!widget.is_player_avail());
    assert_eq!(widget.text().text(), "");
    assert_eq!(widget.text().icon(), "");
    assert_eq!(widget.text().state(), State::Info);
    assert_eq!(widget.player_name(), "spotify");
    assert_eq!(labels(&widget.view()), vec![":"]);
}

#[test]
fn widget_names_are_thirty_two_hex_digits() {
    let first = StaticMusic::new(static_config(&[], 21)).unwrap();
    let second = StaticMusic::new(static_config(&[], 21)).unwrap();
    let third = Music::new(scrolling_config(&[], true)).unwrap();
    for id in [first.id(), second.id(), third.id()] {
        assert_eq!(id.chars().count(), 32);
        assert!(id
            .chars()
            .all(|c| c.is_ascii_digit() || ('a'..='f').contains(&c)));
    }
    assert_ne!(first.id(), second.id());
    assert_ne!(first.id(), third.id());
}

#[test]
fn construction_fails_on_an_unknown_button() {
    match StaticMusic::new(static_config(&["play", "bogus"], 21)) {
        Err(Error::UnknownButtonIdentifier(name)) => assert_eq!(name, "bogus"),
        _ => panic!("the name bogus should be refused"),
    }
    match Music::new(scrolling_config(&["play", "bogus"], true)) {
        Err(Error::UnknownButtonIdentifier(name)) => assert_eq!(name, "bogus"),
        _ => panic!("the name bogus should be refused"),
    }
}

#[test]
fn configurations_have_their_defaults() {
    assert_eq!(StaticMusicConfig::default_max_width(), 21);
    assert!(StaticMusicConfig::default_buttons().is_empty());
    assert_eq!(MusicConfig::default_max_width(), 21);
    assert!(MusicConfig::default_marquee());
    assert_eq!(
        MusicConfig::default_marquee_interval(),
        Delay { secs: 10, nanos: 0 }
    );
    assert_eq!(
        MusicConfig::default_marquee_speed(),
        Delay { secs: 0, nanos: 500_000_000 }
    );
    assert!(MusicConfig::default_buttons().is_empty());
}

#[test]
fn an_update_begins_with_the_track() {
    let widget = StaticMusic::new(static_config(&[], 21)).unwrap();
    assert_eq!(widget.start(), Action::QueryMetadata);
}

#[test]
fn a_track_is_fitted_into_the_width() {
    let mut widget = StaticMusic::new(static_config(&[], 21)).unwrap();
    let action = widget.update(metadata("Bohemian Rhapsody", "Queen"));
    assert_eq!(action, one_second());
    assert!(widget.is_player_avail());
    assert_eq!(widget.text().text(), "Bohemian Rha | Queen");
    assert_eq!(widget.text().icon(), "music");
    assert_eq!(widget.text().state(), State::Info);
}

#[test]
fn a_track_with_one_side_shows_that_side() {
    let mut widget = StaticMusic::new(static_config(&[], 6)).unwrap();
    widget.update(metadata("", "Ludwig van Beethoven"));
    assert!(widget.is_player_avail());
    assert_eq!(widget.text().text(), "Ludwig");
    widget.update(metadata("Imagine", ""));
    assert_eq!(widget.text().text(), "Imagin");
}

#[test]
fn a_failed_query_blanks_the_widget() {
    let mut widget = StaticMusic::new(static_config(&["play", "next"], 21)).unwrap();
    widget.update(metadata("Song", "Band"));
    assert!(widget.is_player_avail());
    assert_eq!(labels(&widget.view()).len(), 3);
    let action = widget.update(Reply::Metadata(Err(Error::QueryFailed)));
    assert_eq!(action, Action::QueryPlayback);
    assert!(!widget.is_player_avail());
    assert_eq!(widget.text().text(), "");
    assert_eq!(widget.text().icon(), "");
    assert_eq!(labels(&widget.view()), vec![":"]);
}

#[test]
fn metadata_that_cannot_be_decoded_blanks_the_widget() {
    let mut widget = StaticMusic::new(static_config(&[], 21)).unwrap();
    widget.update(metadata("Song", "Band"));
    widget.update(Reply::Metadata(Ok(PlayerData(Value::Other))));
    assert!(!widget.is_player_avail());
    assert_eq!(widget.text().text(), "");
    assert_eq!(widget.text().icon(), "");
}

#[test]
fn empty_metadata_blanks_the_widget() {
    let mut widget = StaticMusic::new(static_config(&[], 21)).unwrap();
    widget.update(metadata("Song", "Band"));
    widget.update(metadata("", ""));
    assert!(!widget.is_player_avail());
    assert_eq!(widget.text().text(), "");
    assert_eq!(widget.text().icon(), "");
}

#[test]
fn a_play_button_asks_for_the_state_of_playback() {
    let mut widget = StaticMusic::new(static_config(&["play", "prev"], 21)).unwrap();
    assert_eq!(widget.update(metadata("Song", "Band")), Action::QueryPlayback);
    assert_eq!(widget.update(playback("Playing")), one_second());
    assert_eq!(
        labels(&widget.view()),
        vec!["music:Song | Band", "prev:music_prev", "play:music_pause"]
    );
    assert_eq!(widget.update(playback("Paused")), one_second());
    assert_eq!(
        labels(&widget.view()),
        vec!["music:Song | Band", "prev:music_prev", "play:music_play"]
    );
}

#[test]
fn a_failed_playback_query_leaves_the_text_alone() {
    let mut widget = StaticMusic::new(static_config(&["play"], 21)).unwrap();
    widget.update(metadata("Song", "Band"));
    widget.update(playback("Playing"));
    let action = widget.update(Reply::Playback(Err(Error::QueryFailed)));
    assert_eq!(action, one_second());
    assert!(widget.is_player_avail());
    assert_eq!(
        labels(&widget.view()),
        vec!["music:Song | Band", "play:music_play"]
    );
}

#[test]
fn a_playback_answer_without_a_play_button_changes_nothing() {
    let mut widget = StaticMusic::new(static_config(&["next"], 21)).unwrap();
    widget.update(metadata("Song", "Band"));
    assert_eq!(widget.update(playback("Playing")), one_second());
    assert_eq!(
        labels(&widget.view()),
        vec!["music:Song | Band", "next:music_next"]
    );
}

#[test]
fn clicks_become_commands() {
    let widget = StaticMusic::new(static_config(&["play", "prev", "next"], 21)).unwrap();
    let call = widget.click(Some("play")).unwrap();
    assert_eq!(call.destination, "org.mpris.MediaPlayer2.spotify");
    assert_eq!(call.path, "/org/mpris/MediaPlayer2");
    assert_eq!(call.interface, "org.mpris.MediaPlayer2.Player");
    assert_eq!(call.member, "PlayPause");
    assert_eq!(widget.click(Some("next")).unwrap().member, "Next");
    assert_eq!(widget.click(Some("prev")).unwrap().member, "Previous");
}

#[test]
fn a_click_on_something_else_does_nothing() {
    let widget = StaticMusic::new(static_config(&["play", "prev", "next"], 21)).unwrap();
    assert!(widget.click(Some("bogus")).is_none());
    assert!(widget.click(Some("")).is_none());
    assert!(widget.click(Some("Play")).is_none());
    assert!(widget.click(Some("PlayPause")).is_none());
    assert!(widget.click(None).is_none());
    assert!(click_command(Some("bogus"), true, true, true, "vlc").is_none());
    assert!(click_command(None, true, true, true, "vlc").is_none());
}

#[test]
fn a_click_on_play_without_a_play_button_does_nothing() {
    let widget = StaticMusic::new(static_config(&[], 21)).unwrap();
    assert!(widget.click(Some("play")).is_none());
    let widget = StaticMusic::new(static_config(&["prev", "next"], 21)).unwrap();
    assert!(widget.click(Some("play")).is_none());
    let widget = Music::new(scrolling_config(&["next"], true)).unwrap();
    assert!(widget.click(Some("play")).is_none());
    assert!(click_command(Some("play"), false, true, true, "vlc").is_none());
}

#[test]
fn a_click_counts_only_where_its_button_exists() {
    let widget = StaticMusic::new(static_config(&["play"], 21)).unwrap();
    assert_eq!(widget.click(Some("play")).unwrap().member, "PlayPause");
    assert!(widget.click(Some("next")).is_none());
    assert!(widget.click(Some("prev")).is_none());
    let widget = StaticMusic::new(static_config(&["next"], 21)).unwrap();
    assert!(widget.click(Some("play")).is_none());
    assert_eq!(widget.click(Some("next")).unwrap().member, "Next");
    assert!(widget.click(Some("prev")).is_none());
    let widget = Music::new(scrolling_config(&["prev"], false)).unwrap();
    assert!(widget.click(Some("play")).is_none());
    assert!(widget.click(Some("next")).is_none());
    assert_eq!(widget.click(Some("prev")).unwrap().member, "Previous");
    assert!(click_command(Some("next"), true, true, false, "vlc").is_none());
    assert!(click_command(Some("prev"), true, false, true, "vlc").is_none());
    let call = click_command(Some("next"), false, false, true, "vlc").unwrap();
    assert_eq!(call.destination, "org.mpris.MediaPlayer2.vlc");
    assert_eq!(call.member, "Next");
}

#[test]
fn a_click_without_its_button_changes_nothing() {
    let mut widget = StaticMusic::new(static_config(&["next"], 21)).unwrap();
    widget.update(metadata("Song", "Band"));
    let before = labels(&widget.view());
    assert!(widget.click(Some("play")).is_none());
    assert_eq!(labels(&widget.view()), before);
    assert!(widget.is_player_avail());
    assert_eq!(widget.text().text(), "Song | Band");
}

#[test]
fn a_click_leaves_the_widget_as_it_was() {
    let mut widget = StaticMusic::new(static_config(&["play"], 21)).unwrap();
    widget.update(metadata("Song", "Band"));
    widget.update(playback("Playing"));
    let before = labels(&widget.view());
    widget.click(Some("play"));
    widget.click(Some("bogus"));
    assert_eq!(labels(&widget.view()), before);
    assert!(widget.is_player_avail());
}

#[test]
fn a_scrolling_widget_is_set_up_from_its_configuration() {
    let widget = Music::new(scrolling_config(&["play"], true)).unwrap();
    assert_eq!(
        widget.rotation_setup(),
        Rotation {
            interval: Delay { secs: 7, nanos: 0 },
            speed: Delay { secs: 0, nanos: 400_000_000 },
            width: 21,
        }
    );
    assert_eq!(widget.player_name(), "vlc");
    assert!(!widget.is_player_avail());
    assert_eq!(widget.text().text(), "");
    assert_eq!(widget.text().icon(), "");
    assert_eq!(widget.text().state(), State::Info);
}

#[test]
fn a_scrolling_widget_scrolls_before_it_asks() {
    let mut widget = Music::new(scrolling_config(&[], true)).unwrap();
    assert_eq!(widget.start(), Action::Rotate);
    let mut still = Music::new(scrolling_config(&[], false)).unwrap();
    assert_eq!(still.start(), Action::QueryMetadata);
}

#[test]
fn a_text_that_moved_ends_the_update() {
    let mut widget = Music::new(scrolling_config(&["play"], true)).unwrap();
    widget.start();
    let later = Delay { secs: 0, nanos: 500_000_000 };
    assert_eq!(widget.rotated(true, Some(later)), Action::Sleep(later));
    widget.start();
    assert_eq!(widget.rotated(true, None), one_second());
}

#[test]
fn a_text_that_rests_lets_the_widget_ask() {
    let mut widget = Music::new(scrolling_config(&["play"], true)).unwrap();
    widget.start();
    let later = Delay { secs: 10, nanos: 0 };
    assert_eq!(widget.rotated(false, Some(later)), Action::QueryMetadata);
    assert_eq!(widget.update(metadata("Song", "Band")), Action::QueryPlayback);
    assert_eq!(widget.update(playback("Playing")), Action::Sleep(later));
    assert_eq!(widget.start(), Action::Rotate);
    assert_eq!(widget.rotated(false, None), Action::QueryMetadata);
    assert_eq!(widget.update(metadata("Song", "Band")), Action::QueryPlayback);
    assert_eq!(widget.update(playback("Paused")), one_second());
    assert_eq!(
        labels(&widget.view()),
        vec!["music:Song | Band", "play:music_play"]
    );
}

#[test]
fn a_scrolling_text_is_joined_at_full_length() {
    let mut widget = Music::new(scrolling_config(&[], false)).unwrap();
    assert_eq!(widget.start(), Action::QueryMetadata);
    let action = widget.update(metadata("Bohemian Rhapsody", "Queen"));
    assert_eq!(action, one_second());
    assert!(widget.is_player_avail());
    assert_eq!(widget.text().text(), "Bohemian Rhapsody | Queen");
    assert_eq!(widget.text().icon(), "music");
    widget.update(metadata("Imagine", ""));
    assert_eq!(widget.text().text(), "Imagine | ");
    widget.update(metadata("", "Queen"));
    assert_eq!(widget.text().text(), " | Queen");
}

#[test]
fn a_failed_query_blanks_the_scrolling_widget() {
    let mut widget = Music::new(scrolling_config(&["next"], true)).unwrap();
    widget.update(metadata("Song", "Band"));
    assert_eq!(labels(&widget.view()).len(), 2);
    widget.update(Reply::Metadata(Err(Error::QueryFailed)));
    assert!(!widget.is_player_avail());
    assert_eq!(widget.text().text(), "");
    assert_eq!(widget.text().icon(), "");
    assert_eq!(labels(&widget.view()), vec![":"]);
    widget.update(metadata("Song", "Band"));
    widget.update(Reply::Metadata(Ok(PlayerData(Value::Str(
        "no mapping".to_string(),
    )))));
    assert!(!widget.is_player_avail());
    assert_eq!(widget.text().text(), "");
}

#[test]
fn clicks_on_a_scrolling_widget_become_commands() {
    let widget = Music::new(scrolling_config(&["play", "prev", "next"], true)).unwrap();
    assert_eq!(widget.click(Some("play")).unwrap().member, "PlayPause");
    assert_eq!(
        widget.click(Some("play")).unwrap().destination,
        "org.mpris.MediaPlayer2.vlc"
    );
    assert_eq!(widget.click(Some("next")).unwrap().member, "Next");
    assert_eq!(widget.click(Some("prev")).unwrap().member, "Previous");
    assert!(widget.click(Some("bogus")).is_none());
    assert!(widget.click(None).is_none());
}

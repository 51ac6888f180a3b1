use music_block::fit::{fit, truncate_chars};

#[test]
fn nothing_to_show_gives_an_empty_text() {
    assert_eq!(fit("", "", 21), "");
    assert_eq!(fit("", "", 0), "");
}

#[test]
fn artist_alone_is_cut_to_the_width() {
    assert_eq!(fit("", "Ludwig van Beethoven", 6), "Ludwig");
    assert_eq!(fit("", "Queen", 21), "Queen");
    assert_eq!(fit("", "Queen", 5), "Queen");
    assert_eq!(fit("", "Queen", 0), "");
}

#[test]
fn title_alone_is_cut_to_the_width() {
    assert_eq!(fit("Bohemian Rhapsody", "", 8), "Bohemian");
    assert_eq!(fit("Imagine", "", 21), "Imagine");
    assert_eq!(fit("Imagine", "", 1), "I");
}

#[test]
fn a_cut_never_splits_a_character() {
    assert_eq!(fit("", "Björk Guðmundsdóttir", 2), "Bj");
    assert_eq!(fit("", "Björk Guðmundsdóttir", 3), "Bjö");
    assert_eq!(fit("日本語のタイトルです", "", 4), "日本語の");
    assert_eq!(fit("日本語のタイトルです", "アーティスト名", 12), "日本語のタ | アーテ");
    assert_eq!(fit("Für Elise", "Ludwig van Beethoven", 21), "Für E | Ludwig van B");
}

#[test]
fn joined_text_that_fits_is_left_alone() {
    assert_eq!(fit("Song", "Band", 21), "Song | Band");
    assert_eq!(fit("Song", "Band", 11), "Song | Band");
    assert_eq!(fit("x", "y", 5), "x | y");
    assert_eq!(
        fit("Stairway to Heaven", "Led Zeppelin", 33),
        "Stairway to Heaven | Led Zeppelin"
    );
}

#[test]
fn bohemian_rhapsody_keeps_the_whole_artist() {
    let out = fit("Bohemian Rhapsody", "Queen", 21);
    assert_eq!(out, "Bohemian Rha | Queen");
    assert!(out.chars().count() <= 21);
}

#[test]
fn a_short_title_is_kept_whole_beside_a_long_artist() {
    assert_eq!(fit("Queen", "Bohemian Rhapsody", 21), "Queen | Bohemian Rha");
    assert_eq!(fit("A Day in the Life", "The Beatles", 25), "A Day in t | The Beatles");
}

#[test]
fn both_sides_give_up_their_share() {
    assert_eq!(
        fit("aaaaaaaaaaaaaaaaaaaa", "bbbbbbbbbbbbbbbbbbbb", 21),
        "aaaaaaaaa | bbbbbbbbb"
    );
    assert_eq!(fit("Stairway to Heaven", "Led Zeppelin", 21), "Stairway t | Led Zep");
    assert_eq!(fit("Hey Jude", "The Beatles", 21), "Hey Jud | The Beatle");
    assert_eq!(fit("Imagine", "John Lennon", 20), "Imagin | John Lenno");
    assert_eq!(fit("Song", "Band", 10), "Son | Ban");
}

#[test]
fn one_character_over_takes_one_from_each_side() {
    assert_eq!(
        fit("Stairway to Heaven", "Led Zeppelin", 32),
        "Stairway to Heave | Led Zeppeli"
    );
}

#[test]
fn each_side_keeps_at_least_one_character() {
    assert_eq!(fit("abc", "def", 0), "a | d");
    assert_eq!(fit("abc", "def", 2), "a | d");
    assert_eq!(fit("Song", "Band", 3), "S | B");
    assert_eq!(fit("ab", "cdefghij", 5), "a | c");
    assert_eq!(fit("x", "y", 4), "x | y");
}

#[test]
fn fitted_text_is_never_longer_than_the_joined_text() {
    let titles = ["a", "Imagine", "Bohemian Rhapsody", "日本語のタイトルです"];
    let artists = ["b", "Queen", "Ludwig van Beethoven"];
    for title in titles {
        for artist in artists {
            let full = title.chars().count() + 3 + artist.chars().count();
            for max in 0..40 {
                let out = fit(title, artist, max);
                let mut sides = out.split(" | ");
                let head = sides.next().unwrap();
                let tail = sides.next().unwrap();
                assert!(!head.is_empty() && title.starts_with(head));
                assert!(!tail.is_empty() && artist.starts_with(tail));
                assert!(out.chars().count() <= full);
                if max >= 3 {
                    assert!(out.chars().count() <= max + 2);
                }
                if max >= full {
                    assert_eq!(out.chars().count(), full);
                }
            }
        }
    }
}

#[test]
fn the_same_inputs_give_the_same_text() {
    let first = fit("Bohemian Rhapsody", "Queen", 21);
    let second = fit("Bohemian Rhapsody", "Queen", 21);
    assert_eq!(first, second);
    assert_eq!(fit("", "Queen", 3), fit("", "Queen", 3));
}

#[test]
fn truncating_counts_characters() {
    assert_eq!(truncate_chars("héllo", 2), "hé");
    assert_eq!(truncate_chars("héllo", 5), "héllo");
    assert_eq!(truncate_chars("héllo", 9), "héllo");
    assert_eq!(truncate_chars("héllo", 0), "");
    assert_eq!(truncate_chars("", 3), "");
}

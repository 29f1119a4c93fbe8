use std::cmp::Ordering;
use blackbird::incremental_search::{expire, handle_frame, FrameInput, IncrementalSearchState};
use blackbird::library::album::{calculate_total_rows, get_visible_albums};
use blackbird::library::group::{scroll_label, SortOrder};
use blackbird::library::Album;

fn album(song_count: u32) -> Album {
    Album::from_server("id".to_string(), "name".to_string(), None, None, None, song_count, 0, None, None)
}

#[test]
fn albums_are_filed_under_unknown_artist() {
    assert_eq!(album(1).artist, "Unknown Artist");
}

#[test]
fn total_rows_and_visible_albums() {
    // Rows: 2 + songs + 1 margin: 4, 6, 3, 5.
    let albums = vec![album(1), album(3), album(0), album(2)];
    assert_eq!(calculate_total_rows(&albums, 1), 18);
    let v = get_visible_albums(&albums, 5, 11, 1);
    assert_eq!(v.albums, vec![1, 2]);
    assert_eq!(v.start_row, 4);
    let v = get_visible_albums(&albums, 0, 1, 1);
    assert_eq!(v.albums, vec![0]);
    assert_eq!(v.start_row, 0);
    let v = get_visible_albums(&albums, 18, 30, 1);
    assert!(v.albums.is_empty());
    assert_eq!(v.start_row, 0);
}

#[test]
fn scroll_labels_follow_the_sort_order() {
    assert_eq!(scroll_label(SortOrder::Alphabetical, "Björk", None, None), "B");
    assert_eq!(scroll_label(SortOrder::Alphabetical, "", None, None), "?");
    assert_eq!(scroll_label(SortOrder::NewestFirst, "x", Some(2024), None), "2024");
    assert_eq!(scroll_label(SortOrder::NewestFirst, "x", None, None), "?");
    assert_eq!(scroll_label(SortOrder::RecentlyAdded, "x", None, Some("2019-05-01T00:00:00Z")), "2019");
    assert_eq!(scroll_label(SortOrder::RecentlyAdded, "x", None, Some("")), "?");
    assert_eq!(scroll_label(SortOrder::RecentlyAdded, "x", None, None), "?");
}

fn input() -> FrameInput {
    FrameInput { texts: Vec::new(), backspace: false, down: false, up: false, escape: false, enter: false }
}

#[test]
fn type_ahead_search() {
    let mut s = IncrementalSearchState::new();
    s.active = true;
    let mut i = input();
    i.texts = vec!["a".to_string(), "/".to_string(), "bc".to_string(), "b".to_string()];
    assert_eq!(handle_frame(&mut s, Some(&i), 0, 100), None);
    assert_eq!(s.query, "ab");
    assert_eq!(s.last_input_ms, Some(100));
    let mut i = input();
    i.down = true;
    handle_frame(&mut s, Some(&i), 3, 150);
    assert_eq!(s.result_index, 1);
    let mut i = input();
    i.backspace = true;
    handle_frame(&mut s, Some(&i), 3, 200);
    assert_eq!(s.query, "a");
    assert_eq!(s.result_index, 0);
    let mut i = input();
    i.down = true;
    handle_frame(&mut s, Some(&i), 3, 250);
    let mut i = input();
    i.enter = true;
    assert_eq!(handle_frame(&mut s, Some(&i), 3, 300), Some(1));
    assert!(!s.active);
    assert_eq!(s.query, "");
}

#[test]
fn type_ahead_times_out_and_backspace_on_empty_closes() {
    let mut s = IncrementalSearchState::new();
    s.active = true;
    s.query = "x".to_string();
    s.last_input_ms = Some(1000);
    expire(&mut s, 1500, 1000);
    assert!(s.active);
    expire(&mut s, 2001, 1000);
    assert!(!s.active && s.query.is_empty() && s.last_input_ms.is_none());
    s.active = true;
    let mut i = input();
    i.backspace = true;
    handle_frame(&mut s, Some(&i), 0, 3000);
    assert!(!s.active);
    // The selection is moved back onto the matches even without input.
    s.result_index = 9;
    handle_frame(&mut s, None, 4, 0);
    assert_eq!(s.result_index, 3);
}

fn named_album(artist: &str, year: Option<i32>, name: &str) -> Album {
    Album::from_server("id".to_string(), name.to_string(), Some(artist.to_string()), None, None, 1, 0, year, None)
}

fn song(year: Option<i32>, disc: Option<u32>, track: Option<u32>) -> blackbird::library::Song {
    blackbird::library::Song::from_server("s".to_string(), "t".to_string(), None, track, year, None, None, disc, None)
}

#[test]
fn albums_order_by_artist_ignoring_case_then_year_then_name() {
    let waterloo = named_album("abba", Some(1974), "Waterloo");
    let arrival = named_album("ABBA", Some(1976), "Arrival");
    assert_eq!(waterloo.cmp(&arrival), Ordering::Less);
    assert_eq!(arrival.cmp(&waterloo), Ordering::Greater);
    // A byte order would put "Beatles" before "abba"; the case-blind order does not.
    let beatles = named_album("Beatles", Some(1969), "Abbey Road");
    assert_eq!(beatles.cmp(&waterloo), Ordering::Greater);
    // An album without a year comes before one with a year.
    let undated = named_album("abba", None, "Zzz");
    assert_eq!(undated.cmp(&waterloo), Ordering::Less);
    // Same artist and year: by name, ignoring case.
    let a = named_album("abba", Some(1974), "ring ring");
    let b = named_album("abba", Some(1974), "Waterloo");
    assert_eq!(a.cmp(&b), Ordering::Less);
}

#[test]
fn album_equality_is_exact_while_the_order_ignores_case() {
    let upper = named_album("ABBA", Some(1974), "Waterloo");
    let lower = named_album("abba", Some(1974), "waterloo");
    assert_eq!(upper.cmp(&lower), Ordering::Equal);
    assert!(!upper.eq(&lower));
    assert!(upper.eq(&named_album("ABBA", Some(1974), "Waterloo")));
}

#[test]
fn songs_order_by_year_disc_and_track() {
    assert_eq!(song(Some(2000), Some(1), Some(3)).cmp(&song(Some(2000), Some(1), Some(4))), Ordering::Less);
    assert_eq!(song(Some(2000), Some(2), Some(1)).cmp(&song(Some(2000), Some(1), Some(9))), Ordering::Greater);
    assert_eq!(song(None, Some(9), Some(9)).cmp(&song(Some(1990), Some(1), Some(1))), Ordering::Less);
    assert_eq!(song(Some(2000), None, Some(1)).cmp(&song(Some(2000), None, Some(1))), Ordering::Equal);
    assert!(song(Some(2000), None, Some(1)).eq(&song(Some(2000), None, Some(1))));
    assert!(!song(Some(2000), None, Some(1)).eq(&song(Some(2000), Some(1), Some(1))));
}

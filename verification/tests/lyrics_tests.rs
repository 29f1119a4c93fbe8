use blackbird::geometry::Rect;
use blackbird::keys::Action;
use blackbird::lyrics::{
    build_wrapped_lyrics, build_wrapped_lyrics_checked, compute_sidebar_width_from_drag, first_row_of_line,
    follow_playback, handle_key, handle_mouse_click, hovered_lyric_line, line_index_to_duration,
    lyrics_content_width, lyrics_panel, move_selection, seek_to_line, sidebar_click_to_line_index,
    wrap_lyric_line, wrap_lyric_line_checked, LineTone, LyricLine, LyricsAction, LyricsPanel,
    LyricsViewState, PlaybackCommand, RowLead, StructuredLyrics, TimestampCell,
};
use unicode_width::UnicodeWidthStr;

fn make_lyrics(synced: bool, lines: &[(Option<i64>, &str)]) -> StructuredLyrics {
    StructuredLyrics {
        synced,
        line: lines
            .iter()
            .map(|(start, value)| LyricLine { start: *start, value: value.to_string() })
            .collect(),
    }
}

fn marker(row: &blackbird::lyrics::LyricRow) -> Option<bool> {
    match &row.lead {
        RowLead::First { marker, .. } => Some(*marker),
        RowLead::Continuation => None,
    }
}

#[test]
fn wrap_short_line_returns_single_row() {
    let rows = wrap_lyric_line("hello", 20);
    assert_eq!(rows.len(), 1);
    assert_eq!(rows[0], "hello");
}

#[test]
fn wrap_long_line_splits_at_word_boundaries() {
    let rows = wrap_lyric_line("one two three four five six", 10);
    assert!(rows.len() > 1);
    for row in &rows {
        assert!(row.width() <= 10, "row '{row}' exceeds max width");
    }
}

#[test]
fn wrap_empty_text_returns_single_row() {
    let rows = wrap_lyric_line("", 10);
    assert_eq!(rows.len(), 1);
}

#[test]
fn wrap_very_long_word_hard_breaks() {
    let rows = wrap_lyric_line("abcdefghijklmnopqrstuvwxyz", 5);
    assert!(rows.len() > 1);
    for row in &rows {
        assert!(row.width() <= 5, "row '{row}' exceeds max width");
    }
}

#[test]
fn wrap_rows_are_exact() {
    assert_eq!(wrap_lyric_line("one two three four five six", 10), vec!["one two", "three four", "five six"]);
    assert_eq!(wrap_lyric_line("abcdefghijkl", 5), vec!["abcde", "fghij", "kl"]);
    assert_eq!(wrap_lyric_line("  spaced   out  ", 40), vec!["  spaced   out  "]);
}

#[test]
fn wrap_breaks_a_too_wide_word_after_another_word() {
    assert_eq!(wrap_lyric_line("a bcdef", 4), vec!["a", "bcde", "f"]);
    assert_eq!(wrap_lyric_line("ab cdefghij kl", 4), vec!["ab", "cdef", "ghij", "kl"]);
    for row in wrap_lyric_line("xx abcdefghijklmnop yy", 5) {
        assert!(row.width() <= 5, "row '{row}' exceeds max width");
    }
}

#[test]
fn wrap_counts_display_columns_not_chars() {
    // Each ideograph is two columns wide: three of them fill six columns.
    let rows = wrap_lyric_line_checked("日本語 日本語", 6).expect("widths are known");
    assert_eq!(rows, vec!["日本語", "日本語"]);
    for row in &rows {
        assert!(row.width() <= 6);
    }
}

#[test]
fn wrap_gives_a_too_wide_character_a_row_of_its_own() {
    assert_eq!(wrap_lyric_line_checked("日本", 1), Some(vec!["日".to_string(), "本".to_string()]));
    assert_eq!(wrap_lyric_line_checked("日本 ab", 1), Some(vec!["日".to_string(), "本".to_string(), "a".to_string(), "b".to_string()]));
}

#[test]
fn wrap_checked_agrees_with_unchecked() {
    assert_eq!(wrap_lyric_line_checked("hello world", 5), Some(wrap_lyric_line("hello world", 5)));
}

#[test]
fn sidebar_click_maps_to_correct_line() {
    let back_mapping = vec![0, 1, 2];
    let inner = Rect::new(0, 1, 20, 10);
    assert_eq!(sidebar_click_to_line_index(1, inner, 0, &back_mapping), Some(0));
    assert_eq!(sidebar_click_to_line_index(2, inner, 0, &back_mapping), Some(1));
    assert_eq!(sidebar_click_to_line_index(3, inner, 0, &back_mapping), Some(2));
}

#[test]
fn sidebar_click_with_scroll_offset() {
    let back_mapping = vec![0, 1, 2, 3, 4];
    let inner = Rect::new(0, 1, 20, 3);
    assert_eq!(sidebar_click_to_line_index(1, inner, 2, &back_mapping), Some(2));
    assert_eq!(sidebar_click_to_line_index(3, inner, 2, &back_mapping), Some(4));
}

#[test]
fn sidebar_click_with_wrapped_lines() {
    let back_mapping = vec![0, 0, 1];
    let inner = Rect::new(0, 1, 20, 10);
    assert_eq!(sidebar_click_to_line_index(1, inner, 0, &back_mapping), Some(0));
    assert_eq!(sidebar_click_to_line_index(2, inner, 0, &back_mapping), Some(0));
    assert_eq!(sidebar_click_to_line_index(3, inner, 0, &back_mapping), Some(1));
}

#[test]
fn sidebar_click_outside_area_returns_none() {
    let back_mapping = vec![0, 1];
    let inner = Rect::new(0, 1, 20, 3);
    assert_eq!(sidebar_click_to_line_index(0, inner, 0, &back_mapping), None);
    assert_eq!(sidebar_click_to_line_index(4, inner, 0, &back_mapping), None);
}

#[test]
fn line_index_to_duration_returns_correct_time() {
    let lyrics = make_lyrics(true, &[(Some(5000), "first"), (Some(10000), "second")]);
    assert_eq!(line_index_to_duration(&lyrics, 0), Some(5000));
    assert_eq!(line_index_to_duration(&lyrics, 1), Some(10000));
    assert_eq!(line_index_to_duration(&lyrics, 5), None);
}

#[test]
fn line_index_to_duration_returns_none_for_unsynced() {
    let lyrics = make_lyrics(true, &[(None, "no timestamp")]);
    assert_eq!(line_index_to_duration(&lyrics, 0), None);
}

#[test]
fn line_index_to_duration_casts_the_start_time() {
    let lyrics = make_lyrics(true, &[(Some(-5), "before the start")]);
    assert_eq!(line_index_to_duration(&lyrics, 0), Some((-5i64) as u64));
}

#[test]
fn compute_width_from_drag_right_sidebar() {
    assert_eq!(compute_sidebar_width_from_drag(50, 80, false, 10, 40), 30);
    assert_eq!(compute_sidebar_width_from_drag(75, 80, false, 10, 40), 10);
    assert_eq!(compute_sidebar_width_from_drag(10, 80, false, 10, 40), 40);
}

#[test]
fn compute_width_from_drag_left_sidebar() {
    assert_eq!(compute_sidebar_width_from_drag(30, 0, true, 10, 40), 30);
    assert_eq!(compute_sidebar_width_from_drag(5, 0, true, 10, 40), 10);
    assert_eq!(compute_sidebar_width_from_drag(50, 0, true, 10, 40), 40);
}

#[test]
fn selection_indicator_appears_on_selected_line_when_shown() {
    let lyrics_data = make_lyrics(true, &[(Some(0), "first"), (Some(5000), "second")]);
    let (lines, _) = build_wrapped_lyrics(&lyrics_data, 0, 80, Some(1), true, None);
    assert_eq!(marker(&lines[0]), Some(false), "line 0 should start with '  '");
    assert_eq!(marker(&lines[1]), Some(true), "line 1 should start with '> '");
}

#[test]
fn selection_indicator_absent_when_not_shown() {
    let lyrics_data = make_lyrics(true, &[(Some(0), "first"), (Some(5000), "second")]);
    let (lines, _) = build_wrapped_lyrics(&lyrics_data, 0, 80, Some(1), false, None);
    for (i, line) in lines.iter().enumerate() {
        assert_ne!(marker(line), Some(true), "line {i} should not have '> ' indicator");
    }
}

#[test]
fn selected_line_uses_hovered_color() {
    let lyrics_data = make_lyrics(true, &[(Some(0), "first"), (Some(5000), "second")]);
    let (lines, _) = build_wrapped_lyrics(&lyrics_data, 0, 80, Some(1), true, None);
    assert_eq!(lines[1].tone, LineTone::Selected, "selected line text should use hovered color");
    assert_eq!(lines[0].tone, LineTone::Current);
}

#[test]
fn both_views_produce_identical_output_when_focused() {
    let lyrics_data = make_lyrics(true, &[(Some(0), "first"), (Some(5000), "second")]);
    let (full_lines, full_back) = build_wrapped_lyrics(&lyrics_data, 0, 80, None, true, None);
    let (sidebar_lines, sidebar_back) = build_wrapped_lyrics(&lyrics_data, 0, 80, None, true, None);
    assert_eq!(full_back, sidebar_back);
    assert_eq!(full_lines.len(), sidebar_lines.len());
}

#[test]
fn no_reflow_when_focus_changes() {
    let lyrics_data = make_lyrics(true, &[(Some(0), "first line"), (Some(5000), "second line here")]);
    let (focused_lines, focused_back) = build_wrapped_lyrics(&lyrics_data, 0, 20, Some(1), true, None);
    let (unfocused_lines, unfocused_back) = build_wrapped_lyrics(&lyrics_data, 0, 20, Some(1), false, None);
    assert_eq!(focused_lines.len(), unfocused_lines.len(), "row count should not change with focus state");
    assert_eq!(focused_back, unfocused_back, "back-mapping should not change with focus state");
}

#[test]
fn rows_carry_timestamps_and_continuations() {
    let lyrics_data = make_lyrics(true, &[(Some(65000), "first line"), (None, ""), (Some(5000), "second line here")]);
    let (rows, back) = build_wrapped_lyrics(&lyrics_data, 2, 20, None, true, Some(0));
    // Text width is 20 - 2 - 7 = 11 columns.
    assert_eq!(back, vec![0, 1, 2, 2]);
    match &rows[0].lead {
        RowLead::First { marker, timestamp: Some(TimestampCell::Time(t)) } => {
            assert!(!marker);
            assert_eq!(t, "  1:05 ");
        }
        _ => panic!("first row of a synced line carries its time"),
    }
    assert!(matches!(rows[1].lead, RowLead::First { timestamp: Some(TimestampCell::Blank), .. }));
    assert_eq!(rows[1].text, "♪");
    assert!(matches!(rows[3].lead, RowLead::Continuation));
    assert_eq!(rows[2].text, "second line");
    assert_eq!(rows[3].text, "here");
    assert_eq!(rows[0].tone, LineTone::Past);
    assert!(rows[0].underlined);
    assert_eq!(rows[2].tone, LineTone::Current);
}

#[test]
fn unsynced_rows_have_no_timestamp_column() {
    let lyrics_data = make_lyrics(false, &[(None, "plain")]);
    let (rows, _) = build_wrapped_lyrics_checked(&lyrics_data, 0, 80, None, false, None).unwrap();
    assert!(matches!(rows[0].lead, RowLead::First { timestamp: None, .. }));
    assert_eq!(rows[0].tone, LineTone::Upcoming);
}

#[test]
fn move_selection_down_from_current_line() {
    let mut state = LyricsViewState::new();
    state.data = Some(make_lyrics(true, &[(Some(0), "a"), (Some(1000), "b"), (Some(2000), "c")]));
    move_selection(&mut state, 0, 1);
    assert_eq!(state.selected_index, Some(1));
}

#[test]
fn move_selection_up_clamps_at_zero() {
    let mut state = LyricsViewState::new();
    state.data = Some(make_lyrics(true, &[(Some(0), "a"), (Some(1000), "b")]));
    state.selected_index = Some(0);
    move_selection(&mut state, 0, -1);
    assert_eq!(state.selected_index, Some(0));
}

#[test]
fn move_selection_down_clamps_at_last() {
    let mut state = LyricsViewState::new();
    state.data = Some(make_lyrics(true, &[(Some(0), "a"), (Some(1000), "b")]));
    state.selected_index = Some(1);
    move_selection(&mut state, 0, 1);
    assert_eq!(state.selected_index, Some(1));
}

#[test]
fn keys_in_the_lyrics_view() {
    let mut state = LyricsViewState::new();
    state.data = Some(make_lyrics(true, &[(Some(0), "a"), (Some(1000), "b"), (Some(2000), "c")]));
    assert_eq!(handle_key(&mut state, Action::Back, 0, 5), (Some(LyricsAction::ToggleLyrics), None));
    assert_eq!(handle_key(&mut state, Action::SeekBackward, 0, 5), (Some(LyricsAction::SeekRelative(-5)), None));
    assert_eq!(handle_key(&mut state, Action::PageDown, 0, 5), (None, None));
    assert_eq!(state.selected_index, Some(2));
    assert_eq!(handle_key(&mut state, Action::Select, 0, 5), (None, Some(PlaybackCommand::SeekTo(2000))));
    assert_eq!(state.selected_index, None);
    assert_eq!(handle_key(&mut state, Action::Next, 0, 5), (None, Some(PlaybackCommand::Next)));
    assert_eq!(handle_key(&mut state, Action::Star, 0, 5), (None, None));
}

#[test]
fn seeking_to_a_line_returns_to_auto_follow() {
    let mut state = LyricsViewState::new();
    state.data = Some(make_lyrics(true, &[(Some(0), "a"), (Some(1500), "b")]));
    state.selected_index = Some(0);
    state.user_scrolled = true;
    assert_eq!(seek_to_line(&mut state, 1), Some(1500));
    assert_eq!(state.selected_index, None);
    assert!(!state.user_scrolled);
    assert_eq!(seek_to_line(&mut state, 7), None);
}

#[test]
fn panel_notes() {
    let mut state = LyricsViewState::new();
    assert_eq!(lyrics_panel(&state, Rect::new(0, 0, 0, 5)), LyricsPanel::Nothing);
    assert_eq!(lyrics_panel(&state, Rect::new(0, 0, 10, 5)), LyricsPanel::NoLyrics);
    state.loading = true;
    assert_eq!(lyrics_panel(&state, Rect::new(0, 0, 10, 5)), LyricsPanel::Loading);
    state.loading = false;
    state.data = Some(make_lyrics(true, &[(Some(0), "a")]));
    assert_eq!(lyrics_panel(&state, Rect::new(0, 0, 10, 5)), LyricsPanel::Lines);
    assert_eq!(lyrics_content_width(10), 9);
    assert_eq!(lyrics_content_width(0), 0);
}

#[test]
fn hover_and_first_row_lookup() {
    let back = vec![0, 0, 1, 2, 2];
    let inner = Rect::new(5, 5, 10, 3);
    assert_eq!(hovered_lyric_line(Some((6, 6)), inner, 1, &back), Some(1));
    assert_eq!(hovered_lyric_line(Some((4, 6)), inner, 1, &back), None);
    assert_eq!(hovered_lyric_line(None, inner, 1, &back), None);
    assert_eq!(first_row_of_line(&back, 2), Some(3));
    assert_eq!(first_row_of_line(&back, 9), None);
}

#[test]
fn following_playback_centres_the_playing_line() {
    let mut state = LyricsViewState::new();
    let back = vec![0, 1, 2, 3, 4, 5, 6, 7, 8, 9];
    follow_playback(&mut state, &back, 4, true, 6);
    assert_eq!(state.scroll_line, 4);
    assert_eq!(state.total_rows, 10);
    assert_eq!(state.visible_height, 4);
    state.user_scrolled = true;
    follow_playback(&mut state, &back, 4, true, 0);
    assert_eq!(state.scroll_line, 4);
}

#[test]
fn clicking_a_line_seeks_to_it() {
    let mut state = LyricsViewState::new();
    state.data = Some(make_lyrics(true, &[(Some(0), "a"), (Some(3000), "b")]));
    state.total_rows = 2;
    let area = Rect::new(0, 0, 20, 10);
    // The border takes row 0; row 2 shows the second line.
    let r = handle_mouse_click(&mut state, area, 2);
    assert_eq!(r, Some(3000));
}

#[test]
fn wrapping_keeps_every_non_space_character_in_order() {
    let text = "  the quick  brownfoxjumps over   a lazydog ";
    for width in 1..12 {
        let rows = wrap_lyric_line(text, width);
        let kept: String = rows.concat().chars().filter(|c| *c != ' ').collect();
        let expected: String = text.chars().filter(|c| *c != ' ').collect();
        assert_eq!(kept, expected, "width {width}");
    }
}

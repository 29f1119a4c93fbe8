use blackbird::keys::Action;
use blackbird::layout::{settings_width, SidebarComponent};
use blackbird::settings::{
    add_component, build_rows, handle_key, handle_mouse_click, human_readable_label, move_component_down,
    move_component_up, move_selection, parse_unsigned_exec, record_draw, remove_component, FieldId, RowKind,
    SettingsEffect, SettingsState, SettingsValues,
};
use blackbird::geometry::Rect;

/// The values a default configuration holds.
fn default_values() -> SettingsValues {
    SettingsValues {
        base_url: String::new(),
        username: String::new(),
        password: String::new(),
        transcode: false,
        album_art_style: 0,
        album_spacing: 1,
        use_terminal_background: false,
        show_inline_lyrics: false,
        scroll_multiplier_text: "1.0".to_string(),
        sidebar_enabled: true,
        sidebar_position: 1,
        components: vec![SidebarComponent::Lyrics, SidebarComponent::SimilarSongs],
        similar_songs_count: 20,
        apply_replaygain: true,
        replaygain_preamp_text: "0.0".to_string(),
        tick_rate_ms: 100,
    }
}

fn new_state() -> SettingsState {
    SettingsState::new(build_rows(&Vec::new(), 3))
}

fn row_index(state: &SettingsState, label: &str) -> Option<usize> {
    state.rows.iter().position(|r| r.label == label)
}

fn key(state: &mut SettingsState, values: &mut SettingsValues, action: Action) -> SettingsEffect {
    let defaults = default_values();
    handle_key(state, values, &defaults, action).2
}

#[test]
fn settings_width_stays_within_area() {
    let w = settings_width;
    assert_eq!(w(20, 100), 20);
    assert_eq!(w(20, 20), 20);
    assert_eq!(w(39, 40), 20);
    assert_eq!(w(39, 20), 20);
    assert_eq!(w(40, 40), 20);
    assert_eq!(w(100, 40), 40);
    assert_eq!(w(10, 5), 20);
}

#[test]
fn test_settings_component_order_row() {
    let mut state = new_state();
    let mut values = default_values();
    let row_idx = row_index(&state, "Sidebar components").expect("Sidebar components row should exist");
    assert!(matches!(state.rows[row_idx].kind, RowKind::ComponentList(_)));
    state.selected_index = row_idx;

    assert_eq!(values.components, vec![SidebarComponent::Lyrics, SidebarComponent::SimilarSongs]);

    let _ = key(&mut state, &mut values, Action::Select);
    assert!(state.editing);
    assert_eq!(state.component_list_sel, 0);
    assert!(!state.component_list_armed);

    let _ = key(&mut state, &mut values, Action::MoveDown);
    assert_eq!(state.component_list_sel, 1);
    assert_eq!(values.components, vec![SidebarComponent::Lyrics, SidebarComponent::SimilarSongs]);

    let _ = key(&mut state, &mut values, Action::Select);
    assert!(state.component_list_armed);
    let _ = key(&mut state, &mut values, Action::MoveUp);
    assert_eq!(state.component_list_sel, 0);
    assert_eq!(values.components, vec![SidebarComponent::SimilarSongs, SidebarComponent::Lyrics]);
    let _ = key(&mut state, &mut values, Action::MoveDown);
    assert_eq!(values.components, vec![SidebarComponent::Lyrics, SidebarComponent::SimilarSongs]);
    assert_eq!(state.component_list_sel, 1);

    let list_len = values.components.len();
    let _ = key(&mut state, &mut values, Action::Char('a'));
    assert_eq!(values.components.len(), list_len);

    let _ = key(&mut state, &mut values, Action::Back);
    assert!(!state.component_list_armed);
    assert!(state.editing);
    let _ = key(&mut state, &mut values, Action::Select);
    assert!(state.component_list_armed);
    let _ = key(&mut state, &mut values, Action::Select);
    assert!(!state.component_list_armed);
    assert!(!state.editing);
    assert_eq!(values.components, vec![SidebarComponent::Lyrics, SidebarComponent::SimilarSongs]);

    let _ = key(&mut state, &mut values, Action::Select);
    assert!(state.editing);
    let _ = key(&mut state, &mut values, Action::MoveDown);
    assert_eq!(state.component_list_sel, 1);
    let _ = key(&mut state, &mut values, Action::Select);
    assert!(state.component_list_armed);
    let effect = key(&mut state, &mut values, Action::DeleteChar);
    assert!(matches!(effect, SettingsEffect::RebalanceHeights));
    assert_eq!(values.components, vec![SidebarComponent::Lyrics]);
    assert_eq!(state.component_list_sel, 0);
    assert!(!state.component_list_armed);

    let effect = key(&mut state, &mut values, Action::Char('a'));
    assert_eq!(values.components, vec![SidebarComponent::Lyrics, SidebarComponent::SimilarSongs]);
    // The caller rebalances the heights to the new component count.
    assert!(matches!(effect, SettingsEffect::RebalanceHeights));
    assert!(state.component_list_armed);
    let _ = key(&mut state, &mut values, Action::Back);
    assert!(!state.component_list_armed);
    assert!(state.editing);
    let _ = key(&mut state, &mut values, Action::Back);
    assert!(!state.editing);
}

#[test]
fn sidebar_enabled_row_toggles_config() {
    let mut state = new_state();
    let mut values = default_values();
    let row_idx = row_index(&state, "Sidebar enabled").expect("Sidebar enabled row should exist");
    assert!(matches!(state.rows[row_idx].kind, RowKind::BoolField(_)));
    state.selected_index = row_idx;
    assert!(values.sidebar_enabled);
    let _ = key(&mut state, &mut values, Action::Select);
    assert!(!values.sidebar_enabled);
}

#[test]
fn similar_songs_count_row_edits() {
    let mut state = new_state();
    let mut values = default_values();
    let row_idx = row_index(&state, "Similar songs count").expect("Similar songs count row should exist");
    assert!(matches!(state.rows[row_idx].kind, RowKind::UsizeField { .. }));
    state.selected_index = row_idx;
    assert_eq!(values.similar_songs_count, 20);
    let _ = key(&mut state, &mut values, Action::Select);
    assert!(state.editing);
    for _ in 0..2 {
        let _ = key(&mut state, &mut values, Action::DeleteChar);
    }
    for c in "50".chars() {
        let _ = key(&mut state, &mut values, Action::Char(c));
    }
    let _ = key(&mut state, &mut values, Action::Select);
    assert_eq!(values.similar_songs_count, 50);
}

#[test]
fn usize_edit_out_of_range_is_clamped() {
    let mut state = new_state();
    let mut values = default_values();
    state.selected_index = row_index(&state, "Similar songs count").unwrap();
    let _ = key(&mut state, &mut values, Action::Select);
    for _ in 0..2 {
        let _ = key(&mut state, &mut values, Action::DeleteChar);
    }
    for c in "500".chars() {
        let _ = key(&mut state, &mut values, Action::Char(c));
    }
    let _ = key(&mut state, &mut values, Action::Select);
    assert_eq!(values.similar_songs_count, 100);
    assert!(!state.editing);
}

#[test]
fn navigation_skips_headers_and_spacers() {
    let mut state = new_state();
    // The first row is a header; the panel starts on the first field.
    assert_eq!(state.rows[state.selected_index].label, "Base URL");
    let transcode = row_index(&state, "Transcode").unwrap();
    state.selected_index = transcode;
    move_selection(&mut state, 1);
    assert_eq!(state.rows[state.selected_index].label, "Album art style");
    move_selection(&mut state, -1);
    assert_eq!(state.selected_index, transcode);
}

#[test]
fn string_field_edit_commits_and_reports_server_change() {
    let mut state = new_state();
    let mut values = default_values();
    let defaults = default_values();
    let _ = handle_key(&mut state, &mut values, &defaults, Action::Select);
    assert!(state.editing);
    for c in "http://x".chars() {
        let _ = handle_key(&mut state, &mut values, &defaults, Action::Char(c));
    }
    let (_, server_changed, _) = handle_key(&mut state, &mut values, &defaults, Action::Select);
    assert!(server_changed);
    assert_eq!(values.base_url, "http://x");
}

#[test]
fn back_while_editing_keeps_the_values() {
    let mut state = new_state();
    let mut values = default_values();
    let _ = key(&mut state, &mut values, Action::Select);
    let _ = key(&mut state, &mut values, Action::Char('z'));
    let _ = key(&mut state, &mut values, Action::Back);
    assert!(!state.editing);
    assert_eq!(values.base_url, "");
}

#[test]
fn float_field_commit_is_handed_back() {
    let mut state = new_state();
    let mut values = default_values();
    state.selected_index = row_index(&state, "Scroll multiplier").unwrap();
    let _ = key(&mut state, &mut values, Action::Select);
    for _ in 0..3 {
        let _ = key(&mut state, &mut values, Action::DeleteChar);
    }
    for c in "2.5".chars() {
        let _ = key(&mut state, &mut values, Action::Char(c));
    }
    match key(&mut state, &mut values, Action::Select) {
        SettingsEffect::SetFloat { field, text, server } => {
            assert_eq!(field, FieldId::ScrollMultiplier);
            assert_eq!(text, "2.5");
            assert!(!server);
        }
        _ => panic!("expected a float commit"),
    }
}

#[test]
fn quit_closes_the_panel() {
    let mut state = new_state();
    let mut values = default_values();
    let defaults = default_values();
    let (action, _, _) = handle_key(&mut state, &mut values, &defaults, Action::Back);
    assert!(action.is_some());
}

#[test]
fn component_list_editing_primitives() {
    let mut c = vec![SidebarComponent::Lyrics, SidebarComponent::SimilarSongs];
    assert_eq!(move_component_up(&mut c, 1), 0);
    assert_eq!(c, vec![SidebarComponent::SimilarSongs, SidebarComponent::Lyrics]);
    assert_eq!(move_component_up(&mut c, 0), 0);
    assert_eq!(move_component_down(&mut c, 0), 1);
    assert_eq!(c, vec![SidebarComponent::Lyrics, SidebarComponent::SimilarSongs]);
    assert_eq!(remove_component(&mut c, 0), (0, true));
    assert_eq!(c, vec![SidebarComponent::SimilarSongs]);
    assert_eq!(add_component(&mut c), (1, true));
    assert_eq!(c, vec![SidebarComponent::SimilarSongs, SidebarComponent::Lyrics]);
    assert_eq!(add_component(&mut c).1, false);
}

#[test]
fn unsigned_parsing() {
    assert_eq!(parse_unsigned_exec("50", 100), Some(50));
    assert_eq!(parse_unsigned_exec("0", 100), Some(0));
    assert_eq!(parse_unsigned_exec("", 100), None);
    assert_eq!(parse_unsigned_exec("5x", 100), None);
    assert_eq!(parse_unsigned_exec("18446744073709551616", u64::MAX), None);
}

#[test]
fn labels_are_humanised() {
    assert_eq!(human_readable_label("track_name_hovered"), "Track name hovered");
    assert_eq!(human_readable_label("x"), "X");
}

#[test]
fn clicks_select_the_row_under_the_pointer() {
    let mut state = new_state();
    let mut values = default_values();
    let defaults = default_values();
    let offset = record_draw(&mut state, Rect::new(0, 5, 40, 10));
    assert_eq!(offset, Some(0));
    let transcode = row_index(&state, "Transcode").unwrap();
    let (_, _) = handle_mouse_click(&mut state, &mut values, &defaults, 5 + transcode as u16);
    assert_eq!(state.selected_index, transcode);
    // Activating a boolean row toggles it.
    assert!(values.transcode);
    // A click above the list does nothing.
    let before = state.selected_index;
    let _ = handle_mouse_click(&mut state, &mut values, &defaults, 2);
    assert_eq!(state.selected_index, before);
}

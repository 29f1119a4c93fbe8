use blackbird::app_state::FocusedPanel;
use blackbird::geometry::Rect;
use blackbird::layout::cell_pixel_size;
use blackbird::layout::{
    inline_lyrics_visible, layout_for, settings_width, split_content_with_sidebar, visible_components,
    LayoutInput, ScreenLayout, SidebarPosition, VisibleComponent, INLINE_LYRICS_HEIGHT,
    LYRICS_SIDEBAR_MIN_WIDTH,
};

/// The layout inputs of a freshly started application whose library has
/// loaded, with the sidebar disabled.
fn base_input() -> LayoutInput {
    LayoutInput {
        is_loading: false,
        sidebar_enabled: false,
        sidebar_position: SidebarPosition::Right,
        sidebar_width: 30,
        settings_sidebar_width: 40,
        focused_panel: FocusedPanel::Library,
        inline_lyrics_mode: false,
        has_synced_lyrics: false,
    }
}

fn plan(input: &LayoutInput, size: Rect) -> ScreenLayout {
    layout_for(input, size).expect("screen fits the coordinate space")
}

#[test]
fn split_right_carves_sidebar_from_right() {
    let content = Rect::new(0, 0, 80, 24);
    let layout = split_content_with_sidebar(content, SidebarPosition::Right, 30);
    let sidebar = layout.lyrics_sidebar.expect("sidebar should exist");
    let border = layout.lyrics_border.expect("border should exist");
    assert_eq!(sidebar.x, 50);
    assert_eq!(sidebar.width, 30);
    assert_eq!(sidebar.height, 24);
    assert_eq!(border.x, 49);
    assert_eq!(border.width, 1);
    assert_eq!(layout.main.x, 0);
    assert_eq!(layout.main.width, 49);
    assert!(layout.main.width < content.width);
}

#[test]
fn split_left_carves_sidebar_from_left() {
    let content = Rect::new(0, 0, 80, 24);
    let layout = split_content_with_sidebar(content, SidebarPosition::Left, 20);
    let sidebar = layout.lyrics_sidebar.expect("sidebar should exist");
    let border = layout.lyrics_border.expect("border should exist");
    assert_eq!(sidebar.x, 0);
    assert_eq!(sidebar.width, 20);
    assert_eq!(border.x, 20);
    assert_eq!(border.width, 1);
    assert_eq!(layout.main.x, 21);
    assert_eq!(layout.main.width, 59);
}

#[test]
fn split_clamps_sidebar_width() {
    let content = Rect::new(0, 0, 80, 24);
    let layout = split_content_with_sidebar(content, SidebarPosition::Right, 100);
    let sidebar = layout.lyrics_sidebar.expect("sidebar should exist");
    assert_eq!(sidebar.width, 40);
    let layout = split_content_with_sidebar(content, SidebarPosition::Right, 3);
    let sidebar = layout.lyrics_sidebar.expect("sidebar should exist");
    assert_eq!(sidebar.width, LYRICS_SIDEBAR_MIN_WIDTH);
}

#[test]
fn split_skips_sidebar_when_too_narrow() {
    let content = Rect::new(0, 0, 10, 24);
    let layout = split_content_with_sidebar(content, SidebarPosition::Right, 30);
    assert!(layout.lyrics_sidebar.is_none());
    assert!(layout.lyrics_border.is_none());
    assert_eq!(layout.main, content);
}

#[test]
fn settings_sidebar_shrinks_library_column() {
    let mut input = base_input();
    input.focused_panel = FocusedPanel::Settings;
    let layout = plan(&input, Rect::new(0, 0, 120, 24));
    let settings = layout.settings.expect("settings sidebar should exist");
    assert_eq!(settings.width, 40);
    assert_eq!(settings.x, 0);
    assert!(layout.panel.width < layout.main.content.width);
    let expected_panel_width = layout.main.content.width - settings.width;
    assert_eq!(layout.panel.width, expected_panel_width);
    assert_eq!(layout.library, layout.panel);
    assert_eq!(settings.x + settings.width, layout.panel.x);
    assert_eq!(settings.y, layout.panel.y);
    assert_eq!(settings.height, layout.panel.height);
}

#[test]
fn settings_plus_lyrics_sidebar_compose() {
    let mut input = base_input();
    input.focused_panel = FocusedPanel::Settings;
    input.sidebar_enabled = true;
    input.sidebar_position = SidebarPosition::Left;
    let layout = plan(&input, Rect::new(0, 0, 160, 24));
    let settings = layout.settings.expect("settings sidebar should exist");
    let sidebar = layout.lyrics_sidebar.expect("lyrics sidebar should exist");
    let border = layout.lyrics_border.expect("lyrics border should exist");
    let sidebar_w = sidebar.width;
    let border_w = border.width;
    assert_eq!(sidebar.x, 0);
    assert_eq!(border.x, sidebar_w);
    assert_eq!(settings.x, sidebar_w + border_w);
    assert_eq!(layout.panel.x, settings.x + settings.width);
    assert_eq!(layout.panel.x, sidebar_w + border_w + settings.width);
    assert!(settings.x + settings.width <= layout.panel.x);
}

#[test]
fn layout_settings_widths_clamp() {
    assert_eq!(settings_width(100, 40), 40);
    assert_eq!(settings_width(100, 1000), 80);
    assert_eq!(settings_width(100, 5), 20);
    assert_eq!(settings_width(20, 40), 20);
    assert_eq!(settings_width(39, 40), 20);
    assert_eq!(settings_width(40, 40), 20);
}

#[test]
fn inline_lyrics_visibility_rules() {
    assert!(inline_lyrics_visible(false, true, true, true));
    assert!(!inline_lyrics_visible(true, true, true, true));
    assert!(!inline_lyrics_visible(false, false, true, true));
    assert!(!inline_lyrics_visible(false, true, false, true));
    assert!(!inline_lyrics_visible(false, true, true, false));
}

#[test]
fn settings_focus_shows_inline_lyrics_in_preview() {
    let mut input = base_input();
    input.focused_panel = FocusedPanel::Settings;
    input.inline_lyrics_mode = true;
    input.has_synced_lyrics = true;
    let layout = plan(&input, Rect::new(0, 0, 120, 24));
    let inline = layout.inline_lyrics.expect("inline lyrics should show in settings");
    assert_eq!(inline.height, INLINE_LYRICS_HEIGHT);
    assert_eq!(inline.x, layout.panel.x);
    assert_eq!(inline.width, layout.panel.width);
    assert_eq!(inline.y, layout.panel.y + layout.panel.height);
}

fn assert_visible_components(input: &LayoutInput, expected: &[VisibleComponent], describe: &str) {
    let layout = plan(input, Rect::new(0, 0, 160, 24));
    let components = visible_components(&layout);
    assert_eq!(components.as_slice(), expected, "state: {describe}");
    for i in 0..components.len() {
        for j in 0..components.len() {
            if i != j {
                assert_ne!(components[i], components[j], "duplicate entries for state: {describe}");
            }
        }
    }
}

#[test]
fn visible_components_list_has_unique_entries() {
    let input = base_input();
    assert_visible_components(&input, &[VisibleComponent::MainPanel], "Library, no sidebar, inline off");

    let mut input = base_input();
    input.sidebar_enabled = true;
    assert_visible_components(
        &input,
        &[VisibleComponent::MainPanel, VisibleComponent::LyricsSidebar],
        "Library + lyrics sidebar, inline off",
    );

    let mut input = base_input();
    input.focused_panel = FocusedPanel::Settings;
    input.inline_lyrics_mode = true;
    input.has_synced_lyrics = true;
    assert_visible_components(
        &input,
        &[VisibleComponent::MainPanel, VisibleComponent::Settings, VisibleComponent::InlineLyrics],
        "Settings + inline on + synced",
    );

    let mut input = base_input();
    input.focused_panel = FocusedPanel::Settings;
    input.inline_lyrics_mode = true;
    assert_visible_components(
        &input,
        &[VisibleComponent::MainPanel, VisibleComponent::Settings],
        "Settings + inline on, no synced lyrics",
    );

    let mut input = base_input();
    input.focused_panel = FocusedPanel::Settings;
    input.sidebar_enabled = true;
    assert_visible_components(
        &input,
        &[VisibleComponent::MainPanel, VisibleComponent::Settings, VisibleComponent::LyricsSidebar],
        "Settings + lyrics sidebar",
    );

    for (panel, name) in [
        (FocusedPanel::Search, "Search"),
        (FocusedPanel::Queue, "Queue"),
        (FocusedPanel::Logs, "Logs"),
        (FocusedPanel::Lyrics, "Lyrics full panel"),
    ] {
        let mut input = base_input();
        input.focused_panel = panel;
        assert_visible_components(&input, &[VisibleComponent::MainPanel], name);
    }

    let mut input = base_input();
    input.focused_panel = FocusedPanel::Lyrics;
    input.sidebar_enabled = true;
    assert_visible_components(
        &input,
        &[VisibleComponent::MainPanel, VisibleComponent::LyricsSidebar],
        "Lyrics-with-sidebar",
    );

    let mut input = base_input();
    input.sidebar_enabled = true;
    input.is_loading = true;
    assert_visible_components(&input, &[VisibleComponent::MainPanel], "Loading");

    let mut input = base_input();
    input.sidebar_enabled = true;
    input.inline_lyrics_mode = true;
    input.has_synced_lyrics = true;
    assert_visible_components(
        &input,
        &[VisibleComponent::MainPanel, VisibleComponent::LyricsSidebar, VisibleComponent::InlineLyrics],
        "Library + sidebar + inline",
    );
}

#[test]
fn settings_drag_clamp_matches_render_clamp() {
    let mut input = base_input();
    input.focused_panel = FocusedPanel::Settings;
    let size = Rect::new(0, 0, 120, 24);
    for target_x in [0_u16, 30, 39, 59, 1000] {
        let layout = plan(&input, size);
        let settings_rect = layout.settings.expect("settings rect");
        let main_column_width = settings_rect.width + layout.panel.width;
        let dragged = settings_width(main_column_width, target_x.saturating_sub(settings_rect.x));
        input.settings_sidebar_width = dragged;
        let re_layout = plan(&input, size);
        let re_settings = re_layout.settings.expect("settings rect");
        assert_eq!(re_settings.width, dragged);
    }
    let layout = plan(&input, size);
    let settings_rect = layout.settings.expect("settings rect");
    let main_column_width = settings_rect.width + layout.panel.width;
    let max_dragged = settings_width(main_column_width, 1000);
    input.settings_sidebar_width = max_dragged;
    let re_layout = plan(&input, size);
    let re_settings = re_layout.settings.expect("settings rect");
    assert_eq!(re_settings.width, max_dragged);
    assert_eq!(re_layout.panel.width, 20);
}

#[test]
fn layout_for_used_by_input_paths() {
    let mut input = base_input();
    input.focused_panel = FocusedPanel::Settings;
    input.inline_lyrics_mode = true;
    input.has_synced_lyrics = true;
    let layout = plan(&input, Rect::new(0, 0, 120, 24));
    let settings_rect = layout.settings.expect("settings rect");
    let inline = layout.inline_lyrics.expect("inline lyrics");
    assert_eq!(settings_rect.y, layout.main.content.y);
    assert_eq!(settings_rect.height, layout.main.content.height);
    assert_eq!(inline.y, layout.panel.y + layout.panel.height);
    let on_inline_row = (settings_rect.x + 1, inline.y + 1);
    let in_library = on_inline_row.0 >= layout.library.x
        && on_inline_row.0 < layout.library.x + layout.library.width
        && on_inline_row.1 >= layout.library.y
        && on_inline_row.1 < layout.library.y + layout.library.height;
    assert!(!in_library, "inline strip must not be part of the library click area");
    let border_x = settings_rect.x + settings_rect.width - 1;
    assert!(border_x >= settings_rect.x && border_x < settings_rect.x + settings_rect.width);
    let right_of_settings = settings_rect.x + settings_rect.width;
    assert!(right_of_settings >= settings_rect.x + settings_rect.width);
    assert!(
        right_of_settings >= layout.library.x && right_of_settings < layout.library.x + layout.library.width,
        "the preview column is inside the library rect"
    );
}

#[test]
fn main_split_bands_stack_the_screen() {
    let layout = plan(&base_input(), Rect::new(0, 0, 80, 24));
    assert_eq!(layout.main.now_playing, Rect::new(0, 0, 80, 2));
    assert_eq!(layout.main.scrub_bar, Rect::new(0, 2, 80, 1));
    assert_eq!(layout.main.content, Rect::new(0, 3, 80, 20));
    assert_eq!(layout.main.help_bar, Rect::new(0, 23, 80, 1));
}

#[test]
fn lyrics_border_drag_region_extends_toward_the_sidebar() {
    let mut input = base_input();
    input.sidebar_enabled = true;
    let layout = plan(&input, Rect::new(0, 0, 80, 24));
    let border = layout.lyrics_border.expect("border");
    assert!(layout.over_lyrics_border(border.x, border.y));
    assert!(layout.over_lyrics_border(border.x + 2, border.y));
    assert!(!layout.over_lyrics_border(border.x + 3, border.y));
    assert!(border.x > 0 && !layout.over_lyrics_border(border.x - 1, border.y));
}

#[test]
fn art_columns_stretch_nearest_neighbour() {
    assert_eq!(blackbird::layout::art_row_columns(6), vec![0, 0, 1, 2, 2, 3]);
    assert_eq!(blackbird::layout::art_row_columns(4), vec![0, 1, 2, 3]);
    assert_eq!(blackbird::layout::art_row_columns(0), Vec::<usize>::new());
}

#[test]
fn cell_pixel_size_from_window_size() {
    assert_eq!(cell_pixel_size(800, 600, 80, 30), Some((10, 20)));
    assert_eq!(cell_pixel_size(0, 600, 80, 30), None);
    assert_eq!(cell_pixel_size(800, 600, 0, 30), None);
    assert_eq!(cell_pixel_size(50, 600, 80, 30), None);
}

#[test]
fn thumbnail_column_is_one_wider_than_the_art_end() {
    let c = blackbird::layout::ArtColumn::thumbnail(4);
    assert_eq!(c.total_width(), blackbird::layout::art_end_col(4) + 1);
    assert_eq!(c.total_width(), 6);
}

#[test]
fn main_bands_stack_top_to_bottom() {
    let m = blackbird::layout::split_main(Rect::new(0, 0, 80, 24));
    assert_eq!(m.now_playing, Rect::new(0, 0, 80, 2));
    assert_eq!(m.scrub_bar, Rect::new(0, 2, 80, 1));
    assert_eq!(m.content, Rect::new(0, 3, 80, 20));
    assert_eq!(m.help_bar, Rect::new(0, 23, 80, 1));
}

#[test]
fn now_playing_and_scrub_columns_run_left_to_right() {
    let np = blackbird::layout::split_now_playing(Rect::new(0, 0, 100, 2), 8);
    assert_eq!(np.album_art, Rect::new(0, 0, 10, 2));
    assert_eq!(np.track_info, Rect::new(10, 0, 66, 2));
    assert_eq!(np.transport, Rect::new(76, 0, 24, 2));
    let sv = blackbird::layout::split_scrub_volume(Rect::new(0, 2, 80, 1));
    assert_eq!(sv.scrub_bar, Rect::new(0, 2, 64, 1));
    assert_eq!(sv.volume, Rect::new(64, 2, 16, 1));
}

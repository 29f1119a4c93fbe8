use blackbird::app_state::FocusedPanel;
use blackbird::geometry::Rect;
use blackbird::keys::{Action, Direction, KeyCode, KeyEvent, KeyModifiers};
use blackbird::layout::{layout_for, LayoutInput, ScreenLayout, SidebarPosition};
use blackbird::panel::ScrollRegion;
use blackbird::routing::{
    cycle_index, help_bar_action, help_command, route_click, route_drag, route_key, route_wheel, ClickContext,
    ClickRoute, DragRoute, DragState, HelpCommand, KeyContext, KeyRoute, OverlayHit, WheelContext, WheelRoute,
};

fn press(code: KeyCode) -> KeyEvent {
    KeyEvent { code, modifiers: KeyModifiers { shift: false, control: false, alt: false } }
}

fn plain(panel: FocusedPanel) -> KeyContext {
    KeyContext {
        overlay_open: false,
        quit_confirming: false,
        dropdown_open: false,
        volume_editing: false,
        focused_panel: panel,
        settings_editing: false,
    }
}

fn screen(panel: FocusedPanel, sidebar: bool) -> ScreenLayout {
    let input = LayoutInput {
        is_loading: false,
        sidebar_enabled: sidebar,
        sidebar_position: SidebarPosition::Right,
        sidebar_width: 30,
        settings_sidebar_width: 40,
        focused_panel: panel,
        inline_lyrics_mode: false,
        has_synced_lyrics: false,
    };
    layout_for(&input, Rect::new(0, 0, 120, 24)).unwrap()
}

fn click_ctx(panel: FocusedPanel) -> ClickContext {
    ClickContext { focused_panel: panel, dropdown: None, overlay: None }
}

#[test]
fn modal_layers_take_keys_first() {
    let mut ctx = plain(FocusedPanel::Library);
    ctx.overlay_open = true;
    ctx.quit_confirming = true;
    assert_eq!(route_key(&ctx, &press(KeyCode::Esc), None, 4), KeyRoute::CloseOverlay);
    assert_eq!(route_key(&ctx, &press(KeyCode::Char('x')), None, 4), KeyRoute::Ignore);
    ctx.overlay_open = false;
    assert_eq!(route_key(&ctx, &press(KeyCode::Char('y')), None, 4), KeyRoute::Quit);
    assert_eq!(route_key(&ctx, &press(KeyCode::Char('n')), None, 4), KeyRoute::CancelQuit);
}

#[test]
fn dropdown_keys_cycle_through_modes() {
    let mut ctx = plain(FocusedPanel::Library);
    ctx.dropdown_open = true;
    assert_eq!(route_key(&ctx, &press(KeyCode::Up), Some(0), 4), KeyRoute::SetPlaybackMode(3));
    assert_eq!(route_key(&ctx, &press(KeyCode::Down), Some(3), 4), KeyRoute::SetPlaybackMode(0));
    assert_eq!(route_key(&ctx, &press(KeyCode::Down), None, 4), KeyRoute::SetPlaybackMode(1));
    assert_eq!(route_key(&ctx, &press(KeyCode::Enter), Some(2), 4), KeyRoute::CloseDropdown);
}

#[test]
fn volume_editing_keys() {
    let mut ctx = plain(FocusedPanel::Library);
    ctx.volume_editing = true;
    assert_eq!(route_key(&ctx, &press(KeyCode::Up), None, 4), KeyRoute::AdjustVolume { up: true });
    assert_eq!(route_key(&ctx, &press(KeyCode::Esc), None, 4), KeyRoute::StopVolumeEditing);
    assert_eq!(route_key(&ctx, &press(KeyCode::Char('q')), None, 4), KeyRoute::Ignore);
}

#[test]
fn panels_get_their_keys() {
    assert_eq!(
        route_key(&plain(FocusedPanel::Library), &press(KeyCode::Char('/')), None, 4),
        KeyRoute::Panel(FocusedPanel::Library, Action::Search)
    );
    assert_eq!(route_key(&plain(FocusedPanel::Lyrics), &press(KeyCode::Char('t')), None, 4), KeyRoute::ToggleSidebar);
    assert_eq!(
        route_key(&plain(FocusedPanel::Search), &press(KeyCode::Char('q')), None, 4),
        KeyRoute::Panel(FocusedPanel::Search, Action::Char('q'))
    );
    assert_eq!(route_key(&plain(FocusedPanel::Library), &press(KeyCode::Char('z')), None, 4), KeyRoute::Ignore);
}

#[test]
fn cycling_wraps_both_ways() {
    assert_eq!(cycle_index(Some(3), 4, Direction::Forward), 0);
    assert_eq!(cycle_index(Some(0), 4, Direction::Backward), 3);
    assert_eq!(cycle_index(None, 4, Direction::Forward), 1);
}

#[test]
fn clicks_route_by_screen_area() {
    let layout = screen(FocusedPanel::Library, true);
    let rects: Vec<Rect> = vec![layout.lyrics_sidebar.unwrap()];
    let ctx = click_ctx(FocusedPanel::Library);
    assert_eq!(route_click(&ctx, &layout, &rects, 4, 5, 0), ClickRoute::NowPlaying);
    assert_eq!(route_click(&ctx, &layout, &rects, 4, 5, 2), ClickRoute::StartScrub);
    assert_eq!(route_click(&ctx, &layout, &rects, 4, 5, 23), ClickRoute::HelpBar);
    let lib = layout.library;
    assert_eq!(route_click(&ctx, &layout, &rects, 4, lib.x, lib.y), ClickRoute::LibraryClick { refocus: false });
    let side = layout.lyrics_sidebar.unwrap();
    assert_eq!(
        route_click(&ctx, &layout, &rects, 4, side.x + 3, side.y + 3),
        ClickRoute::SidebarClick { focus_sidebar: true }
    );
    let border = layout.lyrics_border.unwrap();
    assert_eq!(route_click(&ctx, &layout, &rects, 4, border.x, border.y), ClickRoute::StartSidebarResize);
}

#[test]
fn clicks_on_the_sidebar_boundary_start_a_component_drag() {
    let layout = screen(FocusedPanel::Lyrics, true);
    let side = layout.lyrics_sidebar.unwrap();
    let top = Rect::new(side.x, side.y, side.width, 10);
    let bottom = Rect::new(side.x, side.y + 10, side.width, side.height - 10);
    let rects = vec![top, bottom];
    let ctx = click_ctx(FocusedPanel::Lyrics);
    assert_eq!(
        route_click(&ctx, &layout, &rects, 4, side.x + 2, bottom.y),
        ClickRoute::SidebarBoundary { focus_sidebar: false, boundary: 0 }
    );
}

#[test]
fn dropdown_and_overlay_clicks() {
    let layout = screen(FocusedPanel::Library, false);
    let rects: Vec<Rect> = Vec::new();
    let mut ctx = click_ctx(FocusedPanel::Library);
    ctx.dropdown = Some(Rect::new(10, 2, 20, 6));
    assert_eq!(route_click(&ctx, &layout, &rects, 4, 12, 4), ClickRoute::SelectPlaybackMode(1));
    assert_eq!(route_click(&ctx, &layout, &rects, 3, 12, 6), ClickRoute::Ignore);
    assert_eq!(route_click(&ctx, &layout, &rects, 4, 12, 6), ClickRoute::SelectPlaybackMode(3));
    assert_eq!(route_click(&ctx, &layout, &rects, 4, 50, 20), ClickRoute::CloseDropdown);
    ctx.dropdown = None;
    ctx.overlay = Some(OverlayHit { rect: Rect::new(20, 5, 40, 10), on_close_button: false });
    assert_eq!(route_click(&ctx, &layout, &rects, 4, 25, 6), ClickRoute::Ignore);
    assert_eq!(route_click(&ctx, &layout, &rects, 4, 2, 2), ClickRoute::CloseOverlay);
    ctx.overlay = Some(OverlayHit { rect: Rect::new(20, 5, 40, 10), on_close_button: true });
    assert_eq!(route_click(&ctx, &layout, &rects, 4, 25, 6), ClickRoute::CloseOverlay);
}

#[test]
fn settings_border_and_list_clicks() {
    let layout = screen(FocusedPanel::Settings, false);
    let rects: Vec<Rect> = Vec::new();
    let ctx = click_ctx(FocusedPanel::Settings);
    let s = layout.settings.unwrap();
    assert_eq!(route_click(&ctx, &layout, &rects, 4, s.x + s.width - 1, s.y + 1), ClickRoute::StartSettingsResize);
    assert_eq!(route_click(&ctx, &layout, &rects, 4, s.x + 1, s.y + 1), ClickRoute::SettingsClick);
    // The preview to the right of the settings ignores clicks.
    assert_eq!(route_click(&ctx, &layout, &rects, 4, s.x + s.width + 5, s.y + 1), ClickRoute::Ignore);
}

#[test]
fn drags_follow_the_started_drag() {
    let layout = screen(FocusedPanel::Library, true);
    let mut drag = DragState::new();
    drag.start(ClickRoute::StartScrub);
    match route_drag(&drag, FocusedPanel::Library, false, &layout, 5000) {
        DragRoute::Scrub { x } => assert_eq!(x, layout.main.scrub_bar.x + layout.main.scrub_bar.width - 1),
        other => panic!("unexpected {other:?}"),
    }
    assert_eq!(drag.release(), (true, false));
    drag.start(ClickRoute::StartSidebarResize);
    let side = layout.lyrics_sidebar.unwrap();
    let right_edge = side.x + side.width;
    assert_eq!(
        route_drag(&drag, FocusedPanel::Library, false, &layout, right_edge - 25),
        DragRoute::SetSidebarWidth(25)
    );
    assert_eq!(drag.release(), (false, true));
    assert_eq!(route_drag(&drag, FocusedPanel::Search, false, &layout, 3), DragRoute::Search);
    assert_eq!(
        route_drag(&drag, FocusedPanel::Lyrics, true, &layout, 3),
        DragRoute::SidebarContent(layout.lyrics_sidebar.unwrap())
    );
    assert_eq!(route_drag(&drag, FocusedPanel::Lyrics, false, &layout, 3), DragRoute::Ignore);
}

#[test]
fn help_bar_clicks_find_the_first_target() {
    let items = vec![(1u16, 7u16, Action::Quit), (7, 14, Action::PlayPause)];
    assert_eq!(help_bar_action(&items, 0), None);
    assert_eq!(help_bar_action(&items, 6), Some(Action::Quit));
    assert_eq!(help_bar_action(&items, 7), Some(Action::PlayPause));
    assert_eq!(help_bar_action(&items, 14), None);
}

#[test]
fn help_commands() {
    assert_eq!(help_command(Action::Quit, FocusedPanel::Library), HelpCommand::ConfirmQuit);
    assert_eq!(help_command(Action::SeekBackward, FocusedPanel::Queue), HelpCommand::Seek { forward: false });
    assert_eq!(help_command(Action::Select, FocusedPanel::Settings), HelpCommand::Settings(Action::Select));
    assert_eq!(help_command(Action::Char('a'), FocusedPanel::Settings), HelpCommand::Settings(Action::Char('a')));
    assert_eq!(help_command(Action::Select, FocusedPanel::Library), HelpCommand::LibrarySelect);
    assert_eq!(help_command(Action::Back, FocusedPanel::Queue), HelpCommand::BackToLibrary);
    assert_eq!(help_command(Action::Back, FocusedPanel::Library), HelpCommand::Nothing);
    assert_eq!(help_command(Action::MoveUp, FocusedPanel::Queue), HelpCommand::Nothing);
}

fn wheel(panel: FocusedPanel) -> WheelContext {
    WheelContext { focused_panel: panel, over_open_dropdown: false, sidebar_visible: false, sidebar_empty: true }
}

#[test]
fn wheel_routes() {
    assert_eq!(route_wheel(&wheel(FocusedPanel::Library), ScrollRegion::Nowhere, -2, 0, 0), (WheelRoute::Library, 12, -1));
    assert_eq!(
        route_wheel(&wheel(FocusedPanel::Search), ScrollRegion::Sidebar { component: 1 }, 1, 0, 0),
        (WheelRoute::Sidebar { focus: Some(1) }, 6, 1)
    );
    assert_eq!(route_wheel(&wheel(FocusedPanel::Queue), ScrollRegion::Library, -1, 0, 0), (WheelRoute::Queue(-6), 6, -1));
    assert_eq!(route_wheel(&wheel(FocusedPanel::Logs), ScrollRegion::Nowhere, 1, 5, 8), (WheelRoute::Logs(7), 6, 1));
    assert_eq!(route_wheel(&wheel(FocusedPanel::Logs), ScrollRegion::Nowhere, -1, 5, 8), (WheelRoute::Logs(0), 6, -1));
    assert_eq!(route_wheel(&wheel(FocusedPanel::Lyrics), ScrollRegion::Nowhere, 1, 0, 0), (WheelRoute::Nothing, 6, 1));
    let mut ctx = wheel(FocusedPanel::Lyrics);
    ctx.sidebar_visible = true;
    assert_eq!(route_wheel(&ctx, ScrollRegion::Library, 1, 0, 0), (WheelRoute::Library, 6, 1));
    ctx.over_open_dropdown = true;
    assert_eq!(route_wheel(&ctx, ScrollRegion::Library, 1, 0, 0), (WheelRoute::Nothing, 6, 1));
}

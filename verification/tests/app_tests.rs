use blackbird::app_state::{
    seek_target_ms, AnimationRequests, FocusEffect, FocusState, FocusedPanel, MIN_FRAME_INTERVAL_MS,
    SMOOTH_FRAME_INTERVAL_MS,
};

#[test]
fn frame_interval_is_the_tick_rate_when_nothing_animates() {
    let animations = AnimationRequests::new();
    assert_eq!(animations.frame_interval(100), 100);
}

#[test]
fn frame_interval_takes_the_shortest_request() {
    let mut animations = AnimationRequests::new();
    animations.request_tick_animation(SMOOTH_FRAME_INTERVAL_MS);
    animations.request_render_animation(50);
    assert_eq!(animations.frame_interval(100), SMOOTH_FRAME_INTERVAL_MS);
}

#[test]
fn a_request_slower_than_the_tick_rate_does_not_slow_the_loop() {
    let mut animations = AnimationRequests::new();
    animations.request_render_animation(1000);
    assert_eq!(animations.frame_interval(100), 100);
}

#[test]
fn frame_interval_is_floored() {
    let animations = AnimationRequests::new();
    assert_eq!(animations.frame_interval(0), MIN_FRAME_INTERVAL_MS);
}

#[test]
fn each_producer_only_clears_its_own_request() {
    let mut animations = AnimationRequests::new();
    animations.request_tick_animation(SMOOTH_FRAME_INTERVAL_MS);
    animations.begin_render();
    assert_eq!(animations.interval(), Some(SMOOTH_FRAME_INTERVAL_MS));
    animations.begin_tick();
    assert_eq!(animations.interval(), None);
}

#[test]
fn focus_toggles_return_to_the_library() {
    let mut focus = FocusState::new();
    assert_eq!(focus.toggle_search(), FocusEffect::ResetSearch);
    assert_eq!(focus.focused_panel, FocusedPanel::Search);
    assert_eq!(focus.toggle_search(), FocusEffect::ResetSearch);
    assert_eq!(focus.focused_panel, FocusedPanel::Library);
    assert_eq!(focus.toggle_lyrics(false), FocusEffect::FocusLyrics { reset: true });
    assert_eq!(focus.toggle_lyrics(false), FocusEffect::Nothing);
    assert_eq!(focus.toggle_logs(), FocusEffect::ScrollLogsToEnd);
    assert_eq!(focus.toggle_settings(), FocusEffect::ResetSettings);
    assert_eq!(focus.focused_panel, FocusedPanel::Settings);
    assert_eq!(focus.toggle_settings(), FocusEffect::Nothing);
    assert_eq!(focus.focused_panel, FocusedPanel::Library);
    assert_eq!(focus.toggle_queue(true), FocusEffect::Nothing);
    assert_eq!(focus.focused_panel, FocusedPanel::Library);
    assert_eq!(focus.toggle_queue(false), FocusEffect::ResetQueue);
    assert_eq!(focus.focused_panel, FocusedPanel::Queue);
}

#[test]
fn hiding_the_sidebar_moves_focus_off_it() {
    let mut focus = FocusState::new();
    let mut enabled = true;
    let _ = focus.toggle_lyrics(enabled);
    assert_eq!(focus.toggle_sidebar(&mut enabled), FocusEffect::SaveConfig);
    assert!(!enabled);
    assert_eq!(focus.focused_panel, FocusedPanel::Library);
}

#[test]
fn seeking_saturates_at_the_start() {
    assert_eq!(seek_target_ms(10_000, 5), 15_000);
    assert_eq!(seek_target_ms(3_000, -5), 0);
    assert_eq!(seek_target_ms(9_000, -5), 4_000);
    assert_eq!(seek_target_ms(9_000, i64::MIN), 0);
}

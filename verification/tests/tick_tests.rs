use blackbird::app_state::FocusedPanel;
use blackbird::layout::SidebarComponent;
use blackbird::routing::DragState;
use blackbird::sidebar::SidebarComponentId;
use blackbird::tick::{
    accepts_similar_reply, config_reload_due, inertia_viewports, plan_track_started, similar_fetch_needed,
    tick_outcome, InertiaViewports, TrackStartPlan,
};

#[test]
fn a_started_track_asks_for_what_is_shown() {
    let both = vec![SidebarComponent::Lyrics, SidebarComponent::SimilarSongs];
    assert_eq!(
        plan_track_started(FocusedPanel::Library, &both, true, false, true),
        TrackStartPlan { scroll_to_track: false, want_lyrics: true, fetch_similar: true }
    );
    assert_eq!(
        plan_track_started(FocusedPanel::Library, &both, false, false, false),
        TrackStartPlan { scroll_to_track: true, want_lyrics: false, fetch_similar: false }
    );
    assert_eq!(
        plan_track_started(FocusedPanel::Library, &Vec::new(), false, true, true),
        TrackStartPlan { scroll_to_track: false, want_lyrics: true, fetch_similar: false }
    );
    assert_eq!(
        plan_track_started(FocusedPanel::Lyrics, &Vec::new(), false, false, true),
        TrackStartPlan { scroll_to_track: false, want_lyrics: true, fetch_similar: true }
    );
}

#[test]
fn stale_similar_replies_are_dropped() {
    assert!(accepts_similar_reply(&Some("a".to_string()), &"a".to_string()));
    assert!(!accepts_similar_reply(&Some("a".to_string()), &"b".to_string()));
    assert!(!accepts_similar_reply(&None, &"a".to_string()));
    assert!(similar_fetch_needed(&Some("a".to_string()), &None));
    assert!(!similar_fetch_needed(&Some("a".to_string()), &Some("a".to_string())));
    assert!(!similar_fetch_needed(&None, &None));
}

#[test]
fn config_reloads_wait_for_edits_to_finish() {
    let idle = DragState::new();
    assert!(config_reload_due(FocusedPanel::Library, &idle, 1000));
    assert!(!config_reload_due(FocusedPanel::Library, &idle, 999));
    assert!(!config_reload_due(FocusedPanel::Settings, &idle, 5000));
    let mut dragging = DragState::new();
    dragging.component_boundary = Some(0);
    assert!(!config_reload_due(FocusedPanel::Library, &dragging, 5000));
}

#[test]
fn only_polled_viewports_coast() {
    assert_eq!(
        inertia_viewports(FocusedPanel::Search, &vec![SidebarComponentId::SimilarSongs]),
        InertiaViewports { library: false, search: true, similar_songs: true }
    );
    assert_eq!(
        inertia_viewports(FocusedPanel::Library, &vec![SidebarComponentId::Lyrics]),
        InertiaViewports { library: true, search: false, similar_songs: false }
    );
}

#[test]
fn tick_outcomes() {
    let o = tick_outcome(false, true, false, false);
    assert_eq!(o.animation, Some(16));
    assert!(o.redraw);
    let o = tick_outcome(false, false, true, false);
    assert!(o.quit && !o.redraw);
    assert!(tick_outcome(false, false, false, true).redraw);
}

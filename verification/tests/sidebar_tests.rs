use blackbird::geometry::Rect;
use blackbird::layout::SidebarComponent;
use blackbird::sidebar::{
    boundary_at_y, drag_target, handle_mouse_click, SidebarComponentId, SidebarState, SimilarEntry,
    SimilarSongsData, SimilarSongsState,
};

fn child(id: &str, is_dir: bool) -> SimilarEntry {
    SimilarEntry { id: id.to_string(), is_dir }
}

fn data(track_id: &str, children: Vec<SimilarEntry>) -> SimilarSongsData {
    SimilarSongsData { track_id: track_id.to_string(), similar: children }
}

#[test]
fn similar_songs_state_track_keying() {
    let mut state = SimilarSongsState::new();
    state.on_fetch_started(&"current".to_string());
    state.on_loaded(&data("current", vec![child("a", false)]));
    assert_eq!(state.track_id.as_deref(), Some("current"));
    assert_eq!(state.results.len(), 1);
    state.reset();
    assert_eq!(state.track_id, None);
    assert!(state.results.is_empty());
}

#[test]
fn similar_songs_state_filters_directories() {
    let mut state = SimilarSongsState::new();
    state.on_fetch_started(&"t".to_string());
    state.on_loaded(&data("t", vec![child("song", false), child("dir", true)]));
    assert_eq!(state.results.len(), 1);
    assert_eq!(state.results[0], "song");
}

#[test]
fn sidebar_component_order_from_config() {
    let components = vec![SidebarComponent::SimilarSongs, SidebarComponent::Lyrics];
    let state = SidebarState::from_config(&components);
    assert_eq!(state.order.as_slice(), &[SidebarComponentId::SimilarSongs, SidebarComponentId::Lyrics]);
}

#[test]
fn focus_stays_in_range_when_components_shrink() {
    let mut state = SidebarState::from_config(&vec![SidebarComponent::Lyrics, SidebarComponent::SimilarSongs]);
    state.focused_component = 1;
    state.update_from_config(&vec![SidebarComponent::Lyrics]);
    assert_eq!(state.focused_component, 0);
    assert_eq!(state.focused(), Some(SidebarComponentId::Lyrics));
    state.update_from_config(&Vec::new());
    assert!(state.is_empty());
    assert_eq!(state.focused(), None);
}

#[test]
fn clicks_focus_the_component_under_them() {
    let mut state = SidebarState::from_config(&vec![SidebarComponent::Lyrics, SidebarComponent::SimilarSongs]);
    let rects = vec![Rect::new(50, 3, 30, 10), Rect::new(50, 13, 30, 10)];
    let hit = handle_mouse_click(&mut state, &rects, 15);
    assert_eq!(hit, Some((1, SidebarComponentId::SimilarSongs, rects[1])));
    assert_eq!(state.focused_component, 1);
    assert_eq!(drag_target(&state, &rects, 4), None);
    assert_eq!(drag_target(&state, &rects, 14), Some(rects[1]));
    assert_eq!(boundary_at_y(&rects, 13), Some(0));
    assert_eq!(boundary_at_y(&rects, 5), None);
}

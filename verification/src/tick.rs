//! The decisions of the application's periodic update: what a newly started
//! track asks for, which replies are still wanted, when the configuration
//! may be reloaded from disk, which viewports coast, and whether to redraw.
use vstd::prelude::*;

use crate::app_state::{FocusedPanel, SMOOTH_FRAME_INTERVAL_MS};
use crate::layout::SidebarComponent;
use crate::routing::DragState;
use crate::sidebar::SidebarComponentId;
use crate::text::str_equal;

verus! {

/// Whether `component` is among the configured components.
fn has_component(components: &Vec<SidebarComponent>, component: SidebarComponent) -> (b: bool)
    ensures
        b == components@.contains(component),
{
    let mut i: usize = 0;
    while i < components.len()
        invariant
            i <= components.len(),
            forall|k: int| 0 <= k < i ==> components@[k] != component,
        decreases components.len() - i,
    {
        if components[i] == component {
            return true;
        }
        i = i + 1;
    }
    false
}

/// What a newly started track asks for.
#[derive(Debug, Clone, Copy, PartialEq, Eq, Structural)]
pub struct TrackStartPlan {
    /// Scroll the library to the track (it is not in view).
    pub scroll_to_track: bool,
    /// Lyrics will be shown for the track, so they are wanted.
    pub want_lyrics: bool,
    /// Fetch the track's similar songs.
    pub fetch_similar: bool,
}

/// The plan for a started track: scroll to it unless it is already in view;
/// lyrics are wanted when the lyrics panel is open, the lyrics are a
/// component of the enabled sidebar, or inline lyrics are on; similar songs
/// are fetched when they are a component of the enabled sidebar or the
/// lyrics panel is open.
pub open spec fn track_start_plan(focused_panel: FocusedPanel, components: Seq<SidebarComponent>,
    sidebar_enabled: bool, inline_lyrics_mode: bool, track_visible: bool) -> TrackStartPlan {
    let panel_open = focused_panel == FocusedPanel::Lyrics;
    TrackStartPlan {
        scroll_to_track: !track_visible,
        want_lyrics: panel_open || (components.contains(SidebarComponent::Lyrics) && sidebar_enabled)
            || inline_lyrics_mode,
        fetch_similar: (components.contains(SidebarComponent::SimilarSongs) && sidebar_enabled) || panel_open,
    }
}

/// Decides what a newly started track asks for; see [`track_start_plan`].
pub fn plan_track_started(focused_panel: FocusedPanel, components: &Vec<SidebarComponent>, sidebar_enabled: bool,
    inline_lyrics_mode: bool, track_visible: bool) -> (r: TrackStartPlan)
    ensures
        r == track_start_plan(focused_panel, components@, sidebar_enabled, inline_lyrics_mode, track_visible),
{
    let panel_open = focused_panel == FocusedPanel::Lyrics;
    let lyrics_in_sidebar = has_component(components, SidebarComponent::Lyrics) && sidebar_enabled;
    let similar_enabled = has_component(components, SidebarComponent::SimilarSongs) && sidebar_enabled;
    TrackStartPlan {
        scroll_to_track: !track_visible,
        want_lyrics: panel_open || lyrics_in_sidebar || inline_lyrics_mode,
        fetch_similar: similar_enabled || panel_open,
    }
}

/// A similar-songs reply is taken only when it is for the track the list
/// was fetched for; a stale reply for an earlier track is dropped.
pub fn accepts_similar_reply(list_track: &Option<String>, reply_track: &String) -> (b: bool)
    ensures
        b == (list_track matches Some(t) && t@ == reply_track@),
{
    match list_track {
        Some(t) => str_equal(t.as_str(), reply_track.as_str()),
        None => false,
    }
}

/// Opening the lyrics panel fetches the playing track's similar songs
/// unless the list already holds (or is loading) them.
pub fn similar_fetch_needed(playing: &Option<String>, list_track: &Option<String>) -> (b: bool)
    ensures
        b == (playing matches Some(p) && !(list_track matches Some(t) && t@ == p@)),
{
    match playing {
        Some(p) => !accepts_similar_reply(list_track, p),
        None => false,
    }
}

/// The configuration is reloaded from disk at most once a second, and never
/// while the settings panel is open or a resize drag is in progress: the
/// in-memory changes are not saved yet and would be lost.
pub open spec fn config_reload_due_spec(focused_panel: FocusedPanel, drags: DragState, ms_since_check: u64) -> bool {
    focused_panel != FocusedPanel::Settings && !drags.sidebar_resizing && drags.component_boundary is None
        && !drags.settings_resizing && ms_since_check >= 1000
}

/// Whether to reload the configuration from disk now; see
/// [`config_reload_due_spec`].
pub fn config_reload_due(focused_panel: FocusedPanel, drags: &DragState, ms_since_check: u64) -> (b: bool)
    ensures
        b == config_reload_due_spec(focused_panel, *drags, ms_since_check),
{
    focused_panel != FocusedPanel::Settings && !drags.sidebar_resizing && drags.component_boundary.is_none()
        && !drags.settings_resizing && ms_since_check >= 1000
}

/// The viewports whose scroll inertia a tick advances.
#[derive(Debug, Clone, Copy, PartialEq, Eq, Structural)]
pub struct InertiaViewports {
    pub library: bool,
    pub search: bool,
    pub similar_songs: bool,
}

/// A viewport coasts only while the tick polls it: the library and the
/// search results while they have focus, the similar-songs list while it is
/// in the sidebar or the lyrics view has focus.
pub open spec fn inertia_viewports_spec(focused_panel: FocusedPanel, order: Seq<SidebarComponentId>) -> InertiaViewports {
    InertiaViewports {
        library: focused_panel == FocusedPanel::Library,
        search: focused_panel == FocusedPanel::Search,
        similar_songs: order.contains(SidebarComponentId::SimilarSongs) || focused_panel == FocusedPanel::Lyrics,
    }
}

/// Which viewports this tick advances; see [`inertia_viewports_spec`].
pub fn inertia_viewports(focused_panel: FocusedPanel, order: &Vec<SidebarComponentId>) -> (r: InertiaViewports)
    ensures
        r == inertia_viewports_spec(focused_panel, order@),
{
    let mut in_order = false;
    let mut i: usize = 0;
    while i < order.len()
        invariant
            i <= order.len(),
            in_order == exists|k: int| 0 <= k < i && order@[k] == SidebarComponentId::SimilarSongs,
        decreases order.len() - i,
    {
        if order[i] == SidebarComponentId::SimilarSongs {
            in_order = true;
        }
        i = i + 1;
    }
    proof {
        if in_order {
            let k = choose|k: int| 0 <= k < order@.len() && order@[k] == SidebarComponentId::SimilarSongs;
            assert(order@[k] == SidebarComponentId::SimilarSongs);
        }
    }
    InertiaViewports {
        library: focused_panel == FocusedPanel::Library,
        search: focused_panel == FocusedPanel::Search,
        similar_songs: in_order || focused_panel == FocusedPanel::Lyrics,
    }
}

/// How a tick ends.
#[derive(Debug, Clone, Copy, PartialEq, Eq, Structural)]
pub struct TickOutcome {
    /// The smooth frame interval to request, while some viewport coasts.
    pub animation: Option<u64>,
    /// The logic asked to shut down: quit.
    pub quit: bool,
    /// Redraw: something changed, a viewport coasts, or the track plays (the
    /// scrub bar advances).
    pub redraw: bool,
}

/// How a tick ends, from what it saw.
pub fn tick_outcome(changed: bool, inertia_active: bool, shutdown: bool, playing: bool) -> (r: TickOutcome)
    ensures
        r.animation == (if inertia_active { Some(SMOOTH_FRAME_INTERVAL_MS) } else { None }),
        r.quit == shutdown,
        r.redraw == (changed || inertia_active || playing),
{
    TickOutcome {
        animation: if inertia_active { Some(SMOOTH_FRAME_INTERVAL_MS) } else { None },
        quit: shutdown,
        redraw: changed || inertia_active || playing,
    }
}

} // verus!

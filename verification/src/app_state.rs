//! Global UI orchestration: which panel has focus, the redraw flag, and the
//! frame pacing requested by animations.
use vstd::prelude::*;

verus! {

/// Frame interval for smooth motion (~60 FPS), used by inertia scrolling, in
/// milliseconds.
pub const SMOOTH_FRAME_INTERVAL_MS: u64 = 16;

/// Floor on the event loop's frame interval in milliseconds, so a tick rate
/// of zero cannot turn the loop into a busy spin.
pub const MIN_FRAME_INTERVAL_MS: u64 = 10;

/// Which panel/mode the UI is in.
#[derive(Debug, Clone, Copy, PartialEq, Eq, Structural)]
pub enum FocusedPanel {
    Library,
    Search,
    Lyrics,
    Logs,
    Queue,
    Settings,
}

/// The shorter of two optional intervals (`None` when neither is present).
pub open spec fn shortest(a: Option<u64>, b: Option<u64>) -> Option<u64> {
    match (a, b) {
        (Some(x), Some(y)) => Some(if x <= y { x } else { y }),
        (Some(x), None) => Some(x),
        (None, Some(y)) => Some(y),
        (None, None) => None,
    }
}

/// The frame intervals (in milliseconds) requested by whatever is currently
/// animating, tracked per producer: `App::tick` for state-driven animation
/// and rendering for view-driven animation. Each producer replaces only its
/// own request.
#[derive(Debug, Clone, Copy, PartialEq, Eq, Structural)]
pub struct AnimationRequests {
    /// The shortest interval requested during the most recent tick.
    pub from_tick: Option<u64>,
    /// The shortest interval requested during the most recent render.
    pub from_render: Option<u64>,
}

/// The interval the event loop runs at: the shortest live request, clamped
/// to at most the tick rate and at least the floor.
pub open spec fn frame_interval_spec(requests: Option<u64>, tick_rate_ms: u64) -> u64 {
    let interval = match requests {
        Some(a) => if a <= tick_rate_ms { a } else { tick_rate_ms },
        None => tick_rate_ms,
    };
    if interval >= MIN_FRAME_INTERVAL_MS { interval } else { MIN_FRAME_INTERVAL_MS }
}

impl AnimationRequests {
    /// No animation is requested.
    pub fn new() -> (r: AnimationRequests)
        ensures
            r.from_tick is None,
            r.from_render is None,
    {
        AnimationRequests { from_tick: None, from_render: None }
    }

    /// The shortest live request, or `None` if nothing is animating.
    pub fn interval(&self) -> (r: Option<u64>)
        ensures
            r == shortest(self.from_tick, self.from_render),
    {
        match (self.from_tick, self.from_render) {
            (Some(a), Some(b)) => Some(if a <= b { a } else { b }),
            (Some(a), None) => Some(a),
            (None, Some(b)) => Some(b),
            (None, None) => None,
        }
    }

    /// Narrows `slot` to `interval`, so the shortest request of a frame wins.
    pub fn request_into(slot: &mut Option<u64>, interval: u64)
        ensures
            *final(slot) == shortest(*old(slot), Some(interval)),
    {
        *slot = match *slot {
            Some(current) => Some(if current <= interval { current } else { interval }),
            None => Some(interval),
        };
    }

    /// Records a render-side request for `interval` or faster.
    pub fn request_render_animation(&mut self, interval: u64)
        ensures
            final(self).from_render == shortest(old(self).from_render, Some(interval)),
            final(self).from_tick == old(self).from_tick,
    {
        Self::request_into(&mut self.from_render, interval);
    }

    /// Records a tick-side request for `interval` or faster.
    pub fn request_tick_animation(&mut self, interval: u64)
        ensures
            final(self).from_tick == shortest(old(self).from_tick, Some(interval)),
            final(self).from_render == old(self).from_render,
    {
        Self::request_into(&mut self.from_tick, interval);
    }

    /// Drops the render-side requests before a render; the frame restates them.
    pub fn begin_render(&mut self)
        ensures
            final(self).from_render is None,
            final(self).from_tick == old(self).from_tick,
    {
        self.from_render = None;
    }

    /// Drops the tick-side requests before a tick; the tick restates them.
    pub fn begin_tick(&mut self)
        ensures
            final(self).from_tick is None,
            final(self).from_render == old(self).from_render,
    {
        self.from_tick = None;
    }

    /// The interval the event loop should run at: the shortest live animation
    /// request, clamped to at most the configured tick rate and at least
    /// [`MIN_FRAME_INTERVAL_MS`].
    pub fn frame_interval(&self, tick_rate_ms: u64) -> (r: u64)
        ensures
            r == frame_interval_spec(shortest(self.from_tick, self.from_render), tick_rate_ms),
    {
        let interval = match self.interval() {
            Some(animation) => if animation <= tick_rate_ms { animation } else { tick_rate_ms },
            None => tick_rate_ms,
        };
        if interval >= MIN_FRAME_INTERVAL_MS { interval } else { MIN_FRAME_INTERVAL_MS }
    }
}

/// The frame interval never drops below the floor, never exceeds the floored
/// tick rate, and is never slower than a live request that is at least the
/// floor.
pub proof fn lemma_frame_interval_bounds(requests: Option<u64>, tick_rate_ms: u64)
    ensures
        frame_interval_spec(requests, tick_rate_ms) >= MIN_FRAME_INTERVAL_MS,
        frame_interval_spec(requests, tick_rate_ms) <= if tick_rate_ms >= MIN_FRAME_INTERVAL_MS {
            tick_rate_ms
        } else {
            MIN_FRAME_INTERVAL_MS
        },
        requests matches Some(a) ==> a >= MIN_FRAME_INTERVAL_MS ==> frame_interval_spec(
            requests,
            tick_rate_ms,
        ) <= a,
        requests is None ==> frame_interval_spec(requests, tick_rate_ms) == if tick_rate_ms
            >= MIN_FRAME_INTERVAL_MS {
            tick_rate_ms
        } else {
            MIN_FRAME_INTERVAL_MS
        },
{
}

/// Each producer only clears its own request: beginning a render keeps the
/// tick-side request live, and beginning a tick keeps the render-side one.
pub proof fn lemma_producers_clear_only_their_own(before: AnimationRequests, tick_cleared: AnimationRequests, render_cleared: AnimationRequests)
    requires
        tick_cleared == (AnimationRequests { from_tick: None, from_render: before.from_render }),
        render_cleared == (AnimationRequests { from_tick: before.from_tick, from_render: None }),
    ensures
        shortest(render_cleared.from_tick, render_cleared.from_render) == before.from_tick,
        shortest(tick_cleared.from_tick, tick_cleared.from_render) == before.from_render,
{
}

/// What the application must do after a focus change, beyond setting the
/// focused panel.
#[derive(Debug, Clone, Copy, PartialEq, Eq, Structural)]
pub enum FocusEffect {
    /// Nothing more.
    Nothing,
    /// Reset the search panel.
    ResetSearch,
    /// Reset the settings panel.
    ResetSettings,
    /// Reset the queue panel.
    ResetQueue,
    /// Scroll the log view to its end.
    ScrollLogsToEnd,
    /// Request lyrics and similar songs for the playing track; when `reset`
    /// is set, the lyrics view state is reset first (full panel).
    FocusLyrics { reset: bool },
    /// Persist the configuration.
    SaveConfig,
}

/// Toggles a panel: from `panel` back to the library, otherwise to `panel`.
pub open spec fn toggled(current: FocusedPanel, panel: FocusedPanel) -> FocusedPanel {
    if current == panel { FocusedPanel::Library } else { panel }
}

/// The focus decisions of the panel toggles.
#[derive(Debug, Clone, Copy, PartialEq, Eq, Structural)]
pub struct FocusState {
    pub focused_panel: FocusedPanel,
}

impl FocusState {
    /// The library has focus.
    pub fn new() -> (r: FocusState)
        ensures
            r.focused_panel == FocusedPanel::Library,
    {
        FocusState { focused_panel: FocusedPanel::Library }
    }

    /// Search ↔ library; the search panel is reset either way.
    pub fn toggle_search(&mut self) -> (e: FocusEffect)
        ensures
            final(self).focused_panel == toggled(old(self).focused_panel, FocusedPanel::Search),
            e == FocusEffect::ResetSearch,
    {
        if self.focused_panel == FocusedPanel::Search {
            self.focused_panel = FocusedPanel::Library;
        } else {
            self.focused_panel = FocusedPanel::Search;
        }
        FocusEffect::ResetSearch
    }

    /// Lyrics ↔ library. Opening the lyrics resets the view only when no
    /// sidebar is visible (the full panel); a visible sidebar keeps its
    /// scroll position.
    pub fn toggle_lyrics(&mut self, sidebar_enabled: bool) -> (e: FocusEffect)
        ensures
            final(self).focused_panel == toggled(old(self).focused_panel, FocusedPanel::Lyrics),
            e == if old(self).focused_panel == FocusedPanel::Lyrics {
                FocusEffect::Nothing
            } else {
                FocusEffect::FocusLyrics { reset: !sidebar_enabled }
            },
    {
        if self.focused_panel == FocusedPanel::Lyrics {
            self.focused_panel = FocusedPanel::Library;
            FocusEffect::Nothing
        } else {
            self.focused_panel = FocusedPanel::Lyrics;
            FocusEffect::FocusLyrics { reset: !sidebar_enabled }
        }
    }

    /// Flips the sidebar's visibility; hiding it while it has focus returns
    /// focus to the library. The configuration is saved.
    pub fn toggle_sidebar(&mut self, sidebar_enabled: &mut bool) -> (e: FocusEffect)
        ensures
            *final(sidebar_enabled) == !*old(sidebar_enabled),
            final(self).focused_panel == if *old(sidebar_enabled) && old(self).focused_panel
                == FocusedPanel::Lyrics {
                FocusedPanel::Library
            } else {
                old(self).focused_panel
            },
            e == FocusEffect::SaveConfig,
    {
        *sidebar_enabled = !*sidebar_enabled;
        if !*sidebar_enabled && self.focused_panel == FocusedPanel::Lyrics {
            self.focused_panel = FocusedPanel::Library;
        }
        FocusEffect::SaveConfig
    }

    /// Logs ↔ library; opening the logs scrolls them to the end.
    pub fn toggle_logs(&mut self) -> (e: FocusEffect)
        ensures
            final(self).focused_panel == toggled(old(self).focused_panel, FocusedPanel::Logs),
            e == if old(self).focused_panel == FocusedPanel::Logs {
                FocusEffect::Nothing
            } else {
                FocusEffect::ScrollLogsToEnd
            },
    {
        if self.focused_panel == FocusedPanel::Logs {
            self.focused_panel = FocusedPanel::Library;
            FocusEffect::Nothing
        } else {
            self.focused_panel = FocusedPanel::Logs;
            FocusEffect::ScrollLogsToEnd
        }
    }

    /// Queue ↔ library. The queue overlay does not open while the queue is a
    /// sidebar component.
    pub fn toggle_queue(&mut self, queue_sidebar_enabled: bool) -> (e: FocusEffect)
        ensures
            old(self).focused_panel == FocusedPanel::Queue ==> final(self).focused_panel
                == FocusedPanel::Library && e == FocusEffect::Nothing,
            old(self).focused_panel != FocusedPanel::Queue && queue_sidebar_enabled ==> final(self).focused_panel == old(self).focused_panel && e == FocusEffect::Nothing,
            old(self).focused_panel != FocusedPanel::Queue && !queue_sidebar_enabled ==> final(self).focused_panel == FocusedPanel::Queue && e == FocusEffect::ResetQueue,
    {
        if self.focused_panel == FocusedPanel::Queue {
            self.focused_panel = FocusedPanel::Library;
            FocusEffect::Nothing
        } else if queue_sidebar_enabled {
            FocusEffect::Nothing
        } else {
            self.focused_panel = FocusedPanel::Queue;
            FocusEffect::ResetQueue
        }
    }

    /// Settings ↔ library; opening the settings resets the panel.
    pub fn toggle_settings(&mut self) -> (e: FocusEffect)
        ensures
            final(self).focused_panel == toggled(old(self).focused_panel, FocusedPanel::Settings),
            e == if old(self).focused_panel == FocusedPanel::Settings {
                FocusEffect::Nothing
            } else {
                FocusEffect::ResetSettings
            },
    {
        if self.focused_panel == FocusedPanel::Settings {
            self.focused_panel = FocusedPanel::Library;
            FocusEffect::Nothing
        } else {
            self.focused_panel = FocusedPanel::Settings;
            FocusEffect::ResetSettings
        }
    }
}

/// A panel toggle is undone by the same toggle: from the library, toggling a
/// panel twice returns to the library, and from any panel other than the
/// library, toggling it twice returns to that panel.
pub proof fn lemma_toggle_twice(current: FocusedPanel, panel: FocusedPanel)
    requires
        panel != FocusedPanel::Library,
    ensures
        current == FocusedPanel::Library || current == panel ==> toggled(toggled(current, panel), panel)
            == current,
        toggled(current, panel) == panel || toggled(current, panel) == FocusedPanel::Library,
{
}

/// The playback position after seeking `seconds` from `current_ms`; backward
/// seeks stop at the start of the track.
pub open spec fn seek_target_spec(current_ms: u64, seconds: i64) -> int {
    if seconds > 0 {
        current_ms + seconds * 1000
    } else {
        sat_sub_int(current_ms as int, -seconds * 1000)
    }
}

pub open spec fn sat_sub_int(a: int, b: int) -> int {
    if a >= b { a - b } else { 0 }
}

/// The seek target of `App::seek_relative`: `seconds` after the current
/// position, or before it, saturating at zero.
pub fn seek_target_ms(current_ms: u64, seconds: i64) -> (r: u64)
    requires
        seconds > 0 ==> current_ms + seconds * 1000 <= u64::MAX,
    ensures
        r == seek_target_spec(current_ms, seconds),
{
    if seconds > 0 {
        current_ms + (seconds as u64) * 1000
    } else if seconds == i64::MIN {
        0
    } else {
        let back = (-seconds) as u64;
        if back > u64::MAX / 1000 {
            0
        } else {
            current_ms.saturating_sub(back * 1000)
        }
    }
}

} // verus!

//! The terminal client's own configuration values and their defaults.
use vstd::prelude::*;

verus! {

/// Controls how album art is rendered in the terminal.
#[derive(Debug, Clone, Copy, PartialEq, Eq, Structural)]
pub enum AlbumArtProtocol {
    /// Use a graphics protocol (Kitty/iTerm2/Sixel) if detected, otherwise
    /// fall back to the hand-rolled half-block rendering.
    Auto,
    /// Always use the image renderer, with its own half-blocks when no
    /// graphics protocol is detected.
    Image,
    /// Always use the hand-rolled half-block rendering.
    Halfblock,
}

impl AlbumArtProtocol {
    /// The default protocol: detect.
    pub fn default_protocol() -> (r: Self)
        ensures
            r == AlbumArtProtocol::Auto,
    {
        AlbumArtProtocol::Auto
    }
}

/// Default width of the sidebar in terminal columns.
pub fn default_sidebar_width() -> (w: u16)
    ensures
        w == 30,
{
    30
}

/// Default width of the settings sidebar in terminal columns.
pub fn default_settings_sidebar_width() -> (w: u16)
    ensures
        w == 40,
{
    40
}

/// Default interval between ticks, in milliseconds.
pub fn default_tick_rate_ms() -> (t: u64)
    ensures
        t == 100,
{
    100
}

/// The terminal-specific layout settings: whether to use the terminal's own
/// background, how to render album art, the sidebar and settings widths, and
/// whether the inline lyrics overlay shows.
#[derive(Debug, Clone, Copy, PartialEq, Eq, Structural)]
pub struct TerminalLayout {
    pub use_terminal_background: bool,
    pub album_art_protocol: AlbumArtProtocol,
    pub sidebar_width: u16,
    pub settings_sidebar_width: u16,
    pub show_inline_lyrics: bool,
}

impl TerminalLayout {
    /// The defaults: the configured background, detected album art, a
    /// 30-column sidebar, a 40-column settings sidebar, no inline lyrics.
    pub fn default_layout() -> (r: Self)
        ensures
            r == (TerminalLayout {
                use_terminal_background: false,
                album_art_protocol: AlbumArtProtocol::Auto,
                sidebar_width: 30,
                settings_sidebar_width: 40,
                show_inline_lyrics: false,
            }),
    {
        TerminalLayout {
            use_terminal_background: false,
            album_art_protocol: AlbumArtProtocol::default_protocol(),
            sidebar_width: default_sidebar_width(),
            settings_sidebar_width: default_settings_sidebar_width(),
            show_inline_lyrics: false,
        }
    }
}

} // verus!

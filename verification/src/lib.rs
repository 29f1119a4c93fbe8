//! Verified core of the blackbird terminal music client: time formatting,
//! screen geometry, key bindings, lyric wrapping, list selection and the
//! settings state machine.

pub mod app_state;
pub mod chrome;
pub mod config;
pub mod geometry;
pub mod help_bar;
pub mod image_ids;
pub mod incremental_search;
pub mod keys;
pub mod layout;
pub mod library;
pub mod queue;
pub mod routing;
pub mod log_buffer;
pub mod lyrics;
pub mod panel;
pub mod quantize;
pub mod search;
pub mod settings;
pub mod sidebar;
pub mod text;
pub mod tick;
pub mod util;

//! Key bindings: which action a key means in each panel, and the labels the
//! help bar shows for them.
use vstd::prelude::*;

use crate::text::{chars_of, decimal, push_char, push_decimal, push_str};

verus! {

/// A key, as the terminal reports it.
#[derive(Debug, Clone, Copy, PartialEq, Eq, Structural)]
pub enum KeyCode {
    Backspace,
    Enter,
    Left,
    Right,
    Up,
    Down,
    Home,
    End,
    PageUp,
    PageDown,
    Tab,
    BackTab,
    Delete,
    Insert,
    F(u8),
    Char(char),
    Null,
    Esc,
    CapsLock,
    ScrollLock,
    NumLock,
    PrintScreen,
    Pause,
    Menu,
    KeypadBegin,
    /// A media or modifier key; no binding uses one.
    Other,
}

/// The modifier keys held with a key.
#[derive(Debug, Clone, Copy, PartialEq, Eq, Structural)]
pub struct KeyModifiers {
    pub shift: bool,
    pub control: bool,
    pub alt: bool,
}

/// A key press.
#[derive(Debug, Clone, Copy, PartialEq, Eq, Structural)]
pub struct KeyEvent {
    pub code: KeyCode,
    pub modifiers: KeyModifiers,
}

/// Which way a cycling action goes.
#[derive(Debug, Clone, Copy, PartialEq, Eq, Structural)]
pub enum Direction {
    Forward,
    Backward,
}

/// The editing substate of the settings panel. The help bar shows different
/// bindings depending on what is being edited.
#[derive(Debug, Clone, Copy, PartialEq, Eq, Structural)]
pub enum SettingsEditMode {
    /// Not editing any row; the panel-level bindings apply.
    Navigating,
    /// Editing a text or numeric field.
    TextEdit,
    /// Adjusting the HSV components of a color field.
    HsvEdit,
    /// Rearranging/adding/removing entries in the sidebar component list.
    /// `armed` is true when an item is selected for manipulation.
    ComponentList { armed: bool },
}

/// Centrally defined key actions.
#[derive(Debug, Clone, Copy, PartialEq, Eq, Structural)]
pub enum Action {
    Quit,
    PlayPause,
    Stop,
    Next,
    Previous,
    NextGroup,
    PreviousGroup,
    CyclePlaybackMode(Direction),
    ToggleSortOrder(Direction),
    Search,
    Lyrics,
    ToggleSidebar,
    Logs,
    Queue,
    VolumeMode,
    VolumeUp,
    VolumeDown,
    Star,
    SeekForward,
    SeekBackward,
    GotoPlaying,
    MoveUp,
    MoveDown,
    PageUp,
    PageDown,
    GotoTop,
    GotoBottom,
    Select,
    GotoSelected,
    Back,
    ClearLine,
    Char(char),
    DeleteChar,
    Settings,
    MoveLeft,
    MoveRight,
    ResetField,
    ResetSection,
}

/// An entry in the help bar, either a single action or a merged pair with
/// its own description, or a single action with an overriding description.
#[derive(Debug, Clone, Copy, PartialEq, Eq)]
pub enum HelpEntry {
    Single(Action),
    Pair(Action, Action, &'static str),
    Custom(Action, &'static str),
}

// ── Key code constants ───────────────────────────────────────────

pub const KEY_QUIT: char = 'q';
pub const KEY_PLAY_PAUSE: char = ' ';
pub const KEY_STOP: char = 's';
pub const KEY_NEXT: char = 'n';
pub const KEY_PREVIOUS: char = 'p';
pub const KEY_NEXT_GROUP: char = 'N';
pub const KEY_PREVIOUS_GROUP: char = 'P';
pub const KEY_CYCLE_MODE_FWD: char = 'm';
pub const KEY_CYCLE_MODE_BWD: char = 'M';
pub const KEY_TOGGLE_SORT_FWD: char = 'o';
pub const KEY_TOGGLE_SORT_BWD: char = 'O';
pub const KEY_SEARCH: char = '/';
pub const KEY_LYRICS: char = 'l';
pub const KEY_TOGGLE_SIDEBAR: char = 't';
pub const KEY_LOGS: char = 'L';
pub const KEY_QUEUE: char = 'u';
pub const KEY_VOLUME: char = 'v';
pub const KEY_GOTO_PLAYING: char = 'g';
pub const KEY_SEEK_BACK: char = '<';
pub const KEY_SEEK_BACK_ALT: char = ',';
pub const KEY_SEEK_FWD: char = '>';
pub const KEY_SEEK_FWD_ALT: char = '.';
pub const KEY_STAR: char = '*';
pub const KEY_SETTINGS: char = 'i';
pub const KEY_CONFIRM_YES: char = 'y';
pub const KEY_CONFIRM_NO: char = 'n';

/// The character keys bound to named actions, with the character each uses.
pub fn char_key_bindings() -> (v: Vec<char>)
    ensures
        v@ == seq![
            KEY_QUIT, KEY_PLAY_PAUSE, KEY_STOP, KEY_NEXT, KEY_PREVIOUS, KEY_NEXT_GROUP,
            KEY_PREVIOUS_GROUP, KEY_CYCLE_MODE_FWD, KEY_CYCLE_MODE_BWD, KEY_TOGGLE_SORT_FWD,
            KEY_TOGGLE_SORT_BWD, KEY_SEARCH, KEY_LYRICS, KEY_TOGGLE_SIDEBAR, KEY_LOGS, KEY_QUEUE,
            KEY_VOLUME, KEY_GOTO_PLAYING, KEY_SEEK_BACK, KEY_SEEK_BACK_ALT, KEY_SEEK_FWD,
            KEY_SEEK_FWD_ALT, KEY_STAR, KEY_SETTINGS, KEY_CONFIRM_YES, KEY_CONFIRM_NO
        ],
{
    vec![
        KEY_QUIT, KEY_PLAY_PAUSE, KEY_STOP, KEY_NEXT, KEY_PREVIOUS, KEY_NEXT_GROUP,
        KEY_PREVIOUS_GROUP, KEY_CYCLE_MODE_FWD, KEY_CYCLE_MODE_BWD, KEY_TOGGLE_SORT_FWD,
        KEY_TOGGLE_SORT_BWD, KEY_SEARCH, KEY_LYRICS, KEY_TOGGLE_SIDEBAR, KEY_LOGS, KEY_QUEUE,
        KEY_VOLUME, KEY_GOTO_PLAYING, KEY_SEEK_BACK, KEY_SEEK_BACK_ALT, KEY_SEEK_FWD,
        KEY_SEEK_FWD_ALT, KEY_STAR, KEY_SETTINGS, KEY_CONFIRM_YES, KEY_CONFIRM_NO,
    ]
}

// ── Per-context key resolution ───────────────────────────────────

pub open spec fn library_action_spec(code: KeyCode) -> Option<Action> {
    match code {
        KeyCode::Char(c) => {
            if c == KEY_QUIT { Some(Action::Quit) }
            else if c == KEY_PLAY_PAUSE { Some(Action::PlayPause) }
            else if c == KEY_NEXT { Some(Action::Next) }
            else if c == KEY_PREVIOUS { Some(Action::Previous) }
            else if c == KEY_NEXT_GROUP { Some(Action::NextGroup) }
            else if c == KEY_PREVIOUS_GROUP { Some(Action::PreviousGroup) }
            else if c == KEY_STOP { Some(Action::Stop) }
            else if c == KEY_CYCLE_MODE_FWD { Some(Action::CyclePlaybackMode(Direction::Forward)) }
            else if c == KEY_CYCLE_MODE_BWD { Some(Action::CyclePlaybackMode(Direction::Backward)) }
            else if c == KEY_TOGGLE_SORT_FWD { Some(Action::ToggleSortOrder(Direction::Forward)) }
            else if c == KEY_TOGGLE_SORT_BWD { Some(Action::ToggleSortOrder(Direction::Backward)) }
            else if c == KEY_SEARCH { Some(Action::Search) }
            else if c == KEY_LYRICS { Some(Action::Lyrics) }
            else if c == KEY_TOGGLE_SIDEBAR { Some(Action::ToggleSidebar) }
            else if c == KEY_LOGS { Some(Action::Logs) }
            else if c == KEY_QUEUE { Some(Action::Queue) }
            else if c == KEY_VOLUME { Some(Action::VolumeMode) }
            else if c == KEY_GOTO_PLAYING { Some(Action::GotoPlaying) }
            else if c == KEY_SEEK_BACK || c == KEY_SEEK_BACK_ALT { Some(Action::SeekBackward) }
            else if c == KEY_SEEK_FWD || c == KEY_SEEK_FWD_ALT { Some(Action::SeekForward) }
            else if c == KEY_STAR { Some(Action::Star) }
            else if c == KEY_SETTINGS { Some(Action::Settings) }
            else { None }
        },
        KeyCode::Up => Some(Action::MoveUp),
        KeyCode::Down => Some(Action::MoveDown),
        KeyCode::PageUp => Some(Action::PageUp),
        KeyCode::PageDown => Some(Action::PageDown),
        KeyCode::Home => Some(Action::GotoTop),
        KeyCode::End => Some(Action::GotoBottom),
        KeyCode::Enter => Some(Action::Select),
        _ => None,
    }
}

/// Resolve a key event into an action in library context.
pub fn library_action(key: &KeyEvent) -> (r: Option<Action>)
    ensures
        r == library_action_spec(key.code),
{
    match key.code {
        KeyCode::Char(c) => {
            if c == KEY_QUIT { Some(Action::Quit) }
            else if c == KEY_PLAY_PAUSE { Some(Action::PlayPause) }
            else if c == KEY_NEXT { Some(Action::Next) }
            else if c == KEY_PREVIOUS { Some(Action::Previous) }
            else if c == KEY_NEXT_GROUP { Some(Action::NextGroup) }
            else if c == KEY_PREVIOUS_GROUP { Some(Action::PreviousGroup) }
            else if c == KEY_STOP { Some(Action::Stop) }
            else if c == KEY_CYCLE_MODE_FWD { Some(Action::CyclePlaybackMode(Direction::Forward)) }
            else if c == KEY_CYCLE_MODE_BWD { Some(Action::CyclePlaybackMode(Direction::Backward)) }
            else if c == KEY_TOGGLE_SORT_FWD { Some(Action::ToggleSortOrder(Direction::Forward)) }
            else if c == KEY_TOGGLE_SORT_BWD { Some(Action::ToggleSortOrder(Direction::Backward)) }
            else if c == KEY_SEARCH { Some(Action::Search) }
            else if c == KEY_LYRICS { Some(Action::Lyrics) }
            else if c == KEY_TOGGLE_SIDEBAR { Some(Action::ToggleSidebar) }
            else if c == KEY_LOGS { Some(Action::Logs) }
            else if c == KEY_QUEUE { Some(Action::Queue) }
            else if c == KEY_VOLUME { Some(Action::VolumeMode) }
            else if c == KEY_GOTO_PLAYING { Some(Action::GotoPlaying) }
            else if c == KEY_SEEK_BACK || c == KEY_SEEK_BACK_ALT { Some(Action::SeekBackward) }
            else if c == KEY_SEEK_FWD || c == KEY_SEEK_FWD_ALT { Some(Action::SeekForward) }
            else if c == KEY_STAR { Some(Action::Star) }
            else if c == KEY_SETTINGS { Some(Action::Settings) }
            else { None }
        },
        KeyCode::Up => Some(Action::MoveUp),
        KeyCode::Down => Some(Action::MoveDown),
        KeyCode::PageUp => Some(Action::PageUp),
        KeyCode::PageDown => Some(Action::PageDown),
        KeyCode::Home => Some(Action::GotoTop),
        KeyCode::End => Some(Action::GotoBottom),
        KeyCode::Enter => Some(Action::Select),
        _ => None,
    }
}

pub open spec fn settings_action_spec(code: KeyCode, editing: bool) -> Option<Action> {
    match code {
        KeyCode::Char(c) => {
            if c == KEY_QUIT && !editing { Some(Action::Back) }
            else if c == 'd' { Some(Action::ResetField) }
            else if c == 'D' { Some(Action::ResetSection) }
            else { Some(Action::Char(c)) }
        },
        KeyCode::Esc => Some(Action::Back),
        KeyCode::Enter => Some(Action::Select),
        KeyCode::Up => Some(Action::MoveUp),
        KeyCode::Down => Some(Action::MoveDown),
        KeyCode::Left => Some(Action::MoveLeft),
        KeyCode::Right => Some(Action::MoveRight),
        KeyCode::PageUp => Some(Action::PageUp),
        KeyCode::PageDown => Some(Action::PageDown),
        KeyCode::Backspace => Some(Action::DeleteChar),
        _ => None,
    }
}

/// Resolve a key event into an action in settings context.
/// When `editing` is true, the quit key falls through to `Char` input instead
/// of closing the panel.
pub fn settings_action(key: &KeyEvent, editing: bool) -> (r: Option<Action>)
    ensures
        r == settings_action_spec(key.code, editing),
{
    match key.code {
        KeyCode::Char(c) => {
            if c == KEY_QUIT && !editing { Some(Action::Back) }
            else if c == 'd' { Some(Action::ResetField) }
            else if c == 'D' { Some(Action::ResetSection) }
            else { Some(Action::Char(c)) }
        },
        KeyCode::Esc => Some(Action::Back),
        KeyCode::Enter => Some(Action::Select),
        KeyCode::Up => Some(Action::MoveUp),
        KeyCode::Down => Some(Action::MoveDown),
        KeyCode::Left => Some(Action::MoveLeft),
        KeyCode::Right => Some(Action::MoveRight),
        KeyCode::PageUp => Some(Action::PageUp),
        KeyCode::PageDown => Some(Action::PageDown),
        KeyCode::Backspace => Some(Action::DeleteChar),
        _ => None,
    }
}

pub open spec fn search_action_spec(key: KeyEvent) -> Option<Action> {
    match key.code {
        KeyCode::Esc => Some(Action::Back),
        KeyCode::Enter => if key.modifiers.shift { Some(Action::GotoSelected) } else { Some(Action::Select) },
        KeyCode::Up => Some(Action::MoveUp),
        KeyCode::Down => Some(Action::MoveDown),
        KeyCode::Backspace => Some(Action::DeleteChar),
        KeyCode::Char(c) => {
            if key.modifiers.control && c == 'j' { Some(Action::GotoSelected) }
            else if key.modifiers.control && c == 'u' { Some(Action::ClearLine) }
            else { Some(Action::Char(c)) }
        },
        _ => None,
    }
}

/// Resolve a key event into an action in search context. Shift+Enter (or
/// the Ctrl+J that terminals send for it) goes to the selected track, and
/// Ctrl+U clears the line.
pub fn search_action(key: &KeyEvent) -> (r: Option<Action>)
    ensures
        r == search_action_spec(*key),
{
    match key.code {
        KeyCode::Esc => Some(Action::Back),
        KeyCode::Enter => if key.modifiers.shift { Some(Action::GotoSelected) } else { Some(Action::Select) },
        KeyCode::Up => Some(Action::MoveUp),
        KeyCode::Down => Some(Action::MoveDown),
        KeyCode::Backspace => Some(Action::DeleteChar),
        KeyCode::Char(c) => {
            if key.modifiers.control && c == 'j' { Some(Action::GotoSelected) }
            else if key.modifiers.control && c == 'u' { Some(Action::ClearLine) }
            else { Some(Action::Char(c)) }
        },
        _ => None,
    }
}

pub open spec fn lyrics_action_spec(code: KeyCode) -> Option<Action> {
    match code {
        KeyCode::Esc => Some(Action::Back),
        KeyCode::Up => Some(Action::MoveUp),
        KeyCode::Down => Some(Action::MoveDown),
        KeyCode::PageUp => Some(Action::PageUp),
        KeyCode::PageDown => Some(Action::PageDown),
        KeyCode::Enter => Some(Action::Select),
        KeyCode::Char(c) => {
            if c == KEY_LYRICS || c == KEY_QUIT { Some(Action::Back) }
            else if c == KEY_TOGGLE_SIDEBAR { Some(Action::ToggleSidebar) }
            else if c == KEY_SEEK_BACK || c == KEY_SEEK_BACK_ALT { Some(Action::SeekBackward) }
            else if c == KEY_SEEK_FWD || c == KEY_SEEK_FWD_ALT { Some(Action::SeekForward) }
            else if c == KEY_PLAY_PAUSE { Some(Action::PlayPause) }
            else if c == KEY_NEXT { Some(Action::Next) }
            else if c == KEY_PREVIOUS { Some(Action::Previous) }
            else if c == KEY_NEXT_GROUP { Some(Action::NextGroup) }
            else if c == KEY_PREVIOUS_GROUP { Some(Action::PreviousGroup) }
            else { None }
        },
        _ => None,
    }
}

/// Resolve a key event into an action in lyrics context.
pub fn lyrics_action(key: &KeyEvent) -> (r: Option<Action>)
    ensures
        r == lyrics_action_spec(key.code),
{
    match key.code {
        KeyCode::Esc => Some(Action::Back),
        KeyCode::Up => Some(Action::MoveUp),
        KeyCode::Down => Some(Action::MoveDown),
        KeyCode::PageUp => Some(Action::PageUp),
        KeyCode::PageDown => Some(Action::PageDown),
        KeyCode::Enter => Some(Action::Select),
        KeyCode::Char(c) => {
            if c == KEY_LYRICS || c == KEY_QUIT { Some(Action::Back) }
            else if c == KEY_TOGGLE_SIDEBAR { Some(Action::ToggleSidebar) }
            else if c == KEY_SEEK_BACK || c == KEY_SEEK_BACK_ALT { Some(Action::SeekBackward) }
            else if c == KEY_SEEK_FWD || c == KEY_SEEK_FWD_ALT { Some(Action::SeekForward) }
            else if c == KEY_PLAY_PAUSE { Some(Action::PlayPause) }
            else if c == KEY_NEXT { Some(Action::Next) }
            else if c == KEY_PREVIOUS { Some(Action::Previous) }
            else if c == KEY_NEXT_GROUP { Some(Action::NextGroup) }
            else if c == KEY_PREVIOUS_GROUP { Some(Action::PreviousGroup) }
            else { None }
        },
        _ => None,
    }
}

pub open spec fn volume_action_spec(code: KeyCode) -> Option<Action> {
    match code {
        KeyCode::Up | KeyCode::Right => Some(Action::VolumeUp),
        KeyCode::Down | KeyCode::Left => Some(Action::VolumeDown),
        KeyCode::Esc | KeyCode::Enter => Some(Action::Back),
        KeyCode::Char(c) => if c == KEY_VOLUME { Some(Action::Back) } else { None },
        _ => None,
    }
}

/// Resolve a key event into an action in volume-editing context.
pub fn volume_action(key: &KeyEvent) -> (r: Option<Action>)
    ensures
        r == volume_action_spec(key.code),
{
    match key.code {
        KeyCode::Up | KeyCode::Right => Some(Action::VolumeUp),
        KeyCode::Down | KeyCode::Left => Some(Action::VolumeDown),
        KeyCode::Esc | KeyCode::Enter => Some(Action::Back),
        KeyCode::Char(c) => if c == KEY_VOLUME { Some(Action::Back) } else { None },
        _ => None,
    }
}

pub open spec fn album_art_overlay_action_spec(code: KeyCode) -> Option<Action> {
    match code {
        KeyCode::Esc | KeyCode::Enter => Some(Action::Back),
        KeyCode::Char(c) => if c == KEY_QUIT { Some(Action::Back) } else { None },
        _ => None,
    }
}

/// Resolve a key event into an action in album art overlay context.
pub fn album_art_overlay_action(key: &KeyEvent) -> (r: Option<Action>)
    ensures
        r == album_art_overlay_action_spec(key.code),
{
    match key.code {
        KeyCode::Esc | KeyCode::Enter => Some(Action::Back),
        KeyCode::Char(c) => if c == KEY_QUIT { Some(Action::Back) } else { None },
        _ => None,
    }
}

pub open spec fn playback_mode_dropdown_action_spec(code: KeyCode) -> Option<Action> {
    match code {
        KeyCode::Esc => Some(Action::Back),
        KeyCode::Char(c) => if c == KEY_QUIT { Some(Action::Back) } else { None },
        KeyCode::Enter => Some(Action::Select),
        KeyCode::Up => Some(Action::MoveUp),
        KeyCode::Down => Some(Action::MoveDown),
        _ => None,
    }
}

/// Resolve a key event into an action in playback mode dropdown context.
pub fn playback_mode_dropdown_action(key: &KeyEvent) -> (r: Option<Action>)
    ensures
        r == playback_mode_dropdown_action_spec(key.code),
{
    match key.code {
        KeyCode::Esc => Some(Action::Back),
        KeyCode::Char(c) => if c == KEY_QUIT { Some(Action::Back) } else { None },
        KeyCode::Enter => Some(Action::Select),
        KeyCode::Up => Some(Action::MoveUp),
        KeyCode::Down => Some(Action::MoveDown),
        _ => None,
    }
}

/// Resolve a key event into an action in quit-confirmation context.
/// `y` / Enter confirms; any other key cancels.
pub fn quit_confirm_action(key: &KeyEvent) -> (r: Action)
    ensures
        r == if key.code == KeyCode::Char(KEY_CONFIRM_YES) || key.code == KeyCode::Enter {
            Action::Select
        } else {
            Action::Back
        },
{
    match key.code {
        KeyCode::Enter => Action::Select,
        KeyCode::Char(c) => if c == KEY_CONFIRM_YES { Action::Select } else { Action::Back },
        _ => Action::Back,
    }
}

pub open spec fn queue_action_spec(code: KeyCode) -> Option<Action> {
    match code {
        KeyCode::Esc => Some(Action::Back),
        KeyCode::Up => Some(Action::MoveUp),
        KeyCode::Down => Some(Action::MoveDown),
        KeyCode::PageUp => Some(Action::PageUp),
        KeyCode::PageDown => Some(Action::PageDown),
        KeyCode::Enter => Some(Action::Select),
        KeyCode::Char(c) => {
            if c == KEY_QUEUE || c == KEY_QUIT { Some(Action::Back) }
            else if c == KEY_PLAY_PAUSE { Some(Action::PlayPause) }
            else if c == KEY_NEXT { Some(Action::Next) }
            else if c == KEY_PREVIOUS { Some(Action::Previous) }
            else if c == KEY_NEXT_GROUP { Some(Action::NextGroup) }
            else if c == KEY_PREVIOUS_GROUP { Some(Action::PreviousGroup) }
            else if c == KEY_CYCLE_MODE_FWD { Some(Action::CyclePlaybackMode(Direction::Forward)) }
            else if c == KEY_CYCLE_MODE_BWD { Some(Action::CyclePlaybackMode(Direction::Backward)) }
            else { None }
        },
        _ => None,
    }
}

/// Resolve a key event into an action in queue context.
pub fn queue_action(key: &KeyEvent) -> (r: Option<Action>)
    ensures
        r == queue_action_spec(key.code),
{
    match key.code {
        KeyCode::Esc => Some(Action::Back),
        KeyCode::Up => Some(Action::MoveUp),
        KeyCode::Down => Some(Action::MoveDown),
        KeyCode::PageUp => Some(Action::PageUp),
        KeyCode::PageDown => Some(Action::PageDown),
        KeyCode::Enter => Some(Action::Select),
        KeyCode::Char(c) => {
            if c == KEY_QUEUE || c == KEY_QUIT { Some(Action::Back) }
            else if c == KEY_PLAY_PAUSE { Some(Action::PlayPause) }
            else if c == KEY_NEXT { Some(Action::Next) }
            else if c == KEY_PREVIOUS { Some(Action::Previous) }
            else if c == KEY_NEXT_GROUP { Some(Action::NextGroup) }
            else if c == KEY_PREVIOUS_GROUP { Some(Action::PreviousGroup) }
            else if c == KEY_CYCLE_MODE_FWD { Some(Action::CyclePlaybackMode(Direction::Forward)) }
            else if c == KEY_CYCLE_MODE_BWD { Some(Action::CyclePlaybackMode(Direction::Backward)) }
            else { None }
        },
        _ => None,
    }
}

pub open spec fn logs_action_spec(code: KeyCode) -> Option<Action> {
    match code {
        KeyCode::Esc => Some(Action::Back),
        KeyCode::Char(c) => if c == KEY_LOGS || c == KEY_QUIT { Some(Action::Back) } else { None },
        KeyCode::Up => Some(Action::MoveUp),
        KeyCode::Down => Some(Action::MoveDown),
        KeyCode::PageUp => Some(Action::PageUp),
        KeyCode::PageDown => Some(Action::PageDown),
        KeyCode::Home => Some(Action::GotoTop),
        KeyCode::End => Some(Action::GotoBottom),
        _ => None,
    }
}

/// Resolve a key event into an action in logs context.
pub fn logs_action(key: &KeyEvent) -> (r: Option<Action>)
    ensures
        r == logs_action_spec(key.code),
{
    match key.code {
        KeyCode::Esc => Some(Action::Back),
        KeyCode::Char(c) => if c == KEY_LOGS || c == KEY_QUIT { Some(Action::Back) } else { None },
        KeyCode::Up => Some(Action::MoveUp),
        KeyCode::Down => Some(Action::MoveDown),
        KeyCode::PageUp => Some(Action::PageUp),
        KeyCode::PageDown => Some(Action::PageDown),
        KeyCode::Home => Some(Action::GotoTop),
        KeyCode::End => Some(Action::GotoBottom),
        _ => None,
    }
}


// ── Help bar labels ──────────────────────────────────────────────

/// Whether `c` has the Unicode `White_Space` property.
pub open spec fn is_white_space(c: char) -> bool {
    c == '\t' || c == '\n' || c == '\u{B}' || c == '\u{C}' || c == '\r' || c == ' '
        || c == '\u{85}' || c == '\u{A0}' || c == '\u{1680}'
        || ('\u{2000}' <= c && c <= '\u{200A}')
        || c == '\u{2028}' || c == '\u{2029}' || c == '\u{202F}' || c == '\u{205F}' || c == '\u{3000}'
}

/// Whether `c` has the Unicode `White_Space` property (`char::is_whitespace`).
pub fn is_whitespace(c: char) -> (b: bool)
    ensures
        b == is_white_space(c),
{
    c == '\t' || c == '\n' || c == '\u{B}' || c == '\u{C}' || c == '\r' || c == ' '
        || c == '\u{85}' || c == '\u{A0}' || c == '\u{1680}'
        || ('\u{2000}' <= c && c <= '\u{200A}')
        || c == '\u{2028}' || c == '\u{2029}' || c == '\u{202F}' || c == '\u{205F}' || c == '\u{3000}'
}

/// The terminal library's name for a key where it is the same on every
/// platform (`None` for the platform-dependent and unnamed keys).
pub open spec fn fixed_key_name(code: KeyCode) -> Option<Seq<char>> {
    match code {
        KeyCode::Left => Some(seq!['L', 'e', 'f', 't']),
        KeyCode::Right => Some(seq!['R', 'i', 'g', 'h', 't']),
        KeyCode::Up => Some(seq!['U', 'p']),
        KeyCode::Down => Some(seq!['D', 'o', 'w', 'n']),
        KeyCode::Home => Some(seq!['H', 'o', 'm', 'e']),
        KeyCode::End => Some(seq!['E', 'n', 'd']),
        KeyCode::PageUp => Some(seq!['P', 'a', 'g', 'e', ' ', 'U', 'p']),
        KeyCode::PageDown => Some(seq!['P', 'a', 'g', 'e', ' ', 'D', 'o', 'w', 'n']),
        KeyCode::Tab => Some(seq!['T', 'a', 'b']),
        KeyCode::BackTab => Some(seq!['B', 'a', 'c', 'k', ' ', 'T', 'a', 'b']),
        KeyCode::Insert => Some(seq!['I', 'n', 's', 'e', 'r', 't']),
        KeyCode::F(n) => Some(seq!['F'] + decimal(n as nat)),
        KeyCode::Char(c) => if c == ' ' { Some(seq!['S', 'p', 'a', 'c', 'e']) } else { Some(seq![c]) },
        KeyCode::Null => Some(seq!['N', 'u', 'l', 'l']),
        KeyCode::Esc => Some(seq!['E', 's', 'c']),
        KeyCode::CapsLock => Some(seq!['C', 'a', 'p', 's', ' ', 'L', 'o', 'c', 'k']),
        KeyCode::ScrollLock => Some(seq!['S', 'c', 'r', 'o', 'l', 'l', ' ', 'L', 'o', 'c', 'k']),
        KeyCode::NumLock => Some(seq!['N', 'u', 'm', ' ', 'L', 'o', 'c', 'k']),
        KeyCode::PrintScreen => Some(seq!['P', 'r', 'i', 'n', 't', ' ', 'S', 'c', 'r', 'e', 'e', 'n']),
        KeyCode::Pause => Some(seq!['P', 'a', 'u', 's', 'e']),
        KeyCode::Menu => Some(seq!['M', 'e', 'n', 'u']),
        KeyCode::KeypadBegin => Some(seq!['B', 'e', 'g', 'i', 'n']),
        _ => None,
    }
}

/// `name` is what the terminal library calls `code` on some platform:
/// Backspace, Delete and Enter are named after the macOS keys there
/// ("Delete", "Fwd Del", "Return") and after the PC keys elsewhere.
pub open spec fn key_name_ok(code: KeyCode, name: Seq<char>) -> bool {
    match code {
        KeyCode::Backspace => name == seq!['B', 'a', 'c', 'k', 's', 'p', 'a', 'c', 'e'] || name == seq!['D', 'e', 'l', 'e', 't', 'e'],
        KeyCode::Delete => name == seq!['D', 'e', 'l'] || name == seq!['F', 'w', 'd', ' ', 'D', 'e', 'l'],
        KeyCode::Enter => name == seq!['E', 'n', 't', 'e', 'r'] || name == seq!['R', 'e', 't', 'u', 'r', 'n'],
        KeyCode::Other => true,
        _ => fixed_key_name(code) == Some(name),
    }
}

/// The terminal library's name for Backspace, Delete or Enter (`Display`
/// for `crossterm::event::KeyCode`), which depends on the platform. Stated:
/// that it is one of the two documented names of the key.
#[verifier::external_body]
fn platform_key_name(code: KeyCode) -> (s: String)
    requires
        code == KeyCode::Backspace || code == KeyCode::Delete || code == KeyCode::Enter,
    ensures
        key_name_ok(code, s@),
{
    match code {
        KeyCode::Backspace => crossterm::event::KeyCode::Backspace,
        KeyCode::Delete => crossterm::event::KeyCode::Delete,
        _ => crossterm::event::KeyCode::Enter,
    }.to_string()
}

/// An owned copy of `t`.
fn lit(t: &str) -> (s: String)
    ensures
        s@ == t@,
{
    t.to_owned()
}

/// The name the terminal library shows for `code`: the platform's name for
/// Backspace, Delete and Enter, the fixed names otherwise.
pub fn key_name(code: KeyCode) -> (s: String)
    requires
        code != KeyCode::Other,
    ensures
        key_name_ok(code, s@),
{
    match code {
        KeyCode::Backspace => platform_key_name(KeyCode::Backspace),
        KeyCode::Delete => platform_key_name(KeyCode::Delete),
        KeyCode::Enter => platform_key_name(KeyCode::Enter),
        KeyCode::Left => { let r = lit("Left"); proof { reveal_strlit("Left"); assert(r@ =~= seq!['L', 'e', 'f', 't']); } r },
        KeyCode::Right => { let r = lit("Right"); proof { reveal_strlit("Right"); assert(r@ =~= seq!['R', 'i', 'g', 'h', 't']); } r },
        KeyCode::Up => { let r = lit("Up"); proof { reveal_strlit("Up"); assert(r@ =~= seq!['U', 'p']); } r },
        KeyCode::Down => { let r = lit("Down"); proof { reveal_strlit("Down"); assert(r@ =~= seq!['D', 'o', 'w', 'n']); } r },
        KeyCode::Home => { let r = lit("Home"); proof { reveal_strlit("Home"); assert(r@ =~= seq!['H', 'o', 'm', 'e']); } r },
        KeyCode::End => { let r = lit("End"); proof { reveal_strlit("End"); assert(r@ =~= seq!['E', 'n', 'd']); } r },
        KeyCode::PageUp => { let r = lit("Page Up"); proof { reveal_strlit("Page Up"); assert(r@ =~= seq!['P', 'a', 'g', 'e', ' ', 'U', 'p']); } r },
        KeyCode::PageDown => { let r = lit("Page Down"); proof { reveal_strlit("Page Down"); assert(r@ =~= seq!['P', 'a', 'g', 'e', ' ', 'D', 'o', 'w', 'n']); } r },
        KeyCode::Tab => { let r = lit("Tab"); proof { reveal_strlit("Tab"); assert(r@ =~= seq!['T', 'a', 'b']); } r },
        KeyCode::BackTab => { let r = lit("Back Tab"); proof { reveal_strlit("Back Tab"); assert(r@ =~= seq!['B', 'a', 'c', 'k', ' ', 'T', 'a', 'b']); } r },
        KeyCode::Insert => { let r = lit("Insert"); proof { reveal_strlit("Insert"); assert(r@ =~= seq!['I', 'n', 's', 'e', 'r', 't']); } r },
        KeyCode::F(n) => {
            let mut s = String::new();
            push_char(&mut s, 'F');
            push_decimal(&mut s, n as u64);
            assert(s@ =~= seq!['F'] + decimal(n as nat));
            s
        },
        KeyCode::Char(c) => {
            if c == ' ' {
                let r = lit("Space");
                proof { reveal_strlit("Space"); assert(r@ =~= seq!['S', 'p', 'a', 'c', 'e']); }
                r
            } else {
                let mut s = String::new();
                push_char(&mut s, c);
                assert(s@ =~= seq![c]);
                s
            }
        },
        KeyCode::Null => { let r = lit("Null"); proof { reveal_strlit("Null"); assert(r@ =~= seq!['N', 'u', 'l', 'l']); } r },
        KeyCode::Esc => { let r = lit("Esc"); proof { reveal_strlit("Esc"); assert(r@ =~= seq!['E', 's', 'c']); } r },
        KeyCode::CapsLock => { let r = lit("Caps Lock"); proof { reveal_strlit("Caps Lock"); assert(r@ =~= seq!['C', 'a', 'p', 's', ' ', 'L', 'o', 'c', 'k']); } r },
        KeyCode::ScrollLock => { let r = lit("Scroll Lock"); proof { reveal_strlit("Scroll Lock"); assert(r@ =~= seq!['S', 'c', 'r', 'o', 'l', 'l', ' ', 'L', 'o', 'c', 'k']); } r },
        KeyCode::NumLock => { let r = lit("Num Lock"); proof { reveal_strlit("Num Lock"); assert(r@ =~= seq!['N', 'u', 'm', ' ', 'L', 'o', 'c', 'k']); } r },
        KeyCode::PrintScreen => { let r = lit("Print Screen"); proof { reveal_strlit("Print Screen"); assert(r@ =~= seq!['P', 'r', 'i', 'n', 't', ' ', 'S', 'c', 'r', 'e', 'e', 'n']); } r },
        KeyCode::Pause => { let r = lit("Pause"); proof { reveal_strlit("Pause"); assert(r@ =~= seq!['P', 'a', 'u', 's', 'e']); } r },
        KeyCode::Menu => { let r = lit("Menu"); proof { reveal_strlit("Menu"); assert(r@ =~= seq!['M', 'e', 'n', 'u']); } r },
        KeyCode::KeypadBegin => { let r = lit("Begin"); proof { reveal_strlit("Begin"); assert(r@ =~= seq!['B', 'e', 'g', 'i', 'n']); } r },
        KeyCode::Other => String::new(),
    }
}

/// `c` with ASCII upper-case letters mapped to lower case.
pub open spec fn ascii_lower_char(c: char) -> char {
    if 'A' <= c && c <= 'Z' { ((c as u32) + 32) as char } else { c }
}

/// `s` with ASCII upper-case letters mapped to lower case.
pub open spec fn ascii_lower(s: Seq<char>) -> Seq<char> {
    Seq::new(s.len(), |i: int| ascii_lower_char(s[i]))
}

/// Lower-cases the ASCII letters of `s`; the names above are ASCII, or a
/// single whitespace character, which has no case.
pub fn lowercase(s: &String) -> (r: String)
    ensures
        r@ == ascii_lower(s@),
{
    let v = chars_of(s.as_str());
    let mut r = String::new();
    let mut i: usize = 0;
    while i < v.len()
        invariant
            i <= v.len(),
            v@ == s@,
            r@ == ascii_lower(v@.take(i as int)),
        decreases v.len() - i,
    {
        let c = v[i];
        let l = if 'A' <= c && c <= 'Z' { ((c as u8) + 32) as char } else { c };
        push_char(&mut r, l);
        assert(ascii_lower(v@.take(i + 1)) =~= ascii_lower(v@.take(i as int)).push(l));
        i = i + 1;
    }
    assert(v@.take(v.len() as int) =~= v@);
    r
}

/// `label` is the help-bar label of `code`: a printable character as itself,
/// any other key as its (platform) name in lower case.
pub open spec fn key_label_ok(code: KeyCode, label: Seq<char>) -> bool {
    match code {
        KeyCode::Char(c) => if !is_white_space(c) {
            label == seq![c]
        } else {
            exists|n: Seq<char>| key_name_ok(code, n) && label == #[trigger] ascii_lower(n)
        },
        _ => exists|n: Seq<char>| key_name_ok(code, n) && label == #[trigger] ascii_lower(n),
    }
}

/// The help-bar label of a key: printable characters as themselves, other
/// keys (Space, Enter, Esc, ...) by their lower-cased names.
pub fn key_label(code: KeyCode) -> (r: String)
    requires
        code != KeyCode::Other,
    ensures
        key_label_ok(code, r@),
{
    if let KeyCode::Char(c) = code {
        if !is_whitespace(c) {
            let mut r = String::new();
            push_char(&mut r, c);
            assert(r@ =~= seq![c]);
            return r;
        }
    }
    let name = key_name(code);
    let r = lowercase(&name);
    assert(key_name_ok(code, name@) && r@ == ascii_lower(name@));
    r
}

/// The label of a forward/backward key pair: `forward/backward`.
pub fn pair_label(forward: KeyCode, backward: KeyCode) -> (r: String)
    requires
        forward != KeyCode::Other,
        backward != KeyCode::Other,
    ensures
        exists|f: Seq<char>, b: Seq<char>| key_label_ok(forward, f) && key_label_ok(backward, b) && r@ == f + seq!['/'] + b,
{
    let f = key_label(forward);
    let b = key_label(backward);
    let mut r = String::new();
    push_str(&mut r, f.as_str());
    push_char(&mut r, '/');
    push_str(&mut r, b.as_str());
    assert(r@ =~= f@ + seq!['/'] + b@);
    r
}

/// What the help bar needs to know of the player.
#[derive(Debug, Clone, PartialEq, Eq)]
pub struct HelpContext {
    /// Playback is running (the play/pause key pauses).
    pub is_playing: bool,
    /// The playback mode has album groups (the group keys apply).
    pub has_group_structure: bool,
    /// The playback mode's name.
    pub playback_mode: String,
    /// The sort order's name.
    pub sort_order: String,
}

/// The key an action's help label names.
pub open spec fn help_key(action: Action) -> KeyCode {
    match action {
        Action::Quit => KeyCode::Char(KEY_QUIT),
        Action::PlayPause => KeyCode::Char(KEY_PLAY_PAUSE),
        Action::Stop => KeyCode::Char(KEY_STOP),
        Action::Next => KeyCode::Char(KEY_NEXT),
        Action::Previous => KeyCode::Char(KEY_PREVIOUS),
        Action::NextGroup => KeyCode::Char(KEY_NEXT_GROUP),
        Action::PreviousGroup => KeyCode::Char(KEY_PREVIOUS_GROUP),
        Action::Search => KeyCode::Char(KEY_SEARCH),
        Action::Lyrics => KeyCode::Char(KEY_LYRICS),
        Action::ToggleSidebar => KeyCode::Char(KEY_TOGGLE_SIDEBAR),
        Action::Logs => KeyCode::Char(KEY_LOGS),
        Action::Queue => KeyCode::Char(KEY_QUEUE),
        Action::VolumeMode => KeyCode::Char(KEY_VOLUME),
        Action::Star => KeyCode::Char(KEY_STAR),
        Action::SeekForward => KeyCode::Char(KEY_SEEK_FWD),
        Action::SeekBackward => KeyCode::Char(KEY_SEEK_BACK),
        Action::GotoPlaying => KeyCode::Char(KEY_GOTO_PLAYING),
        Action::Select => KeyCode::Enter,
        Action::Back => KeyCode::Esc,
        Action::Settings => KeyCode::Char(KEY_SETTINGS),
        Action::MoveLeft => KeyCode::Left,
        Action::MoveRight => KeyCode::Right,
        Action::ResetField => KeyCode::Char('d'),
        Action::ResetSection => KeyCode::Char('D'),
        Action::Char(c) => KeyCode::Char(c),
        Action::DeleteChar => KeyCode::Backspace,
        _ => KeyCode::Null,
    }
}

/// The description the help bar shows for an action, or `None` when the
/// action has no help entry (navigation and the like, and the group keys in
/// a playback mode without groups).
pub open spec fn help_desc(action: Action, ctx: HelpContext) -> Option<Seq<char>> {
    match action {
        Action::Quit => Some("quit"@),
        Action::PlayPause => Some(if ctx.is_playing { "pause"@ } else { "play"@ }),
        Action::Stop => Some("stop"@),
        Action::Next => Some("next"@),
        Action::Previous => Some("prev"@),
        Action::NextGroup => if ctx.has_group_structure { Some("next group"@) } else { None },
        Action::PreviousGroup => if ctx.has_group_structure { Some("prev group"@) } else { None },
        Action::Search => Some("search"@),
        Action::Lyrics => Some("lyrics"@),
        Action::ToggleSidebar => Some("sidebar"@),
        Action::Logs => Some("logs"@),
        Action::Queue => Some("queue"@),
        Action::VolumeMode => Some("vol"@),
        Action::Star => Some("star"@),
        Action::SeekForward => Some("seek+"@),
        Action::SeekBackward => Some("seek-"@),
        Action::GotoPlaying => Some("goto"@),
        Action::Select => Some("play"@),
        Action::GotoSelected => Some("goto"@),
        Action::Back => Some("close"@),
        Action::CyclePlaybackMode(Direction::Forward) => Some("mode ("@ + ctx.playback_mode@ + ")"@),
        Action::ToggleSortOrder(Direction::Forward) => Some("sort ("@ + ctx.sort_order@ + ")"@),
        Action::Settings => Some("settings"@),
        Action::MoveLeft => Some("left"@),
        Action::MoveRight => Some("right"@),
        Action::ResetField => Some("reset field"@),
        Action::ResetSection => Some("reset section"@),
        Action::Char(c) => Some(seq![c]),
        Action::DeleteChar => Some("delete"@),
        _ => None,
    }
}

/// `label` is the key label the help bar shows for `action`.
pub open spec fn help_key_ok(action: Action, label: Seq<char>) -> bool {
    match action {
        Action::CyclePlaybackMode(_) => label == seq!['m', '/', 'M'],
        Action::ToggleSortOrder(_) => label == seq!['o', '/', 'O'],
        Action::GotoSelected => label == "shift+enter"@,
        _ => key_label_ok(help_key(action), label),
    }
}

/// `d + middle + e` as one string.
fn surround(d: &str, middle: &String, e: &str) -> (r: String)
    ensures
        r@ == d@ + middle@ + e@,
{
    let mut r = String::new();
    push_str(&mut r, d);
    push_str(&mut r, middle.as_str());
    push_str(&mut r, e);
    assert(r@ =~= d@ + middle@ + e@);
    r
}

/// `l` is the help label of `action`: absent exactly when the action has no
/// description, else its key label and its description.
pub open spec fn help_label_ok(action: Action, ctx: HelpContext, l: Option<(String, String)>) -> bool {
    &&& (l is None <==> help_desc(action, ctx) is None)
    &&& (l matches Some((k, d)) ==> d@ == help_desc(action, ctx)->0 && help_key_ok(action, k@))
}

impl Action {
    /// Label shown in the help bar: the key and a description. Returns `None`
    /// for actions that shouldn't appear (navigation, text input, etc.).
    pub fn help_label(&self, ctx: &HelpContext) -> (r: Option<(String, String)>)
        ensures
            r is None <==> help_desc(*self, *ctx) is None,
            r matches Some((k, d)) ==> d@ == help_desc(*self, *ctx)->0 && help_key_ok(*self, k@),
            help_label_ok(*self, *ctx, r),
    {
        let desc: String = match *self {
            Action::Quit => lit("quit"),
            Action::PlayPause => if ctx.is_playing { lit("pause") } else { lit("play") },
            Action::Stop => lit("stop"),
            Action::Next => lit("next"),
            Action::Previous => lit("prev"),
            Action::NextGroup => if ctx.has_group_structure { lit("next group") } else { return None },
            Action::PreviousGroup => if ctx.has_group_structure { lit("prev group") } else { return None },
            Action::Search => lit("search"),
            Action::Lyrics => lit("lyrics"),
            Action::ToggleSidebar => lit("sidebar"),
            Action::Logs => lit("logs"),
            Action::Queue => lit("queue"),
            Action::VolumeMode => lit("vol"),
            Action::Star => lit("star"),
            Action::SeekForward => lit("seek+"),
            Action::SeekBackward => lit("seek-"),
            Action::GotoPlaying => lit("goto"),
            Action::Select => lit("play"),
            Action::GotoSelected => lit("goto"),
            Action::Back => lit("close"),
            Action::CyclePlaybackMode(Direction::Forward) => surround("mode (", &ctx.playback_mode, ")"),
            Action::ToggleSortOrder(Direction::Forward) => surround("sort (", &ctx.sort_order, ")"),
            Action::Settings => lit("settings"),
            Action::MoveLeft => lit("left"),
            Action::MoveRight => lit("right"),
            Action::ResetField => lit("reset field"),
            Action::ResetSection => lit("reset section"),
            Action::Char(c) => {
                let mut d = String::new();
                push_char(&mut d, c);
                assert(d@ =~= seq![c]);
                d
            },
            Action::DeleteChar => lit("delete"),
            _ => return None,
        };
        let key: String = match *self {
            Action::CyclePlaybackMode(_) => {
                let k = lit("m/M");
                proof { reveal_strlit("m/M"); assert(k@ =~= seq!['m', '/', 'M']); }
                k
            },
            Action::ToggleSortOrder(_) => {
                let k = lit("o/O");
                proof { reveal_strlit("o/O"); assert(k@ =~= seq!['o', '/', 'O']); }
                k
            },
            Action::GotoSelected => lit("shift+enter"),
            Action::Quit => key_label(KeyCode::Char(KEY_QUIT)),
            Action::PlayPause => key_label(KeyCode::Char(KEY_PLAY_PAUSE)),
            Action::Stop => key_label(KeyCode::Char(KEY_STOP)),
            Action::Next => key_label(KeyCode::Char(KEY_NEXT)),
            Action::Previous => key_label(KeyCode::Char(KEY_PREVIOUS)),
            Action::NextGroup => key_label(KeyCode::Char(KEY_NEXT_GROUP)),
            Action::PreviousGroup => key_label(KeyCode::Char(KEY_PREVIOUS_GROUP)),
            Action::Search => key_label(KeyCode::Char(KEY_SEARCH)),
            Action::Lyrics => key_label(KeyCode::Char(KEY_LYRICS)),
            Action::ToggleSidebar => key_label(KeyCode::Char(KEY_TOGGLE_SIDEBAR)),
            Action::Logs => key_label(KeyCode::Char(KEY_LOGS)),
            Action::Queue => key_label(KeyCode::Char(KEY_QUEUE)),
            Action::VolumeMode => key_label(KeyCode::Char(KEY_VOLUME)),
            Action::Star => key_label(KeyCode::Char(KEY_STAR)),
            Action::SeekForward => key_label(KeyCode::Char(KEY_SEEK_FWD)),
            Action::SeekBackward => key_label(KeyCode::Char(KEY_SEEK_BACK)),
            Action::GotoPlaying => key_label(KeyCode::Char(KEY_GOTO_PLAYING)),
            Action::Select => key_label(KeyCode::Enter),
            Action::Back => key_label(KeyCode::Esc),
            Action::Settings => key_label(KeyCode::Char(KEY_SETTINGS)),
            Action::MoveLeft => key_label(KeyCode::Left),
            Action::MoveRight => key_label(KeyCode::Right),
            Action::ResetField => key_label(KeyCode::Char('d')),
            Action::ResetSection => key_label(KeyCode::Char('D')),
            Action::Char(c) => key_label(KeyCode::Char(c)),
            _ => key_label(KeyCode::Backspace),
        };
        Some((key, desc))
    }
}

// ── Help bar entry lists ─────────────────────────────────────────

/// The entries of the library help bar, in order.
pub open spec fn library_help_entries() -> Seq<HelpEntry> {
    seq![
        HelpEntry::Single(Action::Quit),
        HelpEntry::Single(Action::PlayPause),
        HelpEntry::Pair(Action::Next, Action::Previous, "next/prev"),
        HelpEntry::Pair(Action::NextGroup, Action::PreviousGroup, "next/prev group"),
        HelpEntry::Single(Action::Stop),
        HelpEntry::Pair(Action::SeekBackward, Action::SeekForward, "seek-/+"),
        HelpEntry::Single(Action::Star),
        HelpEntry::Single(Action::GotoPlaying),
        HelpEntry::Single(Action::Search),
        HelpEntry::Single(Action::Lyrics),
        HelpEntry::Single(Action::ToggleSidebar),
        HelpEntry::Single(Action::Queue),
        HelpEntry::Single(Action::VolumeMode),
        HelpEntry::Single(Action::Select),
        HelpEntry::Single(Action::CyclePlaybackMode(Direction::Forward)),
        HelpEntry::Single(Action::ToggleSortOrder(Direction::Forward)),
        HelpEntry::Single(Action::Settings),
    ]
}

/// Ordered list of entries to show in the library help bar.
pub fn library_help() -> (v: Vec<HelpEntry>)
    ensures
        v@ == library_help_entries(),
{
    vec![
        HelpEntry::Single(Action::Quit),
        HelpEntry::Single(Action::PlayPause),
        HelpEntry::Pair(Action::Next, Action::Previous, "next/prev"),
        HelpEntry::Pair(Action::NextGroup, Action::PreviousGroup, "next/prev group"),
        HelpEntry::Single(Action::Stop),
        HelpEntry::Pair(Action::SeekBackward, Action::SeekForward, "seek-/+"),
        HelpEntry::Single(Action::Star),
        HelpEntry::Single(Action::GotoPlaying),
        HelpEntry::Single(Action::Search),
        HelpEntry::Single(Action::Lyrics),
        HelpEntry::Single(Action::ToggleSidebar),
        HelpEntry::Single(Action::Queue),
        HelpEntry::Single(Action::VolumeMode),
        HelpEntry::Single(Action::Select),
        HelpEntry::Single(Action::CyclePlaybackMode(Direction::Forward)),
        HelpEntry::Single(Action::ToggleSortOrder(Direction::Forward)),
        HelpEntry::Single(Action::Settings),
    ]
}

/// The actions of the settings help bar while navigating (no row edited).
pub open spec fn settings_help_actions(mode: SettingsEditMode) -> Seq<Action> {
    match mode {
        SettingsEditMode::Navigating => seq![Action::Back, Action::MoveUp, Action::MoveLeft, Action::Select, Action::ResetField, Action::ResetSection],
        SettingsEditMode::TextEdit => seq![Action::Back, Action::Select, Action::DeleteChar],
        SettingsEditMode::HsvEdit => seq![Action::Back, Action::Select, Action::MoveUp, Action::MoveLeft, Action::PageUp],
        SettingsEditMode::ComponentList { armed } => if armed {
            seq![Action::Back, Action::Select, Action::MoveUp, Action::DeleteChar]
        } else {
            seq![Action::Back, Action::Select, Action::MoveUp, Action::Char('a')]
        },
    }
}

/// The first action of a help entry.
pub open spec fn entry_action(e: HelpEntry) -> Action {
    match e {
        HelpEntry::Single(a) => a,
        HelpEntry::Pair(a, _, _) => a,
        HelpEntry::Custom(a, _) => a,
    }
}

/// The entries of the settings help bar for each editing substate.
pub open spec fn settings_help_entries(mode: SettingsEditMode) -> Seq<HelpEntry> {
    match mode {
        SettingsEditMode::Navigating => seq![
            HelpEntry::Custom(Action::Back, "close"),
            HelpEntry::Pair(Action::MoveUp, Action::MoveDown, "nav/adjust"),
            HelpEntry::Pair(Action::MoveLeft, Action::MoveRight, "hsv comp"),
            HelpEntry::Custom(Action::Select, "select"),
            HelpEntry::Single(Action::ResetField),
            HelpEntry::Single(Action::ResetSection)
        ],
        SettingsEditMode::TextEdit => seq![
            HelpEntry::Custom(Action::Back, "cancel"),
            HelpEntry::Single(Action::Select),
            HelpEntry::Single(Action::DeleteChar)
        ],
        SettingsEditMode::HsvEdit => seq![
            HelpEntry::Custom(Action::Back, "cancel"),
            HelpEntry::Custom(Action::Select, "done"),
            HelpEntry::Pair(Action::MoveUp, Action::MoveDown, "value"),
            HelpEntry::Pair(Action::MoveLeft, Action::MoveRight, "hsv comp"),
            HelpEntry::Pair(Action::PageUp, Action::PageDown, "jump")
        ],
        SettingsEditMode::ComponentList { armed } => if armed {
            seq![
                HelpEntry::Custom(Action::Back, "deselect"),
                HelpEntry::Custom(Action::Select, "done"),
                HelpEntry::Pair(Action::MoveUp, Action::MoveDown, "move"),
                HelpEntry::Custom(Action::DeleteChar, "remove")
            ]
        } else {
            seq![
                HelpEntry::Custom(Action::Back, "cancel"),
                HelpEntry::Custom(Action::Select, "select"),
                HelpEntry::Pair(Action::MoveUp, Action::MoveDown, "nav"),
                HelpEntry::Custom(Action::Char('a'), "add")
            ]
        },
    }
}

/// Returns the help entries for the settings panel given its editing
/// substate: the panel bindings while navigating, the text-edit keys, the
/// HSV keys, or the component-list keys (armed or not).
pub fn settings_help(mode: SettingsEditMode) -> (v: Vec<HelpEntry>)
    ensures
        v@ == settings_help_entries(mode),
        v@.len() == settings_help_actions(mode).len(),
        forall|i: int| 0 <= i < v@.len() ==> entry_action(#[trigger] v@[i]) == settings_help_actions(mode)[i],
{
    let v = match mode {
        SettingsEditMode::Navigating => vec![
            HelpEntry::Custom(Action::Back, "close"),
            HelpEntry::Pair(Action::MoveUp, Action::MoveDown, "nav/adjust"),
            HelpEntry::Pair(Action::MoveLeft, Action::MoveRight, "hsv comp"),
            HelpEntry::Custom(Action::Select, "select"),
            HelpEntry::Single(Action::ResetField),
            HelpEntry::Single(Action::ResetSection),
        ],
        SettingsEditMode::TextEdit => vec![
            HelpEntry::Custom(Action::Back, "cancel"),
            HelpEntry::Single(Action::Select),
            HelpEntry::Single(Action::DeleteChar),
        ],
        SettingsEditMode::HsvEdit => vec![
            HelpEntry::Custom(Action::Back, "cancel"),
            HelpEntry::Custom(Action::Select, "done"),
            HelpEntry::Pair(Action::MoveUp, Action::MoveDown, "value"),
            HelpEntry::Pair(Action::MoveLeft, Action::MoveRight, "hsv comp"),
            HelpEntry::Pair(Action::PageUp, Action::PageDown, "jump"),
        ],
        SettingsEditMode::ComponentList { armed } => if armed {
            vec![
                HelpEntry::Custom(Action::Back, "deselect"),
                HelpEntry::Custom(Action::Select, "done"),
                HelpEntry::Pair(Action::MoveUp, Action::MoveDown, "move"),
                HelpEntry::Custom(Action::DeleteChar, "remove"),
            ]
        } else {
            vec![
                HelpEntry::Custom(Action::Back, "cancel"),
                HelpEntry::Custom(Action::Select, "select"),
                HelpEntry::Pair(Action::MoveUp, Action::MoveDown, "nav"),
                HelpEntry::Custom(Action::Char('a'), "add"),
            ]
        },
    };
    v
}

/// Ordered list of entries to show in the search help bar.
pub fn search_help() -> (v: Vec<HelpEntry>)
    ensures
        v@ == seq![
            HelpEntry::Single(Action::Back),
            HelpEntry::Single(Action::Select),
            HelpEntry::Single(Action::GotoSelected),
            HelpEntry::Pair(Action::MoveUp, Action::MoveDown, "up/down")
        ],
{
    vec![
        HelpEntry::Single(Action::Back),
        HelpEntry::Single(Action::Select),
        HelpEntry::Single(Action::GotoSelected),
        HelpEntry::Pair(Action::MoveUp, Action::MoveDown, "up/down"),
    ]
}

/// Ordered list of entries to show in the lyrics/sidebar help bar.
pub fn lyrics_help() -> (v: Vec<HelpEntry>)
    ensures
        v@ == seq![
            HelpEntry::Single(Action::Back),
            HelpEntry::Single(Action::ToggleSidebar),
            HelpEntry::Pair(Action::MoveUp, Action::MoveDown, "up/down"),
            HelpEntry::Single(Action::Select),
            HelpEntry::Pair(Action::SeekBackward, Action::SeekForward, "seek-/+"),
            HelpEntry::Single(Action::PlayPause),
            HelpEntry::Pair(Action::Next, Action::Previous, "next/prev"),
            HelpEntry::Pair(Action::NextGroup, Action::PreviousGroup, "next/prev group")
        ],
{
    vec![
        HelpEntry::Single(Action::Back),
        HelpEntry::Single(Action::ToggleSidebar),
        HelpEntry::Pair(Action::MoveUp, Action::MoveDown, "up/down"),
        HelpEntry::Single(Action::Select),
        HelpEntry::Pair(Action::SeekBackward, Action::SeekForward, "seek-/+"),
        HelpEntry::Single(Action::PlayPause),
        HelpEntry::Pair(Action::Next, Action::Previous, "next/prev"),
        HelpEntry::Pair(Action::NextGroup, Action::PreviousGroup, "next/prev group"),
    ]
}

/// Ordered list of entries to show in the queue help bar.
pub fn queue_help() -> (v: Vec<HelpEntry>)
    ensures
        v@ == seq![
            HelpEntry::Single(Action::Back),
            HelpEntry::Pair(Action::MoveUp, Action::MoveDown, "up/down"),
            HelpEntry::Single(Action::Select),
            HelpEntry::Single(Action::PlayPause),
            HelpEntry::Pair(Action::Next, Action::Previous, "next/prev"),
            HelpEntry::Pair(Action::NextGroup, Action::PreviousGroup, "next/prev group"),
            HelpEntry::Single(Action::CyclePlaybackMode(Direction::Forward))
        ],
{
    vec![
        HelpEntry::Single(Action::Back),
        HelpEntry::Pair(Action::MoveUp, Action::MoveDown, "up/down"),
        HelpEntry::Single(Action::Select),
        HelpEntry::Single(Action::PlayPause),
        HelpEntry::Pair(Action::Next, Action::Previous, "next/prev"),
        HelpEntry::Pair(Action::NextGroup, Action::PreviousGroup, "next/prev group"),
        HelpEntry::Single(Action::CyclePlaybackMode(Direction::Forward)),
    ]
}

/// Ordered list of entries to show in the logs help bar.
pub fn logs_help() -> (v: Vec<HelpEntry>)
    ensures
        v@ == seq![
            HelpEntry::Single(Action::Back),
            HelpEntry::Pair(Action::MoveUp, Action::MoveDown, "up/down")
        ],
{
    vec![
        HelpEntry::Single(Action::Back),
        HelpEntry::Pair(Action::MoveUp, Action::MoveDown, "up/down"),
    ]
}

/// Closing keys close every overlay panel: Esc means `Back` in the lyrics,
/// queue, logs, volume, overlay and dropdown contexts, and in settings; and
/// the quit key closes the lyrics, queue, logs, overlay and dropdown panels.
pub proof fn lemma_escape_backs_out()
    ensures
        lyrics_action_spec(KeyCode::Esc) == Some(Action::Back),
        queue_action_spec(KeyCode::Esc) == Some(Action::Back),
        logs_action_spec(KeyCode::Esc) == Some(Action::Back),
        volume_action_spec(KeyCode::Esc) == Some(Action::Back),
        album_art_overlay_action_spec(KeyCode::Esc) == Some(Action::Back),
        playback_mode_dropdown_action_spec(KeyCode::Esc) == Some(Action::Back),
        forall|e: bool| settings_action_spec(KeyCode::Esc, e) == Some(Action::Back),
        lyrics_action_spec(KeyCode::Char(KEY_QUIT)) == Some(Action::Back),
        queue_action_spec(KeyCode::Char(KEY_QUIT)) == Some(Action::Back),
        logs_action_spec(KeyCode::Char(KEY_QUIT)) == Some(Action::Back),
        album_art_overlay_action_spec(KeyCode::Char(KEY_QUIT)) == Some(Action::Back),
        playback_mode_dropdown_action_spec(KeyCode::Char(KEY_QUIT)) == Some(Action::Back),
{
}

/// While a settings field is being edited, every printable key other than the
/// reset keys is text input, the quit key included.
pub proof fn lemma_settings_editing_types_chars(c: char)
    requires
        c != 'd' && c != 'D',
    ensures
        settings_action_spec(KeyCode::Char(c), true) == Some(Action::Char(c)),
{
}

/// The actions a help entry shows.
pub open spec fn entry_actions(e: HelpEntry) -> Seq<Action> {
    match e {
        HelpEntry::Single(a) => seq![a],
        HelpEntry::Pair(a, b, _) => seq![a, b],
        HelpEntry::Custom(a, _) => seq![a],
    }
}

/// In the library, a character key does what its help label says: every
/// action the library resolves from a character is the action whose help
/// key is that character, but for the second seek keys (`,` and `.`) and the
/// two cycling pairs (shown as `m/M` and `o/O`).
pub proof fn lemma_library_keys_are_help_keys(c: char)
    ensures
        library_action_spec(KeyCode::Char(c)) matches Some(a) ==> {
            ||| help_key(a) == KeyCode::Char(c)
            ||| (c == KEY_SEEK_BACK_ALT && a == Action::SeekBackward)
            ||| (c == KEY_SEEK_FWD_ALT && a == Action::SeekForward)
            ||| a is CyclePlaybackMode
            ||| a is ToggleSortOrder
        },
{
}

/// Every key the library help bar names does what the bar says: pressing
/// the help key of any action the bar shows resolves to that action.
pub proof fn lemma_library_help_keys_work(i: int, j: int)
    requires
        0 <= i < library_help_entries().len(),
        0 <= j < entry_actions(library_help_entries()[i]).len(),
        help_key(entry_actions(library_help_entries()[i])[j]) != KeyCode::Null,
    ensures
        library_action_spec(help_key(entry_actions(library_help_entries()[i])[j]))
            == Some(entry_actions(library_help_entries()[i])[j]),
{
}

/// The queue panel keeps the library's meaning of every key it shares with
/// it: any key the queue resolves to something other than closing it
/// (playback, skipping, moving, playing the selection) does the same in the
/// library.
pub proof fn lemma_queue_keys_agree_with_library(k: KeyCode)
    ensures
        queue_action_spec(k) is Some && queue_action_spec(k) != Some(Action::Back) ==> library_action_spec(k) == queue_action_spec(k),
{
}

} // verus!

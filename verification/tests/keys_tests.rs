use blackbird::keys::{
    char_key_bindings, key_label, library_action, lyrics_action, pair_label, quit_confirm_action, search_action,
    settings_action, Action, Direction, KeyCode, KeyEvent, KeyModifiers,
};

fn press(code: KeyCode) -> KeyEvent {
    KeyEvent { code, modifiers: KeyModifiers { shift: false, control: false, alt: false } }
}

#[test]
fn no_distinct_char_actions_share_a_key() {
    let char_keys = char_key_bindings();
    let intentional = [('n', "Next/ConfirmNo"), ('q', "Quit/Back-in-editing")];
    let mut seen: Vec<(char, &str)> = Vec::new();
    for c in char_keys {
        let action_label = match c {
            'l' => "Lyrics",
            't' => "ToggleSidebar",
            'L' => "Logs",
            'u' => "Queue",
            'v' => "VolumeMode",
            'g' => "GotoPlaying",
            '*' => "Star",
            'i' => "Settings",
            'y' => "ConfirmYes",
            _ => "other",
        };
        if let Some((_, prev)) = seen.iter().find(|(k, _)| *k == c) {
            let allowed = intentional.iter().any(|(k, _)| *k == c);
            assert!(allowed, "key {c:?} is bound to both {prev} and {action_label}");
        }
        seen.push((c, action_label));
    }
}

#[test]
fn library_keys() {
    assert_eq!(library_action(&press(KeyCode::Char('q'))), Some(Action::Quit));
    assert_eq!(library_action(&press(KeyCode::Char('M'))), Some(Action::CyclePlaybackMode(Direction::Backward)));
    assert_eq!(library_action(&press(KeyCode::Char(','))), Some(Action::SeekBackward));
    assert_eq!(library_action(&press(KeyCode::Enter)), Some(Action::Select));
    assert_eq!(library_action(&press(KeyCode::Char('z'))), None);
}

#[test]
fn typing_keys_become_characters_in_search() {
    assert_eq!(search_action(&press(KeyCode::Char('q'))), Some(Action::Char('q')));
    assert_eq!(search_action(&press(KeyCode::Esc)), Some(Action::Back));
    assert_eq!(search_action(&press(KeyCode::Backspace)), Some(Action::DeleteChar));
}

#[test]
fn editing_settings_types_characters() {
    assert_eq!(settings_action(&press(KeyCode::Char('q')), true), Some(Action::Char('q')));
    assert_eq!(settings_action(&press(KeyCode::Char('q')), false), Some(Action::Back));
}

#[test]
fn quit_confirmation_defaults_to_no() {
    assert_eq!(quit_confirm_action(&press(KeyCode::Char('y'))), Action::Select);
    assert_eq!(quit_confirm_action(&press(KeyCode::Enter)), Action::Select);
    assert_eq!(quit_confirm_action(&press(KeyCode::Char('x'))), Action::Back);
}

#[test]
fn lyrics_keys() {
    assert_eq!(lyrics_action(&press(KeyCode::Char('t'))), Some(Action::ToggleSidebar));
    assert_eq!(lyrics_action(&press(KeyCode::Up)), Some(Action::MoveUp));
}

#[test]
fn labels_of_keys() {
    assert_eq!(key_label(KeyCode::Char('q')), "q");
    assert_eq!(key_label(KeyCode::Char(' ')), "space");
    assert_eq!(key_label(KeyCode::PageUp), "page up");
    assert_eq!(key_label(KeyCode::F(5)), "f5");
    assert_eq!(key_label(KeyCode::Esc), "esc");
    assert_eq!(pair_label(KeyCode::Char('n'), KeyCode::Char('p')), "n/p");
}

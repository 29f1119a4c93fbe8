use blackbird::app_state::FocusedPanel;
use blackbird::chrome::{quit_popup_rect, scrub_cells, scrub_volume_hit, volume_bar, ScrubHit, ScrubTone};
use blackbird::geometry::Rect;
use blackbird::help_bar::{entry_labels, help_bar, help_entries};
use blackbird::keys::{Action, HelpContext, HelpEntry, SettingsEditMode};
use blackbird::layout::split_scrub_volume;
use blackbird::routing::help_bar_action;

fn ctx() -> HelpContext {
    HelpContext {
        is_playing: true,
        has_group_structure: false,
        playback_mode: "shuffle".to_string(),
        sort_order: "artist".to_string(),
    }
}

#[test]
fn help_bar_lays_out_keys_and_targets() {
    let entries = vec![
        HelpEntry::Single(Action::Quit),
        HelpEntry::Pair(Action::Next, Action::Previous, "next/prev"),
        HelpEntry::Pair(Action::NextGroup, Action::PreviousGroup, "next/prev group"),
        HelpEntry::Custom(Action::Back, "close"),
    ];
    let labels = entry_labels(&entries, &ctx());
    let (spans, items) = help_bar(&entries, &labels, 0).expect("fits");
    let text: String = spans.iter().map(|s| s.text.as_str()).collect();
    assert_eq!(text, " q:quit n/p:next/prev esc:close ");
    assert_eq!(items, vec![(1, 8, Action::Quit), (8, 9, Action::Next), (10, 11, Action::Previous), (22, 32, Action::Back)]);
    assert!(spans[1].highlighted && !spans[2].highlighted);
    assert_eq!(help_bar_action(&items, 9), None);
    assert_eq!(help_bar_action(&items, 10), Some(Action::Previous));
}

#[test]
fn a_help_bar_past_the_screen_is_refused() {
    let entries = vec![HelpEntry::Single(Action::Quit)];
    let labels = entry_labels(&entries, &ctx());
    assert!(help_bar(&entries, &labels, 65530).is_none());
}

#[test]
fn each_panel_has_its_help_entries() {
    assert_eq!(help_entries(FocusedPanel::Logs, SettingsEditMode::Navigating).len(), 2);
    assert_eq!(help_entries(FocusedPanel::Library, SettingsEditMode::Navigating).len(), 17);
    assert_eq!(help_entries(FocusedPanel::Settings, SettingsEditMode::TextEdit)[0], HelpEntry::Custom(Action::Back, "cancel"));
}

#[test]
fn scrub_row_clicks() {
    let sv = split_scrub_volume(Rect::new(0, 2, 80, 1));
    assert_eq!(sv.volume, Rect::new(64, 2, 16, 1));
    assert_eq!(scrub_volume_hit(&sv, 10), ScrubHit::Scrub { offset: 10, width: 64 });
    assert_eq!(scrub_volume_hit(&sv, 66), ScrubHit::Volume { offset: 0, span: 8 });
    assert_eq!(scrub_volume_hit(&sv, 64), ScrubHit::Nothing);
}

#[test]
fn scrub_cells_fill_by_half_blocks() {
    let cells = scrub_cells(10, 5, "ab");
    assert_eq!(cells.len(), 10);
    assert_eq!(cells[0], ('\u{2588}', ScrubTone::Filled));
    assert_eq!(cells[2], ('\u{258C}', ScrubTone::Half));
    assert_eq!(cells[3], (' ', ScrubTone::Empty));
    assert_eq!(cells[4], ('a', ScrubTone::LabelOnEmpty));
    assert_eq!(cells[5], ('b', ScrubTone::LabelOnEmpty));
    let cells = scrub_cells(10, 20, "ab");
    assert_eq!(cells[4], ('a', ScrubTone::LabelOnFilled));
}

#[test]
fn volume_bar_and_quit_popup() {
    assert_eq!(volume_bar(16, 5), (9, 5, 4));
    assert_eq!(volume_bar(16, 50), (9, 9, 0));
    assert_eq!(volume_bar(3, 1), (0, 0, 0));
    assert_eq!(quit_popup_rect(Rect::new(0, 0, 80, 24)), Rect::new(33, 10, 13, 3));
}

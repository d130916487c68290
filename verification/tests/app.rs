use spotify_tui::action::Action;
use spotify_tui::app::{event_to_action, is_quit, poll_timeout_ns, update_due, InputEvent, KeyCode};

fn key(code: KeyCode) -> InputEvent {
    InputEvent::Key(code)
}

#[test]
fn keys_map_to_actions() {
    assert!(matches!(event_to_action(key(KeyCode::Up)), Some(Action::VolumeUp(2))));
    assert!(matches!(event_to_action(key(KeyCode::Down)), Some(Action::VolumeDown(2))));
    assert!(matches!(event_to_action(key(KeyCode::Left)), Some(Action::Previous)));
    assert!(matches!(event_to_action(key(KeyCode::Right)), Some(Action::Next)));
    assert!(matches!(event_to_action(key(KeyCode::Char(' '))), Some(Action::PlayOrResume)));
    assert!(matches!(event_to_action(key(KeyCode::Char('s'))), Some(Action::ToggleShuffle)));
    assert!(matches!(event_to_action(key(KeyCode::Char('r'))), Some(Action::ToggleRepeat)));
    assert!(event_to_action(key(KeyCode::Char('x'))).is_none());
    assert!(event_to_action(key(KeyCode::Char('q'))).is_none());
    assert!(event_to_action(key(KeyCode::Other)).is_none());
    assert!(event_to_action(InputEvent::Other).is_none());
}

#[test]
fn q_quits() {
    assert!(is_quit(key(KeyCode::Char('q'))));
    assert!(!is_quit(key(KeyCode::Char('Q'))));
    assert!(!is_quit(InputEvent::Other));
}

#[test]
fn timing() {
    assert!(!update_due(499));
    assert!(update_due(500));
    assert_eq!(poll_timeout_ns(0), 16_000_000);
    assert_eq!(poll_timeout_ns(6_000_000), 10_000_000);
    assert_eq!(poll_timeout_ns(16_000_000), 0);
    assert_eq!(poll_timeout_ns(50_000_000), 0);
}

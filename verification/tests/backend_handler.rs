use spotify_tui::action::Action;
use spotify_tui::backend_handler::{BackendHandler, Command, Reaction};
use spotify_tui::data::{Data, PlayableItem, PlaybackContext};
use spotify_tui::player_info::RepeatState;

fn report(volume: u32, shuffle: bool, repeat: RepeatState, playing: bool) -> PlaybackContext {
    PlaybackContext {
        device_name: String::from("Desk"),
        volume_percent: Some(volume),
        repeat_state: repeat,
        shuffle_state: shuffle,
        progress_ms: Some(42_000),
        is_playing: playing,
        item: Some(PlayableItem::Track {
            name: String::from("Tune"),
            artists: vec![String::from("Band"), String::from("Guest")],
            duration_ms: 200_000,
        }),
    }
}

fn handler_at(volume: u32) -> BackendHandler {
    let mut h = BackendHandler::new();
    h.apply_playback(Some(report(volume, false, RepeatState::Off, false)));
    h
}

/// Handles an action and records its request as done, as the backend does.
fn act(h: &mut BackendHandler, action: Action) -> Reaction {
    let r = h.handle_action(action);
    h.request_done(r.command);
    r
}

fn volume_after(start: u32, action: Action) -> u8 {
    let mut h = handler_at(start);
    let r = act(&mut h, action);
    match r.command {
        Command::SetVolume(v) => {
            assert!(r.sync);
            assert_eq!(h.sync_data().player.volume, v);
            v
        },
        _ => panic!("expected a volume request"),
    }
}

#[test]
fn fresh_handler_publishes_defaults() {
    let h = BackendHandler::new();
    assert_eq!(h.sync_data(), Data::default());
}

#[test]
fn report_is_published_as_is() {
    let mut h = BackendHandler::new();
    let r = act(&mut h, Action::Update);
    assert_eq!(r, Reaction { command: Command::FetchPlayback, sync: true });
    h.apply_playback(Some(report(55, true, RepeatState::Track, true)));
    let expected = Data::from_context(report(55, true, RepeatState::Track, true));
    assert_eq!(h.sync_data(), expected);
    assert_eq!(h.sync_data().track.authors, "Band, Guest");
}

#[test]
fn missing_report_publishes_defaults() {
    let mut h = handler_at(30);
    h.apply_playback(None);
    assert_eq!(h.sync_data(), Data::default());
}

#[test]
fn volume_up_goes_to_next_multiple() {
    assert_eq!(volume_after(0, Action::VolumeUp(2)), 2);
    assert_eq!(volume_after(3, Action::VolumeUp(2)), 4);
    assert_eq!(volume_after(4, Action::VolumeUp(2)), 6);
    assert_eq!(volume_after(99, Action::VolumeUp(2)), 100);
    assert_eq!(volume_after(100, Action::VolumeUp(2)), 100);
    assert_eq!(volume_after(250, Action::VolumeUp(2)), 100);
    assert_eq!(volume_after(7, Action::VolumeUp(5)), 10);
    assert_eq!(volume_after(60, Action::VolumeUp(200)), 100);
    assert_eq!(volume_after(0, Action::VolumeUp(255)), 100);
}

#[test]
fn volume_down_goes_to_previous_multiple() {
    assert_eq!(volume_after(0, Action::VolumeDown(2)), 0);
    assert_eq!(volume_after(3, Action::VolumeDown(2)), 2);
    assert_eq!(volume_after(4, Action::VolumeDown(2)), 2);
    assert_eq!(volume_after(1, Action::VolumeDown(2)), 0);
    assert_eq!(volume_after(200, Action::VolumeDown(2)), 98);
    assert_eq!(volume_after(7, Action::VolumeDown(5)), 5);
    assert_eq!(volume_after(10, Action::VolumeDown(5)), 5);
}

#[test]
fn volume_steps_come_back() {
    let mut h = handler_at(40);
    act(&mut h, Action::VolumeUp(2));
    act(&mut h, Action::VolumeDown(2));
    assert_eq!(h.sync_data().player.volume, 40);
}

#[test]
fn zero_steps_are_refused() {
    assert!(!BackendHandler::can_handle(&Action::VolumeUp(0)));
    assert!(!BackendHandler::can_handle(&Action::VolumeDown(0)));
    assert!(BackendHandler::can_handle(&Action::VolumeUp(255)));
    assert!(BackendHandler::can_handle(&Action::Next));
}

#[test]
fn play_or_resume_flips_playing() {
    let mut h = handler_at(10);
    let r = act(&mut h, Action::PlayOrResume);
    assert_eq!(r, Reaction { command: Command::Resume, sync: true });
    assert!(h.sync_data().player.is_playing);
    let r = act(&mut h, Action::PlayOrResume);
    assert_eq!(r, Reaction { command: Command::Pause, sync: true });
    assert!(!h.sync_data().player.is_playing);
}

#[test]
fn repeat_cycles() {
    let mut h = handler_at(10);
    let modes: Vec<RepeatState> = (0..4)
        .map(|_| match act(&mut h, Action::ToggleRepeat).command {
            Command::SetRepeat(s) => s,
            _ => panic!("expected a repeat request"),
        })
        .collect();
    assert_eq!(modes, vec![RepeatState::Track, RepeatState::Context, RepeatState::Off, RepeatState::Track]);
    assert_eq!(h.sync_data().player.repeat_state, RepeatState::Track);
}

#[test]
fn toggle_choice_waits_for_the_request() {
    let mut h = handler_at(10);
    let r = h.handle_action(Action::ToggleShuffle);
    assert_eq!(r.command, Command::SetShuffle(true));
    assert!(!h.sync_data().player.shuffle_state);
    h.request_done(r.command);
    assert!(h.sync_data().player.shuffle_state);
    let r = h.handle_action(Action::PlayOrResume);
    assert_eq!(r.command, Command::Resume);
    assert!(!h.sync_data().player.is_playing);
    h.request_done(r.command);
    assert!(h.sync_data().player.is_playing);
}

#[test]
fn volume_choice_is_made_before_the_request() {
    let mut h = handler_at(10);
    let r = h.handle_action(Action::VolumeUp(2));
    assert_eq!(r.command, Command::SetVolume(12));
    assert_eq!(h.sync_data().player.volume, 12);
    h.request_done(r.command);
    assert_eq!(h.sync_data().player.volume, 12);
}

#[test]
fn shuffle_toggles() {
    let mut h = handler_at(10);
    assert_eq!(act(&mut h, Action::ToggleShuffle).command, Command::SetShuffle(true));
    assert!(h.sync_data().player.shuffle_state);
    assert_eq!(act(&mut h, Action::ToggleShuffle).command, Command::SetShuffle(false));
}

#[test]
fn skipping_changes_nothing_and_publishes_nothing() {
    let mut h = handler_at(10);
    let before = h.sync_data();
    assert_eq!(act(&mut h, Action::Next), Reaction { command: Command::NextTrack, sync: false });
    assert_eq!(
        act(&mut h, Action::Previous),
        Reaction { command: Command::PreviousTrack, sync: false }
    );
    assert_eq!(h.sync_data(), before);
}

#[test]
fn choices_survive_a_report() {
    let mut h = handler_at(10);
    act(&mut h, Action::VolumeUp(2));
    act(&mut h, Action::ToggleShuffle);
    h.apply_playback(Some(report(77, false, RepeatState::Context, true)));
    let shown = h.sync_data();
    assert_eq!(shown.player.volume, 12);
    assert!(shown.player.shuffle_state);
    assert_eq!(shown.player.repeat_state, RepeatState::Context);
    assert!(shown.player.is_playing);
    assert_eq!(shown.track.title, "Tune");
}

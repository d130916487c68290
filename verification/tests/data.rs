use spotify_tui::data::{join_names, Data, PlayableItem, PlaybackContext};
use spotify_tui::player_info::{PlayerInfo, RepeatState};
use spotify_tui::track_info::TrackInfo;

fn context(item: Option<PlayableItem>, volume: Option<u32>, progress: Option<i64>) -> PlaybackContext {
    PlaybackContext {
        device_name: String::from("Kitchen"),
        volume_percent: volume,
        repeat_state: RepeatState::Context,
        shuffle_state: true,
        progress_ms: progress,
        is_playing: true,
        item,
    }
}

#[test]
fn track_artists_are_joined() {
    let item = PlayableItem::Track {
        name: String::from("Song"),
        artists: vec![String::from("A"), String::from("B"), String::from("C")],
        duration_ms: 180_000,
    };
    let d = Data::from_context(context(Some(item), Some(40), Some(1234)));
    assert_eq!(d.track.title, "Song");
    assert_eq!(d.track.authors, "A, B, C");
    assert_eq!(d.track.duration, 180_000);
    assert_eq!(d.player.volume, 40);
    assert_eq!(d.player.progress_ms, Some(1234));
    assert_eq!(d.player.device_name, "Kitchen");
    assert!(d.player.is_playing);
    assert!(d.player.shuffle_state);
    assert_eq!(d.player.repeat_state, RepeatState::Context);
}

#[test]
fn track_without_artists_has_empty_authors() {
    let item = PlayableItem::Track { name: String::from("Solo"), artists: vec![], duration_ms: 1 };
    let d = Data::from_context(context(Some(item), None, None));
    assert_eq!(d.track.authors, "");
    assert_eq!(d.player.volume, 0);
    assert_eq!(d.player.progress_ms, None);
}

#[test]
fn episode_uses_the_publisher() {
    let item = PlayableItem::Episode {
        name: String::from("Episode 1"),
        publisher: String::from("Pub"),
        duration_ms: 3_600_000,
    };
    let d = Data::from_context(context(Some(item), Some(100), Some(5)));
    assert_eq!(d.track.title, "Episode 1");
    assert_eq!(d.track.authors, "Pub");
    assert_eq!(d.track.duration, 3_600_000);
}

#[test]
fn unknown_or_missing_item_is_not_available() {
    for item in [None, Some(PlayableItem::Unknown)] {
        let d = Data::from_context(context(item, Some(10), None));
        assert_eq!(d.track, TrackInfo::default());
        assert_eq!(d.player.volume, 10);
    }
}

#[test]
fn casts_truncate() {
    let item = PlayableItem::Track {
        name: String::from("Long"),
        artists: vec![String::from("X")],
        duration_ms: (1i64 << 32) + 5,
    };
    let d = Data::from_context(context(Some(item), Some(300), None));
    assert_eq!(d.track.duration, 5);
    assert_eq!(d.player.volume, 44);
}

#[test]
fn defaults() {
    let d = Data::default();
    assert_eq!(d.track.title, "N/A");
    assert_eq!(d.track.authors, "N/A");
    assert_eq!(d.track.duration, 0);
    assert_eq!(d.player, PlayerInfo::default());
    assert_eq!(d.player.device_name, "N/A");
    assert_eq!(d.player.volume, 0);
    assert!(!d.player.is_playing && !d.player.shuffle_state);
    assert_eq!(d.player.repeat_state, RepeatState::Off);
    assert_eq!(d.player.progress_ms, None);
}

#[test]
fn join_names_separates_with_comma() {
    assert_eq!(join_names(&vec![]), "");
    assert_eq!(join_names(&vec![String::from("One")]), "One");
    assert_eq!(join_names(&vec![String::from("One"), String::from("Two")]), "One, Two");
}

use spotify_tui::data::Data;
use spotify_tui::player_info::RepeatState;
use spotify_tui::renderer::{info_lines, play_sign, repeat_label};

#[test]
fn labels() {
    assert_eq!(repeat_label(RepeatState::Off), "off");
    assert_eq!(repeat_label(RepeatState::Track), "track");
    assert_eq!(repeat_label(RepeatState::Context), "context");
    assert_eq!(play_sign(true), "⯈");
    assert_eq!(play_sign(false), "∣∣");
}

#[test]
fn panel_lines_of_defaults() {
    let lines = info_lines(&Data::default());
    assert_eq!(
        lines,
        vec!["", "∣∣ N/A", "N/A", "", "repeat: off | shuffle: false", "device: N/A", "volume: 0%", ""]
    );
}

#[test]
fn panel_lines_of_playing_track() {
    let mut d = Data::default();
    d.player.is_playing = true;
    d.player.shuffle_state = true;
    d.player.repeat_state = RepeatState::Context;
    d.player.device_name = String::from("Phone");
    d.player.volume = 100;
    d.track.title = String::from("Song");
    d.track.authors = String::from("A, B");
    let lines = info_lines(&d);
    assert_eq!(lines[1], "⯈ Song");
    assert_eq!(lines[2], "A, B");
    assert_eq!(lines[4], "repeat: context | shuffle: true");
    assert_eq!(lines[5], "device: Phone");
    assert_eq!(lines[6], "volume: 100%");
    assert_eq!(lines.len(), 8);
}

use crate::track_info::{not_available, not_available_string};
use vstd::prelude::*;

verus! {

/// Repeat mode of the player.
#[derive(Clone, Copy, Debug, PartialEq, Eq, Structural)]
pub enum RepeatState {
    Off,
    Track,
    Context,
}

/// The state of the player as shown to the user.
///
/// `progress_ms` is the playback position in milliseconds as the service
/// reported it, `None` when it reported none.
#[derive(Clone, Debug, PartialEq)]
pub struct PlayerInfo {
    pub is_playing: bool,
    pub shuffle_state: bool,
    pub repeat_state: RepeatState,
    pub device_name: String,
    pub volume: u8,
    pub progress_ms: Option<i64>,
}

/// The mathematical content of a `PlayerInfo`.
pub struct PlayerInfoView {
    pub is_playing: bool,
    pub shuffle_state: bool,
    pub repeat_state: RepeatState,
    pub device_name: Seq<char>,
    pub volume: u8,
    pub progress_ms: Option<i64>,
}

impl View for PlayerInfo {
    type V = PlayerInfoView;

    open spec fn view(&self) -> PlayerInfoView {
        PlayerInfoView {
            is_playing: self.is_playing,
            shuffle_state: self.shuffle_state,
            repeat_state: self.repeat_state,
            device_name: self.device_name@,
            volume: self.volume,
            progress_ms: self.progress_ms,
        }
    }
}

/// Stopped, no shuffle, no repeat, device `N/A`, volume zero, no position.
pub open spec fn default_player_view() -> PlayerInfoView {
    PlayerInfoView {
        is_playing: false,
        shuffle_state: false,
        repeat_state: RepeatState::Off,
        device_name: not_available(),
        volume: 0,
        progress_ms: None,
    }
}

impl Default for PlayerInfo {
    /// Stopped, no shuffle, no repeat, device `N/A`, volume zero, no position.
    fn default() -> (r: Self)
        ensures
            r@ == default_player_view(),
    {
        PlayerInfo {
            is_playing: false,
            shuffle_state: false,
            repeat_state: RepeatState::Off,
            device_name: not_available_string(),
            volume: 0,
            progress_ms: None,
        }
    }
}

} // verus!

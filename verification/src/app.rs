use crate::action::Action;
use vstd::prelude::*;

verus! {

/// How often the screen is redrawn, in milliseconds.
pub const TICK_RATE_MS: u64 = 16;

/// How often the playback state is asked for, in milliseconds.
pub const UPDATE_INTERVAL_MS: u128 = 500;

/// A key of the keyboard, as far as the player tells keys apart.
#[derive(Clone, Copy, Debug, PartialEq, Eq, Structural)]
pub enum KeyCode {
    Up,
    Down,
    Left,
    Right,
    Char(char),
    /// Any other key.
    Other,
}

/// A terminal event, as far as the player tells events apart.
#[derive(Clone, Copy, Debug, PartialEq, Eq, Structural)]
pub enum InputEvent {
    /// A key press.
    Key(KeyCode),
    /// Any other event (mouse, resize, focus, paste).
    Other,
}

/// The volume step of the arrow keys.
pub const VOLUME_STEP: u8 = 2;

/// The action that an event asks for: the arrows change the volume by
/// `VOLUME_STEP` (up and down) or the track (left and right), space plays or
/// pauses, `s` toggles shuffling and `r` cycles the repeat mode.
pub open spec fn action_of(event: InputEvent) -> Option<Action> {
    match event {
        InputEvent::Key(code) => match code {
            KeyCode::Up => Some(Action::VolumeUp(VOLUME_STEP)),
            KeyCode::Down => Some(Action::VolumeDown(VOLUME_STEP)),
            KeyCode::Left => Some(Action::Previous),
            KeyCode::Right => Some(Action::Next),
            KeyCode::Char(c) => if c == ' ' {
                Some(Action::PlayOrResume)
            } else if c == 's' {
                Some(Action::ToggleShuffle)
            } else if c == 'r' {
                Some(Action::ToggleRepeat)
            } else {
                None
            },
            KeyCode::Other => None,
        },
        InputEvent::Other => None,
    }
}

/// The action that an event asks for, if any.
pub fn event_to_action(event: InputEvent) -> (r: Option<Action>)
    ensures
        r == action_of(event),
{
    match event {
        InputEvent::Key(code) => match code {
            KeyCode::Up => Some(Action::VolumeUp(VOLUME_STEP)),
            KeyCode::Down => Some(Action::VolumeDown(VOLUME_STEP)),
            KeyCode::Left => Some(Action::Previous),
            KeyCode::Right => Some(Action::Next),
            KeyCode::Char(' ') => Some(Action::PlayOrResume),
            KeyCode::Char('s') => Some(Action::ToggleShuffle),
            KeyCode::Char('r') => Some(Action::ToggleRepeat),
            _ => None,
        },
        _ => None,
    }
}

/// Whether the event ends the program: a press of `q`.
pub fn is_quit(event: InputEvent) -> (b: bool)
    ensures
        b == (event == InputEvent::Key(KeyCode::Char('q'))),
{
    match event {
        InputEvent::Key(KeyCode::Char('q')) => true,
        _ => false,
    }
}

/// Whether the playback state is to be asked for, `elapsed_ms` milliseconds
/// after it was last asked for.
pub fn update_due(elapsed_ms: u128) -> (b: bool)
    ensures
        b == (elapsed_ms >= UPDATE_INTERVAL_MS),
{
    elapsed_ms >= UPDATE_INTERVAL_MS
}

/// How long to wait for an event, in nanoseconds, when `elapsed_ns`
/// nanoseconds have passed since the last redraw: what is left of the tick,
/// or zero.
pub fn poll_timeout_ns(elapsed_ns: u128) -> (r: u128)
    ensures
        r == (if elapsed_ns < TICK_RATE_MS * 1_000_000 {
            TICK_RATE_MS * 1_000_000 - elapsed_ns
        } else {
            0
        }),
{
    let tick: u128 = TICK_RATE_MS as u128 * 1_000_000;
    if elapsed_ns < tick {
        tick - elapsed_ns
    } else {
        0
    }
}

} // verus!

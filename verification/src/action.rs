use vstd::prelude::*;

verus! {

/// A request that the user interface hands to the playback backend.
#[derive(Clone, Copy, Debug, PartialEq, Eq, Structural)]
pub enum Action {
    /// Fetch the current playback state.
    Update,
    /// Pause when playing, resume otherwise.
    PlayOrResume,
    /// Skip to the next track.
    Next,
    /// Go back to the previous track.
    Previous,
    /// Raise the volume by the given step.
    VolumeUp(u8),
    /// Lower the volume by the given step.
    VolumeDown(u8),
    /// Cycle the repeat mode.
    ToggleRepeat,
    /// Flip shuffling.
    ToggleShuffle,
}

} // verus!

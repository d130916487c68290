use crate::action::Action;
use crate::data::{report_view, Data, DataView, PlaybackContext};
use crate::player_info::{default_player_view, RepeatState};
use crate::track_info::{default_track_view, TrackInfo, TrackInfoView};
use crate::tracked_player_info::{
    lemma_import_keeps_choices, lemma_import_then_settled, overlay, TrackedPlayerInfo,
};
use crate::util::{ceil_multiple, floor_multiple, DivisibleBy};
use vstd::prelude::*;

verus! {

/// How long a value chosen by the user shows before the reported one
/// takes over again, in nanoseconds (five seconds).
pub const CHOICE_EXPIRATION_NS: u128 = 5_000_000_000;

/// A request to the streaming service.
#[derive(Clone, Copy, Debug, PartialEq, Eq, Structural)]
pub enum Command {
    /// Ask for the playback state, then hand it to `apply_playback`.
    FetchPlayback,
    Pause,
    Resume,
    SetVolume(u8),
    NextTrack,
    PreviousTrack,
    SetRepeat(RepeatState),
    SetShuffle(bool),
}

/// What handling an action asks for: a request to the streaming service,
/// and whether the shown data is to be published (with `sync_data`) once
/// the request is done.
#[derive(Clone, Copy, Debug, PartialEq, Eq, Structural)]
pub struct Reaction {
    pub command: Command,
    pub sync: bool,
}

/// `v.min(100)`.
pub open spec fn capped(v: int) -> int {
    if v < 100 {
        v
    } else {
        100
    }
}

/// The volume after a step up from `val`: the next multiple of `step`
/// (a whole step when `val` is one already), at most 100.
pub open spec fn raised_volume(val: int, step: int) -> int {
    let up = ceil_multiple(val, step);
    capped(
        if up == val {
            val + step
        } else {
            up
        },
    )
}

/// The volume after a step down from `val`: the previous multiple of `step`
/// (a whole step when `val` is one already), zero staying zero.
pub open spec fn lowered_volume(val: int, step: int) -> int {
    let down = floor_multiple(val, step);
    if val == 0 {
        0
    } else if down == val {
        val - step
    } else {
        down
    }
}

/// Whether a step up from `val` stays within a `u8` on the way.
pub open spec fn raise_defined(val: int, step: int) -> bool {
    &&& 0 < step
    &&& ceil_multiple(val, step) <= u8::MAX
    &&& ceil_multiple(val, step) == val ==> val + step <= u8::MAX
}

/// The repeat mode after `ToggleRepeat`: off, then track, then context.
pub open spec fn next_repeat(s: RepeatState) -> RepeatState {
    match s {
        RepeatState::Off => RepeatState::Track,
        RepeatState::Track => RepeatState::Context,
        RepeatState::Context => RepeatState::Off,
    }
}

/// The decisions of the playback backend: the track information last
/// reported and the player state, which remembers the user's choices for a
/// while.
pub struct BackendHandler {
    track_info: TrackInfo,
    player_info: TrackedPlayerInfo,
}

impl BackendHandler {
    /// The track information last reported.
    pub closed spec fn track(self) -> TrackInfoView {
        self.track_info@
    }

    /// The player state.
    pub closed spec fn player(self) -> TrackedPlayerInfo {
        self.player_info
    }

    /// The data shown once no choice of the user is left.
    pub open spec fn settled_data(self) -> DataView {
        DataView { player: self.player().settled(), track: self.track() }
    }

    /// Whether `handle_action(action)` can be done without a division by
    /// zero: a volume step must not be zero.
    pub open spec fn handles(action: Action) -> bool {
        match action {
            Action::VolumeUp(step) | Action::VolumeDown(step) => step > 0,
            _ => true,
        }
    }

    /// `next` has the same track information as `self`, and the same player
    /// state except maybe in the field that `action` changes.
    pub open spec fn keeps_others(self, next: Self, action: Action) -> bool {
        &&& next.track() == self.track()
        &&& match action {
            Action::VolumeUp(_) | Action::VolumeDown(_) => next.player() == TrackedPlayerInfo {
                volume: next.player().volume,
                ..self.player()
            },
            _ => next.player() == self.player(),
        }
    }

    /// What handling `action` in state `self` does: `next` is the state
    /// after it and `r` the reaction. Where the decision reads a field, it
    /// reads what shows of it at that moment (`some_shown`).
    pub open spec fn reacts(self, next: Self, action: Action, r: Reaction) -> bool {
        &&& self.keeps_others(next, action)
        &&& match action {
            Action::Update => r == Reaction { command: Command::FetchPlayback, sync: true },
            Action::Next => r == Reaction { command: Command::NextTrack, sync: false },
            Action::Previous => r == Reaction { command: Command::PreviousTrack, sync: false },
            Action::PlayOrResume => r.sync && self.player().is_playing.some_shown(
                |x: bool|
                    r.command == (if x {
                        Command::Pause
                    } else {
                        Command::Resume
                    }),
            ),
            Action::VolumeUp(step) => r.sync && self.player().volume.some_shown(
                |x: u8|
                    self.player().volume.is_set_to(
                        next.player().volume,
                        raised_volume(capped(x as int), step as int) as u8,
                    ),
            ) && (exists|e: int|
                0 <= e && r.command == Command::SetVolume(#[trigger] next.player().volume.shown_after(e))),
            Action::VolumeDown(step) => r.sync && self.player().volume.some_shown(
                |x: u8|
                    self.player().volume.is_set_to(
                        next.player().volume,
                        lowered_volume(capped(x as int), step as int) as u8,
                    ),
            ) && (exists|e: int|
                0 <= e && r.command == Command::SetVolume(#[trigger] next.player().volume.shown_after(e))),
            Action::ToggleRepeat => r.sync && self.player().repeat_state.some_shown(
                |x: RepeatState| r.command == Command::SetRepeat(next_repeat(x)),
            ),
            Action::ToggleShuffle => r.sync && self.player().shuffle_state.some_shown(
                |x: bool| r.command == Command::SetShuffle(!x),
            ),
        }
    }

    /// What `request_done(command)` does: after a request to pause, resume,
    /// set the repeat mode or set shuffling, the value requested becomes the
    /// user's choice of that field; other requests leave the state as it is.
    pub open spec fn completes(self, next: Self, command: Command) -> bool {
        &&& next.track() == self.track()
        &&& match command {
            Command::Pause | Command::Resume => {
                &&& self.player().is_playing.is_set_to(
                    next.player().is_playing,
                    command == Command::Resume,
                )
                &&& next.player() == TrackedPlayerInfo {
                    is_playing: next.player().is_playing,
                    ..self.player()
                }
            },
            Command::SetRepeat(s) => {
                &&& self.player().repeat_state.is_set_to(next.player().repeat_state, s)
                &&& next.player() == TrackedPlayerInfo {
                    repeat_state: next.player().repeat_state,
                    ..self.player()
                }
            },
            Command::SetShuffle(b) => {
                &&& self.player().shuffle_state.is_set_to(next.player().shuffle_state, b)
                &&& next.player() == TrackedPlayerInfo {
                    shuffle_state: next.player().shuffle_state,
                    ..self.player()
                }
            },
            _ => next.player() == self.player(),
        }
    }

    /// `next` is `self` after taking in the outcome of asking for the
    /// playback state (`None` when there was none or the request failed).
    pub open spec fn applies(self, next: Self, report: Option<PlaybackContext>) -> bool {
        &&& next.track() == report_view(report).track
        &&& self.player().imports(next.player(), report_view(report).player)
    }

    /// Default track information, default player state with nothing chosen,
    /// choices showing for `CHOICE_EXPIRATION_NS`.
    pub fn new() -> (r: Self)
        ensures
            r.track() == default_track_view(),
            !r.player().has_pending(),
            r.player().settled() == default_player_view(),
            r.player().is_playing.expiration_ns() == CHOICE_EXPIRATION_NS,
            r.player().shuffle_state.expiration_ns() == CHOICE_EXPIRATION_NS,
            r.player().repeat_state.expiration_ns() == CHOICE_EXPIRATION_NS,
            r.player().device_name.expiration_ns() == CHOICE_EXPIRATION_NS,
            r.player().volume.expiration_ns() == CHOICE_EXPIRATION_NS,
            r.player().progress_ms.expiration_ns() == CHOICE_EXPIRATION_NS,
    {
        BackendHandler {
            track_info: TrackInfo::default(),
            player_info: TrackedPlayerInfo::new(CHOICE_EXPIRATION_NS),
        }
    }

    /// Whether `handle_action(action)` may be called.
    pub fn can_handle(action: &Action) -> (b: bool)
        ensures
            b == Self::handles(*action),
    {
        match action {
            Action::VolumeUp(step) | Action::VolumeDown(step) => *step > 0,
            _ => true,
        }
    }

    /// Decides what an action does to the state and which request it makes.
    /// For playing, repeat mode and shuffling the choice is recorded by
    /// `request_done` once the request has returned.
    pub fn handle_action(&mut self, action: Action) -> (r: Reaction)
        requires
            Self::handles(action),
        ensures
            old(self).reacts(*final(self), action, r),
    {
        match action {
            Action::Update => Reaction { command: Command::FetchPlayback, sync: true },
            Action::PlayOrResume => {
                let running = self.player_info.is_playing.get();
                if running {
                    Reaction { command: Command::Pause, sync: true }
                } else {
                    Reaction { command: Command::Resume, sync: true }
                }
            },
            Action::VolumeUp(amount) => {
                let val = capped_u8(self.player_info.volume.get());
                proof {
                    lemma_raise_defined(val as int, amount as int);
                }
                let up = val.ceil_to_nearest(amount as usize);
                let raised = if up == val {
                    val + amount
                } else {
                    up
                };
                self.player_info.volume.set(capped_u8(raised));
                let shown = self.player_info.volume.get();
                proof {
                    let vol = self.player_info.volume;
                    let e = choose|e: int| 0 <= e && #[trigger] cloned(vol.shown_after(e), shown);
                    assert(shown == vol.shown_after(e));
                }
                Reaction { command: Command::SetVolume(shown), sync: true }
            },
            Action::VolumeDown(amount) => {
                let val = capped_u8(self.player_info.volume.get());
                let down = val.floor_to_nearest(amount as usize);
                proof {
                    if val < amount {
                        vstd::arithmetic::div_mod::lemma_small_mod(val as nat, amount as nat);
                    }
                }
                let lowered = if val == 0 {
                    0
                } else if down == val {
                    val - amount
                } else {
                    down
                };
                self.player_info.volume.set(lowered);
                let shown = self.player_info.volume.get();
                proof {
                    let vol = self.player_info.volume;
                    let e = choose|e: int| 0 <= e && #[trigger] cloned(vol.shown_after(e), shown);
                    assert(shown == vol.shown_after(e));
                }
                Reaction { command: Command::SetVolume(shown), sync: true }
            },
            Action::Next => Reaction { command: Command::NextTrack, sync: false },
            Action::Previous => Reaction { command: Command::PreviousTrack, sync: false },
            Action::ToggleRepeat => {
                let state = match self.player_info.repeat_state.get() {
                    RepeatState::Off => RepeatState::Track,
                    RepeatState::Track => RepeatState::Context,
                    RepeatState::Context => RepeatState::Off,
                };
                Reaction { command: Command::SetRepeat(state), sync: true }
            },
            Action::ToggleShuffle => {
                let state = !self.player_info.shuffle_state.get();
                Reaction { command: Command::SetShuffle(state), sync: true }
            },
        }
    }

    /// Records that a request has been done. Playing, repeat mode and
    /// shuffling take the requested value as the user's choice only once the
    /// request has returned (the volume is chosen before its request), so
    /// the choice shows for its whole window after the request.
    pub fn request_done(&mut self, command: Command)
        ensures
            old(self).completes(*final(self), command),
    {
        match command {
            Command::Pause => self.player_info.is_playing.set(false),
            Command::Resume => self.player_info.is_playing.set(true),
            Command::SetRepeat(state) => self.player_info.repeat_state.set(state),
            Command::SetShuffle(state) => self.player_info.shuffle_state.set(state),
            _ => {},
        }
    }

    /// Takes in the outcome of asking for the playback state: the reported
    /// track information replaces the old one, and the reported player state
    /// becomes what shows once the user's choices have run out of time.
    pub fn apply_playback(&mut self, report: Option<PlaybackContext>)
        ensures
            old(self).applies(*final(self), report),
    {
        let data = match report {
            Some(ctx) => Data::from_context(ctx),
            None => Data::default(),
        };
        self.track_info = data.track;
        self.player_info.import(data.player);
    }

    /// The data to show now.
    pub fn sync_data(&self) -> (r: Data)
        ensures
            r.track@ == self.track(),
            self.player().may_export(r.player@),
            !self.player().has_pending() ==> r@ == self.settled_data(),
    {
        Data {
            player: self.player_info.export(),
            track: TrackInfo {
                title: self.track_info.title.clone(),
                authors: self.track_info.authors.clone(),
                duration: self.track_info.duration,
            },
        }
    }
}

/// `v.min(100)`.
fn capped_u8(v: u8) -> (r: u8)
    ensures
        r == capped(v as int),
{
    if v < 100 {
        v
    } else {
        100
    }
}

/// From a volume of at most 100, a step up of any nonzero `u8` size stays
/// within a `u8` on the way.
pub proof fn lemma_raise_defined(val: int, step: int)
    requires
        0 <= val <= 100,
        0 < step <= u8::MAX,
    ensures
        raise_defined(val, step),
{
    crate::util::lemma_rounding_bounds(val, step);
    let up = ceil_multiple(val, step);
    if val > 0 && step > val {
        vstd::arithmetic::div_mod::lemma_fundamental_div_mod(up, step);
        assert(up == step) by (nonlinear_arith)
            requires
                up == step * (up / step) + up % step,
                up % step == 0,
                0 < val <= up < val + step,
                val < step,
        ;
    }
    if up == val && val > 0 && val < step {
        vstd::arithmetic::div_mod::lemma_small_mod(val as nat, step as nat);
    }
}

} // verus!

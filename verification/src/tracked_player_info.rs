use crate::expiring_value::ExpiringValue;
use crate::player_info::{default_player_view, PlayerInfo, PlayerInfoView, RepeatState};
use crate::track_info::not_available_string;
use vstd::prelude::*;

verus! {

/// The player state, where each field keeps a value the user just chose
/// for a while before it falls back to the value last reported by the
/// streaming service (which takes time to reflect a change).
pub struct TrackedPlayerInfo {
    pub is_playing: ExpiringValue<bool>,
    pub shuffle_state: ExpiringValue<bool>,
    pub repeat_state: ExpiringValue<RepeatState>,
    pub device_name: ExpiringValue<String>,
    pub volume: ExpiringValue<u8>,
    pub progress_ms: ExpiringValue<Option<i64>>,
}

/// The chosen value while one is pending, the reported value otherwise.
pub open spec fn fresh_of<T: Clone>(ev: ExpiringValue<T>) -> T {
    if ev.is_pending() {
        ev.value()
    } else {
        ev.expired_value()
    }
}

impl TrackedPlayerInfo {
    /// Whether some field holds a chosen value that may still show.
    pub open spec fn has_pending(self) -> bool {
        ||| self.is_playing.is_pending()
        ||| self.shuffle_state.is_pending()
        ||| self.repeat_state.is_pending()
        ||| self.device_name.is_pending()
        ||| self.volume.is_pending()
        ||| self.progress_ms.is_pending()
    }

    /// The reported values: what shows once no chosen value is left.
    pub open spec fn settled(self) -> PlayerInfoView {
        PlayerInfoView {
            is_playing: self.is_playing.expired_value(),
            shuffle_state: self.shuffle_state.expired_value(),
            repeat_state: self.repeat_state.expired_value(),
            device_name: self.device_name.expired_value()@,
            volume: self.volume.expired_value(),
            progress_ms: self.progress_ms.expired_value(),
        }
    }

    /// The chosen values for the fields with one pending, the reported
    /// values for the others: what shows while no chosen value has run out
    /// of time.
    pub open spec fn fresh(self) -> PlayerInfoView {
        PlayerInfoView {
            is_playing: fresh_of(self.is_playing),
            shuffle_state: fresh_of(self.shuffle_state),
            repeat_state: fresh_of(self.repeat_state),
            device_name: fresh_of(self.device_name)@,
            volume: fresh_of(self.volume),
            progress_ms: fresh_of(self.progress_ms),
        }
    }

    /// Whether `p` is what `export` may give: each field is what shows of
    /// that field some time (at least zero) after it was last set.
    pub open spec fn may_export(self, p: PlayerInfoView) -> bool {
        &&& exists|e: int| 0 <= e && p.is_playing == #[trigger] self.is_playing.shown_after(e)
        &&& exists|e: int| 0 <= e && p.shuffle_state == #[trigger] self.shuffle_state.shown_after(e)
        &&& exists|e: int| 0 <= e && p.repeat_state == #[trigger] self.repeat_state.shown_after(e)
        &&& exists|e: int| 0 <= e && p.device_name == (#[trigger] self.device_name.shown_after(e))@
        &&& exists|e: int| 0 <= e && p.volume == #[trigger] self.volume.shown_after(e)
        &&& exists|e: int| 0 <= e && p.progress_ms == #[trigger] self.progress_ms.shown_after(e)
    }

    /// `next` is `self` with the values of `info` as the reported ones.
    pub open spec fn imports(self, next: Self, info: PlayerInfoView) -> bool {
        &&& self.is_playing.only_expired_changed(next.is_playing)
        &&& self.shuffle_state.only_expired_changed(next.shuffle_state)
        &&& self.repeat_state.only_expired_changed(next.repeat_state)
        &&& self.device_name.only_expired_changed(next.device_name)
        &&& self.volume.only_expired_changed(next.volume)
        &&& self.progress_ms.only_expired_changed(next.progress_ms)
        &&& next.settled() == info
    }

    /// All fields at their defaults, nothing chosen, each keeping a chosen
    /// value for `expiration_ns` nanoseconds.
    pub fn new(expiration_ns: u128) -> (r: Self)
        ensures
            !r.has_pending(),
            r.settled() == default_player_view(),
            r.fresh() == default_player_view(),
            r.is_playing.expiration_ns() == expiration_ns,
            r.shuffle_state.expiration_ns() == expiration_ns,
            r.repeat_state.expiration_ns() == expiration_ns,
            r.device_name.expiration_ns() == expiration_ns,
            r.volume.expiration_ns() == expiration_ns,
            r.progress_ms.expiration_ns() == expiration_ns,
    {
        let name = not_available_string();
        TrackedPlayerInfo {
            is_playing: ExpiringValue::new(false, expiration_ns),
            shuffle_state: ExpiringValue::new(false, expiration_ns),
            repeat_state: ExpiringValue::new(RepeatState::Off, expiration_ns),
            device_name: ExpiringValue::new(name, expiration_ns),
            volume: ExpiringValue::new(0, expiration_ns),
            progress_ms: ExpiringValue::new(None, expiration_ns),
        }
    }

    /// Takes the values of `info` as the reported ones.
    pub fn import(&mut self, info: PlayerInfo)
        ensures
            old(self).imports(*final(self), info@),
    {
        self.is_playing.set_expired(info.is_playing);
        self.shuffle_state.set_expired(info.shuffle_state);
        self.repeat_state.set_expired(info.repeat_state);
        self.device_name.set_expired(info.device_name);
        self.volume.set_expired(info.volume);
        self.progress_ms.set_expired(info.progress_ms);
    }

    /// What shows now: for each field, its chosen value while that is
    /// pending and its time has not run out, the reported value otherwise.
    pub fn export(&self) -> (r: PlayerInfo)
        ensures
            self.may_export(r@),
            !self.has_pending() ==> r@ == self.settled(),
    {
        PlayerInfo {
            is_playing: self.is_playing.get(),
            shuffle_state: self.shuffle_state.get(),
            repeat_state: self.repeat_state.get(),
            device_name: self.device_name.get(),
            volume: self.volume.get(),
            progress_ms: self.progress_ms.get(),
        }
    }
}

/// Importing a report into a player state with no chosen value pending
/// leaves none pending, and what then shows is the report as it stands.
pub proof fn lemma_import_then_settled(
    before: TrackedPlayerInfo,
    after: TrackedPlayerInfo,
    info: PlayerInfoView,
)
    requires
        !before.has_pending(),
        before.imports(after, info),
    ensures
        !after.has_pending(),
        after.settled() == info,
{
}

/// What shows right after importing `info` while the choices of `t` are
/// pending: each pending choice, and the reported value elsewhere.
pub open spec fn overlay(t: TrackedPlayerInfo, info: PlayerInfoView) -> PlayerInfoView {
    PlayerInfoView {
        is_playing: if t.is_playing.is_pending() {
            t.is_playing.value()
        } else {
            info.is_playing
        },
        shuffle_state: if t.shuffle_state.is_pending() {
            t.shuffle_state.value()
        } else {
            info.shuffle_state
        },
        repeat_state: if t.repeat_state.is_pending() {
            t.repeat_state.value()
        } else {
            info.repeat_state
        },
        device_name: if t.device_name.is_pending() {
            t.device_name.value()@
        } else {
            info.device_name
        },
        volume: if t.volume.is_pending() {
            t.volume.value()
        } else {
            info.volume
        },
        progress_ms: if t.progress_ms.is_pending() {
            t.progress_ms.value()
        } else {
            info.progress_ms
        },
    }
}

/// Importing a report never touches a chosen value or when it was chosen:
/// while the choices have time left, they show over the report.
pub proof fn lemma_import_keeps_choices(
    before: TrackedPlayerInfo,
    after: TrackedPlayerInfo,
    info: PlayerInfoView,
)
    requires
        before.imports(after, info),
    ensures
        after.fresh() == overlay(before, info),
{
}

/// What shows of a field `e` nanoseconds after its last `set`, once
/// `reported` has been imported: the chosen value while it is pending and
/// inside its window, the report otherwise.
pub open spec fn chosen_or_reported<T: Clone>(ev: ExpiringValue<T>, reported: T, e: int) -> T {
    if ev.is_pending() && e < ev.expiration_ns() {
        ev.value()
    } else {
        reported
    }
}

/// After importing a report, every field shows its pending choice for the
/// rest of that choice's window and the report after it (a field with no
/// choice shows the report at once); so what `export` returns is, field by
/// field, that value at some time since the field was last set.
pub proof fn lemma_export_after_import(
    before: TrackedPlayerInfo,
    after: TrackedPlayerInfo,
    info: PlayerInfo,
    p: PlayerInfoView,
)
    requires
        before.imports(after, info@),
        after.may_export(p),
    ensures
        forall|e: int|
            #[trigger] after.is_playing.shown_after(e) == chosen_or_reported(
                before.is_playing,
                info.is_playing,
                e,
            ),
        forall|e: int|
            #[trigger] after.shuffle_state.shown_after(e) == chosen_or_reported(
                before.shuffle_state,
                info.shuffle_state,
                e,
            ),
        forall|e: int|
            #[trigger] after.repeat_state.shown_after(e) == chosen_or_reported(
                before.repeat_state,
                info.repeat_state,
                e,
            ),
        forall|e: int|
            (#[trigger] after.device_name.shown_after(e))@ == chosen_or_reported(
                before.device_name,
                info.device_name,
                e,
            )@,
        forall|e: int|
            #[trigger] after.volume.shown_after(e) == chosen_or_reported(
                before.volume,
                info.volume,
                e,
            ),
        forall|e: int|
            #[trigger] after.progress_ms.shown_after(e) == chosen_or_reported(
                before.progress_ms,
                info.progress_ms,
                e,
            ),
        exists|e: int|
            0 <= e && p.is_playing == #[trigger] chosen_or_reported(
                before.is_playing,
                info.is_playing,
                e,
            ),
        exists|e: int|
            0 <= e && p.shuffle_state == #[trigger] chosen_or_reported(
                before.shuffle_state,
                info.shuffle_state,
                e,
            ),
        exists|e: int|
            0 <= e && p.repeat_state == #[trigger] chosen_or_reported(
                before.repeat_state,
                info.repeat_state,
                e,
            ),
        exists|e: int|
            0 <= e && p.device_name == (#[trigger] chosen_or_reported(
                before.device_name,
                info.device_name,
                e,
            ))@,
        exists|e: int|
            0 <= e && p.volume == #[trigger] chosen_or_reported(before.volume, info.volume, e),
        exists|e: int|
            0 <= e && p.progress_ms == #[trigger] chosen_or_reported(
                before.progress_ms,
                info.progress_ms,
                e,
            ),
{
    let e1 = choose|e: int| 0 <= e && p.is_playing == #[trigger] after.is_playing.shown_after(e);
    assert(p.is_playing == chosen_or_reported(before.is_playing, info.is_playing, e1));
    let e2 = choose|e: int|
        0 <= e && p.shuffle_state == #[trigger] after.shuffle_state.shown_after(e);
    assert(p.shuffle_state == chosen_or_reported(before.shuffle_state, info.shuffle_state, e2));
    let e3 = choose|e: int|
        0 <= e && p.repeat_state == #[trigger] after.repeat_state.shown_after(e);
    assert(p.repeat_state == chosen_or_reported(before.repeat_state, info.repeat_state, e3));
    let e4 = choose|e: int|
        0 <= e && p.device_name == (#[trigger] after.device_name.shown_after(e))@;
    assert(p.device_name == chosen_or_reported(before.device_name, info.device_name, e4)@);
    let e5 = choose|e: int| 0 <= e && p.volume == #[trigger] after.volume.shown_after(e);
    assert(p.volume == chosen_or_reported(before.volume, info.volume, e5));
    let e6 = choose|e: int|
        0 <= e && p.progress_ms == #[trigger] after.progress_ms.shown_after(e);
    assert(p.progress_ms == chosen_or_reported(before.progress_ms, info.progress_ms, e6));
}

} // verus!

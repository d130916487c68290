use std::time::{Duration, Instant};
use vstd::prelude::*;

verus! {

/// Instants of the monotonic clock, carried through without looking inside.
#[verifier::external_type_specification]
#[verifier::external_body]
pub struct ExInstant(Instant);

/// Reads the monotonic clock through `std::time::Instant::now`.
/// The instant depends on the clock, so nothing is stated of it.
#[verifier::external_body]
fn instant_now() -> Instant {
    Instant::now()
}

/// Measures the time passed since `since` through `std::time::Instant::elapsed`.
/// The result depends on the clock, so nothing is stated of it.
#[verifier::external_body]
fn instant_elapsed(since: &Instant) -> Duration {
    since.elapsed()
}

/// Whole nanoseconds of a duration through `std::time::Duration::as_nanos`.
/// A `Duration` has no mathematical content in this library, so the result is
/// tied to nothing here; it is only used on measured durations, of which
/// nothing is known either.
#[verifier::external_body]
fn duration_as_nanos(duration: &Duration) -> u128 {
    duration.as_nanos()
}

/// A value that was set recently and stays visible for a while, after which
/// the value last reported from elsewhere (the expired value) shows again.
///
/// `last_modified` is `None` until the first `set`: such a value has always
/// expired.
#[derive(Clone)]
pub struct ExpiringValue<T> {
    value: T,
    expired_value: T,
    last_modified: Option<Instant>,
    expiration_ns: u128,
}

impl<T: Clone> ExpiringValue<T> {
    /// The value given by the last `set` (or by `new`).
    pub closed spec fn value(self) -> T {
        self.value
    }

    /// The value that shows once the set value has expired.
    pub closed spec fn expired_value(self) -> T {
        self.expired_value
    }

    /// When the last `set` happened; `None` before the first.
    pub closed spec fn modified_at(self) -> Option<Instant> {
        self.last_modified
    }

    /// Whether a value has been `set`, so that it may still be visible.
    pub open spec fn is_pending(self) -> bool {
        self.modified_at() is Some
    }

    /// How long a set value stays visible, in nanoseconds.
    pub closed spec fn expiration_ns(self) -> nat {
        self.expiration_ns as nat
    }

    /// What shows when `elapsed_ns` nanoseconds have passed since the last `set`.
    pub open spec fn shown_after(self, elapsed_ns: int) -> T {
        if self.is_pending() && elapsed_ns < self.expiration_ns() {
            self.value()
        } else {
            self.expired_value()
        }
    }

    /// The same, after a `set(v)` that read the instant `at`.
    pub closed spec fn set_at(self, v: T, at: Instant) -> Self {
        ExpiringValue { value: v, last_modified: Some(at), ..self }
    }

    /// The same, with `v` as the expired value.
    pub closed spec fn with_expired(self, v: T) -> Self {
        ExpiringValue { expired_value: v, ..self }
    }

    /// Whether `p` holds of what shows some `elapsed_ns >= 0` nanoseconds
    /// after the last `set`.
    pub open spec fn some_shown(self, p: spec_fn(T) -> bool) -> bool {
        exists|elapsed_ns: int| 0 <= elapsed_ns && p(#[trigger] self.shown_after(elapsed_ns))
    }

    /// `next` is `self` after `set(v)`.
    pub open spec fn is_set_to(self, next: Self, v: T) -> bool {
        &&& next.value() == v
        &&& next.expired_value() == self.expired_value()
        &&& next.is_pending()
        &&& next.expiration_ns() == self.expiration_ns()
    }

    /// `next` differs from `self` at most in its expired value.
    pub open spec fn only_expired_changed(self, next: Self) -> bool {
        &&& next.value() == self.value()
        &&& next.modified_at() == self.modified_at()
        &&& next.expiration_ns() == self.expiration_ns()
    }

    /// Whether `x` is (a clone of) what shows some `elapsed_ns >= 0`
    /// nanoseconds after the last `set`.
    pub open spec fn may_show(self, x: T) -> bool {
        exists|elapsed_ns: int| 0 <= elapsed_ns && #[trigger] cloned(self.shown_after(elapsed_ns), x)
    }

    /// A value that starts out expired, both of whose sides are clones of `value`.
    ///
    /// "Expired from the start" is kept as "never set" (`last_modified` is
    /// `None`) rather than as an instant one window before now. The two show
    /// the same values; but where now minus the window lies before the
    /// clock's origin, so that no such instant exists, this returns a value
    /// that starts out expired instead of failing. That case depends on the
    /// clock, not on the arguments, so no precondition could leave it out,
    /// and functions of this library do not panic.
    pub fn new(value: T, expiration_ns: u128) -> (r: Self)
        ensures
            cloned(value, r.value()),
            cloned(value, r.expired_value()),
            !r.is_pending(),
            r.expiration_ns() == expiration_ns,
    {
        ExpiringValue {
            value: value.clone(),
            expired_value: value.clone(),
            last_modified: None,
            expiration_ns,
        }
    }

    /// What shows `elapsed_ns` nanoseconds after the last `set`.
    pub fn value_after(&self, elapsed_ns: u128) -> (r: T)
        ensures
            cloned(self.shown_after(elapsed_ns as int), r),
    {
        if self.last_modified.is_some() && elapsed_ns < self.expiration_ns {
            self.value.clone()
        } else {
            self.expired_value.clone()
        }
    }

    /// The value that shows now: the set value while its time has not run out,
    /// the expired value otherwise.
    pub fn get(&self) -> (r: T)
        ensures
            self.may_show(r),
            !self.is_pending() ==> cloned(self.expired_value(), r),
    {
        match &self.last_modified {
            None => {
                let r = self.expired_value.clone();
                assert(cloned(self.shown_after(0), r));
                r
            },
            Some(since) => {
                let elapsed = instant_elapsed(since);
                let elapsed_ns = duration_as_nanos(&elapsed);
                let r = self.value_after(elapsed_ns);
                assert(cloned(self.shown_after(elapsed_ns as int), r));
                r
            },
        }
    }

    /// Sets a value that shows from now on until it expires.
    pub fn set(&mut self, value: T)
        ensures
            old(self).is_set_to(*final(self), value),
            final(self).modified_at() is Some,
            *final(self) == old(self).set_at(value, final(self).modified_at()->0),
    {
        self.value = value;
        self.last_modified = Some(instant_now());
    }

    /// Sets the value that shows once the set value has expired.
    pub fn set_expired(&mut self, value: T)
        ensures
            *final(self) == old(self).with_expired(value),
            old(self).only_expired_changed(*final(self)),
            final(self).expired_value() == value,
    {
        self.expired_value = value;
    }
}

/// Once a value is set, it is what shows for as long as its time has not run
/// out, and the expired value shows from then on.
pub proof fn lemma_set_value_window<T: Clone>(ev: ExpiringValue<T>, elapsed_ns: int)
    requires
        ev.is_pending(),
        elapsed_ns >= 0,
    ensures
        elapsed_ns < ev.expiration_ns() ==> ev.shown_after(elapsed_ns) == ev.value(),
        elapsed_ns >= ev.expiration_ns() ==> ev.shown_after(elapsed_ns) == ev.expired_value(),
{
}

/// A chosen value wins over a report that came after it for as long as its
/// window lasts, and the report shows from then on: after `set(v)` and then
/// a change of the expired value to `w`, what shows `e` nanoseconds after
/// the `set` is `v` inside the window and `w` after it.
pub proof fn lemma_choice_over_report<T: Clone>(
    ev0: ExpiringValue<T>,
    ev1: ExpiringValue<T>,
    ev2: ExpiringValue<T>,
    v: T,
    w: T,
    e: int,
)
    requires
        ev0.is_set_to(ev1, v),
        ev1.only_expired_changed(ev2),
        ev2.expired_value() == w,
    ensures
        ev2.shown_after(e) == (if e < ev0.expiration_ns() {
            v
        } else {
            w
        }),
{
}

/// Before any value is set, what shows is always the expired value.
pub proof fn lemma_unset_shows_expired<T: Clone>(ev: ExpiringValue<T>, elapsed_ns: int)
    requires
        !ev.is_pending(),
    ensures
        ev.shown_after(elapsed_ns) == ev.expired_value(),
{
}

/// `set` and `set_expired` touch different parts: done in either order
/// (with `set` reading the same instant) they give the same state; and
/// setting the same expired value twice is the same as once.
pub proof fn lemma_set_and_set_expired_commute<T: Clone>(
    ev: ExpiringValue<T>,
    a: T,
    b: T,
    at: Instant,
)
    ensures
        ev.set_at(a, at).with_expired(b) == ev.with_expired(b).set_at(a, at),
        ev.with_expired(b).with_expired(b) == ev.with_expired(b),
{
}

/// Changing the expired value leaves the set value, its time and its window
/// as they were.
pub proof fn lemma_set_expired_keeps_set_value<T: Clone>(ev: ExpiringValue<T>, v: T)
    ensures
        ev.with_expired(v).expired_value() == v,
        ev.with_expired(v).value() == ev.value(),
        ev.with_expired(v).modified_at() == ev.modified_at(),
        ev.with_expired(v).expiration_ns() == ev.expiration_ns(),
{
}

} // verus!

//! Write-once value and notifier.
use vstd::prelude::*;

use super::AlreadySet;

verus! {

/// What a write-once value holds after a `set` of `value` on `state`.
pub open spec fn after_set<T>(state: Option<T>, value: T) -> Option<T> {
    match state {
        None => Some(value),
        Some(_) => state,
    }
}

/// What a write-once value holds after the `set` calls of `values`, in order.
pub open spec fn after_sets<T>(state: Option<T>, values: Seq<T>) -> Option<T>
    decreases values.len(),
{
    if values.len() == 0 {
        state
    } else {
        after_sets(after_set(state, values[0]), values.drop_first())
    }
}

/// Whether a `set` on `state` succeeds.
pub open spec fn set_succeeds<T>(state: Option<T>) -> bool {
    state is None
}

/// Once a `set` of `v1` succeeded, a `set` of any `v2`, from any handle,
/// fails, and the value every observer sees stays `v1`.
pub proof fn lemma_first_set_is_kept<T>(v1: T, v2: T)
    ensures
        set_succeeds(None::<T>),
        after_set(None, v1) == Some(v1),
        !set_succeeds(after_set(None, v1)),
        after_set(after_set(None, v1), v2) == Some(v1),
{
}

/// After a successful `set` of `v`, the value reads `v` whatever `set` calls
/// follow.
pub proof fn lemma_set_value_stays<T>(v: T, later: Seq<T>)
    ensures
        after_sets(Some(v), later) == Some(v),
        after_sets(after_set(None, v), later) == Some(v),
    decreases later.len(),
{
    if later.len() > 0 {
        lemma_set_value_stays(v, later.drop_first());
    }
}

/// Two `set` calls racing on an empty value, in whichever order they are
/// served: exactly one succeeds, and the value is that of the winner.
pub proof fn lemma_racing_sets<T>(a: T, b: T)
    ensures
        set_succeeds(None::<T>) && !set_succeeds(after_set(None, a)),
        after_set(after_set(None, a), b) == Some(a),
        set_succeeds(None::<T>) && !set_succeeds(after_set(None, b)),
        after_set(after_set(None, b), a) == Some(b),
{
}

/// Notifying twice leaves the same state as notifying once, and after a
/// notification the notifier reads as notified.
pub proof fn lemma_notify_idempotent(s: Option<()>)
    ensures
        after_set(after_set(s, ()), ()) == after_set(s, ()),
        after_set(s, ()) is Some,
{
}

/// State of a write-once value: empty until the first `set`, then filled for
/// good. `S` completes the broadcast to the awaiters.
pub struct OnceState<T, S> {
    value: Option<T>,
    producer: Option<S>,
}

impl<T, S> View for OnceState<T, S> {
    type V = Option<T>;

    closed spec fn view(&self) -> Option<T> {
        self.value
    }
}

impl<T, S> OnceState<T, S> {
    /// The producer is held exactly while the value is absent.
    pub closed spec fn wf(&self) -> bool {
        self.value is None <==> self.producer is Some
    }

    /// The producer that the next successful `set` hands out.
    pub closed spec fn producer(&self) -> Option<S> {
        self.producer
    }

    /// Empty state, ready to be completed through `producer`.
    pub fn new(producer: S) -> (r: Self)
        ensures
            r.wf(),
            r@ is None,
            r.producer() == Some(producer),
    {
        OnceState { value: None, producer: Some(producer) }
    }

    /// Fills the value if it is empty and hands out the producer that must
    /// broadcast it; fails with [`AlreadySet`] and keeps the first value
    /// otherwise.
    pub fn set(&mut self, value: T) -> (r: Result<S, AlreadySet>)
        requires
            old(self).wf(),
        ensures
            final(self).wf(),
            final(self)@ == after_set(old(self)@, value),
            r is Ok <==> set_succeeds(old(self)@),
            r is Ok ==> r == Ok::<S, AlreadySet>(old(self).producer()->Some_0),
    {
        match self.producer.take() {
            Some(p) => {
                self.value = Some(value);
                Ok(p)
            },
            None => Err(AlreadySet {}),
        }
    }

    /// The value, or `None` while it is not set.
    pub fn try_get(&self) -> (r: Option<&T>)
        ensures
            match r {
                Some(v) => self@ == Some(*v),
                None => self@ is None,
            },
    {
        self.value.as_ref()
    }
}

/// State of a one-shot notifier: a write-once value without payload.
pub struct NotifyState<S> {
    inner: OnceState<(), S>,
}

impl<S> View for NotifyState<S> {
    type V = Option<()>;

    closed spec fn view(&self) -> Option<()> {
        self.inner@
    }
}

impl<S> NotifyState<S> {
    pub closed spec fn wf(&self) -> bool {
        self.inner.wf()
    }

    /// The producer that the first `notify` hands out.
    pub closed spec fn producer(&self) -> Option<S> {
        self.inner.producer()
    }

    pub fn new(producer: S) -> (r: Self)
        ensures
            r.wf(),
            r@ is None,
            r.producer() == Some(producer),
    {
        NotifyState { inner: OnceState::new(producer) }
    }

    /// Whether a notification has happened.
    pub fn already_notified(&self) -> (r: bool)
        requires
            self.wf(),
        ensures
            r == self@ is Some,
    {
        self.inner.try_get().is_some()
    }

    /// Records the notification. The first call hands out the producer that
    /// wakes the awaiters; later calls change nothing and return `None`.
    pub fn notify(&mut self) -> (r: Option<S>)
        requires
            old(self).wf(),
        ensures
            final(self).wf(),
            final(self)@ == after_set(old(self)@, ()),
            r is Some <==> set_succeeds(old(self)@),
            r is Some ==> r == old(self).producer(),
    {
        match self.inner.set(()) {
            Ok(p) => Some(p),
            Err(_) => None,
        }
    }
}

} // verus!

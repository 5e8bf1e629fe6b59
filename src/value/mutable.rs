//! Resettable value: set, read and cleared repeatedly; each clear of a
//! present value starts a new epoch of the broadcast.
use vstd::prelude::*;

use super::AlreadySet;

verus! {

/// Abstract state of a resettable value: the current slot and the number of
/// epochs started since creation.
pub struct SlotView<T> {
    pub value: Option<T>,
    pub epoch: nat,
}

/// The state after a `set` of `v`: filled if it was empty, unchanged if not.
pub open spec fn after_set<T>(s: SlotView<T>, v: T) -> SlotView<T> {
    match s.value {
        None => SlotView { value: Some(v), epoch: s.epoch },
        Some(_) => s,
    }
}

/// The state after a `take`: a present value is cleared and a new epoch
/// starts; an empty slot is left exactly as it was.
pub open spec fn after_take<T>(s: SlotView<T>) -> SlotView<T> {
    match s.value {
        None => s,
        Some(_) => SlotView { value: None, epoch: s.epoch + 1 },
    }
}

/// What an awaiter that polls state `s` resolves to: the present value, or
/// nothing yet (it waits for the next successful `set`).
pub open spec fn resolves_to<T>(s: SlotView<T>) -> Option<T> {
    s.value
}

/// A `take` of an empty slot is a no-op: nothing comes out and the epoch
/// that pending awaiters wait on is kept. After a `set` of `v`, a `take`
/// returns `v` and a second `take` returns nothing; a later `set` of `w` is
/// what an awaiter then resolves to.
pub proof fn lemma_take_cycle<T>(s: SlotView<T>, v: T, w: T)
    requires
        s.value is None,
    ensures
        after_take(s) == s,
        after_set(s, v).value == Some(v),
        after_take(after_set(s, v)).value is None,
        after_take(after_take(after_set(s, v))) == after_take(after_set(s, v)),
        resolves_to(after_set(after_take(after_take(after_set(s, v))), w)) == Some(w),
{
}

/// An awaiter that found the slot empty keeps waiting on the same epoch
/// through a `take` of the empty slot, and then resolves to the value of the
/// next `set`.
pub proof fn lemma_pending_awaiter_sees_next_set<T>(s: SlotView<T>, v: T)
    requires
        s.value is None,
    ensures
        resolves_to(s) is None,
        after_take(s).epoch == s.epoch,
        after_set(after_take(s), v).epoch == s.epoch,
        resolves_to(after_set(after_take(s), v)) == Some(v),
{
}

/// A `take` of a present value never lets an awaiter replay it: the slot is
/// empty and a new epoch has started.
pub proof fn lemma_take_does_not_replay<T>(s: SlotView<T>)
    requires
        s.value is Some,
    ensures
        resolves_to(after_take(s)) is None,
        after_take(s).epoch == s.epoch + 1,
{
}

/// State of a resettable value. `S` completes the broadcast of the current
/// epoch; it is held exactly while no value is present. `R` is what awaiters
/// of the current epoch listen on.
pub struct ResettableState<T, S, R> {
    value: Option<T>,
    producer: Option<S>,
    consumer: R,
    epoch: Ghost<nat>,
}

impl<T, S, R> View for ResettableState<T, S, R> {
    type V = SlotView<T>;

    closed spec fn view(&self) -> SlotView<T> {
        SlotView { value: self.value, epoch: self.epoch@ }
    }
}

impl<T, S, R> ResettableState<T, S, R> {
    pub closed spec fn wf(&self) -> bool {
        self.value is None <==> self.producer is Some
    }

    /// The producer that completes the current epoch, while it is open.
    pub closed spec fn producer(&self) -> Option<S> {
        self.producer
    }

    /// What awaiters of the current epoch listen on.
    pub closed spec fn consumer(&self) -> R {
        self.consumer
    }

    /// Empty state at the first epoch, completed through `producer` and
    /// awaited through `consumer`.
    pub fn new(producer: S, consumer: R) -> (r: Self)
        ensures
            r.wf(),
            r@ == (SlotView::<T> { value: None, epoch: 0 }),
            r.producer() == Some(producer),
            r.consumer() == consumer,
    {
        ResettableState { value: None, producer: Some(producer), consumer, epoch: Ghost(0) }
    }

    /// Fills an empty slot and hands out the producer that completes the
    /// current epoch; fails with [`AlreadySet`] while a value is present.
    pub fn set(&mut self, new_value: T) -> (r: Result<S, AlreadySet>)
        requires
            old(self).wf(),
        ensures
            final(self).wf(),
            final(self)@ == after_set(old(self)@, new_value),
            r is Ok <==> old(self)@.value is None,
            r is Ok ==> r == Ok::<S, AlreadySet>(old(self).producer()->Some_0),
            final(self).consumer() == old(self).consumer(),
    {
        if self.value.is_some() {
            Err(AlreadySet {})
        } else {
            self.value = Some(new_value);
            match self.producer.take() {
                Some(p) => Ok(p),
                None => Err(AlreadySet {}),
            }
        }
    }

    /// Clears the slot and returns what it held. Where a value was present,
    /// `fresh` and `fresh_consumer` become the producer and consumer of a new
    /// epoch; an empty slot is left untouched and both are dropped.
    pub fn take(&mut self, fresh: S, fresh_consumer: R) -> (r: Option<T>)
        requires
            old(self).wf(),
        ensures
            final(self).wf(),
            final(self)@ == after_take(old(self)@),
            r == old(self)@.value,
            final(self).producer() == if r is Some {
                Some(fresh)
            } else {
                old(self).producer()
            },
            final(self).consumer() == if r is Some {
                fresh_consumer
            } else {
                old(self).consumer()
            },
    {
        let result = self.value.take();
        if result.is_some() {
            self.producer = Some(fresh);
            self.consumer = fresh_consumer;
            self.epoch = Ghost(self.epoch@ + 1);
        }
        result
    }

    /// What awaiters of the current epoch listen on.
    pub fn current_consumer(&self) -> (r: &R)
        ensures
            *r == self.consumer(),
    {
        &self.consumer
    }

    /// The current value, without clearing it.
    pub fn try_get(&self) -> (r: Option<&T>)
        ensures
            match r {
                Some(v) => self@.value == Some(*v),
                None => self@.value is None,
            },
    {
        self.value.as_ref()
    }
}

} // verus!

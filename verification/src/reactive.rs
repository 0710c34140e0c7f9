//! The reactive value container: the decision core of a value with
//! subscribers and batched change notification.
//!
//! The container holds the current value, how many listeners have subscribed,
//! and whether a notification flush is already pending. The host side owns
//! the listener callables (keyed by the slot that `subscribe` returns) and
//! the microtask machinery: `set` tells it whether to schedule a flush, and
//! `flush` tells it how many listeners to invoke with the current value.

use vstd::prelude::*;

verus! {

/// A value whose changes are announced to subscribed listeners, with at most
/// one notification flush pending at a time.
pub struct Reactive<T> {
    value: T,
    listeners: usize,
    update_scheduled: bool,
}

impl<T> Reactive<T> {
    /// The value the container currently holds.
    pub closed spec fn spec_value(&self) -> T {
        self.value
    }

    /// How many listeners have subscribed.
    pub closed spec fn spec_listeners(&self) -> nat {
        self.listeners as nat
    }

    /// Whether a notification flush is pending.
    pub closed spec fn spec_scheduled(&self) -> bool {
        self.update_scheduled
    }

    /// A fresh container holding `value`, with no listeners and no pending
    /// flush.
    pub fn new(value: T) -> (r: Self)
        ensures
            r.spec_value() == value,
            r.spec_listeners() == 0,
            !r.spec_scheduled(),
    {
        Reactive { value, listeners: 0, update_scheduled: false }
    }

    /// Stores a new value. Returns whether the caller must schedule a
    /// notification flush: true exactly when none was pending yet, so any
    /// number of sets before the flush runs schedule exactly one.
    pub fn set(&mut self, value: T) -> (schedule: bool)
        ensures
            final(self).spec_value() == value,
            final(self).spec_scheduled(),
            final(self).spec_listeners() == old(self).spec_listeners(),
            schedule == !old(self).spec_scheduled(),
    {
        self.value = value;
        let schedule = !self.update_scheduled;
        self.update_scheduled = true;
        schedule
    }

    /// Borrows the current value.
    pub fn value(&self) -> (r: &T)
        ensures
            *r == self.spec_value(),
    {
        &self.value
    }

    /// Registers one more listener and returns its slot: the host keeps the
    /// callable under that index and invokes it on each flush.
    pub fn subscribe(&mut self) -> (id: usize)
        requires
            old(self).spec_listeners() < usize::MAX,
        ensures
            final(self).spec_listeners() == old(self).spec_listeners() + 1,
            id as nat == old(self).spec_listeners(),
            final(self).spec_value() == old(self).spec_value(),
            final(self).spec_scheduled() == old(self).spec_scheduled(),
    {
        let id = self.listeners;
        self.listeners = self.listeners + 1;
        id
    }

    /// Marks the pending flush as done and returns how many listeners the
    /// host must now invoke with the current value.
    pub fn flush(&mut self) -> (n: usize)
        ensures
            n as nat == old(self).spec_listeners(),
            final(self).spec_listeners() == old(self).spec_listeners(),
            final(self).spec_value() == old(self).spec_value(),
            !final(self).spec_scheduled(),
    {
        self.update_scheduled = false;
        self.listeners
    }
}

} // verus!

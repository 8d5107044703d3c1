//! A small demonstration object for the foreign-function boundary: a
//! counter that reports each new value to a host-supplied callback.

use vstd::prelude::*;

verus! {

/// The host's receiver for counter updates.
pub trait CounterCallback {
    /// Called with the counter's new value after each increment.
    fn on_update(&self, count: u32);
}

/// A counter that calls back to the host on each increment.
pub struct Counter<C: CounterCallback> {
    value: u32,
    callback: Option<C>,
}

impl<C: CounterCallback> Counter<C> {
    /// The current count.
    pub closed spec fn spec_value(&self) -> u32 {
        self.value
    }

    /// Whether a callback is set.
    pub closed spec fn has_callback(&self) -> bool {
        self.callback is Some
    }

    /// A counter at zero with no callback.
    pub fn new() -> (r: Self)
        ensures
            r.spec_value() == 0,
            !r.has_callback(),
    {
        Counter { value: 0, callback: None }
    }

    /// Sets the callback after construction, replacing any earlier
    /// one.
    pub fn set_callback(&mut self, callback: C)
        ensures
            final(self).has_callback(),
            final(self).spec_value() == old(self).spec_value(),
    {
        self.callback = Some(callback);
    }

    /// Raises the count by one, reports the new value to the callback
    /// if one is set, and returns it.
    pub fn increment(&mut self) -> (r: u32)
        requires
            old(self).spec_value() < u32::MAX,
        ensures
            final(self).spec_value() == old(self).spec_value() + 1,
            r == final(self).spec_value(),
            final(self).has_callback() == old(self).has_callback(),
    {
        self.value = self.value + 1;
        let new_val = self.value;
        match &self.callback {
            Some(cb) => cb.on_update(new_val),
            None => (),
        }
        new_val
    }

    /// The current count.
    pub fn get(&self) -> (r: u32)
        ensures
            r == self.spec_value(),
    {
        self.value
    }
}

} // verus!

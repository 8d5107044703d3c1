//! Live forwarding of log events to a single host-supplied callback.
//!
//! The host may register one callback per process. The first
//! registration wins; any later one is ignored (the caller sees no
//! error, only a note it can write to standard error). Once
//! registered, every event at or above the fixed minimum severity is
//! forwarded synchronously on the emitting thread.

use crate::logging::Level;
use crate::logging::at_least_info;
use crate::logging::level_name;
use crate::logging::severity;
use vstd::prelude::*;

verus! {

/// The host's receiver for live log events. The host implements this
/// once; any fault its implementation raises must be contained on the
/// host side of the boundary and never propagates back into the core.
pub trait LogCallback {
    /// Called for each forwarded event with the severity name, the
    /// emitting target and the folded message.
    fn on_log(&self, level: String, target: String, message: String);
}

/// What one registration attempt leaves in the slot: the first
/// callback ever offered stays, every later offer is ignored.
pub open spec fn register_next<C>(slot: Option<C>, c: C) -> Option<C> {
    if slot is None {
        Some(c)
    } else {
        slot
    }
}

/// The single process-wide callback slot and the forwarding rule.
pub struct LogForwarder<C: LogCallback> {
    callback: Option<C>,
}

impl<C: LogCallback> LogForwarder<C> {
    /// The registered callback, if any.
    pub closed spec fn registered(&self) -> Option<C> {
        self.callback
    }

    /// An empty slot.
    pub fn new() -> (r: Self)
        ensures
            r.registered() is None,
    {
        LogForwarder { callback: None }
    }

    /// Offers a callback. Only the first offer is kept; the return
    /// value says whether this offer was it, so the caller can note a
    /// rejected second registration without treating it as an error.
    pub fn setup_logging(&mut self, callback: C) -> (accepted: bool)
        ensures
            final(self).registered() == register_next(old(self).registered(), callback),
            accepted == (old(self).registered() is None),
    {
        match &self.callback {
            None => {
                self.callback = Some(callback);
                true
            },
            Some(_) => false,
        }
    }

    /// Forwards one event to the registered callback, if one is
    /// registered and the severity reaches the minimum. Returns
    /// whether the event was handed over.
    pub fn forward_event(&self, level: &Level, target: String, message: String) -> (forwarded:
        bool)
        ensures
            forwarded == (self.registered() is Some && severity(*level) >= severity(Level::Info)),
    {
        match &self.callback {
            Some(c) => {
                if at_least_info(level) {
                    c.on_log(level_name(level), target, message);
                    true
                } else {
                    false
                }
            },
            None => false,
        }
    }
}

/// Single registration: after any number of offers, the slot holds
/// exactly the first callback ever offered — registering A and then B
/// leaves A receiving every later event, and B nothing.
pub proof fn lemma_first_registration_wins<C>(a: C, b: C)
    ensures
        register_next(register_next(Option::<C>::None, a), b) == Some(a),
{
}

/// A full slot never changes, whatever is offered.
pub proof fn lemma_registration_stable<C>(slot: Option<C>, c: C)
    requires
        slot is Some,
    ensures
        register_next(slot, c) == slot,
{
}

} // verus!

//! The signal channel: a queue of unit notifications by which client handles
//! wake the service driver.
//!
//! Any number of producers may notify; one consumer takes the notifications
//! out, one at a time. The channel only counts: a notification carries no
//! data.

use vstd::prelude::*;

verus! {

/// What a channel has seen so far.
pub struct ChannelState {
    /// Notifications sent by all producers together.
    pub sent: nat,
    /// Notifications the consumer has taken out.
    pub drained: nat,
}

impl ChannelState {
    /// A channel on which nothing has happened yet.
    pub open spec fn empty() -> ChannelState {
        ChannelState { sent: 0, drained: 0 }
    }

    /// Notifications sent and not yet taken out.
    pub open spec fn pending(self) -> nat {
        (self.sent - self.drained) as nat
    }

    /// The state after a producer has notified.
    pub open spec fn notified(self) -> ChannelState {
        ChannelState { sent: self.sent + 1, drained: self.drained }
    }

    /// The state after the consumer has asked for the next notification:
    /// one is taken out if any is pending.
    pub open spec fn waited(self) -> ChannelState {
        if self.drained < self.sent {
            ChannelState { sent: self.sent, drained: self.drained + 1 }
        } else {
            self
        }
    }
}

/// The queue of notifications between the client handles and the driver.
pub struct SignalChannel {
    sent: u64,
    drained: u64,
}

impl View for SignalChannel {
    type V = ChannelState;

    closed spec fn view(&self) -> ChannelState {
        ChannelState { sent: self.sent as nat, drained: self.drained as nat }
    }
}

impl SignalChannel {
    #[verifier::type_invariant]
    spec fn drained_were_sent(&self) -> bool {
        self.drained <= self.sent
    }

    /// A channel with nothing sent.
    pub fn new() -> (channel: Self)
        ensures
            channel@ == ChannelState::empty(),
    {
        SignalChannel { sent: 0, drained: 0 }
    }

    /// Notifications sent so far.
    pub fn sent(&self) -> (sent: u64)
        ensures
            sent == self@.sent,
    {
        self.sent
    }

    /// Notifications taken out so far.
    pub fn drained(&self) -> (drained: u64)
        ensures
            drained == self@.drained,
            drained <= self@.sent,
    {
        proof {
            use_type_invariant(self);
        }
        self.drained
    }

    /// Notifications sent and not yet taken out.
    pub fn pending(&self) -> (pending: u64)
        ensures
            pending == self@.pending(),
    {
        proof {
            use_type_invariant(self);
        }
        self.sent - self.drained
    }

    /// Adds one notification. It never waits for the consumer.
    pub fn notify(&mut self)
        requires
            old(self)@.sent < u64::MAX,
        ensures
            final(self)@ == old(self)@.notified(),
    {
        proof {
            use_type_invariant(&*self);
        }
        self.sent = self.sent + 1;
    }

    /// Takes the next notification out, if one is pending, and says whether
    /// it did. On `false` the consumer has nothing to do until a producer
    /// notifies.
    pub fn wait_for_next(&mut self) -> (woken: bool)
        ensures
            woken == (old(self)@.pending() > 0),
            final(self)@ == old(self)@.waited(),
    {
        proof {
            use_type_invariant(&*self);
        }
        if self.drained < self.sent {
            self.drained = self.drained + 1;
            true
        } else {
            false
        }
    }
}

} // verus!

//! The shared bounded channel, as the pipeline sees it.
//!
//! Many producers hold a sending handle each; one consumer holds the
//! receiving end. The channel keeps at most `capacity` values. A producer
//! that finds it full has to wait, so a slow consumer holds the producers
//! back. Once every sending handle is released and the pending values are
//! taken, the channel reports that it is closed.

use std::collections::VecDeque;
use vstd::prelude::*;

verus! {

/// The abstract state of a channel.
pub struct ChannelState {
    /// How many values the channel can hold; never zero.
    pub capacity: nat,
    /// The values sent and not yet received, oldest first.
    pub pending: Seq<u64>,
    /// The number of sending handles alive.
    pub senders: nat,
    /// Whether the receiving end is still there.
    pub receiver_open: bool,
}

impl ChannelState {
    /// A fresh channel: empty, one sending handle, the receiver in place.
    pub open spec fn fresh(capacity: nat) -> ChannelState {
        ChannelState { capacity, pending: Seq::empty(), senders: 1, receiver_open: true }
    }

    /// The bound of the channel: at most `capacity` values are pending.
    pub open spec fn wf(self) -> bool {
        0 < self.capacity && self.pending.len() <= self.capacity
    }

    pub open spec fn is_full(self) -> bool {
        self.pending.len() >= self.capacity
    }

    /// No value is pending and none can come any more.
    pub open spec fn is_closed(self) -> bool {
        self.pending.len() == 0 && self.senders == 0
    }

    /// What an attempt to send answers in this state.
    pub open spec fn send_outcome(self) -> SendOutcome {
        if !self.receiver_open {
            SendOutcome::Closed
        } else if self.is_full() {
            SendOutcome::Full
        } else {
            SendOutcome::Accepted
        }
    }

    /// The state after an attempt to send `value`.
    pub open spec fn after_send(self, value: u64) -> ChannelState {
        if self.send_outcome() is Accepted {
            ChannelState { pending: self.pending.push(value), ..self }
        } else {
            self
        }
    }

    /// What an attempt to receive answers in this state.
    pub open spec fn recv_outcome(self) -> RecvOutcome {
        if self.pending.len() > 0 {
            RecvOutcome::Value(self.pending[0])
        } else if self.senders > 0 {
            RecvOutcome::Empty
        } else {
            RecvOutcome::Closed
        }
    }

    /// The state after an attempt to receive.
    pub open spec fn after_recv(self) -> ChannelState {
        if self.pending.len() > 0 {
            ChannelState { pending: self.pending.drop_first(), ..self }
        } else {
            self
        }
    }
}

/// The answer to an attempt to send.
#[derive(Clone, Copy, Debug, PartialEq, Eq)]
pub enum SendOutcome {
    /// The value is now pending.
    Accepted,
    /// The channel is at capacity: the producer has to wait and try again.
    Full,
    /// The receiver is gone: the value is dropped.
    Closed,
}

/// The answer to an attempt to receive.
#[derive(Clone, Copy, Debug, PartialEq, Eq)]
pub enum RecvOutcome {
    /// The oldest pending value.
    Value(u64),
    /// Nothing is pending, but a producer may still send.
    Empty,
    /// Nothing is pending and every sending handle is released.
    Closed,
}

/// A bounded queue of numbers with counted sending handles.
pub struct BoundedChannel {
    capacity: usize,
    pending: VecDeque<u64>,
    senders: usize,
    receiver_open: bool,
}

impl View for BoundedChannel {
    type V = ChannelState;

    closed spec fn view(&self) -> ChannelState {
        ChannelState {
            capacity: self.capacity as nat,
            pending: self.pending@,
            senders: self.senders as nat,
            receiver_open: self.receiver_open,
        }
    }
}

impl BoundedChannel {
    /// The channel is within its bound.
    pub open spec fn wf(&self) -> bool {
        self@.wf()
    }

    /// Creates an empty channel for `capacity` values, with the one sending
    /// handle that the creator holds.
    pub fn new(capacity: usize) -> (channel: BoundedChannel)
        requires
            capacity > 0,
        ensures
            channel.wf(),
            channel@ == ChannelState::fresh(capacity as nat),
    {
        BoundedChannel { capacity, pending: VecDeque::new(), senders: 1, receiver_open: true }
    }

    pub fn capacity(&self) -> (result: usize)
        ensures
            result == self@.capacity,
    {
        self.capacity
    }

    /// The number of pending values.
    pub fn len(&self) -> (result: usize)
        ensures
            result == self@.pending.len(),
    {
        self.pending.len()
    }

    pub fn is_empty(&self) -> (result: bool)
        ensures
            result == (self@.pending.len() == 0),
    {
        self.pending.len() == 0
    }

    pub fn is_full(&self) -> (result: bool)
        ensures
            result == self@.is_full(),
    {
        self.pending.len() >= self.capacity
    }

    /// The number of sending handles alive.
    pub fn sender_count(&self) -> (result: usize)
        ensures
            result == self@.senders,
    {
        self.senders
    }

    /// No value is pending and no producer is left.
    pub fn is_closed(&self) -> (result: bool)
        ensures
            result == self@.is_closed(),
    {
        self.pending.len() == 0 && self.senders == 0
    }

    /// Hands out one more sending handle, as a clone of an existing one.
    pub fn clone_sender(&mut self)
        requires
            0 < old(self)@.senders < usize::MAX,
        ensures
            old(self).wf() ==> final(self).wf(),
            final(self)@ == (ChannelState { senders: old(self)@.senders + 1, ..old(self)@ }),
    {
        self.senders = self.senders + 1;
    }

    /// Releases one sending handle.
    pub fn release_sender(&mut self)
        requires
            old(self)@.senders > 0,
        ensures
            old(self).wf() ==> final(self).wf(),
            final(self)@ == (ChannelState {
                senders: (old(self)@.senders - 1) as nat,
                ..old(self)@
            }),
    {
        self.senders = self.senders - 1;
    }

    /// Drops the receiving end: from now on every send is refused.
    pub fn close_receiver(&mut self)
        ensures
            old(self).wf() ==> final(self).wf(),
            final(self)@ == (ChannelState { receiver_open: false, ..old(self)@ }),
    {
        self.receiver_open = false;
    }

    /// Tries to put `value` behind the pending ones.
    ///
    /// The value is taken only while fewer than `capacity` values are
    /// pending and the receiver is there; otherwise the channel stays as it
    /// is, and the answer tells the producer whether to wait or to give up.
    pub fn try_send(&mut self, value: u64) -> (outcome: SendOutcome)
        requires
            old(self).wf(),
            old(self)@.senders > 0,
        ensures
            final(self).wf(),
            outcome == old(self)@.send_outcome(),
            final(self)@ == old(self)@.after_send(value),
    {
        if !self.receiver_open {
            SendOutcome::Closed
        } else if self.pending.len() >= self.capacity {
            SendOutcome::Full
        } else {
            self.pending.push_back(value);
            SendOutcome::Accepted
        }
    }

    /// Tries to take the oldest pending value.
    ///
    /// Answers `Closed` exactly when nothing is pending and every sending
    /// handle is released.
    pub fn try_recv(&mut self) -> (outcome: RecvOutcome)
        ensures
            old(self).wf() ==> final(self).wf(),
            outcome == old(self)@.recv_outcome(),
            final(self)@ == old(self)@.after_recv(),
    {
        match self.pending.pop_front() {
            Some(value) => {
                RecvOutcome::Value(value)
            },
            None => if self.senders > 0 {
                RecvOutcome::Empty
            } else {
                RecvOutcome::Closed
            },
        }
    }
}

/// No operation takes a channel beyond its bound: a send at capacity is
/// answered `Full` and leaves the pending values as they are, so the
/// producer has to wait until the consumer has taken one; after that there
/// is room again.
pub proof fn lemma_bound_is_kept(state: ChannelState, value: u64)
    requires
        state.wf(),
    ensures
        state.after_send(value).wf(),
        state.after_recv().wf(),
        state.is_full() ==> !(state.send_outcome() is Accepted) && state.after_send(value)
            == state,
        state.is_full() ==> !state.after_recv().is_full(),
{
}

/// The consumer is told that the channel is closed exactly when every
/// sending handle is released and nothing is pending; as long as a value is
/// pending it gets that value, oldest first.
pub proof fn lemma_closed_exactly_when_drained(state: ChannelState)
    ensures
        state.recv_outcome() is Closed <==> state.is_closed(),
        state.pending.len() > 0 ==> state.recv_outcome() == RecvOutcome::Value(state.pending[0]),
{
}

} // verus!

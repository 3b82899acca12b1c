//! Messages as they reach the junction, and the reply slots they carry.
//!
//! A caller that waits for a value leaves a reply slot with its message. The
//! slot goes with the message to the reaction that takes it, or comes back
//! when the junction shuts down, so that the caller is always answered.

use vstd::prelude::*;
use crate::channels::Capability;
use crate::ids::ChannelId;
use crate::matching::{arrive, lemma_first_match_is_earliest, settle};

verus! {

/// A message with payload of type `P` and reply slot of type `S`.
#[derive(Debug, PartialEq, Eq)]
pub enum Message<P, S> {
    /// Sent on a send channel: a payload that nobody waits for.
    Sent(P),
    /// Arrived on a receive channel: no payload, and a receiver waiting at
    /// the slot.
    Request(S),
    /// Arrived on a bidirectional channel: a payload, and its sender
    /// waiting at the slot.
    Exchange(P, S),
}

impl<P, S> Message<P, S> {
    /// The capability of the channels on which such a message arrives.
    pub open spec fn kind(&self) -> Capability {
        match self {
            Message::Sent(_) => Capability::Send,
            Message::Request(_) => Capability::Recv,
            Message::Exchange(_, _) => Capability::Bidir,
        }
    }

    /// The payload, if the message has one.
    pub open spec fn payload(&self) -> Option<P> {
        match self {
            Message::Sent(payload) => Some(*payload),
            Message::Request(_) => None,
            Message::Exchange(payload, _) => Some(*payload),
        }
    }

    /// The reply slot, if a caller waits for an answer to the message.
    pub open spec fn slot(&self) -> Option<S> {
        match self {
            Message::Sent(_) => None,
            Message::Request(slot) => Some(*slot),
            Message::Exchange(_, slot) => Some(*slot),
        }
    }

    /// The capability of the channels on which such a message arrives.
    pub fn capability(&self) -> (r: Capability)
        ensures
            r == self.kind(),
    {
        match self {
            Message::Sent(_) => Capability::Send,
            Message::Request(_) => Capability::Recv,
            Message::Exchange(_, _) => Capability::Bidir,
        }
    }

    /// Take the message apart into its payload and its reply slot.
    pub fn into_parts(self) -> (r: (Option<P>, Option<S>))
        ensures
            r.0 == self.payload(),
            r.1 == self.slot(),
    {
        match self {
            Message::Sent(payload) => (Some(payload), None),
            Message::Request(slot) => (None, Some(slot)),
            Message::Exchange(payload, slot) => (Some(payload), Some(slot)),
        }
    }
}

/// Every pending message is of the kind that its channel carries.
pub open spec fn fitting<P, S>(
    queues: Seq<Seq<Message<P, S>>>,
    capabilities: Seq<Capability>,
) -> bool {
    &&& queues.len() == capabilities.len()
    &&& forall|channel: int, at: int|
        0 <= channel < queues.len() && 0 <= at < queues[channel].len() ==> (
        #[trigger] queues[channel][at]).kind() == capabilities[channel]
}

/// The reply slots of a queue's messages, oldest first.
pub open spec fn slots<P, S>(queue: Seq<Message<P, S>>) -> Seq<S>
    decreases queue.len(),
{
    if queue.len() == 0 {
        Seq::empty()
    } else {
        match queue.last().slot() {
            Some(slot) => slots(queue.drop_last()).push(slot),
            None => slots(queue.drop_last()),
        }
    }
}

/// The reply slots of all pending messages: channel by channel, and within
/// a channel oldest first.
pub open spec fn outstanding<P, S>(queues: Seq<Seq<Message<P, S>>>) -> Seq<S>
    decreases queues.len(),
{
    if queues.len() == 0 {
        Seq::empty()
    } else {
        outstanding(queues.drop_last()) + slots(queues.last())
    }
}

/// Settling an arrival keeps every queue to the kind of its channel,
/// where the message that arrives is of the kind of the channel it
/// arrives on.
pub proof fn lemma_settle_fits<P, S>(
    patterns: Seq<Seq<ChannelId>>,
    queues: Seq<Seq<Message<P, S>>>,
    capabilities: Seq<Capability>,
    channel: ChannelId,
    message: Message<P, S>,
)
    requires
        fitting(queues, capabilities),
        channel.0 < queues.len(),
        message.kind() == capabilities[channel.0 as int],
    ensures
        fitting(settle(patterns, queues, channel, message), capabilities),
{
    lemma_first_match_is_earliest(patterns, channel, arrive(queues, channel, message));
}

} // verus!

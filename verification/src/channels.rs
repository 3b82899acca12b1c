//! Typed channel endpoints and the form in which a pattern keeps them.
//!
//! A channel is an identity: the junction it belongs to, its place in that
//! junction, and through its type what may be done with it. Moving messages
//! is the junction's work.

use vstd::prelude::*;
use std::marker::PhantomData;
use crate::ids::{ChannelId, JunctionId};

verus! {

/// What a channel may be used for.
#[derive(Clone, Copy, Debug, PartialEq, Eq, Structural)]
pub enum Capability {
    /// Values go in; nothing comes back.
    Send,
    /// A request goes in; the reaction's value comes back.
    Recv,
    /// A value goes in and the reaction's value comes back.
    Bidir,
}

/// Channel on which values of type `T` are sent.
pub struct SendChannel<T> {
    id: ChannelId,
    junction_id: JunctionId,
    marker: PhantomData<T>,
}

/// Channel from which values of type `R` are received.
pub struct RecvChannel<R> {
    id: ChannelId,
    junction_id: JunctionId,
    marker: PhantomData<R>,
}

/// Channel on which a value of type `T` is sent and one of type `R` is
/// received in answer.
pub struct BidirChannel<T, R> {
    id: ChannelId,
    junction_id: JunctionId,
    marker: PhantomData<(T, R)>,
}

/// A `SendChannel` as a pattern keeps it.
pub struct StrippedSendChannel<T> {
    id: ChannelId,
    junction_id: JunctionId,
    marker: PhantomData<T>,
}

/// A `RecvChannel` as a pattern keeps it.
pub struct StrippedRecvChannel<R> {
    id: ChannelId,
    junction_id: JunctionId,
    marker: PhantomData<R>,
}

/// A `BidirChannel` as a pattern keeps it.
pub struct StrippedBidirChannel<T, R> {
    id: ChannelId,
    junction_id: JunctionId,
    marker: PhantomData<(T, R)>,
}

impl<T> SendChannel<T> {
    /// The channel's place in its junction.
    pub closed spec fn channel(&self) -> ChannelId {
        self.id
    }

    /// The junction the channel belongs to.
    pub closed spec fn junction(&self) -> JunctionId {
        self.junction_id
    }

    pub(crate) fn new(id: ChannelId, junction_id: JunctionId) -> (r: SendChannel<T>)
        ensures
            r.channel() == id,
            r.junction() == junction_id,
    {
        SendChannel { id, junction_id, marker: PhantomData }
    }

    /// Return the channel's ID.
    pub fn id(&self) -> (r: ChannelId)
        ensures
            r == self.channel(),
    {
        self.id
    }

    /// Return the ID of the junction this channel is associated with.
    pub fn junction_id(&self) -> (r: JunctionId)
        ensures
            r == self.junction(),
    {
        self.junction_id
    }

    /// What this channel may be used for.
    pub fn capability(&self) -> (r: Capability)
        ensures
            r == Capability::Send,
    {
        Capability::Send
    }

    /// The channel as a pattern keeps it: same place, same junction.
    pub fn strip(&self) -> (r: StrippedSendChannel<T>)
        ensures
            r.channel() == self.channel(),
            r.junction() == self.junction(),
    {
        StrippedSendChannel { id: self.id, junction_id: self.junction_id, marker: PhantomData }
    }
}

impl<R> RecvChannel<R> {
    /// The channel's place in its junction.
    pub closed spec fn channel(&self) -> ChannelId {
        self.id
    }

    /// The junction the channel belongs to.
    pub closed spec fn junction(&self) -> JunctionId {
        self.junction_id
    }

    pub(crate) fn new(id: ChannelId, junction_id: JunctionId) -> (r: RecvChannel<R>)
        ensures
            r.channel() == id,
            r.junction() == junction_id,
    {
        RecvChannel { id, junction_id, marker: PhantomData }
    }

    /// Return the channel's ID.
    pub fn id(&self) -> (r: ChannelId)
        ensures
            r == self.channel(),
    {
        self.id
    }

    /// Return the ID of the junction this channel is associated with.
    pub fn junction_id(&self) -> (r: JunctionId)
        ensures
            r == self.junction(),
    {
        self.junction_id
    }

    /// What this channel may be used for.
    pub fn capability(&self) -> (r: Capability)
        ensures
            r == Capability::Recv,
    {
        Capability::Recv
    }

    /// The channel as a pattern keeps it: same place, same junction.
    pub fn strip(&self) -> (r: StrippedRecvChannel<R>)
        ensures
            r.channel() == self.channel(),
            r.junction() == self.junction(),
    {
        StrippedRecvChannel { id: self.id, junction_id: self.junction_id, marker: PhantomData }
    }
}

impl<T, R> BidirChannel<T, R> {
    /// The channel's place in its junction.
    pub closed spec fn channel(&self) -> ChannelId {
        self.id
    }

    /// The junction the channel belongs to.
    pub closed spec fn junction(&self) -> JunctionId {
        self.junction_id
    }

    pub(crate) fn new(id: ChannelId, junction_id: JunctionId) -> (r: BidirChannel<T, R>)
        ensures
            r.channel() == id,
            r.junction() == junction_id,
    {
        BidirChannel { id, junction_id, marker: PhantomData }
    }

    /// Return the channel's ID.
    pub fn id(&self) -> (r: ChannelId)
        ensures
            r == self.channel(),
    {
        self.id
    }

    /// Return the ID of the junction this channel is associated with.
    pub fn junction_id(&self) -> (r: JunctionId)
        ensures
            r == self.junction(),
    {
        self.junction_id
    }

    /// What this channel may be used for.
    pub fn capability(&self) -> (r: Capability)
        ensures
            r == Capability::Bidir,
    {
        Capability::Bidir
    }

    /// The channel as a pattern keeps it: same place, same junction.
    pub fn strip(&self) -> (r: StrippedBidirChannel<T, R>)
        ensures
            r.channel() == self.channel(),
            r.junction() == self.junction(),
    {
        StrippedBidirChannel { id: self.id, junction_id: self.junction_id, marker: PhantomData }
    }
}

impl<T> StrippedSendChannel<T> {
    /// The channel's place in its junction.
    pub closed spec fn channel(&self) -> ChannelId {
        self.id
    }

    /// The junction the channel belongs to.
    pub closed spec fn junction(&self) -> JunctionId {
        self.junction_id
    }

    /// Return the channel's ID.
    pub fn id(&self) -> (r: ChannelId)
        ensures
            r == self.channel(),
    {
        self.id
    }

    /// Return the ID of the junction this channel is associated with.
    pub fn junction_id(&self) -> (r: JunctionId)
        ensures
            r == self.junction(),
    {
        self.junction_id
    }

    /// What the channel may be used for.
    pub fn capability(&self) -> (r: Capability)
        ensures
            r == Capability::Send,
    {
        Capability::Send
    }
}

impl<R> StrippedRecvChannel<R> {
    /// The channel's place in its junction.
    pub closed spec fn channel(&self) -> ChannelId {
        self.id
    }

    /// The junction the channel belongs to.
    pub closed spec fn junction(&self) -> JunctionId {
        self.junction_id
    }

    /// Return the channel's ID.
    pub fn id(&self) -> (r: ChannelId)
        ensures
            r == self.channel(),
    {
        self.id
    }

    /// Return the ID of the junction this channel is associated with.
    pub fn junction_id(&self) -> (r: JunctionId)
        ensures
            r == self.junction(),
    {
        self.junction_id
    }

    /// What the channel may be used for.
    pub fn capability(&self) -> (r: Capability)
        ensures
            r == Capability::Recv,
    {
        Capability::Recv
    }
}

impl<T, R> StrippedBidirChannel<T, R> {
    /// The channel's place in its junction.
    pub closed spec fn channel(&self) -> ChannelId {
        self.id
    }

    /// The junction the channel belongs to.
    pub closed spec fn junction(&self) -> JunctionId {
        self.junction_id
    }

    /// Return the channel's ID.
    pub fn id(&self) -> (r: ChannelId)
        ensures
            r == self.channel(),
    {
        self.id
    }

    /// Return the ID of the junction this channel is associated with.
    pub fn junction_id(&self) -> (r: JunctionId)
        ensures
            r == self.junction(),
    {
        self.junction_id
    }

    /// What the channel may be used for.
    pub fn capability(&self) -> (r: Capability)
        ensures
            r == Capability::Bidir,
    {
        Capability::Bidir
    }
}

} // verus!

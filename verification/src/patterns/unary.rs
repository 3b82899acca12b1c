//! Patterns over one channel.

use vstd::prelude::*;
use crate::channels::{
    BidirChannel, RecvChannel, SendChannel, StrippedBidirChannel, StrippedRecvChannel,
    StrippedSendChannel,
};
use crate::ids::{ChannelId, JunctionId};
use crate::patterns::binary;

verus! {

/// `SendChannel` partial Join Pattern.
pub struct SendPartialPattern<T> {
    junction_id: JunctionId,
    send_channel: StrippedSendChannel<T>,
}

impl<T> SendPartialPattern<T> {
    /// The junction the pattern is built for.
    pub closed spec fn junction(&self) -> JunctionId {
        self.junction_id
    }

    /// The channel in the pattern.
    pub closed spec fn member(&self) -> StrippedSendChannel<T> {
        self.send_channel
    }

    /// The channel belongs to the pattern's junction.
    #[verifier::type_invariant]
    pub open spec fn wf(&self) -> bool {
        self.member().junction() == self.junction()
    }

    pub(crate) fn new(junction_id: JunctionId, send_channel: StrippedSendChannel<T>) -> (r:
        SendPartialPattern<T>)
        requires
            send_channel.junction() == junction_id,
        ensures
            r.wf(),
            r.junction() == junction_id,
            r.member() == send_channel,
    {
        SendPartialPattern { junction_id, send_channel }
    }

    /// Return the ID of the junction this pattern is built for.
    pub fn junction_id(&self) -> (r: JunctionId)
        ensures
            r == self.junction(),
    {
        self.junction_id
    }

    /// Create a binary partial Join Pattern with two send channels.
    ///
    /// The new pattern starts with the channel of this one and has
    /// `send_channel` after it. A channel of another junction has no place
    /// in the pattern: the caller shows that the junctions agree.
    pub fn and<U>(self, send_channel: &SendChannel<U>) -> (r: binary::SendPartialPattern<T, U>)
        requires
            send_channel.junction() == self.junction(),
        ensures
            r.wf(),
            r.junction() == self.junction(),
            r.first() == self.member(),
            r.second().channel() == send_channel.channel(),
            r.second().junction() == send_channel.junction(),
    {
        proof {
            use_type_invariant(&self);
        }
        binary::SendPartialPattern::new(self.junction_id, self.send_channel, send_channel.strip())
    }

    /// Create a binary partial Join Pattern with a send and receive channel.
    ///
    /// The new pattern starts with the channel of this one and has
    /// `recv_channel` after it. A channel of another junction has no place
    /// in the pattern: the caller shows that the junctions agree.
    pub fn and_recv<R>(self, recv_channel: &RecvChannel<R>) -> (r: binary::RecvPartialPattern<T, R>)
        requires
            recv_channel.junction() == self.junction(),
        ensures
            r.wf(),
            r.junction() == self.junction(),
            r.first() == self.member(),
            r.second().channel() == recv_channel.channel(),
            r.second().junction() == recv_channel.junction(),
    {
        proof {
            use_type_invariant(&self);
        }
        binary::RecvPartialPattern::new(self.send_channel, recv_channel.strip())
    }

    /// Create a binary partial Join Pattern with a send and bidirectional
    /// channel.
    ///
    /// The new pattern starts with the channel of this one and has
    /// `bidir_channel` after it. A channel of another junction has no place
    /// in the pattern: the caller shows that the junctions agree.
    pub fn and_bidir<U, R>(self, bidir_channel: &BidirChannel<U, R>) -> (r:
        binary::BidirPartialPattern<T, U, R>)
        requires
            bidir_channel.junction() == self.junction(),
        ensures
            r.wf(),
            r.junction() == self.junction(),
            r.first() == self.member(),
            r.second().channel() == bidir_channel.channel(),
            r.second().junction() == bidir_channel.junction(),
    {
        proof {
            use_type_invariant(&self);
        }
        binary::BidirPartialPattern::new(self.send_channel, bidir_channel.strip())
    }

    /// Create the full Join Pattern: the channel of this pattern, and `f` as
    /// the reaction to each message sent on it.
    pub fn then_do<F>(self, f: F) -> (r: SendJoinPattern<F>) where
        F: Fn(T) -> () + Send + Clone + 'static,

        ensures
            r.junction() == self.junction(),
            r.channel() == self.member().channel(),
            r.reaction() == f,
    {
        SendJoinPattern::new(self.junction_id, self.send_channel.id(), f)
    }
}

/// `SendChannel` full Join Pattern.
pub struct SendJoinPattern<F> {
    junction_id: JunctionId,
    channel_id: ChannelId,
    f: F,
}

impl<F> SendJoinPattern<F> {
    /// The junction whose channel the pattern waits on.
    pub closed spec fn junction(&self) -> JunctionId {
        self.junction_id
    }

    /// The channel whose messages the reaction takes.
    pub closed spec fn channel(&self) -> ChannelId {
        self.channel_id
    }

    /// The reaction.
    pub closed spec fn reaction(&self) -> F {
        self.f
    }

    pub(crate) fn new(junction_id: JunctionId, channel_id: ChannelId, f: F) -> (r: SendJoinPattern<
        F,
    >)
        ensures
            r.junction() == junction_id,
            r.channel() == channel_id,
            r.reaction() == f,
    {
        SendJoinPattern { junction_id, channel_id, f }
    }

    /// Return the ID of the junction whose channel the pattern waits on.
    pub fn junction_id(&self) -> (r: JunctionId)
        ensures
            r == self.junction(),
    {
        self.junction_id
    }

    /// The member channels: the one channel.
    pub fn channels(&self) -> (r: Vec<ChannelId>)
        ensures
            r@ == seq![self.channel()],
    {
        vec![self.channel_id]
    }

    /// Return the ID of the channel in this Join Pattern.
    pub fn channel_id(&self) -> (r: ChannelId)
        ensures
            r == self.channel(),
    {
        self.channel_id
    }

    /// Run the reaction on a message of the channel.
    pub fn react<T>(&self, arg: T) where F: Fn(T) -> ()
        requires
            self.reaction().requires((arg,)),
        ensures
            self.reaction().ensures((arg,), ()),
    {
        (self.f)(arg)
    }
}

impl<F: Clone> Clone for SendJoinPattern<F> {
    /// A pattern on the same channel, with a clone of the reaction.
    fn clone(&self) -> (r: Self)
        ensures
            r.junction() == self.junction(),
            r.channel() == self.channel(),
            cloned(self.reaction(), r.reaction()),
    {
        SendJoinPattern {
            junction_id: self.junction_id,
            channel_id: self.channel_id,
            f: self.f.clone(),
        }
    }
}

/// `RecvChannel` partial Join Pattern.
pub struct RecvPartialPattern<R> {
    recv_channel: StrippedRecvChannel<R>,
}

impl<R> RecvPartialPattern<R> {
    /// The channel in the pattern.
    pub closed spec fn member(&self) -> StrippedRecvChannel<R> {
        self.recv_channel
    }

    /// The junction the pattern is built for.
    pub open spec fn junction(&self) -> JunctionId {
        self.member().junction()
    }

    pub(crate) fn new(recv_channel: StrippedRecvChannel<R>) -> (r: RecvPartialPattern<R>)
        ensures
            r.member() == recv_channel,
    {
        RecvPartialPattern { recv_channel }
    }

    /// Return the ID of the junction this pattern is built for.
    pub fn junction_id(&self) -> (r: JunctionId)
        ensures
            r == self.junction(),
    {
        self.recv_channel.junction_id()
    }

    /// Create the full Join Pattern: the channel of this pattern, and `f` as
    /// the reaction, whose value answers each receiver.
    pub fn then_do<F>(self, f: F) -> (r: RecvJoinPattern<F>) where
        F: Fn() -> R + Send + Clone + 'static,

        ensures
            r.junction() == self.junction(),
            r.channel() == self.member().channel(),
            r.reaction() == f,
    {
        RecvJoinPattern::new(self.recv_channel.junction_id(), self.recv_channel.id(), f)
    }
}

/// `RecvChannel` full Join Pattern.
///
/// It holds what a `SendJoinPattern` holds; the type tells the junction's
/// caller that the reaction's value is owed to a receiver.
pub struct RecvJoinPattern<F> {
    junction_id: JunctionId,
    channel_id: ChannelId,
    f: F,
}

impl<F> RecvJoinPattern<F> {
    /// The junction whose channel the pattern waits on.
    pub closed spec fn junction(&self) -> JunctionId {
        self.junction_id
    }

    /// The channel whose receivers the reaction answers.
    pub closed spec fn channel(&self) -> ChannelId {
        self.channel_id
    }

    /// The reaction.
    pub closed spec fn reaction(&self) -> F {
        self.f
    }

    pub(crate) fn new(junction_id: JunctionId, channel_id: ChannelId, f: F) -> (r: RecvJoinPattern<
        F,
    >)
        ensures
            r.junction() == junction_id,
            r.channel() == channel_id,
            r.reaction() == f,
    {
        RecvJoinPattern { junction_id, channel_id, f }
    }

    /// Return the ID of the junction whose channel the pattern waits on.
    pub fn junction_id(&self) -> (r: JunctionId)
        ensures
            r == self.junction(),
    {
        self.junction_id
    }

    /// The member channels: the one channel.
    pub fn channels(&self) -> (r: Vec<ChannelId>)
        ensures
            r@ == seq![self.channel()],
    {
        vec![self.channel_id]
    }

    /// Return the ID of the channel in this Join Pattern.
    pub fn channel_id(&self) -> (r: ChannelId)
        ensures
            r == self.channel(),
    {
        self.channel_id
    }

    /// Run the reaction; its value is what the receiver is answered with.
    pub fn react<R>(&self) -> (reply: R) where F: Fn() -> R
        requires
            self.reaction().requires(()),
        ensures
            self.reaction().ensures((), reply),
    {
        (self.f)()
    }
}

impl<F: Clone> Clone for RecvJoinPattern<F> {
    /// A pattern on the same channel, with a clone of the reaction.
    fn clone(&self) -> (r: Self)
        ensures
            r.junction() == self.junction(),
            r.channel() == self.channel(),
            cloned(self.reaction(), r.reaction()),
    {
        RecvJoinPattern {
            junction_id: self.junction_id,
            channel_id: self.channel_id,
            f: self.f.clone(),
        }
    }
}

/// Bidirectional channel partial Join Pattern.
pub struct BidirPartialPattern<T, R> {
    bidir_channel: StrippedBidirChannel<T, R>,
}

impl<T, R> BidirPartialPattern<T, R> {
    /// The channel in the pattern.
    pub closed spec fn member(&self) -> StrippedBidirChannel<T, R> {
        self.bidir_channel
    }

    /// The junction the pattern is built for.
    pub open spec fn junction(&self) -> JunctionId {
        self.member().junction()
    }

    pub(crate) fn new(bidir_channel: StrippedBidirChannel<T, R>) -> (r: BidirPartialPattern<T, R>)
        ensures
            r.member() == bidir_channel,
    {
        BidirPartialPattern { bidir_channel }
    }

    /// Return the ID of the junction this pattern is built for.
    pub fn junction_id(&self) -> (r: JunctionId)
        ensures
            r == self.junction(),
    {
        self.bidir_channel.junction_id()
    }

    /// Create the full Join Pattern: the channel of this pattern, and `f` as
    /// the reaction, whose value answers each sender.
    pub fn then_do<F>(self, f: F) -> (r: BidirJoinPattern<F>) where
        F: Fn(T) -> R + Send + Clone + 'static,

        ensures
            r.junction() == self.junction(),
            r.channel() == self.member().channel(),
            r.reaction() == f,
    {
        BidirJoinPattern::new(self.bidir_channel.junction_id(), self.bidir_channel.id(), f)
    }
}

/// `BidirChannel` full Join Pattern.
pub struct BidirJoinPattern<F> {
    junction_id: JunctionId,
    channel_id: ChannelId,
    f: F,
}

impl<F> BidirJoinPattern<F> {
    /// The junction whose channel the pattern waits on.
    pub closed spec fn junction(&self) -> JunctionId {
        self.junction_id
    }

    /// The channel whose senders the reaction answers.
    pub closed spec fn channel(&self) -> ChannelId {
        self.channel_id
    }

    /// The reaction.
    pub closed spec fn reaction(&self) -> F {
        self.f
    }

    pub(crate) fn new(junction_id: JunctionId, channel_id: ChannelId, f: F) -> (r:
        BidirJoinPattern<F>)
        ensures
            r.junction() == junction_id,
            r.channel() == channel_id,
            r.reaction() == f,
    {
        BidirJoinPattern { junction_id, channel_id, f }
    }

    /// Return the ID of the junction whose channel the pattern waits on.
    pub fn junction_id(&self) -> (r: JunctionId)
        ensures
            r == self.junction(),
    {
        self.junction_id
    }

    /// The member channels: the one channel.
    pub fn channels(&self) -> (r: Vec<ChannelId>)
        ensures
            r@ == seq![self.channel()],
    {
        vec![self.channel_id]
    }

    /// Return the ID of the channel in this Join Pattern.
    pub fn channel_id(&self) -> (r: ChannelId)
        ensures
            r == self.channel(),
    {
        self.channel_id
    }

    /// Run the reaction on a sent message; its value is what the sender is
    /// answered with.
    pub fn react<T, R>(&self, arg: T) -> (reply: R) where F: Fn(T) -> R
        requires
            self.reaction().requires((arg,)),
        ensures
            self.reaction().ensures((arg,), reply),
    {
        (self.f)(arg)
    }
}

impl<F: Clone> Clone for BidirJoinPattern<F> {
    /// A pattern on the same channel, with a clone of the reaction.
    fn clone(&self) -> (r: Self)
        ensures
            r.junction() == self.junction(),
            r.channel() == self.channel(),
            cloned(self.reaction(), r.reaction()),
    {
        BidirJoinPattern {
            junction_id: self.junction_id,
            channel_id: self.channel_id,
            f: self.f.clone(),
        }
    }
}

} // verus!

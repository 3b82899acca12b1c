//! Patterns over two channels.

use vstd::prelude::*;
use crate::channels::{
    BidirChannel, RecvChannel, SendChannel, StrippedBidirChannel, StrippedRecvChannel,
    StrippedSendChannel,
};
use crate::ids::{ChannelId, JunctionId};
use crate::patterns::ternary;

verus! {

/// Two `SendChannel` partial Join Pattern.
pub struct SendPartialPattern<T, U> {
    junction_id: JunctionId,
    first_send_channel: StrippedSendChannel<T>,
    second_send_channel: StrippedSendChannel<U>,
}

impl<T, U> SendPartialPattern<T, U> {
    /// The junction the pattern is built for.
    pub closed spec fn junction(&self) -> JunctionId {
        self.junction_id
    }

    /// The channel in the first place.
    pub closed spec fn first(&self) -> StrippedSendChannel<T> {
        self.first_send_channel
    }

    /// The channel in the second place.
    pub closed spec fn second(&self) -> StrippedSendChannel<U> {
        self.second_send_channel
    }

    /// Both channels belong to the pattern's junction.
    #[verifier::type_invariant]
    pub open spec fn wf(&self) -> bool {
        &&& self.first().junction() == self.junction()
        &&& self.second().junction() == self.junction()
    }

    pub(crate) fn new(
        junction_id: JunctionId,
        first_send_channel: StrippedSendChannel<T>,
        second_send_channel: StrippedSendChannel<U>,
    ) -> (r: SendPartialPattern<T, U>)
        requires
            first_send_channel.junction() == junction_id,
            second_send_channel.junction() == junction_id,
        ensures
            r.wf(),
            r.junction() == junction_id,
            r.first() == first_send_channel,
            r.second() == second_send_channel,
    {
        SendPartialPattern { junction_id, first_send_channel, second_send_channel }
    }

    /// Return the ID of the junction this pattern is built for.
    pub fn junction_id(&self) -> (r: JunctionId)
        ensures
            r == self.junction(),
    {
        self.junction_id
    }

    /// Create a ternary partial Join Pattern with three send channels.
    ///
    /// The new pattern starts with the channels of this one and has
    /// `send_channel` after them. A channel of another junction has no
    /// place in the pattern: the caller shows that the junctions agree.
    pub fn and<V>(self, send_channel: &SendChannel<V>) -> (r: ternary::SendPartialPattern<T, U, V>)
        requires
            send_channel.junction() == self.junction(),
        ensures
            r.wf(),
            r.junction() == self.junction(),
            r.first() == self.first(),
            r.second() == self.second(),
            r.third().channel() == send_channel.channel(),
            r.third().junction() == send_channel.junction(),
    {
        proof {
            use_type_invariant(&self);
        }
        ternary::SendPartialPattern::new(
            self.first_send_channel,
            self.second_send_channel,
            send_channel.strip(),
        )
    }

    /// Create a ternary partial Join Pattern with two send channels and a
    /// receive channel.
    ///
    /// The new pattern starts with the channels of this one and has
    /// `recv_channel` after them. A channel of another junction has no
    /// place in the pattern: the caller shows that the junctions agree.
    pub fn and_recv<R>(self, recv_channel: &RecvChannel<R>) -> (r: ternary::RecvPartialPattern<
        T,
        U,
        R,
    >)
        requires
            recv_channel.junction() == self.junction(),
        ensures
            r.wf(),
            r.junction() == self.junction(),
            r.first() == self.first(),
            r.second() == self.second(),
            r.third().channel() == recv_channel.channel(),
            r.third().junction() == recv_channel.junction(),
    {
        proof {
            use_type_invariant(&self);
        }
        ternary::RecvPartialPattern::new(
            self.first_send_channel,
            self.second_send_channel,
            recv_channel.strip(),
        )
    }

    /// Create a ternary partial Join Pattern with two send channels and a
    /// bidirectional channel.
    ///
    /// The new pattern starts with the channels of this one and has
    /// `bidir_channel` after them. A channel of another junction has no
    /// place in the pattern: the caller shows that the junctions agree.
    pub fn and_bidir<V, R>(self, bidir_channel: &BidirChannel<V, R>) -> (r:
        ternary::BidirPartialPattern<T, U, V, R>)
        requires
            bidir_channel.junction() == self.junction(),
        ensures
            r.wf(),
            r.junction() == self.junction(),
            r.first() == self.first(),
            r.second() == self.second(),
            r.third().channel() == bidir_channel.channel(),
            r.third().junction() == bidir_channel.junction(),
    {
        proof {
            use_type_invariant(&self);
        }
        ternary::BidirPartialPattern::new(
            self.first_send_channel,
            self.second_send_channel,
            bidir_channel.strip(),
        )
    }

    /// Create the full Join Pattern: the two channels in their order, and
    /// `f` as the reaction to one message on each.
    pub fn then_do<F>(self, f: F) -> (r: SendJoinPattern<F>) where
        F: Fn(T, U) -> () + Send + Clone + 'static,

        ensures
            r.junction() == self.junction(),
            r.first_channel() == self.first().channel(),
            r.second_channel() == self.second().channel(),
            r.reaction() == f,
    {
        SendJoinPattern::new(
            self.junction_id,
            self.first_send_channel.id(),
            self.second_send_channel.id(),
            f,
        )
    }
}

/// Two `SendChannel` full Join Pattern.
pub struct SendJoinPattern<F> {
    junction_id: JunctionId,
    first_send_channel_id: ChannelId,
    second_send_channel_id: ChannelId,
    f: F,
}

impl<F> SendJoinPattern<F> {
    /// The junction whose channels the pattern joins.
    pub closed spec fn junction(&self) -> JunctionId {
        self.junction_id
    }

    /// The channel whose message is the reaction's first argument.
    pub closed spec fn first_channel(&self) -> ChannelId {
        self.first_send_channel_id
    }

    /// The channel whose message is the reaction's second argument.
    pub closed spec fn second_channel(&self) -> ChannelId {
        self.second_send_channel_id
    }

    /// The reaction.
    pub closed spec fn reaction(&self) -> F {
        self.f
    }

    pub(crate) fn new(
        junction_id: JunctionId,
        first_send_channel_id: ChannelId,
        second_send_channel_id: ChannelId,
        f: F,
    ) -> (r: SendJoinPattern<F>)
        ensures
            r.junction() == junction_id,
            r.first_channel() == first_send_channel_id,
            r.second_channel() == second_send_channel_id,
            r.reaction() == f,
    {
        SendJoinPattern { junction_id, first_send_channel_id, second_send_channel_id, f }
    }

    /// Return the ID of the junction whose channels the pattern joins.
    pub fn junction_id(&self) -> (r: JunctionId)
        ensures
            r == self.junction(),
    {
        self.junction_id
    }

    /// The member channels, in the order of the reaction's arguments.
    pub fn channels(&self) -> (r: Vec<ChannelId>)
        ensures
            r@ == seq![self.first_channel(), self.second_channel()],
    {
        vec![self.first_send_channel_id, self.second_send_channel_id]
    }

    /// Return the ID of the first channel in this Join Pattern.
    pub fn first_send_channel_id(&self) -> (r: ChannelId)
        ensures
            r == self.first_channel(),
    {
        self.first_send_channel_id
    }

    /// Return the ID of the second channel in this Join Pattern.
    pub fn second_send_channel_id(&self) -> (r: ChannelId)
        ensures
            r == self.second_channel(),
    {
        self.second_send_channel_id
    }

    /// Run the reaction on one message of each channel.
    pub fn react<T, U>(&self, first: T, second: U) where F: Fn(T, U) -> ()
        requires
            self.reaction().requires((first, second)),
        ensures
            self.reaction().ensures((first, second), ()),
    {
        (self.f)(first, second)
    }
}

impl<F: Clone> Clone for SendJoinPattern<F> {
    /// A pattern on the same channels, with a clone of the reaction.
    fn clone(&self) -> (r: Self)
        ensures
            r.junction() == self.junction(),
            r.first_channel() == self.first_channel(),
            r.second_channel() == self.second_channel(),
            cloned(self.reaction(), r.reaction()),
    {
        SendJoinPattern {
            junction_id: self.junction_id,
            first_send_channel_id: self.first_send_channel_id,
            second_send_channel_id: self.second_send_channel_id,
            f: self.f.clone(),
        }
    }
}

/// `SendChannel` and `RecvChannel` partial Join Pattern.
pub struct RecvPartialPattern<T, R> {
    send_channel: StrippedSendChannel<T>,
    recv_channel: StrippedRecvChannel<R>,
}

impl<T, R> RecvPartialPattern<T, R> {
    /// The channel in the first place.
    pub closed spec fn first(&self) -> StrippedSendChannel<T> {
        self.send_channel
    }

    /// The channel in the second place.
    pub closed spec fn second(&self) -> StrippedRecvChannel<R> {
        self.recv_channel
    }

    /// The junction the pattern is built for.
    pub open spec fn junction(&self) -> JunctionId {
        self.first().junction()
    }

    /// Both channels belong to the pattern's junction.
    #[verifier::type_invariant]
    pub open spec fn wf(&self) -> bool {
        self.second().junction() == self.junction()
    }

    pub(crate) fn new(
        send_channel: StrippedSendChannel<T>,
        recv_channel: StrippedRecvChannel<R>,
    ) -> (r: RecvPartialPattern<T, R>)
        requires
            send_channel.junction() == recv_channel.junction(),
        ensures
            r.wf(),
            r.first() == send_channel,
            r.second() == recv_channel,
    {
        RecvPartialPattern { send_channel, recv_channel }
    }

    /// Return the ID of the junction this pattern is built for.
    pub fn junction_id(&self) -> (r: JunctionId)
        ensures
            r == self.junction(),
    {
        self.send_channel.junction_id()
    }

    /// Create the full Join Pattern: the two channels in their order, and
    /// `f` as the reaction, whose value answers the receiver.
    pub fn then_do<F>(self, f: F) -> (r: RecvJoinPattern<F>) where
        F: Fn(T) -> R + Send + Clone + 'static,

        ensures
            r.junction() == self.junction(),
            r.send_channel() == self.first().channel(),
            r.recv_channel() == self.second().channel(),
            r.reaction() == f,
    {
        RecvJoinPattern::new(
            self.send_channel.junction_id(),
            self.send_channel.id(),
            self.recv_channel.id(),
            f,
        )
    }
}

/// `SendChannel` and `RecvChannel` full Join Pattern.
pub struct RecvJoinPattern<F> {
    junction_id: JunctionId,
    send_channel_id: ChannelId,
    recv_channel_id: ChannelId,
    f: F,
}

impl<F> RecvJoinPattern<F> {
    /// The junction whose channels the pattern joins.
    pub closed spec fn junction(&self) -> JunctionId {
        self.junction_id
    }

    /// The channel whose message is the reaction's argument.
    pub closed spec fn send_channel(&self) -> ChannelId {
        self.send_channel_id
    }

    /// The channel whose receiver gets the reaction's value.
    pub closed spec fn recv_channel(&self) -> ChannelId {
        self.recv_channel_id
    }

    /// The reaction.
    pub closed spec fn reaction(&self) -> F {
        self.f
    }

    pub(crate) fn new(
        junction_id: JunctionId,
        send_channel_id: ChannelId,
        recv_channel_id: ChannelId,
        f: F,
    ) -> (r: RecvJoinPattern<F>)
        ensures
            r.junction() == junction_id,
            r.send_channel() == send_channel_id,
            r.recv_channel() == recv_channel_id,
            r.reaction() == f,
    {
        RecvJoinPattern { junction_id, send_channel_id, recv_channel_id, f }
    }

    /// Return the ID of the junction whose channels the pattern joins.
    pub fn junction_id(&self) -> (r: JunctionId)
        ensures
            r == self.junction(),
    {
        self.junction_id
    }

    /// The member channels, in the order in which they were joined.
    pub fn channels(&self) -> (r: Vec<ChannelId>)
        ensures
            r@ == seq![self.send_channel(), self.recv_channel()],
    {
        vec![self.send_channel_id, self.recv_channel_id]
    }

    /// Return the ID of the `SendChannel` in this Join Pattern.
    pub fn send_channel_id(&self) -> (r: ChannelId)
        ensures
            r == self.send_channel(),
    {
        self.send_channel_id
    }

    /// Return the ID of the `RecvChannel` in this Join Pattern.
    pub fn recv_channel_id(&self) -> (r: ChannelId)
        ensures
            r == self.recv_channel(),
    {
        self.recv_channel_id
    }

    /// Run the reaction on the sent message; its value is what the receiver
    /// is answered with.
    pub fn react<T, R>(&self, arg: T) -> (reply: R) where F: Fn(T) -> R
        requires
            self.reaction().requires((arg,)),
        ensures
            self.reaction().ensures((arg,), reply),
    {
        (self.f)(arg)
    }
}

impl<F: Clone> Clone for RecvJoinPattern<F> {
    /// A pattern on the same channels, with a clone of the reaction.
    fn clone(&self) -> (r: Self)
        ensures
            r.junction() == self.junction(),
            r.send_channel() == self.send_channel(),
            r.recv_channel() == self.recv_channel(),
            cloned(self.reaction(), r.reaction()),
    {
        RecvJoinPattern {
            junction_id: self.junction_id,
            send_channel_id: self.send_channel_id,
            recv_channel_id: self.recv_channel_id,
            f: self.f.clone(),
        }
    }
}

/// `SendChannel` and `BidirChannel` partial Join Pattern.
pub struct BidirPartialPattern<T, U, R> {
    send_channel: StrippedSendChannel<T>,
    bidir_channel: StrippedBidirChannel<U, R>,
}

impl<T, U, R> BidirPartialPattern<T, U, R> {
    /// The channel in the first place.
    pub closed spec fn first(&self) -> StrippedSendChannel<T> {
        self.send_channel
    }

    /// The channel in the second place.
    pub closed spec fn second(&self) -> StrippedBidirChannel<U, R> {
        self.bidir_channel
    }

    /// The junction the pattern is built for.
    pub open spec fn junction(&self) -> JunctionId {
        self.first().junction()
    }

    /// Both channels belong to the pattern's junction.
    #[verifier::type_invariant]
    pub open spec fn wf(&self) -> bool {
        self.second().junction() == self.junction()
    }

    pub(crate) fn new(
        send_channel: StrippedSendChannel<T>,
        bidir_channel: StrippedBidirChannel<U, R>,
    ) -> (r: BidirPartialPattern<T, U, R>)
        requires
            send_channel.junction() == bidir_channel.junction(),
        ensures
            r.wf(),
            r.first() == send_channel,
            r.second() == bidir_channel,
    {
        BidirPartialPattern { send_channel, bidir_channel }
    }

    /// Return the ID of the junction this pattern is built for.
    pub fn junction_id(&self) -> (r: JunctionId)
        ensures
            r == self.junction(),
    {
        self.send_channel.junction_id()
    }

    /// Create the full Join Pattern: the two channels in their order, and
    /// `f` as the reaction, whose value answers the bidirectional sender.
    pub fn then_do<F>(self, f: F) -> (r: BidirJoinPattern<F>) where
        F: Fn(T, U) -> R + Send + Clone + 'static,

        ensures
            r.junction() == self.junction(),
            r.send_channel() == self.first().channel(),
            r.bidir_channel() == self.second().channel(),
            r.reaction() == f,
    {
        BidirJoinPattern::new(
            self.send_channel.junction_id(),
            self.send_channel.id(),
            self.bidir_channel.id(),
            f,
        )
    }
}

/// `SendChannel` and `BidirChannel` full Join Pattern.
pub struct BidirJoinPattern<F> {
    junction_id: JunctionId,
    send_channel_id: ChannelId,
    bidir_channel_id: ChannelId,
    f: F,
}

impl<F> BidirJoinPattern<F> {
    /// The junction whose channels the pattern joins.
    pub closed spec fn junction(&self) -> JunctionId {
        self.junction_id
    }

    /// The channel whose message is the reaction's first argument.
    pub closed spec fn send_channel(&self) -> ChannelId {
        self.send_channel_id
    }

    /// The channel whose message is the reaction's second argument, and
    /// whose sender gets the reaction's value.
    pub closed spec fn bidir_channel(&self) -> ChannelId {
        self.bidir_channel_id
    }

    /// The reaction.
    pub closed spec fn reaction(&self) -> F {
        self.f
    }

    pub(crate) fn new(
        junction_id: JunctionId,
        send_channel_id: ChannelId,
        bidir_channel_id: ChannelId,
        f: F,
    ) -> (r: BidirJoinPattern<F>)
        ensures
            r.junction() == junction_id,
            r.send_channel() == send_channel_id,
            r.bidir_channel() == bidir_channel_id,
            r.reaction() == f,
    {
        BidirJoinPattern { junction_id, send_channel_id, bidir_channel_id, f }
    }

    /// Return the ID of the junction whose channels the pattern joins.
    pub fn junction_id(&self) -> (r: JunctionId)
        ensures
            r == self.junction(),
    {
        self.junction_id
    }

    /// The member channels, in the order of the reaction's arguments.
    pub fn channels(&self) -> (r: Vec<ChannelId>)
        ensures
            r@ == seq![self.send_channel(), self.bidir_channel()],
    {
        vec![self.send_channel_id, self.bidir_channel_id]
    }

    /// Return the ID of the `SendChannel` in this Join Pattern.
    pub fn send_channel_id(&self) -> (r: ChannelId)
        ensures
            r == self.send_channel(),
    {
        self.send_channel_id
    }

    /// Return the ID of the `BidirChannel` in this Join Pattern.
    pub fn bidir_channel_id(&self) -> (r: ChannelId)
        ensures
            r == self.bidir_channel(),
    {
        self.bidir_channel_id
    }

    /// Run the reaction on one message of each channel; its value is what
    /// the bidirectional sender is answered with.
    pub fn react<T, U, R>(&self, first: T, second: U) -> (reply: R) where F: Fn(T, U) -> R
        requires
            self.reaction().requires((first, second)),
        ensures
            self.reaction().ensures((first, second), reply),
    {
        (self.f)(first, second)
    }
}

impl<F: Clone> Clone for BidirJoinPattern<F> {
    /// A pattern on the same channels, with a clone of the reaction.
    fn clone(&self) -> (r: Self)
        ensures
            r.junction() == self.junction(),
            r.send_channel() == self.send_channel(),
            r.bidir_channel() == self.bidir_channel(),
            cloned(self.reaction(), r.reaction()),
    {
        BidirJoinPattern {
            junction_id: self.junction_id,
            send_channel_id: self.send_channel_id,
            bidir_channel_id: self.bidir_channel_id,
            f: self.f.clone(),
        }
    }
}

} // verus!

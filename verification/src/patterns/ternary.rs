//! Patterns over three channels.

use vstd::prelude::*;
use crate::channels::{StrippedBidirChannel, StrippedRecvChannel, StrippedSendChannel};
use crate::ids::{ChannelId, JunctionId};

verus! {

/// Three `SendChannel` partial Join Pattern.
pub struct SendPartialPattern<T, U, V> {
    first_send_channel: StrippedSendChannel<T>,
    second_send_channel: StrippedSendChannel<U>,
    third_send_channel: StrippedSendChannel<V>,
}

impl<T, U, V> SendPartialPattern<T, U, V> {
    /// The channel in the first place.
    pub closed spec fn first(&self) -> StrippedSendChannel<T> {
        self.first_send_channel
    }

    /// The channel in the second place.
    pub closed spec fn second(&self) -> StrippedSendChannel<U> {
        self.second_send_channel
    }

    /// The channel in the third place.
    pub closed spec fn third(&self) -> StrippedSendChannel<V> {
        self.third_send_channel
    }

    /// The junction the pattern is built for.
    pub open spec fn junction(&self) -> JunctionId {
        self.first().junction()
    }

    /// All three channels belong to the pattern's junction.
    #[verifier::type_invariant]
    pub open spec fn wf(&self) -> bool {
        &&& self.second().junction() == self.junction()
        &&& self.third().junction() == self.junction()
    }

    pub(crate) fn new(
        first_send_channel: StrippedSendChannel<T>,
        second_send_channel: StrippedSendChannel<U>,
        third_send_channel: StrippedSendChannel<V>,
    ) -> (r: SendPartialPattern<T, U, V>)
        requires
            second_send_channel.junction() == first_send_channel.junction(),
            third_send_channel.junction() == first_send_channel.junction(),
        ensures
            r.wf(),
            r.first() == first_send_channel,
            r.second() == second_send_channel,
            r.third() == third_send_channel,
    {
        SendPartialPattern { first_send_channel, second_send_channel, third_send_channel }
    }

    /// Return the ID of the junction this pattern is built for.
    pub fn junction_id(&self) -> (r: JunctionId)
        ensures
            r == self.junction(),
    {
        self.first_send_channel.junction_id()
    }

    /// Create the full Join Pattern: the three channels in their order, and
    /// `f` as the reaction to one message on each.
    pub fn then_do<F>(self, f: F) -> (r: SendJoinPattern<F>) where
        F: Fn(T, U, V) -> () + Send + Clone + 'static,

        ensures
            r.junction() == self.junction(),
            r.first_channel() == self.first().channel(),
            r.second_channel() == self.second().channel(),
            r.third_channel() == self.third().channel(),
            r.reaction() == f,
    {
        SendJoinPattern::new(
            self.first_send_channel.junction_id(),
            self.first_send_channel.id(),
            self.second_send_channel.id(),
            self.third_send_channel.id(),
            f,
        )
    }
}

/// Three `SendChannel` full Join Pattern.
pub struct SendJoinPattern<F> {
    junction_id: JunctionId,
    first_send_channel_id: ChannelId,
    second_send_channel_id: ChannelId,
    third_send_channel_id: ChannelId,
    f: F,
}

impl<F> SendJoinPattern<F> {
    /// The junction whose channels the pattern joins.
    pub closed spec fn junction(&self) -> JunctionId {
        self.junction_id
    }

    /// The channel whose message is the reaction's first argument.
    pub closed spec fn first_channel(&self) -> ChannelId {
        self.first_send_channel_id
    }

    /// The channel whose message is the reaction's second argument.
    pub closed spec fn second_channel(&self) -> ChannelId {
        self.second_send_channel_id
    }

    /// The channel whose message is the reaction's third argument.
    pub closed spec fn third_channel(&self) -> ChannelId {
        self.third_send_channel_id
    }

    /// The reaction.
    pub closed spec fn reaction(&self) -> F {
        self.f
    }

    pub(crate) fn new(
        junction_id: JunctionId,
        first_send_channel_id: ChannelId,
        second_send_channel_id: ChannelId,
        third_send_channel_id: ChannelId,
        f: F,
    ) -> (r: SendJoinPattern<F>)
        ensures
            r.junction() == junction_id,
            r.first_channel() == first_send_channel_id,
            r.second_channel() == second_send_channel_id,
            r.third_channel() == third_send_channel_id,
            r.reaction() == f,
    {
        SendJoinPattern {
            junction_id,
            first_send_channel_id,
            second_send_channel_id,
            third_send_channel_id,
            f,
        }
    }

    /// Return the ID of the junction whose channels the pattern joins.
    pub fn junction_id(&self) -> (r: JunctionId)
        ensures
            r == self.junction(),
    {
        self.junction_id
    }

    /// The member channels, in the order of the reaction's arguments.
    pub fn channels(&self) -> (r: Vec<ChannelId>)
        ensures
            r@ == seq![self.first_channel(), self.second_channel(), self.third_channel()],
    {
        vec![self.first_send_channel_id, self.second_send_channel_id, self.third_send_channel_id]
    }

    /// Return the ID of the first channel in this Join Pattern.
    pub fn first_send_channel_id(&self) -> (r: ChannelId)
        ensures
            r == self.first_channel(),
    {
        self.first_send_channel_id
    }

    /// Return the ID of the second channel in this Join Pattern.
    pub fn second_send_channel_id(&self) -> (r: ChannelId)
        ensures
            r == self.second_channel(),
    {
        self.second_send_channel_id
    }

    /// Return the ID of the third channel in this Join Pattern.
    pub fn third_send_channel_id(&self) -> (r: ChannelId)
        ensures
            r == self.third_channel(),
    {
        self.third_send_channel_id
    }

    /// Run the reaction on one message of each channel.
    pub fn react<T, U, V>(&self, first: T, second: U, third: V) where F: Fn(T, U, V) -> ()
        requires
            self.reaction().requires((first, second, third)),
        ensures
            self.reaction().ensures((first, second, third), ()),
    {
        (self.f)(first, second, third)
    }
}

impl<F: Clone> Clone for SendJoinPattern<F> {
    /// A pattern on the same channels, with a clone of the reaction.
    fn clone(&self) -> (r: Self)
        ensures
            r.junction() == self.junction(),
            r.first_channel() == self.first_channel(),
            r.second_channel() == self.second_channel(),
            r.third_channel() == self.third_channel(),
            cloned(self.reaction(), r.reaction()),
    {
        SendJoinPattern {
            junction_id: self.junction_id,
            first_send_channel_id: self.first_send_channel_id,
            second_send_channel_id: self.second_send_channel_id,
            third_send_channel_id: self.third_send_channel_id,
            f: self.f.clone(),
        }
    }
}

/// Two `SendChannel` and `RecvChannel` partial Join Pattern.
pub struct RecvPartialPattern<T, U, R> {
    first_send_channel: StrippedSendChannel<T>,
    second_send_channel: StrippedSendChannel<U>,
    recv_channel: StrippedRecvChannel<R>,
}

impl<T, U, R> RecvPartialPattern<T, U, R> {
    /// The channel in the first place.
    pub closed spec fn first(&self) -> StrippedSendChannel<T> {
        self.first_send_channel
    }

    /// The channel in the second place.
    pub closed spec fn second(&self) -> StrippedSendChannel<U> {
        self.second_send_channel
    }

    /// The channel in the third place.
    pub closed spec fn third(&self) -> StrippedRecvChannel<R> {
        self.recv_channel
    }

    /// The junction the pattern is built for.
    pub open spec fn junction(&self) -> JunctionId {
        self.first().junction()
    }

    /// All three channels belong to the pattern's junction.
    #[verifier::type_invariant]
    pub open spec fn wf(&self) -> bool {
        &&& self.second().junction() == self.junction()
        &&& self.third().junction() == self.junction()
    }

    pub(crate) fn new(
        first_send_channel: StrippedSendChannel<T>,
        second_send_channel: StrippedSendChannel<U>,
        recv_channel: StrippedRecvChannel<R>,
    ) -> (r: RecvPartialPattern<T, U, R>)
        requires
            second_send_channel.junction() == first_send_channel.junction(),
            recv_channel.junction() == first_send_channel.junction(),
        ensures
            r.wf(),
            r.first() == first_send_channel,
            r.second() == second_send_channel,
            r.third() == recv_channel,
    {
        RecvPartialPattern { first_send_channel, second_send_channel, recv_channel }
    }

    /// Return the ID of the junction this pattern is built for.
    pub fn junction_id(&self) -> (r: JunctionId)
        ensures
            r == self.junction(),
    {
        self.first_send_channel.junction_id()
    }

    /// Create the full Join Pattern: the three channels in their order, and
    /// `f` as the reaction, whose value answers the receiver.
    pub fn then_do<F>(self, f: F) -> (r: RecvJoinPattern<F>) where
        F: Fn(T, U) -> R + Send + Clone + 'static,

        ensures
            r.junction() == self.junction(),
            r.first_send_channel() == self.first().channel(),
            r.second_send_channel() == self.second().channel(),
            r.recv_channel() == self.third().channel(),
            r.reaction() == f,
    {
        RecvJoinPattern::new(
            self.first_send_channel.junction_id(),
            self.first_send_channel.id(),
            self.second_send_channel.id(),
            self.recv_channel.id(),
            f,
        )
    }
}

/// Two `SendChannel` and `RecvChannel` full Join Pattern.
pub struct RecvJoinPattern<F> {
    junction_id: JunctionId,
    first_send_channel_id: ChannelId,
    second_send_channel_id: ChannelId,
    recv_channel_id: ChannelId,
    f: F,
}

impl<F> RecvJoinPattern<F> {
    /// The junction whose channels the pattern joins.
    pub closed spec fn junction(&self) -> JunctionId {
        self.junction_id
    }

    /// The channel whose message is the reaction's first argument.
    pub closed spec fn first_send_channel(&self) -> ChannelId {
        self.first_send_channel_id
    }

    /// The channel whose message is the reaction's second argument.
    pub closed spec fn second_send_channel(&self) -> ChannelId {
        self.second_send_channel_id
    }

    /// The channel whose receiver gets the reaction's value.
    pub closed spec fn recv_channel(&self) -> ChannelId {
        self.recv_channel_id
    }

    /// The reaction.
    pub closed spec fn reaction(&self) -> F {
        self.f
    }

    pub(crate) fn new(
        junction_id: JunctionId,
        first_send_channel_id: ChannelId,
        second_send_channel_id: ChannelId,
        recv_channel_id: ChannelId,
        f: F,
    ) -> (r: RecvJoinPattern<F>)
        ensures
            r.junction() == junction_id,
            r.first_send_channel() == first_send_channel_id,
            r.second_send_channel() == second_send_channel_id,
            r.recv_channel() == recv_channel_id,
            r.reaction() == f,
    {
        RecvJoinPattern {
            junction_id,
            first_send_channel_id,
            second_send_channel_id,
            recv_channel_id,
            f,
        }
    }

    /// Return the ID of the junction whose channels the pattern joins.
    pub fn junction_id(&self) -> (r: JunctionId)
        ensures
            r == self.junction(),
    {
        self.junction_id
    }

    /// The member channels, in the order in which they were joined.
    pub fn channels(&self) -> (r: Vec<ChannelId>)
        ensures
            r@ == seq![
                self.first_send_channel(),
                self.second_send_channel(),
                self.recv_channel(),
            ],
    {
        vec![self.first_send_channel_id, self.second_send_channel_id, self.recv_channel_id]
    }

    /// Return the ID of the first `SendChannel` in this Join Pattern.
    pub fn first_send_channel_id(&self) -> (r: ChannelId)
        ensures
            r == self.first_send_channel(),
    {
        self.first_send_channel_id
    }

    /// Return the ID of the second `SendChannel` in this Join Pattern.
    pub fn second_send_channel_id(&self) -> (r: ChannelId)
        ensures
            r == self.second_send_channel(),
    {
        self.second_send_channel_id
    }

    /// Return the ID of the `RecvChannel` in this Join Pattern.
    pub fn recv_channel_id(&self) -> (r: ChannelId)
        ensures
            r == self.recv_channel(),
    {
        self.recv_channel_id
    }

    /// Run the reaction on the two sent messages; its value is what the
    /// receiver is answered with.
    pub fn react<T, U, R>(&self, first: T, second: U) -> (reply: R) where F: Fn(T, U) -> R
        requires
            self.reaction().requires((first, second)),
        ensures
            self.reaction().ensures((first, second), reply),
    {
        (self.f)(first, second)
    }
}

impl<F: Clone> Clone for RecvJoinPattern<F> {
    /// A pattern on the same channels, with a clone of the reaction.
    fn clone(&self) -> (r: Self)
        ensures
            r.junction() == self.junction(),
            r.first_send_channel() == self.first_send_channel(),
            r.second_send_channel() == self.second_send_channel(),
            r.recv_channel() == self.recv_channel(),
            cloned(self.reaction(), r.reaction()),
    {
        RecvJoinPattern {
            junction_id: self.junction_id,
            first_send_channel_id: self.first_send_channel_id,
            second_send_channel_id: self.second_send_channel_id,
            recv_channel_id: self.recv_channel_id,
            f: self.f.clone(),
        }
    }
}

/// Two `SendChannel` and `BidirChannel` partial Join Pattern.
pub struct BidirPartialPattern<T, U, V, R> {
    first_send_channel: StrippedSendChannel<T>,
    second_send_channel: StrippedSendChannel<U>,
    bidir_channel: StrippedBidirChannel<V, R>,
}

impl<T, U, V, R> BidirPartialPattern<T, U, V, R> {
    /// The channel in the first place.
    pub closed spec fn first(&self) -> StrippedSendChannel<T> {
        self.first_send_channel
    }

    /// The channel in the second place.
    pub closed spec fn second(&self) -> StrippedSendChannel<U> {
        self.second_send_channel
    }

    /// The channel in the third place.
    pub closed spec fn third(&self) -> StrippedBidirChannel<V, R> {
        self.bidir_channel
    }

    /// The junction the pattern is built for.
    pub open spec fn junction(&self) -> JunctionId {
        self.first().junction()
    }

    /// All three channels belong to the pattern's junction.
    #[verifier::type_invariant]
    pub open spec fn wf(&self) -> bool {
        &&& self.second().junction() == self.junction()
        &&& self.third().junction() == self.junction()
    }

    pub(crate) fn new(
        first_send_channel: StrippedSendChannel<T>,
        second_send_channel: StrippedSendChannel<U>,
        bidir_channel: StrippedBidirChannel<V, R>,
    ) -> (r: BidirPartialPattern<T, U, V, R>)
        requires
            second_send_channel.junction() == first_send_channel.junction(),
            bidir_channel.junction() == first_send_channel.junction(),
        ensures
            r.wf(),
            r.first() == first_send_channel,
            r.second() == second_send_channel,
            r.third() == bidir_channel,
    {
        BidirPartialPattern { first_send_channel, second_send_channel, bidir_channel }
    }

    /// Return the ID of the junction this pattern is built for.
    pub fn junction_id(&self) -> (r: JunctionId)
        ensures
            r == self.junction(),
    {
        self.first_send_channel.junction_id()
    }

    /// Create the full Join Pattern: the three channels in their order, and
    /// `f` as the reaction, whose value answers the bidirectional sender.
    pub fn then_do<F>(self, f: F) -> (r: BidirJoinPattern<F>) where
        F: Fn(T, U, V) -> R + Send + Clone + 'static,

        ensures
            r.junction() == self.junction(),
            r.first_send_channel() == self.first().channel(),
            r.second_send_channel() == self.second().channel(),
            r.bidir_channel() == self.third().channel(),
            r.reaction() == f,
    {
        BidirJoinPattern::new(
            self.first_send_channel.junction_id(),
            self.first_send_channel.id(),
            self.second_send_channel.id(),
            self.bidir_channel.id(),
            f,
        )
    }
}

/// Two `SendChannel` and `BidirChannel` full Join Pattern.
pub struct BidirJoinPattern<F> {
    junction_id: JunctionId,
    first_send_channel_id: ChannelId,
    second_send_channel_id: ChannelId,
    bidir_channel_id: ChannelId,
    f: F,
}

impl<F> BidirJoinPattern<F> {
    /// The junction whose channels the pattern joins.
    pub closed spec fn junction(&self) -> JunctionId {
        self.junction_id
    }

    /// The channel whose message is the reaction's first argument.
    pub closed spec fn first_send_channel(&self) -> ChannelId {
        self.first_send_channel_id
    }

    /// The channel whose message is the reaction's second argument.
    pub closed spec fn second_send_channel(&self) -> ChannelId {
        self.second_send_channel_id
    }

    /// The channel whose message is the reaction's third argument, and
    /// whose sender gets the reaction's value.
    pub closed spec fn bidir_channel(&self) -> ChannelId {
        self.bidir_channel_id
    }

    /// The reaction.
    pub closed spec fn reaction(&self) -> F {
        self.f
    }

    pub(crate) fn new(
        junction_id: JunctionId,
        first_send_channel_id: ChannelId,
        second_send_channel_id: ChannelId,
        bidir_channel_id: ChannelId,
        f: F,
    ) -> (r: BidirJoinPattern<F>)
        ensures
            r.junction() == junction_id,
            r.first_send_channel() == first_send_channel_id,
            r.second_send_channel() == second_send_channel_id,
            r.bidir_channel() == bidir_channel_id,
            r.reaction() == f,
    {
        BidirJoinPattern {
            junction_id,
            first_send_channel_id,
            second_send_channel_id,
            bidir_channel_id,
            f,
        }
    }

    /// Return the ID of the junction whose channels the pattern joins.
    pub fn junction_id(&self) -> (r: JunctionId)
        ensures
            r == self.junction(),
    {
        self.junction_id
    }

    /// The member channels, in the order of the reaction's arguments.
    pub fn channels(&self) -> (r: Vec<ChannelId>)
        ensures
            r@ == seq![
                self.first_send_channel(),
                self.second_send_channel(),
                self.bidir_channel(),
            ],
    {
        vec![self.first_send_channel_id, self.second_send_channel_id, self.bidir_channel_id]
    }

    /// Return the ID of the first `SendChannel` in this Join Pattern.
    pub fn first_send_channel_id(&self) -> (r: ChannelId)
        ensures
            r == self.first_send_channel(),
    {
        self.first_send_channel_id
    }

    /// Return the ID of the second `SendChannel` in this Join Pattern.
    pub fn second_send_channel_id(&self) -> (r: ChannelId)
        ensures
            r == self.second_send_channel(),
    {
        self.second_send_channel_id
    }

    /// Return the ID of the `BidirChannel` in this Join Pattern.
    pub fn bidir_channel_id(&self) -> (r: ChannelId)
        ensures
            r == self.bidir_channel(),
    {
        self.bidir_channel_id
    }

    /// Run the reaction on one message of each channel; its value is what
    /// the bidirectional sender is answered with.
    pub fn react<T, U, V, R>(&self, first: T, second: U, third: V) -> (reply: R) where
        F: Fn(T, U, V) -> R,

        requires
            self.reaction().requires((first, second, third)),
        ensures
            self.reaction().ensures((first, second, third), reply),
    {
        (self.f)(first, second, third)
    }
}

impl<F: Clone> Clone for BidirJoinPattern<F> {
    /// A pattern on the same channels, with a clone of the reaction.
    fn clone(&self) -> (r: Self)
        ensures
            r.junction() == self.junction(),
            r.first_send_channel() == self.first_send_channel(),
            r.second_send_channel() == self.second_send_channel(),
            r.bidir_channel() == self.bidir_channel(),
            cloned(self.reaction(), r.reaction()),
    {
        BidirJoinPattern {
            junction_id: self.junction_id,
            first_send_channel_id: self.first_send_channel_id,
            second_send_channel_id: self.second_send_channel_id,
            bidir_channel_id: self.bidir_channel_id,
            f: self.f.clone(),
        }
    }
}

} // verus!

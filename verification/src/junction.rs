//! The junction: the pending messages of its channels, the patterns
//! registered with it, and the decision which pattern an arrival fires.
//!
//! A junction is driven one event at a time by whoever owns it. It decides
//! and keeps books; running a reaction is left to the caller, who gets the
//! pattern's place and the messages it takes.

use vstd::prelude::*;
use std::collections::VecDeque;
use crate::channels::{BidirChannel, Capability, RecvChannel, SendChannel};
use crate::ids::{ChannelId, JunctionId};
use crate::matching::{
    arrive, count_before, fired, first_match, is_satisfied, lemma_first_match_found, messages_in,
    settle, take_arguments,
};
use crate::message::{fitting, lemma_settle_fits, outstanding, slots, Message};
use crate::patterns::unary;

verus! {

/// A pattern as the junction keeps it: the member channels in the order of
/// the reaction's arguments, and the reaction.
pub struct JoinPattern<F> {
    junction_id: JunctionId,
    channels: Vec<ChannelId>,
    f: F,
}

impl<F> JoinPattern<F> {
    /// The junction whose channels the pattern joins.
    pub closed spec fn junction(&self) -> JunctionId {
        self.junction_id
    }

    /// The member channels, in the order of the reaction's arguments.
    pub closed spec fn members(&self) -> Seq<ChannelId> {
        self.channels@
    }

    /// The reaction.
    pub closed spec fn reaction(&self) -> F {
        self.f
    }

    /// Pair member channels of one junction with a reaction.
    pub fn new(junction_id: JunctionId, channels: Vec<ChannelId>, f: F) -> (r: JoinPattern<F>)
        ensures
            r.junction() == junction_id,
            r.members() == channels@,
            r.reaction() == f,
    {
        JoinPattern { junction_id, channels, f }
    }

    /// Return the ID of the junction whose channels the pattern joins.
    pub fn junction_id(&self) -> (r: JunctionId)
        ensures
            r == self.junction(),
    {
        self.junction_id
    }

    /// The member channels, in the order of the reaction's arguments.
    pub fn channels(&self) -> (r: &Vec<ChannelId>)
        ensures
            r@ == self.members(),
    {
        &self.channels
    }

    /// The reaction.
    pub fn reaction_ref(&self) -> (r: &F)
        ensures
            *r == self.reaction(),
    {
        &self.f
    }
}

/// The member channels of each pattern, in the order of registration.
pub open spec fn members_of<F>(registered: Seq<JoinPattern<F>>) -> Seq<Seq<ChannelId>> {
    Seq::new(registered.len(), |index: int| registered[index].members())
}

/// One firing: the pattern, by its place in the order of registration, and
/// the messages it has taken, one for each of its places.
pub struct Firing<P, S> {
    pub pattern: usize,
    pub arguments: Vec<Message<P, S>>,
}

/// The matching engine over payloads of type `P`, reply slots of type `S`
/// and reactions of type `F`.
pub struct Junction<P, S, F> {
    id: JunctionId,
    capabilities: Vec<Capability>,
    queues: Vec<VecDeque<Message<P, S>>>,
    patterns: Vec<JoinPattern<F>>,
}

impl<P, S, F> Junction<P, S, F> {
    /// The junction's identifier.
    pub closed spec fn junction(&self) -> JunctionId {
        self.id
    }

    /// The capability of each channel, by the channel's identifier.
    pub closed spec fn capabilities(&self) -> Seq<Capability> {
        self.capabilities@
    }

    /// The pending messages: for each channel, by its identifier, those that
    /// arrived and were not taken, oldest first.
    pub closed spec fn pending(&self) -> Seq<Seq<Message<P, S>>> {
        messages_in(self.queues@)
    }

    /// The registered patterns, in the order of registration.
    pub closed spec fn registered(&self) -> Seq<JoinPattern<F>> {
        self.patterns@
    }

    /// The member channels of the registered patterns.
    pub open spec fn patterns(&self) -> Seq<Seq<ChannelId>> {
        members_of(self.registered())
    }

    /// The channel is one that this junction has made.
    pub open spec fn owns(&self, channel: ChannelId) -> bool {
        channel.0 < self.pending().len()
    }

    /// Every channel has its capability and its queue, and every pending
    /// message is of the kind that its channel carries.
    pub open spec fn wf(&self) -> bool {
        fitting(self.pending(), self.capabilities())
    }

    /// A junction with no channel and no pattern.
    pub fn new(id: JunctionId) -> (r: Junction<P, S, F>)
        ensures
            r.wf(),
            r.junction() == id,
            r.capabilities() == Seq::<Capability>::empty(),
            r.pending() == Seq::<Seq<Message<P, S>>>::empty(),
            r.registered() == Seq::<JoinPattern<F>>::empty(),
    {
        let r = Junction {
            id,
            capabilities: Vec::new(),
            queues: Vec::new(),
            patterns: Vec::new(),
        };
        r
    }

    /// Return the junction's ID.
    pub fn junction_id(&self) -> (r: JunctionId)
        ensures
            r == self.junction(),
    {
        self.id
    }

    /// The number of channels made so far.
    pub fn channel_count(&self) -> (r: usize)
        ensures
            r == self.pending().len(),
    {
        self.queues.len()
    }

    /// Whether the channel is one that this junction has made.
    pub fn has_channel(&self, channel: ChannelId) -> (r: bool)
        ensures
            r == self.owns(channel),
    {
        channel.0 < self.queues.len()
    }

    /// What a channel of this junction may be used for.
    pub fn capability(&self, channel: ChannelId) -> (r: Capability)
        requires
            self.wf(),
            self.owns(channel),
        ensures
            r == self.capabilities()[channel.0 as int],
    {
        self.capabilities[channel.0]
    }

    /// The number of messages pending on a channel of this junction.
    pub fn pending_count(&self, channel: ChannelId) -> (r: usize)
        requires
            self.owns(channel),
        ensures
            r == self.pending()[channel.0 as int].len(),
    {
        self.queues[channel.0].len()
    }

    /// The number of patterns registered so far.
    pub fn pattern_count(&self) -> (r: usize)
        ensures
            r == self.registered().len(),
    {
        self.patterns.len()
    }

    /// The pattern registered at the given place.
    pub fn pattern(&self, index: usize) -> (r: &JoinPattern<F>)
        requires
            index < self.registered().len(),
        ensures
            *r == self.registered()[index as int],
    {
        &self.patterns[index]
    }

    /// Make a channel on which values of type `T` are sent. Its identifier
    /// is one that no channel of this junction had before.
    pub fn channel_send<T>(&mut self) -> (r: SendChannel<T>)
        requires
            old(self).wf(),
        ensures
            r.junction() == old(self).junction(),
            r.channel().0 == old(self).pending().len(),
            !old(self).owns(r.channel()),
            final(self).owns(r.channel()),
            final(self).wf(),
            final(self).junction() == old(self).junction(),
            final(self).capabilities() == old(self).capabilities().push(Capability::Send),
            final(self).pending() == old(self).pending().push(Seq::empty()),
            final(self).registered() == old(self).registered(),
    {
        let id = self.open_channel(Capability::Send);
        SendChannel::new(id, self.id)
    }

    /// Make a channel from which values of type `R` are received. Its
    /// identifier is one that no channel of this junction had before.
    pub fn channel_recv<R>(&mut self) -> (r: RecvChannel<R>)
        requires
            old(self).wf(),
        ensures
            r.junction() == old(self).junction(),
            r.channel().0 == old(self).pending().len(),
            !old(self).owns(r.channel()),
            final(self).owns(r.channel()),
            final(self).wf(),
            final(self).junction() == old(self).junction(),
            final(self).capabilities() == old(self).capabilities().push(Capability::Recv),
            final(self).pending() == old(self).pending().push(Seq::empty()),
            final(self).registered() == old(self).registered(),
    {
        let id = self.open_channel(Capability::Recv);
        RecvChannel::new(id, self.id)
    }

    /// Make a channel on which a value of type `T` is sent and one of type
    /// `R` comes back. Its identifier is one that no channel of this
    /// junction had before.
    pub fn channel_bidir<T, R>(&mut self) -> (r: BidirChannel<T, R>)
        requires
            old(self).wf(),
        ensures
            r.junction() == old(self).junction(),
            r.channel().0 == old(self).pending().len(),
            !old(self).owns(r.channel()),
            final(self).owns(r.channel()),
            final(self).wf(),
            final(self).junction() == old(self).junction(),
            final(self).capabilities() == old(self).capabilities().push(Capability::Bidir),
            final(self).pending() == old(self).pending().push(Seq::empty()),
            final(self).registered() == old(self).registered(),
    {
        let id = self.open_channel(Capability::Bidir);
        BidirChannel::new(id, self.id)
    }

    /// Give the next identifier out, note what the channel may be used for
    /// and start its queue, empty.
    fn open_channel(&mut self, capability: Capability) -> (id: ChannelId)
        requires
            old(self).wf(),
        ensures
            id.0 == old(self).pending().len(),
            final(self).wf(),
            final(self).junction() == old(self).junction(),
            final(self).capabilities() == old(self).capabilities().push(capability),
            final(self).pending() == old(self).pending().push(Seq::empty()),
            final(self).registered() == old(self).registered(),
    {
        let id = ChannelId(self.queues.len());
        self.capabilities.push(capability);
        self.queues.push(VecDeque::new());
        assert(self.pending() =~= old(self).pending().push(Seq::empty()));
        id
    }

    /// Start a pattern with a send channel of this junction.
    pub fn when<T>(&self, send_channel: &SendChannel<T>) -> (r: unary::SendPartialPattern<T>)
        requires
            send_channel.junction() == self.junction(),
        ensures
            r.wf(),
            r.junction() == self.junction(),
            r.member().channel() == send_channel.channel(),
            r.member().junction() == send_channel.junction(),
    {
        unary::SendPartialPattern::new(self.id, send_channel.strip())
    }

    /// Start a pattern with a receive channel of this junction.
    pub fn when_recv<R>(&self, recv_channel: &RecvChannel<R>) -> (r: unary::RecvPartialPattern<R>)
        requires
            recv_channel.junction() == self.junction(),
        ensures
            r.junction() == self.junction(),
            r.member().channel() == recv_channel.channel(),
    {
        unary::RecvPartialPattern::new(recv_channel.strip())
    }

    /// Start a pattern with a bidirectional channel of this junction.
    pub fn when_bidir<T, R>(&self, bidir_channel: &BidirChannel<T, R>) -> (r:
        unary::BidirPartialPattern<T, R>)
        requires
            bidir_channel.junction() == self.junction(),
        ensures
            r.junction() == self.junction(),
            r.member().channel() == bidir_channel.channel(),
    {
        unary::BidirPartialPattern::new(bidir_channel.strip())
    }

    /// Register a pattern, behind those registered before. Nothing fires:
    /// the messages that are pending stay where they are, and the pattern
    /// waits for the next arrival on one of its channels.
    pub fn add_join_pattern(&mut self, join_pattern: JoinPattern<F>) -> (index: usize)
        requires
            join_pattern.junction() == old(self).junction(),
        ensures
            index == old(self).registered().len(),
            final(self).registered() == old(self).registered().push(join_pattern),
            final(self).pending() == old(self).pending(),
            final(self).capabilities() == old(self).capabilities(),
            final(self).junction() == old(self).junction(),
            final(self).wf() == old(self).wf(),
    {
        let index = self.patterns.len();
        self.patterns.push(join_pattern);
        index
    }

    /// Take in a message that arrived on a channel of this junction.
    ///
    /// The message is queued behind those pending on the channel. Then the
    /// patterns that name the channel are tried in the order of
    /// registration, and the first one whose channels all hold what it
    /// needs fires: it takes the oldest messages of its channels, and they
    /// are handed out with its place. At most one pattern fires.
    pub fn message_arrived(&mut self, channel: ChannelId, message: Message<P, S>) -> (r: Option<
        Firing<P, S>,
    >)
        requires
            old(self).wf(),
            old(self).owns(channel),
            message.kind() == old(self).capabilities()[channel.0 as int],
        ensures
            final(self).wf(),
            final(self).junction() == old(self).junction(),
            final(self).capabilities() == old(self).capabilities(),
            final(self).registered() == old(self).registered(),
            final(self).pending() == settle(
                old(self).patterns(),
                old(self).pending(),
                channel,
                message,
            ),
            match fired(old(self).patterns(), old(self).pending(), channel, message) {
                Some((index, taken)) => r is Some && r.unwrap().pattern == index
                    && r.unwrap().arguments@ == taken,
                None => r is None,
            },
    {
        proof {
            lemma_settle_fits(
                self.patterns(),
                self.pending(),
                self.capabilities(),
                channel,
                message,
            );
        }
        self.queues[channel.0].push_back(message);
        let ghost queued = self.pending();
        let ghost patterns = self.patterns();
        let mut index: usize = 0;
        while index < self.patterns.len()
            invariant
                index <= self.patterns.len(),
                self.id == old(self).id,
                self.capabilities == old(self).capabilities,
                self.patterns == old(self).patterns,
                self.patterns() == patterns,
                self.pending() == queued,
                queued == arrive(old(self).pending(), channel, message),
                patterns == old(self).patterns(),
                fitting(
                    settle(old(self).patterns(), old(self).pending(), channel, message),
                    old(self).capabilities(),
                ),
                first_match(patterns.take(index as int), channel, queued) is None,
            decreases self.patterns.len() - index,
        {
            let members = self.patterns[index].channels();
            if count_before(members, members.len(), channel) > 0 && is_satisfied(
                members,
                &self.queues,
            ) {
                assert(members@.take(members@.len() as int) =~= members@);
                let arguments = take_arguments(self.patterns[index].channels(), &mut self.queues);
                proof {
                    lemma_first_match_found(patterns, channel, queued, index as int);
                }
                return Some(Firing { pattern: index, arguments });
            }
            proof {
                assert(members@.take(members@.len() as int) =~= members@);
                assert(patterns.take(index + 1).drop_last() =~= patterns.take(index as int));
            }
            index += 1;
        }
        assert(patterns.take(index as int) =~= patterns);
        None
    }

    /// End the junction and hand out the reply slot of every message that
    /// is still pending, channel by channel and oldest first, so that each
    /// caller who waits can be told that no answer will come.
    pub fn shutdown(self) -> (r: Vec<S>)
        ensures
            r@ == outstanding(self.pending()),
    {
        let mut queues = self.queues;
        let ghost before = messages_in(queues@);
        let mut waiting: Vec<S> = Vec::new();
        let mut channel: usize = 0;
        while channel < queues.len()
            invariant
                channel <= queues.len(),
                queues.len() == before.len(),
                forall|later: int|
                    channel <= later < queues.len() ==> (#[trigger] queues@[later])@
                        == before[later],
                waiting@ == outstanding(before.take(channel as int)),
            decreases queues.len() - channel,
        {
            let ghost start = waiting@;
            let ghost queue = before[channel as int];
            let ghost mut seen: int = 0;
            while queues[channel].len() > 0
                invariant
                    channel < queues.len(),
                    queues.len() == before.len(),
                    forall|later: int|
                        channel < later < queues.len() ==> (#[trigger] queues@[later])@
                            == before[later],
                    0 <= seen <= queue.len(),
                    queues@[channel as int]@ == queue.skip(seen),
                    waiting@ == start + slots(queue.take(seen)),
                decreases queues@[channel as int]@.len(),
            {
                let message = queues[channel].pop_front().unwrap();
                let (_, slot) = message.into_parts();
                if let Some(slot) = slot {
                    waiting.push(slot);
                }
                proof {
                    assert(queue.take(seen + 1).drop_last() =~= queue.take(seen));
                    seen = seen + 1;
                }
            }
            proof {
                assert(queue.take(seen) =~= queue);
                assert(before.take(channel + 1).drop_last() =~= before.take(channel as int));
            }
            channel += 1;
        }
        assert(before.take(channel as int) =~= before);
        waiting
    }
}

} // verus!

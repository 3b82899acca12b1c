//! The matching rules: when a pattern can fire, which messages it takes,
//! and which of several patterns goes first.
//!
//! Pending messages are modelled as one sequence per channel, oldest
//! first, at the place that the channel's identifier gives. A pattern is the
//! sequence of its member channels, in the order of the reaction's
//! arguments; a channel may stand in several places of one pattern and then
//! gives one message to each of them.

use vstd::prelude::*;
use std::collections::VecDeque;
use crate::ids::ChannelId;

verus! {

/// The number of places at which the pattern names the channel.
pub open spec fn occurrences(members: Seq<ChannelId>, channel: int) -> nat
    decreases members.len(),
{
    if members.len() == 0 {
        0
    } else {
        occurrences(members.drop_last(), channel) + if members.last().0 == channel {
            1nat
        } else {
            0nat
        }
    }
}

/// The number of messages pending on the channel; none on a channel that
/// was never made.
pub open spec fn pending_on<M>(queues: Seq<Seq<M>>, channel: int) -> nat {
    if 0 <= channel < queues.len() {
        queues[channel].len()
    } else {
        0
    }
}

/// Every member channel holds a pending message for each place at which
/// the pattern names it.
pub open spec fn satisfied<M>(members: Seq<ChannelId>, queues: Seq<Seq<M>>) -> bool {
    forall|channel: int| #[trigger] occurrences(members, channel) <= pending_on(queues, channel)
}

/// The pattern names the channel and is satisfied: an arrival on the
/// channel may fire it.
pub open spec fn eligible<M>(
    members: Seq<ChannelId>,
    channel: ChannelId,
    queues: Seq<Seq<M>>,
) -> bool {
    occurrences(members, channel.0 as int) > 0 && satisfied(members, queues)
}

/// The pattern that an arrival on the channel fires: the eligible one that
/// was registered first, if there is any.
pub open spec fn first_match<M>(
    patterns: Seq<Seq<ChannelId>>,
    channel: ChannelId,
    queues: Seq<Seq<M>>,
) -> Option<int>
    decreases patterns.len(),
{
    if patterns.len() == 0 {
        None
    } else {
        match first_match(patterns.drop_last(), channel, queues) {
            Some(i) => Some(i),
            None => if eligible(patterns.last(), channel, queues) {
                Some(patterns.len() - 1)
            } else {
                None
            },
        }
    }
}

/// The place in its channel's queue of the message that goes to the
/// pattern's `place`: as many places further back as the pattern names the
/// channel before `place`.
pub open spec fn source(members: Seq<ChannelId>, place: int) -> int {
    occurrences(members.take(place), members[place].0 as int) as int
}

/// The messages that a firing of the pattern takes, in the order of the
/// pattern's places.
pub open spec fn arguments<M>(members: Seq<ChannelId>, queues: Seq<Seq<M>>) -> Seq<M> {
    Seq::new(members.len(), |place: int| queues[members[place].0 as int][source(members, place)])
}

/// The queues after a firing of the pattern: each channel has lost, from
/// the front, one message for each place at which the pattern names it.
pub open spec fn consume<M>(members: Seq<ChannelId>, queues: Seq<Seq<M>>) -> Seq<Seq<M>> {
    Seq::new(queues.len(), |channel: int| queues[channel].skip(occurrences(members, channel) as int))
}

/// The queues after a message has arrived on the channel: the message
/// stands last in the channel's queue.
pub open spec fn arrive<M>(queues: Seq<Seq<M>>, channel: ChannelId, message: M) -> Seq<Seq<M>> {
    queues.update(channel.0 as int, queues[channel.0 as int].push(message))
}

/// The queues that an arrival leaves behind: the message is queued, and the
/// pattern that the arrival fires, if any, has taken its messages.
pub open spec fn settle<M>(
    patterns: Seq<Seq<ChannelId>>,
    queues: Seq<Seq<M>>,
    channel: ChannelId,
    message: M,
) -> Seq<Seq<M>> {
    let queued = arrive(queues, channel, message);
    match first_match(patterns, channel, queued) {
        Some(i) => consume(patterns[i], queued),
        None => queued,
    }
}

/// What an arrival fires: the pattern's place in the order of registration
/// and the messages it takes; nothing where no pattern is eligible.
pub open spec fn fired<M>(
    patterns: Seq<Seq<ChannelId>>,
    queues: Seq<Seq<M>>,
    channel: ChannelId,
    message: M,
) -> Option<(int, Seq<M>)> {
    let queued = arrive(queues, channel, message);
    match first_match(patterns, channel, queued) {
        Some(i) => Some((i, arguments(patterns[i], queued))),
        None => None,
    }
}

/// A longer prefix of a pattern names a channel at least as often.
pub proof fn lemma_occurrences_prefix(members: Seq<ChannelId>, end: int, channel: int)
    requires
        0 <= end <= members.len(),
    ensures
        occurrences(members.take(end), channel) <= occurrences(members, channel),
    decreases members.len() - end,
{
    if end == members.len() {
        assert(members.take(end) =~= members);
    } else {
        lemma_occurrences_prefix(members, end + 1, channel);
        assert(members.take(end + 1).drop_last() =~= members.take(end));
    }
}

/// One place more of a pattern names that place's channel once more, and
/// every other channel as often as before.
pub proof fn lemma_occurrences_step(members: Seq<ChannelId>, place: int, channel: int)
    requires
        0 <= place < members.len(),
    ensures
        occurrences(members.take(place + 1), channel) == occurrences(members.take(place), channel)
            + if members[place].0 == channel {
            1nat
        } else {
            0nat
        },
{
    assert(members.take(place + 1).drop_last() =~= members.take(place));
}

/// A pattern names only its members: a channel that it names stands at one
/// of its places.
pub proof fn lemma_occurrences_member(members: Seq<ChannelId>, channel: int) -> (place: int)
    requires
        occurrences(members, channel) > 0,
    ensures
        0 <= place < members.len(),
        members[place].0 == channel,
    decreases members.len(),
{
    if members.last().0 == channel {
        members.len() - 1
    } else {
        lemma_occurrences_member(members.drop_last(), channel)
    }
}

/// A channel that stands at one of the pattern's places is named by it.
pub proof fn lemma_member_occurs(members: Seq<ChannelId>, place: int)
    requires
        0 <= place < members.len(),
    ensures
        occurrences(members, members[place].0 as int) > source(members, place),
{
    lemma_occurrences_step(members, place, members[place].0 as int);
    lemma_occurrences_prefix(members, place + 1, members[place].0 as int);
}

/// The pattern that fires is eligible, and no pattern registered before it
/// is; where none fires, none is eligible.
pub proof fn lemma_first_match_is_earliest<M>(
    patterns: Seq<Seq<ChannelId>>,
    channel: ChannelId,
    queues: Seq<Seq<M>>,
)
    ensures
        match first_match(patterns, channel, queues) {
            Some(i) => {
                &&& 0 <= i < patterns.len()
                &&& eligible(patterns[i], channel, queues)
                &&& forall|earlier: int|
                    0 <= earlier < i ==> !eligible(#[trigger] patterns[earlier], channel, queues)
            },
            None => forall|any: int|
                0 <= any < patterns.len() ==> !eligible(#[trigger] patterns[any], channel, queues),
        },
    decreases patterns.len(),
{
    if patterns.len() > 0 {
        lemma_first_match_is_earliest(patterns.drop_last(), channel, queues);
        assert forall|at: int| 0 <= at < patterns.len() - 1 implies #[trigger] patterns[at]
            == patterns.drop_last()[at] by {}
    }
}

/// Where no pattern before `index` is eligible and the one at `index` is,
/// that one fires.
pub proof fn lemma_first_match_found<M>(
    patterns: Seq<Seq<ChannelId>>,
    channel: ChannelId,
    queues: Seq<Seq<M>>,
    index: int,
)
    requires
        0 <= index < patterns.len(),
        first_match(patterns.take(index), channel, queues) is None,
        eligible(patterns[index], channel, queues),
    ensures
        first_match(patterns, channel, queues) == Some(index),
    decreases patterns.len(),
{
    if index == patterns.len() - 1 {
    } else {
        assert(patterns.drop_last().take(index) =~= patterns.take(index));
        lemma_first_match_found(patterns.drop_last(), channel, queues, index);
    }
}

/// The pending messages that the queues hold, channel by channel.
pub open spec fn messages_in<M>(queues: Seq<VecDeque<M>>) -> Seq<Seq<M>> {
    Seq::new(queues.len(), |channel: int| queues[channel]@)
}

/// Count the places before `end` at which the pattern names the channel.
pub(crate) fn count_before(members: &Vec<ChannelId>, end: usize, channel: ChannelId) -> (count:
    usize)
    requires
        end <= members.len(),
    ensures
        count == occurrences(members@.take(end as int), channel.0 as int),
{
    let mut count: usize = 0;
    let mut place: usize = 0;
    while place < end
        invariant
            place <= end <= members.len(),
            count <= place,
            count == occurrences(members@.take(place as int), channel.0 as int),
        decreases end - place,
    {
        proof {
            lemma_occurrences_step(members@, place as int, channel.0 as int);
        }
        if members[place].0 == channel.0 {
            count += 1;
        }
        place += 1;
    }
    count
}

/// Decide whether every member channel holds enough pending messages for
/// the pattern to fire.
pub(crate) fn is_satisfied<M>(members: &Vec<ChannelId>, queues: &Vec<VecDeque<M>>) -> (r: bool)
    ensures
        r == satisfied(members@, messages_in(queues@)),
{
    let mut place: usize = 0;
    while place < members.len()
        invariant
            place <= members.len(),
            satisfied(members@.take(place as int), messages_in(queues@)),
        decreases members.len() - place,
    {
        let channel = members[place];
        let earlier = count_before(members, place, channel);
        proof {
            lemma_member_occurs(members@, place as int);
        }
        if channel.0 >= queues.len() {
            return false;
        }
        if queues[channel.0].len() <= earlier {
            return false;
        }
        proof {
            assert forall|other: int|
                #[trigger] occurrences(members@.take(place + 1), other) <= pending_on(
                    messages_in(queues@),
                    other,
                ) by {
                lemma_occurrences_step(members@, place as int, other);
            }
        }
        place += 1;
    }
    assert(members@.take(place as int) =~= members@);
    true
}

/// Take from the queues the messages of one firing of the pattern: for
/// each place, the oldest message of its channel that no earlier place took.
pub(crate) fn take_arguments<M>(members: &Vec<ChannelId>, queues: &mut Vec<VecDeque<M>>) -> (args:
    Vec<M>)
    requires
        satisfied(members@, messages_in(old(queues)@)),
    ensures
        args@ == arguments(members@, messages_in(old(queues)@)),
        messages_in(final(queues)@) == consume(members@, messages_in(old(queues)@)),
{
    let ghost before = messages_in(queues@);
    let mut args: Vec<M> = Vec::new();
    let mut place: usize = 0;
    while place < members.len()
        invariant
            place <= members.len(),
            satisfied(members@, before),
            queues.len() == before.len(),
            args.len() == place,
            forall|taken: int|
                0 <= taken < place ==> args@[taken] == before[members@[taken].0 as int][source(
                    members@,
                    taken,
                )],
            forall|channel: int|
                0 <= channel < before.len() ==> (#[trigger] queues@[channel])@
                    == before[channel].skip(
                    occurrences(members@.take(place as int), channel) as int,
                ),
        decreases members.len() - place,
    {
        let channel = members[place];
        proof {
            lemma_member_occurs(members@, place as int);
        }
        let message = queues[channel.0].pop_front().unwrap();
        args.push(message);
        proof {
            assert forall|other: int| 0 <= other < before.len() implies (#[trigger] queues@[other])@
                == before[other].skip(occurrences(members@.take(place + 1), other) as int) by {
                lemma_occurrences_step(members@, place as int, other);
            }
        }
        place += 1;
    }
    proof {
        assert(members@.take(place as int) =~= members@);
    }
    args
}

} // verus!

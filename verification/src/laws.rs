//! What holds of the matching rules, whatever the patterns and whatever
//! arrives.

use vstd::prelude::*;
use vstd::multiset::Multiset;
use crate::channels::Capability;
use crate::ids::ChannelId;
use crate::matching::{
    arguments, arrive, consume, eligible, fired, first_match, lemma_first_match_is_earliest,
    lemma_member_occurs, lemma_occurrences_member, lemma_occurrences_prefix, occurrences,
    pending_on, satisfied, settle, source,
};
use crate::message::{fitting, outstanding, slots, Message};

verus! {

/// All pending messages, of every channel together.
pub open spec fn all_messages<M>(queues: Seq<Seq<M>>) -> Multiset<M>
    decreases queues.len(),
{
    if queues.len() == 0 {
        Multiset::empty()
    } else {
        all_messages(queues.drop_last()).add(queues.last().to_multiset())
    }
}

/// Replacing one channel's queue exchanges that queue's messages for the
/// new ones and leaves the rest.
pub proof fn lemma_all_messages_update<M>(queues: Seq<Seq<M>>, channel: int, queue: Seq<M>)
    requires
        0 <= channel < queues.len(),
    ensures
        all_messages(queues.update(channel, queue)).add(queues[channel].to_multiset())
            =~= all_messages(queues).add(queue.to_multiset()),
    decreases queues.len(),
{
    let updated = queues.update(channel, queue);
    let rest = queues.drop_last();
    if channel == queues.len() - 1 {
        assert(updated.drop_last() =~= rest);
    } else {
        assert(updated.drop_last() =~= rest.update(channel, queue));
        lemma_all_messages_update(rest, channel, queue);
        let left = all_messages(rest.update(channel, queue)).add(rest[channel].to_multiset());
        let right = all_messages(rest).add(queue.to_multiset());
        assert forall|message: M|
            all_messages(updated).add(queues[channel].to_multiset()).count(message)
                == all_messages(queues).add(queue.to_multiset()).count(message) by {
            assert(left.count(message) == right.count(message));
        }
    }
}

/// A queue's messages are its oldest message and those behind it.
pub proof fn lemma_oldest_and_rest<M>(queue: Seq<M>)
    requires
        queue.len() > 0,
    ensures
        queue.to_multiset() =~= queue.skip(1).to_multiset().insert(queue[0]),
{
    broadcast use vstd::seq_lib::group_to_multiset_ensures;

    assert(queue.remove(0) =~= queue.skip(1));
}

/// An arrival adds the message to what is pending and nothing else.
pub proof fn lemma_arrive_adds_message<M>(queues: Seq<Seq<M>>, channel: ChannelId, message: M)
    requires
        channel.0 < queues.len(),
    ensures
        all_messages(arrive(queues, channel, message)) =~= all_messages(queues).insert(message),
{
    broadcast use vstd::seq_lib::group_to_multiset_ensures;

    let queue = queues[channel.0 as int];
    lemma_all_messages_update(queues, channel.0 as int, queue.push(message));
    let left = all_messages(arrive(queues, channel, message)).add(queue.to_multiset());
    let right = all_messages(queues).add(queue.push(message).to_multiset());
    assert forall|other: M|
        all_messages(arrive(queues, channel, message)).count(other) == all_messages(
            queues,
        ).insert(message).count(other) by {
        assert(left.count(other) == right.count(other));
    }
}

/// A satisfied pattern is satisfied in each of its prefixes.
pub proof fn lemma_satisfied_prefix<M>(members: Seq<ChannelId>, queues: Seq<Seq<M>>, end: int)
    requires
        satisfied(members, queues),
        0 <= end <= members.len(),
    ensures
        satisfied(members.take(end), queues),
{
    assert forall|channel: int| #[trigger]
        occurrences(members.take(end), channel) <= pending_on(queues, channel) by {
        lemma_occurrences_prefix(members, end, channel);
    }
}

/// A firing moves messages and neither makes nor loses any: what it takes
/// and what it leaves pending are together what was pending before.
pub proof fn lemma_firing_conserves_messages<M>(members: Seq<ChannelId>, queues: Seq<Seq<M>>)
    requires
        satisfied(members, queues),
    ensures
        all_messages(consume(members, queues)).add(arguments(members, queues).to_multiset())
            =~= all_messages(queues),
    decreases members.len(),
{
    broadcast use vstd::seq_lib::group_to_multiset_ensures;

    if members.len() == 0 {
        assert(consume(members, queues) =~= queues) by {
            assert forall|channel: int| 0 <= channel < queues.len() implies consume(
                members,
                queues,
            )[channel] =~= queues[channel] by {}
        }
    } else {
        let init = members.drop_last();
        let channel = members.last().0 as int;
        let earlier = occurrences(init, channel) as int;
        lemma_satisfied_prefix(members, queues, members.len() - 1);
        lemma_firing_conserves_messages(init, queues);
        assert(occurrences(members, channel) <= pending_on(queues, channel));
        let before = consume(init, queues);
        let after = consume(members, queues);
        let oldest = queues[channel][earlier];
        assert(after =~= before.update(channel, before[channel].skip(1))) by {
            assert forall|other: int| 0 <= other < queues.len() implies after[other]
                =~= before.update(channel, before[channel].skip(1))[other] by {}
        }
        assert(arguments(members, queues) =~= arguments(init, queues).push(oldest)) by {
            assert forall|place: int| 0 <= place < members.len() - 1 implies source(members, place)
                == source(init, place) by {
                assert(init.take(place) =~= members.take(place));
            }
        }
        lemma_all_messages_update(before, channel, before[channel].skip(1));
        lemma_oldest_and_rest(before[channel]);
        let left = all_messages(after).add(before[channel].to_multiset());
        let right = all_messages(before).add(before[channel].skip(1).to_multiset());
        assert forall|message: M|
            all_messages(after).add(arguments(members, queues).to_multiset()).count(message)
                == all_messages(queues).count(message) by {
            assert(left.count(message) == right.count(message));
        }
    }
}

/// What an arrival fires, as the messages taken; none where nothing fires.
pub open spec fn taken<M>(
    patterns: Seq<Seq<ChannelId>>,
    queues: Seq<Seq<M>>,
    channel: ChannelId,
    message: M,
) -> Multiset<M> {
    match fired(patterns, queues, channel, message) {
        Some((_, arguments)) => arguments.to_multiset(),
        None => Multiset::empty(),
    }
}

/// Every message is accounted for once: after an arrival, the messages
/// still pending and the messages handed to the firing are together the
/// messages pending before and the one that arrived. So a message that a
/// firing took is pending no more, and no later firing can take it.
pub proof fn lemma_arrival_conserves_messages<M>(
    patterns: Seq<Seq<ChannelId>>,
    queues: Seq<Seq<M>>,
    channel: ChannelId,
    message: M,
)
    requires
        channel.0 < queues.len(),
    ensures
        all_messages(settle(patterns, queues, channel, message)).add(
            taken(patterns, queues, channel, message),
        ) =~= all_messages(queues).insert(message),
{
    let queued = arrive(queues, channel, message);
    lemma_arrive_adds_message(queues, channel, message);
    lemma_first_match_is_earliest(patterns, channel, queued);
    if let Some(index) = first_match(patterns, channel, queued) {
        lemma_firing_conserves_messages(patterns[index], queued);
    }
}

/// The queues after a run of arrivals, each settled before the next.
pub open spec fn settle_all<M>(
    patterns: Seq<Seq<ChannelId>>,
    queues: Seq<Seq<M>>,
    arrivals: Seq<(ChannelId, M)>,
) -> Seq<Seq<M>>
    decreases arrivals.len(),
{
    if arrivals.len() == 0 {
        queues
    } else {
        settle(
            patterns,
            settle_all(patterns, queues, arrivals.drop_last()),
            arrivals.last().0,
            arrivals.last().1,
        )
    }
}

/// The messages handed to firings in the course of a run of arrivals.
pub open spec fn taken_all<M>(
    patterns: Seq<Seq<ChannelId>>,
    queues: Seq<Seq<M>>,
    arrivals: Seq<(ChannelId, M)>,
) -> Multiset<M>
    decreases arrivals.len(),
{
    if arrivals.len() == 0 {
        Multiset::empty()
    } else {
        taken_all(patterns, queues, arrivals.drop_last()).add(
            taken(
                patterns,
                settle_all(patterns, queues, arrivals.drop_last()),
                arrivals.last().0,
                arrivals.last().1,
            ),
        )
    }
}

/// The messages that a run of arrivals brings.
pub open spec fn arrived<M>(arrivals: Seq<(ChannelId, M)>) -> Multiset<M>
    decreases arrivals.len(),
{
    if arrivals.len() == 0 {
        Multiset::empty()
    } else {
        arrived(arrivals.drop_last()).insert(arrivals.last().1)
    }
}

/// Over any run of arrivals every message is accounted for once: the
/// messages pending at the end and the messages handed to firings on the
/// way are together the messages pending at the start and those that
/// arrived. No message is handed out twice, and none is lost.
pub proof fn lemma_run_conserves_messages<M>(
    patterns: Seq<Seq<ChannelId>>,
    queues: Seq<Seq<M>>,
    arrivals: Seq<(ChannelId, M)>,
)
    requires
        forall|at: int| 0 <= at < arrivals.len() ==> (#[trigger] arrivals[at]).0.0 < queues.len(),
    ensures
        settle_all(patterns, queues, arrivals).len() == queues.len(),
        all_messages(settle_all(patterns, queues, arrivals)).add(
            taken_all(patterns, queues, arrivals),
        ) =~= all_messages(queues).add(arrived(arrivals)),
    decreases arrivals.len(),
{
    if arrivals.len() > 0 {
        let earlier = arrivals.drop_last();
        let (channel, message) = arrivals.last();
        lemma_run_conserves_messages(patterns, queues, earlier);
        let reached = settle_all(patterns, queues, earlier);
        lemma_arrival_conserves_messages(patterns, reached, channel, message);
        let step_left = all_messages(settle(patterns, reached, channel, message)).add(
            taken(patterns, reached, channel, message),
        );
        let step_right = all_messages(reached).insert(message);
        let run_left = all_messages(reached).add(taken_all(patterns, queues, earlier));
        let run_right = all_messages(queues).add(arrived(earlier));
        assert forall|other: M|
            all_messages(settle_all(patterns, queues, arrivals)).add(
                taken_all(patterns, queues, arrivals),
            ).count(other) == all_messages(queues).add(arrived(arrivals)).count(other) by {
            assert(step_left.count(other) == step_right.count(other));
            assert(run_left.count(other) == run_right.count(other));
        }
    }
}

/// Two places of a pattern never take the same pending message: where they
/// name the same channel, the later place takes a later message.
pub proof fn lemma_places_take_distinct_messages(members: Seq<ChannelId>, first: int, second: int)
    requires
        0 <= first < second < members.len(),
        members[first] == members[second],
    ensures
        source(members, first) < source(members, second),
{
    let upto = members.take(second);
    assert(upto.take(first) =~= members.take(first));
    lemma_member_occurs(upto, first);
}

/// A firing is complete: the pattern that fires is satisfied, it takes
/// exactly one message for each of its places, and the message of a place
/// was pending on that place's channel when the pattern fired.
pub proof fn lemma_firing_is_complete<M>(
    patterns: Seq<Seq<ChannelId>>,
    queues: Seq<Seq<M>>,
    channel: ChannelId,
    message: M,
)
    requires
        channel.0 < queues.len(),
        fired(patterns, queues, channel, message) is Some,
    ensures
        ({
            let queued = arrive(queues, channel, message);
            let (index, taken) = fired(patterns, queues, channel, message).unwrap();
            let members = patterns[index];
            &&& 0 <= index < patterns.len()
            &&& satisfied(members, queued)
            &&& occurrences(members, channel.0 as int) > 0
            &&& taken.len() == members.len()
            &&& forall|place: int|
                #![trigger taken[place]]
                0 <= place < members.len() ==> {
                    &&& members[place].0 < queued.len()
                    &&& 0 <= source(members, place) < queued[members[place].0 as int].len()
                    &&& taken[place] == queued[members[place].0 as int][source(members, place)]
                }
        }),
{
    let queued = arrive(queues, channel, message);
    lemma_first_match_is_earliest(patterns, channel, queued);
    let members = patterns[first_match(patterns, channel, queued).unwrap()];
    assert forall|place: int| 0 <= place < members.len() implies {
        &&& members[place].0 < queued.len()
        &&& 0 <= source(members, place) < queued[members[place].0 as int].len()
    } by {
        lemma_member_occurs(members, place);
    }
}

/// No match is lost: where the arrival leaves a pattern eligible, a
/// pattern fires.
pub proof fn lemma_no_lost_match<M>(
    patterns: Seq<Seq<ChannelId>>,
    queues: Seq<Seq<M>>,
    channel: ChannelId,
    message: M,
    index: int,
)
    requires
        0 <= index < patterns.len(),
        eligible(patterns[index], channel, arrive(queues, channel, message)),
    ensures
        fired(patterns, queues, channel, message) is Some,
        fired(patterns, queues, channel, message).unwrap().0 <= index,
{
    lemma_first_match_is_earliest(patterns, channel, arrive(queues, channel, message));
}

/// Of two patterns that an arrival leaves eligible, the one registered
/// later does not fire.
pub proof fn lemma_first_registered_fires<M>(
    patterns: Seq<Seq<ChannelId>>,
    queues: Seq<Seq<M>>,
    channel: ChannelId,
    message: M,
    first: int,
    second: int,
)
    requires
        0 <= first < second < patterns.len(),
        eligible(patterns[first], channel, arrive(queues, channel, message)),
        eligible(patterns[second], channel, arrive(queues, channel, message)),
    ensures
        fired(patterns, queues, channel, message) is Some,
        fired(patterns, queues, channel, message).unwrap().0 != second,
        (forall|earlier: int|
            0 <= earlier < first ==> !eligible(
                #[trigger] patterns[earlier],
                channel,
                arrive(queues, channel, message),
            )) ==> fired(patterns, queues, channel, message).unwrap().0 == first,
{
    lemma_first_match_is_earliest(patterns, channel, arrive(queues, channel, message));
}

/// A pattern registered behind the others changes nothing for them: where
/// one of them fires, it still fires. The late pattern fires on an arrival
/// only where none of the others is eligible and it is.
pub proof fn lemma_late_pattern_waits_its_turn<M>(
    patterns: Seq<Seq<ChannelId>>,
    late: Seq<ChannelId>,
    queues: Seq<Seq<M>>,
    channel: ChannelId,
    message: M,
)
    ensures
        fired(patterns.push(late), queues, channel, message) == match fired(
            patterns,
            queues,
            channel,
            message,
        ) {
            Some(firing) => Some(firing),
            None => if eligible(late, channel, arrive(queues, channel, message)) {
                Some((patterns.len() as int, arguments(late, arrive(queues, channel, message))))
            } else {
                None
            },
        },
{
    assert(patterns.push(late).drop_last() =~= patterns);
    lemma_first_match_is_earliest(patterns, channel, arrive(queues, channel, message));
}

/// A pattern of one place names its channel once and no other.
pub proof fn lemma_occurrences_single(channel: ChannelId, other: int)
    ensures
        occurrences(seq![channel], other) == if other == channel.0 {
            1nat
        } else {
            0nat
        },
{
    assert(seq![channel].drop_last() =~= Seq::<ChannelId>::empty());
    assert(occurrences(Seq::<ChannelId>::empty(), other) == 0);
}

/// First in, first out. On a channel with nothing pending, whose patterns
/// wait for that channel alone, a message fires a pattern at once and is
/// the one message taken; the queues are then as they were, so that the
/// next message fires the same pattern and is taken in its turn.
pub proof fn lemma_single_channel_fifo<M>(
    patterns: Seq<Seq<ChannelId>>,
    queues: Seq<Seq<M>>,
    channel: ChannelId,
    first: M,
    second: M,
)
    requires
        channel.0 < queues.len(),
        queues[channel.0 as int].len() == 0,
        exists|index: int| 0 <= index < patterns.len() && #[trigger] patterns[index] == seq![channel],
        forall|index: int|
            0 <= index < patterns.len() && occurrences(
                #[trigger] patterns[index],
                channel.0 as int,
            ) > 0 ==> patterns[index] == seq![channel],
    ensures
        fired(patterns, queues, channel, first) is Some,
        fired(patterns, queues, channel, first).unwrap().1 == seq![first],
        settle(patterns, queues, channel, first) == queues,
        fired(patterns, settle(patterns, queues, channel, first), channel, second) is Some,
        fired(patterns, settle(patterns, queues, channel, first), channel, second).unwrap().1
            == seq![second],
        fired(patterns, settle(patterns, queues, channel, first), channel, second).unwrap().0
            == fired(patterns, queues, channel, first).unwrap().0,
{
    lemma_alone_on_empty_channel(patterns, queues, channel, first);
    lemma_alone_on_empty_channel(patterns, queues, channel, second);
}

/// On a channel with nothing pending, whose patterns wait for that channel
/// alone, an arrival fires the first of them with the message that arrived
/// and leaves the queues as they were.
pub proof fn lemma_alone_on_empty_channel<M>(
    patterns: Seq<Seq<ChannelId>>,
    queues: Seq<Seq<M>>,
    channel: ChannelId,
    message: M,
)
    requires
        channel.0 < queues.len(),
        queues[channel.0 as int].len() == 0,
        exists|index: int| 0 <= index < patterns.len() && #[trigger] patterns[index] == seq![channel],
        forall|index: int|
            0 <= index < patterns.len() && occurrences(
                #[trigger] patterns[index],
                channel.0 as int,
            ) > 0 ==> patterns[index] == seq![channel],
    ensures
        fired(patterns, queues, channel, message) is Some,
        fired(patterns, queues, channel, message).unwrap().1 == seq![message],
        settle(patterns, queues, channel, message) == queues,
        ({
            let index = fired(patterns, queues, channel, message).unwrap().0;
            &&& 0 <= index < patterns.len()
            &&& patterns[index] == seq![channel]
            &&& forall|earlier: int|
                0 <= earlier < index ==> occurrences(
                    #[trigger] patterns[earlier],
                    channel.0 as int,
                ) == 0
        }),
{
    let queued = arrive(queues, channel, message);
    let alone = seq![channel];
    assert(satisfied(alone, queued)) by {
        assert forall|other: int| #[trigger] occurrences(alone, other) <= pending_on(queued, other) by {
            lemma_occurrences_single(channel, other);
        }
    }
    lemma_first_match_is_earliest(patterns, channel, queued);
    assert(consume(alone, queued) =~= queues) by {
        assert forall|other: int| 0 <= other < queues.len() implies consume(alone, queued)[other]
            =~= queues[other] by {
            lemma_occurrences_single(channel, other);
        }
    }
}

/// No channel stands at two places of the pattern.
pub open spec fn without_repeats(members: Seq<ChannelId>) -> bool {
    forall|first: int, second: int|
        0 <= first < second < members.len() ==> members[first] != members[second]
}

/// A pattern without repeats names each channel at most once.
pub proof fn lemma_named_at_most_once(members: Seq<ChannelId>, channel: int)
    requires
        without_repeats(members),
    ensures
        occurrences(members, channel) <= 1,
    decreases members.len(),
{
    if members.len() > 0 {
        let init = members.drop_last();
        lemma_named_at_most_once(init, channel);
        if members.last().0 == channel && occurrences(init, channel) > 0 {
            lemma_occurrences_member(init, channel);
        }
    }
}

/// For a pattern without repeats, to be satisfied is to find at least one
/// message pending on every member channel.
pub proof fn lemma_satisfied_without_repeats<M>(members: Seq<ChannelId>, queues: Seq<Seq<M>>)
    requires
        without_repeats(members),
    ensures
        satisfied(members, queues) <==> forall|place: int|
            0 <= place < members.len() ==> pending_on(queues, (#[trigger] members[place]).0 as int)
                >= 1,
{
    if satisfied(members, queues) {
        assert forall|place: int| 0 <= place < members.len() implies pending_on(
            queues,
            (#[trigger] members[place]).0 as int,
        ) >= 1 by {
            lemma_member_occurs(members, place);
        }
    }
    if forall|place: int|
        0 <= place < members.len() ==> pending_on(queues, (#[trigger] members[place]).0 as int)
            >= 1 {
        assert forall|channel: int| #[trigger]
            occurrences(members, channel) <= pending_on(queues, channel) by {
            lemma_named_at_most_once(members, channel);
            if occurrences(members, channel) > 0 {
                lemma_occurrences_member(members, channel);
            }
        }
    }
}

/// A firing hands each place a message of the kind that the place's
/// channel carries: a payload where the channel takes one, a reply slot
/// where a caller waits.
pub proof fn lemma_arguments_fit<P, S>(
    members: Seq<ChannelId>,
    queues: Seq<Seq<Message<P, S>>>,
    capabilities: Seq<Capability>,
    place: int,
)
    requires
        fitting(queues, capabilities),
        satisfied(members, queues),
        0 <= place < members.len(),
    ensures
        members[place].0 < capabilities.len(),
        arguments(members, queues)[place].kind() == capabilities[members[place].0 as int],
        arguments(members, queues)[place].slot() is Some <==> capabilities[members[place].0 as int]
            != Capability::Send,
{
    lemma_member_occurs(members, place);
}

/// The reply slot of a queue's message is among the queue's slots.
pub proof fn lemma_slot_is_kept<P, S>(queue: Seq<Message<P, S>>, at: int)
    requires
        0 <= at < queue.len(),
        queue[at].slot() is Some,
    ensures
        slots(queue).contains(queue[at].slot().unwrap()),
    decreases queue.len(),
{
    let rest = slots(queue.drop_last());
    if at == queue.len() - 1 {
        assert(slots(queue)[rest.len() as int] == queue[at].slot().unwrap());
    } else {
        lemma_slot_is_kept(queue.drop_last(), at);
        let found = choose|found: int|
            0 <= found < rest.len() && rest[found] == queue[at].slot().unwrap();
        match queue.last().slot() {
            Some(slot) => {
                assert(slots(queue)[found] == rest[found]);
            },
            None => {},
        }
    }
}

/// Nobody is left waiting: the reply slot of every pending message is
/// among those that a shutdown hands out.
pub proof fn lemma_waiting_callers_are_outstanding<P, S>(
    queues: Seq<Seq<Message<P, S>>>,
    channel: int,
    at: int,
)
    requires
        0 <= channel < queues.len(),
        0 <= at < queues[channel].len(),
        queues[channel][at].slot() is Some,
    ensures
        outstanding(queues).contains(queues[channel][at].slot().unwrap()),
    decreases queues.len(),
{
    let slot = queues[channel][at].slot().unwrap();
    let earlier = outstanding(queues.drop_last());
    let last = slots(queues.last());
    if channel == queues.len() - 1 {
        lemma_slot_is_kept(queues.last(), at);
        let found = choose|found: int| 0 <= found < last.len() && last[found] == slot;
        assert(outstanding(queues)[earlier.len() + found] == slot);
    } else {
        lemma_waiting_callers_are_outstanding(queues.drop_last(), channel, at);
        let found = choose|found: int| 0 <= found < earlier.len() && earlier[found] == slot;
        assert(outstanding(queues)[found] == slot);
    }
}

/// On a channel that answers, every pending message has a caller waiting,
/// and a shutdown hands that caller's reply slot out.
pub proof fn lemma_shutdown_reaches_every_receiver<P, S>(
    queues: Seq<Seq<Message<P, S>>>,
    capabilities: Seq<Capability>,
    channel: int,
    at: int,
)
    requires
        fitting(queues, capabilities),
        0 <= channel < queues.len(),
        capabilities[channel] != Capability::Send,
        0 <= at < queues[channel].len(),
    ensures
        queues[channel][at].slot() is Some,
        outstanding(queues).contains(queues[channel][at].slot().unwrap()),
{
    lemma_waiting_callers_are_outstanding(queues, channel, at);
}

} // verus!

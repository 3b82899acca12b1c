use junctions::channels::Capability;
use junctions::ids::{ChannelId, JunctionId};
use junctions::junction::{JoinPattern, Junction};
use junctions::message::Message;

fn double(x: i64) -> i64 {
    x * 2
}

fn sent(payload: u32) -> Message<u32, &'static str> {
    Message::Sent(payload)
}

#[test]
fn new_junction_is_empty() {
    let junction: Junction<u32, u32, u8> = Junction::new(JunctionId(11));
    assert_eq!(junction.junction_id(), JunctionId(11));
    assert_eq!(junction.channel_count(), 0);
    assert_eq!(junction.pattern_count(), 0);
    assert!(junction.shutdown().is_empty());
}

#[test]
fn junction_notes_the_capability_of_each_channel() {
    let mut junction: Junction<u32, u32, u8> = Junction::new(JunctionId(11));
    let a = junction.channel_bidir::<u32, u32>();
    let b = junction.channel_send::<u32>();
    let c = junction.channel_recv::<u32>();
    assert_eq!(junction.capability(a.id()), Capability::Bidir);
    assert_eq!(junction.capability(b.id()), Capability::Send);
    assert_eq!(junction.capability(c.id()), Capability::Recv);
}

#[test]
fn message_kind_and_parts() {
    let sent: Message<u32, &str> = Message::Sent(4);
    let request: Message<u32, &str> = Message::Request("slot");
    let exchange: Message<u32, &str> = Message::Exchange(5, "other");
    assert_eq!(sent.capability(), Capability::Send);
    assert_eq!(request.capability(), Capability::Recv);
    assert_eq!(exchange.capability(), Capability::Bidir);
    assert_eq!(sent.into_parts(), (Some(4), None));
    assert_eq!(request.into_parts(), (None, Some("slot")));
    assert_eq!(exchange.into_parts(), (Some(5), Some("other")));
}

#[test]
fn join_pattern_keeps_what_it_was_given() {
    let pattern = JoinPattern::new(JunctionId(4), vec![ChannelId(2), ChannelId(0)], 'r');
    assert_eq!(pattern.junction_id(), JunctionId(4));
    assert_eq!(pattern.channels(), &vec![ChannelId(2), ChannelId(0)]);
    assert_eq!(*pattern.reaction_ref(), 'r');
}

#[test]
fn registered_patterns_are_kept_in_order() {
    let mut junction: Junction<u32, u32, char> = Junction::new(JunctionId(1));
    let a = junction.channel_send::<u32>();
    let b = junction.channel_send::<u32>();
    assert_eq!(junction.add_join_pattern(JoinPattern::new(JunctionId(1), vec![a.id()], 'x')), 0);
    assert_eq!(
        junction.add_join_pattern(JoinPattern::new(JunctionId(1), vec![b.id(), a.id()], 'y')),
        1
    );
    assert_eq!(junction.pattern_count(), 2);
    assert_eq!(*junction.pattern(0).reaction_ref(), 'x');
    assert_eq!(junction.pattern(0).channels(), &vec![a.id()]);
    assert_eq!(*junction.pattern(1).reaction_ref(), 'y');
    assert_eq!(junction.pattern(1).channels(), &vec![b.id(), a.id()]);
}

#[test]
fn message_without_pattern_stays_pending() {
    let mut junction: Junction<u32, &str, u8> = Junction::new(JunctionId(1));
    let a = junction.channel_send::<u32>();
    assert!(junction.message_arrived(a.id(), sent(5)).is_none());
    assert!(junction.message_arrived(a.id(), sent(6)).is_none());
    assert_eq!(junction.pending_count(a.id()), 2);
}

#[test]
fn single_channel_pattern_fires_in_arrival_order() {
    let mut junction: Junction<u32, &str, u8> = Junction::new(JunctionId(1));
    let channel = junction.channel_send::<u32>();
    let pattern = JoinPattern::new(junction.junction_id(), vec![channel.id()], 7u8);
    assert_eq!(junction.add_join_pattern(pattern), 0);

    let first = junction.message_arrived(channel.id(), sent(10)).unwrap();
    assert_eq!(first.pattern, 0);
    assert_eq!(first.arguments, vec![sent(10)]);
    let second = junction.message_arrived(channel.id(), sent(20)).unwrap();
    assert_eq!(second.pattern, 0);
    assert_eq!(second.arguments, vec![sent(20)]);
    assert_eq!(junction.pending_count(channel.id()), 0);
}

#[test]
fn oldest_pending_message_is_taken_first() {
    let mut junction: Junction<u32, &str, u8> = Junction::new(JunctionId(1));
    let a = junction.channel_send::<u32>();
    let b = junction.channel_send::<u32>();
    junction.add_join_pattern(JoinPattern::new(JunctionId(1), vec![a.id(), b.id()], 0));
    assert!(junction.message_arrived(a.id(), sent(1)).is_none());
    assert!(junction.message_arrived(a.id(), sent(2)).is_none());
    assert!(junction.message_arrived(a.id(), sent(3)).is_none());
    assert_eq!(
        junction.message_arrived(b.id(), sent(100)).unwrap().arguments,
        vec![sent(1), sent(100)]
    );
    assert_eq!(
        junction.message_arrived(b.id(), sent(200)).unwrap().arguments,
        vec![sent(2), sent(200)]
    );
    assert_eq!(
        junction.message_arrived(b.id(), sent(300)).unwrap().arguments,
        vec![sent(3), sent(300)]
    );
    assert!(junction.message_arrived(b.id(), sent(400)).is_none());
    assert_eq!(junction.pending_count(a.id()), 0);
    assert_eq!(junction.pending_count(b.id()), 1);
}

#[test]
fn pattern_waits_for_every_member_channel() {
    let mut junction: Junction<u32, &str, u8> = Junction::new(JunctionId(1));
    let a = junction.channel_send::<u32>();
    let b = junction.channel_bidir::<u32, u32>();
    let c = junction.channel_recv::<u32>();
    junction.add_join_pattern(JoinPattern::new(JunctionId(1), vec![a.id(), b.id(), c.id()], 0));
    assert!(junction.message_arrived(c.id(), Message::Request("receiver")).is_none());
    assert!(junction.message_arrived(a.id(), Message::Sent(1)).is_none());
    assert_eq!(junction.pending_count(a.id()), 1);
    assert_eq!(junction.pending_count(b.id()), 0);
    assert_eq!(junction.pending_count(c.id()), 1);
    let firing = junction.message_arrived(b.id(), Message::Exchange(2, "sender")).unwrap();
    assert_eq!(firing.pattern, 0);
    assert_eq!(
        firing.arguments,
        vec![Message::Sent(1), Message::Exchange(2, "sender"), Message::Request("receiver")]
    );
    assert_eq!(junction.pending_count(a.id()), 0);
    assert_eq!(junction.pending_count(b.id()), 0);
    assert_eq!(junction.pending_count(c.id()), 0);
}

#[test]
fn arguments_follow_the_order_of_the_pattern() {
    let mut junction: Junction<u32, &str, u8> = Junction::new(JunctionId(1));
    let a = junction.channel_send::<u32>();
    let b = junction.channel_send::<u32>();
    junction.add_join_pattern(JoinPattern::new(JunctionId(1), vec![b.id(), a.id()], 0));
    assert!(junction.message_arrived(a.id(), sent(1)).is_none());
    assert_eq!(
        junction.message_arrived(b.id(), sent(2)).unwrap().arguments,
        vec![sent(2), sent(1)]
    );
}

#[test]
fn late_registration_does_not_fire_on_queued_messages() {
    let mut junction: Junction<u32, &str, u8> = Junction::new(JunctionId(1));
    let a = junction.channel_send::<u32>();
    assert!(junction.message_arrived(a.id(), sent(1)).is_none());
    assert!(junction.message_arrived(a.id(), sent(2)).is_none());
    assert_eq!(junction.add_join_pattern(JoinPattern::new(JunctionId(1), vec![a.id()], 0)), 0);
    assert_eq!(junction.pending_count(a.id()), 2);

    let firing = junction.message_arrived(a.id(), sent(3)).unwrap();
    assert_eq!(firing.pattern, 0);
    assert_eq!(firing.arguments, vec![sent(1)]);
    assert_eq!(junction.pending_count(a.id()), 2);
    let next = junction.message_arrived(a.id(), sent(4)).unwrap();
    assert_eq!(next.arguments, vec![sent(2)]);
}

#[test]
fn first_registered_of_two_eligible_patterns_fires() {
    let mut junction: Junction<u32, &str, char> = Junction::new(JunctionId(1));
    let a = junction.channel_send::<u32>();
    let b = junction.channel_send::<u32>();
    let c = junction.channel_send::<u32>();
    assert!(junction.message_arrived(b.id(), sent(20)).is_none());
    assert!(junction.message_arrived(c.id(), sent(30)).is_none());
    junction.add_join_pattern(JoinPattern::new(JunctionId(1), vec![a.id(), b.id()], 'p'));
    junction.add_join_pattern(JoinPattern::new(JunctionId(1), vec![a.id(), c.id()], 'q'));

    let firing = junction.message_arrived(a.id(), sent(10)).unwrap();
    assert_eq!(firing.pattern, 0);
    assert_eq!(*junction.pattern(firing.pattern).reaction_ref(), 'p');
    assert_eq!(firing.arguments, vec![sent(10), sent(20)]);
    assert_eq!(junction.pending_count(c.id()), 1);
    assert_eq!(junction.pattern_count(), 2);

    let later = junction.message_arrived(a.id(), sent(11)).unwrap();
    assert_eq!(later.pattern, 1);
    assert_eq!(later.arguments, vec![sent(11), sent(30)]);
}

#[test]
fn at_most_one_pattern_fires_for_one_arrival() {
    let mut junction: Junction<u32, &str, char> = Junction::new(JunctionId(1));
    let a = junction.channel_send::<u32>();
    junction.add_join_pattern(JoinPattern::new(JunctionId(1), vec![a.id()], 'p'));
    junction.add_join_pattern(JoinPattern::new(JunctionId(1), vec![a.id()], 'q'));
    let firing = junction.message_arrived(a.id(), sent(1)).unwrap();
    assert_eq!(firing.pattern, 0);
    assert_eq!(firing.arguments, vec![sent(1)]);
    assert_eq!(junction.pending_count(a.id()), 0);
}

#[test]
fn only_patterns_that_name_the_channel_are_tried() {
    let mut junction: Junction<u32, &str, char> = Junction::new(JunctionId(1));
    let a = junction.channel_send::<u32>();
    let b = junction.channel_send::<u32>();
    assert!(junction.message_arrived(a.id(), sent(1)).is_none());
    junction.add_join_pattern(JoinPattern::new(JunctionId(1), vec![a.id()], 'p'));
    junction.add_join_pattern(JoinPattern::new(JunctionId(1), vec![b.id()], 'q'));
    let firing = junction.message_arrived(b.id(), sent(2)).unwrap();
    assert_eq!(firing.pattern, 1);
    assert_eq!(firing.arguments, vec![sent(2)]);
    assert_eq!(junction.pending_count(a.id()), 1);
}

#[test]
fn channel_named_twice_gives_two_messages() {
    let mut junction: Junction<u32, &str, u8> = Junction::new(JunctionId(1));
    let a = junction.channel_send::<u32>();
    junction.add_join_pattern(JoinPattern::new(JunctionId(1), vec![a.id(), a.id()], 0));
    assert!(junction.message_arrived(a.id(), sent(1)).is_none());
    assert_eq!(
        junction.message_arrived(a.id(), sent(2)).unwrap().arguments,
        vec![sent(1), sent(2)]
    );
    assert_eq!(junction.pending_count(a.id()), 0);
}

#[test]
fn pattern_on_a_channel_never_made_does_not_fire() {
    let mut junction: Junction<u32, &str, u8> = Junction::new(JunctionId(1));
    let a = junction.channel_send::<u32>();
    junction.add_join_pattern(JoinPattern::new(JunctionId(1), vec![a.id(), ChannelId(17)], 0));
    assert!(junction.message_arrived(a.id(), sent(1)).is_none());
    assert_eq!(junction.pending_count(a.id()), 1);
}

#[test]
fn every_message_is_pending_or_taken_once() {
    let mut junction: Junction<u32, u32, u8> = Junction::new(JunctionId(1));
    let a = junction.channel_bidir::<u32, u32>();
    let b = junction.channel_bidir::<u32, u32>();
    junction.add_join_pattern(JoinPattern::new(JunctionId(1), vec![a.id(), b.id()], 0));
    junction.add_join_pattern(JoinPattern::new(JunctionId(1), vec![b.id(), b.id()], 1));
    let arrivals = [
        (a.id(), 1),
        (b.id(), 2),
        (b.id(), 3),
        (b.id(), 4),
        (a.id(), 5),
        (a.id(), 6),
        (b.id(), 7),
    ];
    let mut seen: Vec<u32> = Vec::new();
    for (channel, number) in arrivals {
        if let Some(firing) = junction.message_arrived(channel, Message::Exchange(number, number)) {
            assert_eq!(firing.arguments.len(), 2);
            for argument in firing.arguments {
                let (payload, slot) = argument.into_parts();
                assert_eq!(payload, slot);
                seen.push(slot.unwrap());
            }
        }
    }
    seen.extend(junction.shutdown());
    seen.sort();
    assert_eq!(seen, vec![1, 2, 3, 4, 5, 6, 7]);
}

#[test]
fn shutdown_hands_out_every_reply_slot() {
    let mut junction: Junction<u32, &str, u8> = Junction::new(JunctionId(1));
    let send = junction.channel_send::<u32>();
    let recv = junction.channel_recv::<u32>();
    let bidir = junction.channel_bidir::<u32, u32>();
    let idle = junction.channel_recv::<u32>();
    junction.add_join_pattern(JoinPattern::new(JunctionId(1), vec![send.id(), recv.id()], 0));
    assert!(junction.message_arrived(bidir.id(), Message::Exchange(1, "first sender")).is_none());
    assert!(junction.message_arrived(recv.id(), Message::Request("first receiver")).is_none());
    assert!(junction.message_arrived(bidir.id(), Message::Exchange(2, "second sender")).is_none());
    assert!(junction.message_arrived(recv.id(), Message::Request("second receiver")).is_none());
    assert_eq!(idle.id(), ChannelId(3));
    assert_eq!(
        junction.shutdown(),
        vec!["first receiver", "second receiver", "first sender", "second sender"]
    );
}

#[test]
fn shutdown_passes_over_messages_that_nobody_waits_for() {
    let mut junction: Junction<u32, &str, u8> = Junction::new(JunctionId(1));
    let send = junction.channel_send::<u32>();
    let recv = junction.channel_recv::<u32>();
    assert!(junction.message_arrived(send.id(), Message::Sent(1)).is_none());
    assert!(junction.message_arrived(recv.id(), Message::Request("receiver")).is_none());
    assert!(junction.message_arrived(send.id(), Message::Sent(2)).is_none());
    assert_eq!(junction.shutdown(), vec!["receiver"]);
}

#[test]
fn taken_receiver_is_not_outstanding_at_shutdown() {
    let mut junction: Junction<u32, &str, u8> = Junction::new(JunctionId(1));
    let send = junction.channel_send::<u32>();
    let recv = junction.channel_recv::<u32>();
    junction.add_join_pattern(JoinPattern::new(JunctionId(1), vec![send.id(), recv.id()], 0));
    assert!(junction.message_arrived(recv.id(), Message::Request("answered")).is_none());
    assert!(junction.message_arrived(recv.id(), Message::Request("left waiting")).is_none());
    let firing = junction.message_arrived(send.id(), Message::Sent(9)).unwrap();
    assert_eq!(firing.arguments, vec![Message::Sent(9), Message::Request("answered")]);
    assert_eq!(junction.shutdown(), vec!["left waiting"]);
}

#[test]
fn bidir_pattern_answers_twice_the_request() {
    let mut junction: Junction<i64, usize, usize> = Junction::new(JunctionId(1));
    let channel = junction.channel_bidir::<i64, i64>();
    let pattern = junction.when_bidir(&channel).then_do(double);
    let reactions = vec![pattern];
    let erased = JoinPattern::new(reactions[0].junction_id(), reactions[0].channels(), 0usize);
    junction.add_join_pattern(erased);
    let requests = [0i64, 1, -1, 7, -1234, 1 << 50];
    let mut replies: Vec<Option<i64>> = vec![None; requests.len()];
    for (slot, x) in requests.iter().enumerate() {
        let firing = junction.message_arrived(channel.id(), Message::Exchange(*x, slot)).unwrap();
        let reaction = &reactions[*junction.pattern(firing.pattern).reaction_ref()];
        for argument in firing.arguments {
            if let (Some(payload), Some(reply_to)) = argument.into_parts() {
                replies[reply_to] = Some(reaction.react(payload));
            }
        }
    }
    assert_eq!(
        replies,
        vec![Some(0), Some(2), Some(-2), Some(14), Some(-2468), Some(1 << 51)]
    );
    assert!(junction.shutdown().is_empty());
}

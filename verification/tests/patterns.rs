use junctions::ids::{ChannelId, JunctionId};
use junctions::junction::Junction;

fn double(x: i64) -> i64 {
    x * 2
}

#[test]
fn unary_send_pattern_keeps_channel_and_reaction() {
    let mut junction: Junction<u8, u8, u8> = Junction::new(JunctionId(5));
    let _other = junction.channel_send::<u8>();
    let channel = junction.channel_send::<i64>();
    let partial = junction.when(&channel);
    assert_eq!(partial.junction_id(), JunctionId(5));
    let pattern = partial.then_do(|_x: i64| ());
    assert_eq!(pattern.junction_id(), JunctionId(5));
    assert_eq!(pattern.channel_id(), ChannelId(1));
    assert_eq!(pattern.channels(), vec![ChannelId(1)]);
    pattern.react(3);
}

#[test]
fn unary_recv_pattern_answers_with_the_reaction_value() {
    let mut junction: Junction<u8, u8, u8> = Junction::new(JunctionId(5));
    let channel = junction.channel_recv::<String>();
    let partial = junction.when_recv(&channel);
    assert_eq!(partial.junction_id(), JunctionId(5));
    let pattern = partial.then_do(|| String::from("ready"));
    assert_eq!(pattern.junction_id(), JunctionId(5));
    assert_eq!(pattern.channel_id(), ChannelId(0));
    assert_eq!(pattern.channels(), vec![ChannelId(0)]);
    assert_eq!(pattern.react(), "ready");
}

#[test]
fn bidir_reaction_doubles_every_request() {
    let mut junction: Junction<u8, u8, u8> = Junction::new(JunctionId(5));
    let channel = junction.channel_bidir::<i64, i64>();
    let partial = junction.when_bidir(&channel);
    assert_eq!(partial.junction_id(), JunctionId(5));
    let pattern = partial.then_do(double);
    assert_eq!(pattern.channel_id(), ChannelId(0));
    assert_eq!(pattern.channels(), vec![ChannelId(0)]);
    for x in [-1_000_000_007i64, -3, -1, 0, 1, 2, 21, 1 << 40] {
        assert_eq!(pattern.react(x), 2 * x);
    }
}

#[test]
fn and_appends_a_send_channel() {
    let mut junction: Junction<u8, u8, u8> = Junction::new(JunctionId(8));
    let a = junction.channel_send::<u32>();
    let b = junction.channel_send::<String>();
    let partial = junction.when(&a).and(&b);
    assert_eq!(partial.junction_id(), JunctionId(8));
    let pattern = partial.then_do(|_n: u32, _s: String| ());
    assert_eq!(pattern.junction_id(), JunctionId(8));
    assert_eq!(pattern.first_send_channel_id(), ChannelId(0));
    assert_eq!(pattern.second_send_channel_id(), ChannelId(1));
    assert_eq!(pattern.channels(), vec![ChannelId(0), ChannelId(1)]);
    pattern.react(1, String::from("x"));
}

#[test]
fn and_keeps_the_order_of_construction() {
    let mut junction: Junction<u8, u8, u8> = Junction::new(JunctionId(8));
    let a = junction.channel_send::<u32>();
    let b = junction.channel_send::<u32>();
    let pattern = junction.when(&b).and(&a).then_do(|_x: u32, _y: u32| ());
    assert_eq!(pattern.channels(), vec![ChannelId(1), ChannelId(0)]);
}

#[test]
fn and_recv_appends_a_recv_channel() {
    let mut junction: Junction<u8, u8, u8> = Junction::new(JunctionId(8));
    let a = junction.channel_send::<u32>();
    let b = junction.channel_recv::<u32>();
    let partial = junction.when(&a).and_recv(&b);
    assert_eq!(partial.junction_id(), JunctionId(8));
    let pattern = partial.then_do(|n: u32| n + 1);
    assert_eq!(pattern.junction_id(), JunctionId(8));
    assert_eq!(pattern.send_channel_id(), ChannelId(0));
    assert_eq!(pattern.recv_channel_id(), ChannelId(1));
    assert_eq!(pattern.channels(), vec![ChannelId(0), ChannelId(1)]);
    assert_eq!(pattern.react(41), 42);
}

#[test]
fn and_bidir_appends_a_bidir_channel() {
    let mut junction: Junction<u8, u8, u8> = Junction::new(JunctionId(8));
    let a = junction.channel_send::<u32>();
    let _between = junction.channel_send::<u32>();
    let b = junction.channel_bidir::<u32, u32>();
    let partial = junction.when(&a).and_bidir(&b);
    assert_eq!(partial.junction_id(), JunctionId(8));
    let pattern = partial.then_do(|x: u32, y: u32| x * 10 + y);
    assert_eq!(pattern.junction_id(), JunctionId(8));
    assert_eq!(pattern.send_channel_id(), ChannelId(0));
    assert_eq!(pattern.bidir_channel_id(), ChannelId(2));
    assert_eq!(pattern.channels(), vec![ChannelId(0), ChannelId(2)]);
    assert_eq!(pattern.react(4, 2), 42);
}

#[test]
fn channel_of_another_junction_is_told_apart() {
    let mut here: Junction<u8, u8, u8> = Junction::new(JunctionId(1));
    let mut there: Junction<u8, u8, u8> = Junction::new(JunctionId(2));
    let a = here.channel_send::<u32>();
    let own = here.channel_send::<u32>();
    let foreign = there.channel_send::<u32>();
    let foreign_recv = there.channel_recv::<u32>();
    let foreign_bidir = there.channel_bidir::<u32, u32>();
    let partial = here.when(&a);
    assert_eq!(own.junction_id(), partial.junction_id());
    assert_ne!(foreign.junction_id(), partial.junction_id());
    assert_ne!(foreign_recv.junction_id(), partial.junction_id());
    assert_ne!(foreign_bidir.junction_id(), partial.junction_id());
    assert_ne!(a.junction_id(), there.junction_id());
    assert_eq!(here.pattern_count(), 0);
    assert_eq!(there.pattern_count(), 0);
}

#[test]
fn binary_and_appends_a_third_send_channel() {
    let mut junction: Junction<u8, u8, u8> = Junction::new(JunctionId(6));
    let a = junction.channel_send::<u32>();
    let b = junction.channel_send::<u32>();
    let c = junction.channel_send::<u32>();
    let partial = junction.when(&c).and(&a).and(&b);
    assert_eq!(partial.junction_id(), JunctionId(6));
    let pattern = partial.then_do(|_x: u32, _y: u32, _z: u32| ());
    assert_eq!(pattern.junction_id(), JunctionId(6));
    assert_eq!(pattern.first_send_channel_id(), ChannelId(2));
    assert_eq!(pattern.second_send_channel_id(), ChannelId(0));
    assert_eq!(pattern.third_send_channel_id(), ChannelId(1));
    assert_eq!(pattern.channels(), vec![ChannelId(2), ChannelId(0), ChannelId(1)]);
    pattern.react(1, 2, 3);
}

#[test]
fn binary_and_recv_appends_a_recv_channel() {
    let mut junction: Junction<u8, u8, u8> = Junction::new(JunctionId(6));
    let a = junction.channel_send::<u32>();
    let b = junction.channel_send::<u32>();
    let c = junction.channel_recv::<u32>();
    let partial = junction.when(&a).and(&b).and_recv(&c);
    assert_eq!(partial.junction_id(), JunctionId(6));
    let pattern = partial.then_do(|x: u32, y: u32| x - y);
    assert_eq!(pattern.junction_id(), JunctionId(6));
    assert_eq!(pattern.first_send_channel_id(), ChannelId(0));
    assert_eq!(pattern.second_send_channel_id(), ChannelId(1));
    assert_eq!(pattern.recv_channel_id(), ChannelId(2));
    assert_eq!(pattern.channels(), vec![ChannelId(0), ChannelId(1), ChannelId(2)]);
    assert_eq!(pattern.react(50, 8), 42);
}

#[test]
fn binary_and_bidir_appends_a_bidir_channel() {
    let mut junction: Junction<u8, u8, u8> = Junction::new(JunctionId(6));
    let a = junction.channel_send::<u32>();
    let b = junction.channel_send::<u32>();
    let c = junction.channel_bidir::<u32, u32>();
    let partial = junction.when(&a).and(&b).and_bidir(&c);
    assert_eq!(partial.junction_id(), JunctionId(6));
    let pattern = partial.then_do(|x: u32, y: u32, z: u32| x * 100 + y * 10 + z);
    assert_eq!(pattern.junction_id(), JunctionId(6));
    assert_eq!(pattern.first_send_channel_id(), ChannelId(0));
    assert_eq!(pattern.second_send_channel_id(), ChannelId(1));
    assert_eq!(pattern.bidir_channel_id(), ChannelId(2));
    assert_eq!(pattern.channels(), vec![ChannelId(0), ChannelId(1), ChannelId(2)]);
    assert_eq!(pattern.react(1, 2, 3), 123);
}

#[test]
fn cloned_pattern_keeps_channels_and_reaction() {
    let mut junction: Junction<u8, u8, u8> = Junction::new(JunctionId(6));
    let a = junction.channel_send::<u32>();
    let b = junction.channel_bidir::<u32, u32>();
    let unary = junction.when_bidir(&b).then_do(|x: u32| x + 1);
    let unary_clone = unary.clone();
    assert_eq!(unary_clone.junction_id(), unary.junction_id());
    assert_eq!(unary_clone.channels(), unary.channels());
    assert_eq!(unary_clone.react(1), 2);

    let binary = junction.when(&a).and_bidir(&b).then_do(|x: u32, y: u32| x + y);
    let binary_clone = binary.clone();
    assert_eq!(binary_clone.junction_id(), JunctionId(6));
    assert_eq!(binary_clone.channels(), vec![ChannelId(0), ChannelId(1)]);
    assert_eq!(binary_clone.react(40, 2), 42);

    let ternary = junction.when(&a).and(&a).and_bidir(&b).then_do(|x: u32, y: u32, z: u32| x + y + z);
    let ternary_clone = ternary.clone();
    assert_eq!(ternary_clone.junction_id(), JunctionId(6));
    assert_eq!(ternary_clone.channels(), vec![ChannelId(0), ChannelId(0), ChannelId(1)]);
    assert_eq!(ternary_clone.react(1, 2, 3), 6);
}

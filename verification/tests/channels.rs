use junctions::channels::Capability;
use junctions::ids::{ChannelId, JunctionId};
use junctions::junction::Junction;

#[test]
fn channels_get_successive_identifiers() {
    let mut junction: Junction<u8, u8, u8> = Junction::new(JunctionId(3));
    let a = junction.channel_send::<u8>();
    let b = junction.channel_recv::<u8>();
    let c = junction.channel_bidir::<u8, u8>();
    assert_eq!(a.id(), ChannelId(0));
    assert_eq!(b.id(), ChannelId(1));
    assert_eq!(c.id(), ChannelId(2));
    assert_eq!(junction.channel_count(), 3);
}

#[test]
fn channels_carry_their_junction() {
    let mut junction: Junction<u8, u8, u8> = Junction::new(JunctionId(42));
    let a = junction.channel_send::<String>();
    let b = junction.channel_recv::<u64>();
    let c = junction.channel_bidir::<u8, bool>();
    assert_eq!(junction.junction_id(), JunctionId(42));
    assert_eq!(a.junction_id(), JunctionId(42));
    assert_eq!(b.junction_id(), JunctionId(42));
    assert_eq!(c.junction_id(), JunctionId(42));
}

#[test]
fn capability_follows_the_kind_of_channel() {
    let mut junction: Junction<u8, u8, u8> = Junction::new(JunctionId(0));
    let a = junction.channel_send::<u8>();
    let b = junction.channel_recv::<u8>();
    let c = junction.channel_bidir::<u8, u8>();
    assert_eq!(a.capability(), Capability::Send);
    assert_eq!(b.capability(), Capability::Recv);
    assert_eq!(c.capability(), Capability::Bidir);
    assert_eq!(a.strip().capability(), Capability::Send);
    assert_eq!(b.strip().capability(), Capability::Recv);
    assert_eq!(c.strip().capability(), Capability::Bidir);
}

#[test]
fn strip_keeps_channel_and_junction() {
    let mut junction: Junction<u8, u8, u8> = Junction::new(JunctionId(9));
    let _first = junction.channel_send::<u8>();
    let a = junction.channel_send::<u8>();
    let b = junction.channel_recv::<u8>();
    let c = junction.channel_bidir::<u8, u8>();
    assert_eq!(a.strip().id(), ChannelId(1));
    assert_eq!(a.strip().junction_id(), JunctionId(9));
    assert_eq!(b.strip().id(), ChannelId(2));
    assert_eq!(b.strip().junction_id(), JunctionId(9));
    assert_eq!(c.strip().id(), ChannelId(3));
    assert_eq!(c.strip().junction_id(), JunctionId(9));
}

#[test]
fn junction_knows_its_own_channels_only() {
    let mut junction: Junction<u8, u8, u8> = Junction::new(JunctionId(1));
    assert!(!junction.has_channel(ChannelId(0)));
    let a = junction.channel_send::<u8>();
    assert!(junction.has_channel(a.id()));
    assert!(!junction.has_channel(ChannelId(1)));
    assert!(!junction.has_channel(ChannelId(usize::MAX)));
}

use enet::address::Address;
use enet::limits::{
    clamped_channel_count, BandwidthLimit, ChannelLimit, PROTOCOL_MAXIMUM_CHANNEL_COUNT,
};

#[test]
fn bandwidth_wire_values() {
    assert_eq!(BandwidthLimit::Unlimited.to_enet_u32(), 0);
    assert_eq!(BandwidthLimit::Limited(1000).to_enet_u32(), 1000);
    assert_eq!(BandwidthLimit::Limited(0).to_enet_u32(), 0);
}

#[test]
fn channel_wire_values() {
    assert_eq!(ChannelLimit::Maximum.to_enet_val(), 0);
    assert_eq!(ChannelLimit::Limited(7).to_enet_val(), 7);
}

#[test]
fn channel_from_wire() {
    assert_eq!(
        ChannelLimit::from_enet_val(PROTOCOL_MAXIMUM_CHANNEL_COUNT),
        ChannelLimit::Maximum
    );
    assert_eq!(ChannelLimit::from_enet_val(3), ChannelLimit::Limited(3));
    assert_eq!(ChannelLimit::from_enet_val(1), ChannelLimit::Limited(1));
}

#[test]
fn effective_wire_clamps() {
    assert_eq!(ChannelLimit::Maximum.effective_wire(), 255);
    assert_eq!(ChannelLimit::Limited(0).effective_wire(), 255);
    assert_eq!(ChannelLimit::Limited(256).effective_wire(), 255);
    assert_eq!(ChannelLimit::Limited(255).effective_wire(), 255);
    assert_eq!(ChannelLimit::Limited(12).effective_wire(), 12);
}

#[test]
fn channel_count_clamping() {
    assert_eq!(clamped_channel_count(0), 1);
    assert_eq!(clamped_channel_count(1), 1);
    assert_eq!(clamped_channel_count(2), 2);
    assert_eq!(clamped_channel_count(255), 255);
    assert_eq!(clamped_channel_count(300), 255);
}

#[test]
fn address_round_trip() {
    let a = Address::from_native(0x7f000001, 9000);
    let (host, port) = a.to_native();
    assert_eq!(host, 0x7f000001);
    assert_eq!(port, 9000);
    assert_eq!(Address::from_native(host, port), a);
}

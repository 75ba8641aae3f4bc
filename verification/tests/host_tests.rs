use enet::address::Address;
use enet::event::{Error, EventKind, TransportPoll};
use enet::host::Host;
use enet::limits::{BandwidthLimit, ChannelLimit};
use enet::peer::{PeerID, PeerState};

fn fresh_host(peer_count: usize) -> Host<String> {
    Host::new(
        Address::from_native(0, 0),
        peer_count,
        ChannelLimit::Maximum,
        BandwidthLimit::Unlimited,
        BandwidthLimit::Unlimited,
    )
}

#[test]
fn new_host_reads_back_its_configuration() {
    let addr = Address::from_native(0x0a000001, 8080);
    let h: Host<u32> = Host::new(
        addr,
        8,
        ChannelLimit::Limited(4),
        BandwidthLimit::Limited(1000),
        BandwidthLimit::Unlimited,
    );
    assert_eq!(h.address(), addr);
    assert_eq!(h.peer_count(), 8);
    assert_eq!(h.channel_limit(), ChannelLimit::Limited(4));
    assert_eq!(h.incoming_bandwidth(), 1000);
    assert_eq!(h.outgoing_bandwidth(), 0);
    for p in h.peers() {
        assert_eq!(p.state(), PeerState::Disconnected);
        assert!(p.data().is_none());
    }
}

#[test]
fn bandwidth_limits_read_back() {
    let mut h = fresh_host(2);
    h.set_bandwith_limits(BandwidthLimit::Limited(1000), BandwidthLimit::Limited(2000));
    assert_eq!(h.incoming_bandwidth(), 1000);
    assert_eq!(h.outgoing_bandwidth(), 2000);
    h.set_bandwith_limits(BandwidthLimit::Unlimited, BandwidthLimit::Limited(7));
    assert_eq!(h.incoming_bandwidth(), 0);
    assert_eq!(h.outgoing_bandwidth(), 7);
}

#[test]
fn channel_limit_round_trip_never_limited_zero() {
    let mut h = fresh_host(2);
    h.set_channel_limit(ChannelLimit::Maximum);
    assert_eq!(h.channel_limit(), ChannelLimit::Maximum);
    assert_ne!(h.channel_limit(), ChannelLimit::Limited(0));
    h.set_channel_limit(ChannelLimit::Limited(0));
    assert_eq!(h.channel_limit(), ChannelLimit::Maximum);
    h.set_channel_limit(ChannelLimit::Limited(300));
    assert_eq!(h.channel_limit(), ChannelLimit::Maximum);
    h.set_channel_limit(ChannelLimit::Limited(9));
    assert_eq!(h.channel_limit(), ChannelLimit::Limited(9));
}

#[test]
fn peer_lookup_is_bounds_checked() {
    let mut h = fresh_host(4);
    assert!(h.peer(PeerID(0)).is_some());
    assert!(h.peer(PeerID(3)).is_some());
    assert!(h.peer(PeerID(4)).is_none());
    assert!(h.peer(PeerID(usize::MAX)).is_none());
    assert!(h.peer_mut(PeerID(3)).is_some());
    assert!(h.peer_mut(PeerID(4)).is_none());
}

#[test]
fn connect_event_makes_peer_resolvable() {
    let mut h = fresh_host(4);
    let remote = Address::from_native(0x0a000002, 4000);
    let ev = h
        .service(TransportPoll::Connect { peer_index: 2, channel_count: 3, address: remote })
        .unwrap()
        .unwrap();
    assert_eq!(ev.peer_id, PeerID(2));
    assert_eq!(ev.kind, EventKind::Connect { channel_count: 3 });
    let p = h.peer(ev.peer_id).unwrap();
    assert_eq!(p.state(), PeerState::Connected);
    assert_eq!(p.channel_count(), 3);
    assert_eq!(p.address(), Some(remote));
    // still resolvable after further polls, disconnection included
    h.check_events(TransportPoll::Quiet).unwrap();
    h.service(TransportPoll::Disconnect { peer_index: 2, reason: 0 }).unwrap();
    assert!(h.peer(ev.peer_id).is_some());
    h.check_events(TransportPoll::Quiet).unwrap();
    assert!(h.peer(ev.peer_id).is_some());
}

#[test]
fn receive_event_carries_channel_and_payload() {
    let mut h = fresh_host(2);
    let ev = h
        .check_events(TransportPoll::Receive {
            peer_index: 1,
            channel_id: 5,
            payload: vec![1, 2, 3],
        })
        .unwrap()
        .unwrap();
    assert_eq!(ev.peer_id, PeerID(1));
    match ev.kind {
        EventKind::Receive { channel_id, payload } => {
            assert_eq!(channel_id, 5);
            assert_eq!(payload, vec![1, 2, 3]);
        }
        _ => panic!("expected a receive event"),
    }
}

#[test]
fn poll_failure_surfaces_the_code() {
    let mut h = fresh_host(2);
    assert_eq!(h.service(TransportPoll::Failure(-2)), Err(Error(-2)));
    assert_eq!(h.check_events(TransportPoll::Failure(-7)), Err(Error(-7)));
}

#[test]
fn quiet_poll_returns_no_event() {
    let mut h = fresh_host(2);
    assert_eq!(h.service(TransportPoll::Quiet), Ok(None));
    assert_eq!(h.check_events(TransportPoll::Quiet), Ok(None));
}

#[test]
fn deferred_cleanup_clears_payload_on_next_poll() {
    let mut h = fresh_host(4);
    let remote = Address::from_native(9, 9);
    h.service(TransportPoll::Connect { peer_index: 1, channel_count: 2, address: remote })
        .unwrap();
    h.index_mut(PeerID(1)).set_data(Some("session".to_string()));
    let ev = h
        .service(TransportPoll::Disconnect { peer_index: 1, reason: 42 })
        .unwrap()
        .unwrap();
    assert_eq!(ev.kind, EventKind::Disconnect { reason: 42 });
    // the payload is still readable while the disconnect event is handled
    assert_eq!(h.index(PeerID(1)).data(), Some(&"session".to_string()));
    // the very next poll clears it first, even though it reports no event
    assert_eq!(h.check_events(TransportPoll::Quiet), Ok(None));
    assert!(h.index(PeerID(1)).data().is_none());
}

#[test]
fn deferred_cleanup_runs_before_a_new_event_too() {
    let mut h = fresh_host(4);
    let remote = Address::from_native(9, 9);
    h.service(TransportPoll::Connect { peer_index: 0, channel_count: 1, address: remote })
        .unwrap();
    h.index_mut(PeerID(0)).set_data(Some("old occupant".to_string()));
    h.service(TransportPoll::Disconnect { peer_index: 0, reason: 0 }).unwrap();
    // the slot is reused by a brand-new connection on the very next poll
    let ev = h
        .service(TransportPoll::Connect { peer_index: 0, channel_count: 1, address: remote })
        .unwrap()
        .unwrap();
    assert_eq!(ev.peer_id, PeerID(0));
    // the new occupant does not inherit the old payload
    assert!(h.index(PeerID(0)).data().is_none());
}

#[test]
fn clearing_absent_payload_is_a_noop() {
    let mut h = fresh_host(2);
    assert!(h.index(PeerID(0)).data().is_none());
    let before_state = h.index(PeerID(0)).state();
    h.index_mut(PeerID(0)).set_data(None);
    assert!(h.index(PeerID(0)).data().is_none());
    assert_eq!(h.index(PeerID(0)).state(), before_state);
}

#[test]
fn payload_can_be_read_written_and_replaced() {
    let mut h = fresh_host(2);
    h.index_mut(PeerID(1)).set_data(Some("a".to_string()));
    assert_eq!(h.index(PeerID(1)).data(), Some(&"a".to_string()));
    if let Some(v) = h.index_mut(PeerID(1)).data_mut() {
        v.push('b');
    } else {
        panic!("payload was just attached");
    }
    assert_eq!(h.index(PeerID(1)).data(), Some(&"ab".to_string()));
    h.index_mut(PeerID(1)).set_data(None);
    assert!(h.index(PeerID(1)).data().is_none());
}

#[test]
fn connect_allocates_a_connecting_slot() {
    let mut h = fresh_host(4);
    let remote = Address::from_native(0x0a000003, 4242);
    let id = h.connect(&remote, 2, Some(3)).unwrap();
    assert_eq!(id, PeerID(3));
    let p = h.index(id);
    assert_eq!(p.state(), PeerState::Connecting);
    assert_eq!(p.channel_count(), 2);
    assert_eq!(p.address(), Some(remote));
    // a request outside the protocol's channel range is clamped
    let id2 = h.connect(&remote, 0, Some(0)).unwrap();
    assert_eq!(h.index(id2).channel_count(), 1);
    let id3 = h.connect(&remote, 999, Some(1)).unwrap();
    assert_eq!(h.index(id3).channel_count(), 255);
}

#[test]
fn connect_without_a_slot_fails_with_code_zero() {
    let mut h = fresh_host(1);
    let remote = Address::from_native(1, 1);
    assert_eq!(h.connect(&remote, 2, None), Err(Error(0)));
}

#[test]
fn clear_all_peer_data_empties_every_slot() {
    let mut h = fresh_host(3);
    for i in 0..3usize {
        h.index_mut(PeerID(i)).set_data(Some(format!("p{}", i)));
    }
    h.clear_all_peer_data();
    for i in 0..3usize {
        assert!(h.index(PeerID(i)).data().is_none());
    }
    assert_eq!(h.peer_count(), 3);
}

#[test]
fn round_trip_time_is_recorded_per_peer() {
    let mut h = fresh_host(2);
    h.index_mut(PeerID(0)).set_round_trip_time(17);
    assert_eq!(h.index(PeerID(0)).round_trip_time(), 17);
    assert_eq!(h.index(PeerID(1)).round_trip_time(), 0);
}

#[test]
fn peers_mut_reaches_every_slot() {
    let mut h = fresh_host(3);
    for p in h.peers_mut().iter_mut() {
        p.set_data(Some("x".to_string()));
    }
    for p in h.peers() {
        assert_eq!(p.data(), Some(&"x".to_string()));
    }
}

#[test]
fn two_host_session_scenario() {
    // host A is the server with 8 slots and unlimited bandwidth, host B the
    // client with a single slot
    let addr_a = Address::from_native(0x0a000001, 7777);
    let mut a: Host<&str> = Host::new(
        addr_a,
        8,
        ChannelLimit::Maximum,
        BandwidthLimit::Unlimited,
        BandwidthLimit::Unlimited,
    );
    let mut b: Host<&str> = Host::new(
        Address::from_native(0, 0),
        1,
        ChannelLimit::Maximum,
        BandwidthLimit::Unlimited,
        BandwidthLimit::Unlimited,
    );
    // B originates a connection to A over 2 channels; the transport hands
    // out B's only slot
    let id_b = b.connect(&addr_a, 2, Some(0)).unwrap();
    assert_eq!(b.index(id_b).state(), PeerState::Connecting);
    // polling both hosts yields a connect event on each side with matching
    // channel counts
    let ev_b = b
        .service(TransportPoll::Connect { peer_index: 0, channel_count: 2, address: addr_a })
        .unwrap()
        .unwrap();
    let addr_b = Address::from_native(0x0a000002, 5555);
    let ev_a = a
        .service(TransportPoll::Connect { peer_index: 5, channel_count: 2, address: addr_b })
        .unwrap()
        .unwrap();
    match (&ev_a.kind, &ev_b.kind) {
        (
            EventKind::Connect { channel_count: ca },
            EventKind::Connect { channel_count: cb },
        ) => assert_eq!(ca, cb),
        _ => panic!("both sides must see a connect event"),
    }
    assert!(a.peer(ev_a.peer_id).is_some());
    assert!(b.peer(ev_b.peer_id).is_some());
    a.index_mut(ev_a.peer_id).set_data(Some("client session"));
    // B goes away; within a bounded number of polls A sees the disconnect
    assert_eq!(a.check_events(TransportPoll::Quiet), Ok(None));
    let ev = a
        .service(TransportPoll::Disconnect { peer_index: 5, reason: 0 })
        .unwrap()
        .unwrap();
    assert_eq!(ev.peer_id, ev_a.peer_id);
    // a subsequent poll on A clears that peer's attached payload
    assert_eq!(a.check_events(TransportPoll::Quiet), Ok(None));
    assert!(a.index(ev.peer_id).data().is_none());
}

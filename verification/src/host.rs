use vstd::prelude::*;

use crate::address::Address;
use crate::event::{Error, Event, EventKind, TransportPoll};
use crate::limits::{
    clamped_channel_count, BandwidthLimit, ChannelLimit, spec_clamped_channel_count,
    PROTOCOL_MAXIMUM_CHANNEL_COUNT,
};
use crate::peer::{Peer, PeerID, PeerState};

verus! {

/// A `Host` is one endpoint of the transport: it owns a fixed pool of peer
/// slots, keeps at most one peer marked for deferred payload cleanup, and
/// holds the host-level configuration the transport was last given.
///
/// The transport's own socket work happens outside this type: the layer
/// that makes the native calls reads their results out into plain values
/// and hands them to the methods here, which alone decide how the table,
/// the pending-cleanup marker and the caller-visible events change.
pub struct Host<T> {
    peers: Vec<Peer<T>>,
    pending_cleanup: Option<PeerID>,
    address: Address,
    incoming_bandwidth: u32,
    outgoing_bandwidth: u32,
    channel_limit_wire: usize,
}

/// Both connection attributes the transport owns are the same in `post` as
/// in `pre`: the slot was not touched by an event.
pub open spec fn attrs_unchanged<T>(pre: Peer<T>, post: Peer<T>) -> bool {
    &&& post.spec_state() == pre.spec_state()
    &&& post.spec_channel_count() == pre.spec_channel_count()
    &&& post.spec_address() == pre.spec_address()
}

/// The payload slot `i` holds once a poll has run its deferred cleanup:
/// gone if `i` was marked for cleanup, untouched otherwise.
pub open spec fn expected_payload<T>(pending: Option<PeerID>, i: int, pre: Peer<T>) -> Option<T> {
    match pending {
        Some(p) => if p.0 as int == i {
            None
        } else {
            pre.spec_data()
        },
        None => pre.spec_data(),
    }
}

/// How one poll call changes slot `i` of the table: the payload follows the
/// deferred cleanup, the round-trip estimate is untouched, and the
/// connection attributes change exactly on the slot the report names.
pub open spec fn slot_after_poll<T>(
    pending: Option<PeerID>,
    poll: TransportPoll,
    i: int,
    pre: Peer<T>,
    post: Peer<T>,
) -> bool {
    &&& post.spec_data() == expected_payload(pending, i, pre)
    &&& post.spec_round_trip_time() == pre.spec_round_trip_time()
    &&& match poll {
        TransportPoll::Connect { peer_index, channel_count, address } => if peer_index as int
            == i {
            &&& post.spec_state() == PeerState::Connected
            &&& post.spec_channel_count() == channel_count
            &&& post.spec_address() == Some(address)
        } else {
            attrs_unchanged(pre, post)
        },
        TransportPoll::Disconnect { peer_index, .. } => if peer_index as int == i {
            &&& post.spec_state() == PeerState::Disconnected
            &&& post.spec_channel_count() == pre.spec_channel_count()
            &&& post.spec_address() == pre.spec_address()
        } else {
            attrs_unchanged(pre, post)
        },
        _ => attrs_unchanged(pre, post),
    }
}

/// The cleanup marker one poll leaves behind: the slot of the disconnect it
/// just delivered, and nothing otherwise.
pub open spec fn pending_after(poll: TransportPoll) -> Option<PeerID> {
    match poll {
        TransportPoll::Disconnect { peer_index, .. } => Some(PeerID(peer_index)),
        _ => None,
    }
}

/// The whole poll transition: how one `service`/`check_events` call takes
/// the host from `pre` to `post` on the transport's report `poll`, and what
/// it hands the caller.
pub open spec fn poll_transition<T>(
    pre: Host<T>,
    post: Host<T>,
    poll: TransportPoll,
    r: Result<Option<Event>, Error>,
) -> bool {
    &&& post.spec_peer_count() == pre.spec_peer_count()
    &&& post.spec_address() == pre.spec_address()
    &&& post.spec_incoming_bandwidth() == pre.spec_incoming_bandwidth()
    &&& post.spec_outgoing_bandwidth() == pre.spec_outgoing_bandwidth()
    &&& post.spec_channel_limit_wire() == pre.spec_channel_limit_wire()
    &&& post.spec_pending_cleanup() == pending_after(poll)
    &&& forall|i: int|
        0 <= i < pre.spec_peer_count() ==> slot_after_poll(
            pre.spec_pending_cleanup(),
            poll,
            i,
            pre.spec_peers()[i],
            #[trigger] post.spec_peers()[i],
        )
    &&& r == poll.spec_outcome()
}

impl<T> Host<T> {
    /// The peer table, slot by slot.
    pub closed spec fn spec_peers(self) -> Seq<Peer<T>> {
        self.peers@
    }

    /// The number of slots in the table, fixed at creation: always the
    /// length of the peer table, so whatever preserves the table's length
    /// preserves the count.
    pub open spec fn spec_peer_count(self) -> nat {
        self.spec_peers().len()
    }

    /// The slot whose payload the next poll must clear first, if any.
    pub closed spec fn spec_pending_cleanup(self) -> Option<PeerID> {
        self.pending_cleanup
    }

    /// The address this host is bound to.
    pub closed spec fn spec_address(self) -> Address {
        self.address
    }

    /// The downstream bandwidth in bytes/second, zero for unlimited.
    pub closed spec fn spec_incoming_bandwidth(self) -> u32 {
        self.incoming_bandwidth
    }

    /// The upstream bandwidth in bytes/second, zero for unlimited.
    pub closed spec fn spec_outgoing_bandwidth(self) -> u32 {
        self.outgoing_bandwidth
    }

    /// The channel limit for future connections, as the wire value the
    /// transport holds.
    pub closed spec fn spec_channel_limit_wire(self) -> usize {
        self.channel_limit_wire
    }

    /// A host is well formed when its stored channel limit lies in the
    /// protocol's range — in particular it is never zero, so the limit
    /// always reads back — and its cleanup marker, if any, names a slot of
    /// the table.
    pub closed spec fn wf(self) -> bool {
        &&& 1 <= self.channel_limit_wire <= PROTOCOL_MAXIMUM_CHANNEL_COUNT
        &&& self.pending_cleanup matches Some(p) ==> p.0 < self.peers@.len()
    }

    /// Builds a host with `peer_count` inactive slots, bound to `address`,
    /// holding the limits the transport would keep after taking in the
    /// requested ones.
    pub fn new(
        address: Address,
        peer_count: usize,
        channel_limit: ChannelLimit,
        incoming_bandwidth: BandwidthLimit,
        outgoing_bandwidth: BandwidthLimit,
    ) -> (r: Host<T>)
        ensures
            r.wf(),
            r.spec_peer_count() == peer_count,
            r.spec_pending_cleanup() is None,
            r.spec_address() == address,
            r.spec_incoming_bandwidth() == incoming_bandwidth.spec_wire_value(),
            r.spec_outgoing_bandwidth() == outgoing_bandwidth.spec_wire_value(),
            r.spec_channel_limit_wire() == channel_limit.spec_effective_wire(),
            forall|i: int|
                0 <= i < peer_count ==> (#[trigger] r.spec_peers()[i]).spec_data() is None
                    && r.spec_peers()[i].spec_state() == PeerState::Disconnected
                    && r.spec_peers()[i].spec_channel_count() == 0usize
                    && r.spec_peers()[i].spec_round_trip_time() == 0u32
                    && r.spec_peers()[i].spec_address() is None,
    {
        let mut peers: Vec<Peer<T>> = Vec::new();
        let mut i: usize = 0;
        while i < peer_count
            invariant
                i <= peer_count,
                peers@.len() == i,
                forall|j: int|
                    0 <= j < i ==> (#[trigger] peers@[j]).spec_data() is None
                        && peers@[j].spec_state() == PeerState::Disconnected
                        && peers@[j].spec_channel_count() == 0usize
                        && peers@[j].spec_round_trip_time() == 0u32
                        && peers@[j].spec_address() is None,
            decreases peer_count - i,
        {
            peers.push(Peer::inactive());
            i += 1;
        }
        Host {
            peers,
            pending_cleanup: None,
            address,
            incoming_bandwidth: incoming_bandwidth.to_enet_u32(),
            outgoing_bandwidth: outgoing_bandwidth.to_enet_u32(),
            channel_limit_wire: channel_limit.effective_wire(),
        }
    }

    /// Stores the bandwidth limits the transport is to apply from now on,
    /// in their wire form; nothing else changes.
    pub fn set_bandwith_limits(
        &mut self,
        incoming_bandwith: BandwidthLimit,
        outgoing_bandwidth: BandwidthLimit,
    )
        ensures
            final(self).spec_incoming_bandwidth() == incoming_bandwith.spec_wire_value(),
            final(self).spec_outgoing_bandwidth() == outgoing_bandwidth.spec_wire_value(),
            final(self).spec_peers() == old(self).spec_peers(),
            final(self).spec_pending_cleanup() == old(self).spec_pending_cleanup(),
            final(self).spec_address() == old(self).spec_address(),
            final(self).spec_channel_limit_wire() == old(self).spec_channel_limit_wire(),
            old(self).wf() ==> final(self).wf(),
    {
        self.incoming_bandwidth = incoming_bandwith.to_enet_u32();
        self.outgoing_bandwidth = outgoing_bandwidth.to_enet_u32();
    }

    /// Stores the channel limit for future connections, as the transport
    /// would keep it: a request of zero, or one beyond the protocol
    /// maximum, selects the maximum. Already-connected peers keep their
    /// channel counts.
    pub fn set_channel_limit(&mut self, max_channel_count: ChannelLimit)
        ensures
            final(self).spec_channel_limit_wire() == max_channel_count.spec_effective_wire(),
            final(self).spec_peers() == old(self).spec_peers(),
            final(self).spec_pending_cleanup() == old(self).spec_pending_cleanup(),
            final(self).spec_address() == old(self).spec_address(),
            final(self).spec_incoming_bandwidth() == old(self).spec_incoming_bandwidth(),
            final(self).spec_outgoing_bandwidth() == old(self).spec_outgoing_bandwidth(),
            old(self).wf() ==> final(self).wf(),
    {
        self.channel_limit_wire = max_channel_count.effective_wire();
    }

    /// Reads the effective channel limit back. A host never holds a wire
    /// value of zero, so the result is never `Limited(0)`: the sentinel is
    /// translated consistently in both directions.
    pub fn channel_limit(&self) -> (r: ChannelLimit)
        requires
            self.wf(),
        ensures
            r == ChannelLimit::spec_from_wire(self.spec_channel_limit_wire()),
            r != ChannelLimit::Limited(0usize),
    {
        ChannelLimit::from_enet_val(self.channel_limit_wire)
    }

    /// The downstream bandwidth of this host in bytes/second.
    pub fn incoming_bandwidth(&self) -> (r: u32)
        ensures
            r == self.spec_incoming_bandwidth(),
    {
        self.incoming_bandwidth
    }

    /// The upstream bandwidth of this host in bytes/second.
    pub fn outgoing_bandwidth(&self) -> (r: u32)
        ensures
            r == self.spec_outgoing_bandwidth(),
    {
        self.outgoing_bandwidth
    }

    /// The address this host is bound to.
    pub fn address(&self) -> (r: Address)
        ensures
            r == self.spec_address(),
    {
        self.address
    }

    /// The number of peer slots allocated for this host.
    pub fn peer_count(&self) -> (r: usize)
        ensures
            r == self.spec_peer_count(),
    {
        self.peers.len()
    }

    /// A reference to the peer at `idx`, and nothing for an index at or
    /// beyond the table size.
    pub fn peer(&self, idx: PeerID) -> (r: Option<&Peer<T>>)
        ensures
            r is Some <==> idx.0 < self.spec_peer_count(),
            r matches Some(p) ==> *p == self.spec_peers()[idx.0 as int],
    {
        if idx.0 >= self.peers.len() {
            return None;
        }
        Some(&self.peers[idx.0])
    }

    /// A mutable reference to the peer at `idx`, and nothing for an index
    /// at or beyond the table size.
    pub fn peer_mut(&mut self, idx: PeerID) -> (r: Option<&mut Peer<T>>)
        ensures
            r is Some <==> idx.0 < old(self).spec_peer_count(),
            r matches Some(p) ==> *p == old(self).spec_peers()[idx.0 as int]
                && final(self).spec_peers() == old(self).spec_peers().update(
                idx.0 as int,
                *final(p),
            ) && final(self).spec_pending_cleanup() == old(self).spec_pending_cleanup()
                && final(self).spec_address() == old(self).spec_address()
                && final(self).spec_incoming_bandwidth() == old(self).spec_incoming_bandwidth()
                && final(self).spec_outgoing_bandwidth() == old(self).spec_outgoing_bandwidth()
                && final(self).spec_channel_limit_wire() == old(self).spec_channel_limit_wire()
                && (old(self).wf() ==> final(self).wf()),
            r is None ==> *final(self) == *old(self),
    {
        if idx.0 >= self.peers.len() {
            return None;
        }
        Some(&mut self.peers[idx.0])
    }

    /// The peer at `idx`. An index at or beyond the table size is a caller
    /// bug, not a runtime condition, and is ruled out here.
    pub fn index(&self, idx: PeerID) -> (r: &Peer<T>)
        requires
            idx.0 < self.spec_peer_count(),
        ensures
            *r == self.spec_peers()[idx.0 as int],
    {
        &self.peers[idx.0]
    }

    /// The peer at `idx`, mutably. An index at or beyond the table size is
    /// a caller bug, not a runtime condition, and is ruled out here.
    pub fn index_mut(&mut self, idx: PeerID) -> (r: &mut Peer<T>)
        requires
            idx.0 < old(self).spec_peer_count(),
        ensures
            *r == old(self).spec_peers()[idx.0 as int],
            final(self).spec_peers() == old(self).spec_peers().update(idx.0 as int, *final(r)),
            final(self).spec_pending_cleanup() == old(self).spec_pending_cleanup(),
            final(self).spec_address() == old(self).spec_address(),
            final(self).spec_incoming_bandwidth() == old(self).spec_incoming_bandwidth(),
            final(self).spec_outgoing_bandwidth() == old(self).spec_outgoing_bandwidth(),
            final(self).spec_channel_limit_wire() == old(self).spec_channel_limit_wire(),
            old(self).wf() ==> final(self).wf(),
    {
        &mut self.peers[idx.0]
    }

    /// Every slot of the table, live or not, in slot order.
    pub fn peers(&self) -> (r: &Vec<Peer<T>>)
        ensures
            r@ == self.spec_peers(),
    {
        &self.peers
    }

    /// Every slot of the table, live or not, in slot order, mutably. The
    /// slice keeps the table's size fixed: slots can be changed, never
    /// added or removed.
    pub fn peers_mut(&mut self) -> (r: &mut [Peer<T>])
        ensures
            (*r)@ == old(self).spec_peers(),
            final(self).spec_peers() == (*final(r))@,
            final(self).spec_pending_cleanup() == old(self).spec_pending_cleanup(),
            final(self).spec_address() == old(self).spec_address(),
            final(self).spec_incoming_bandwidth() == old(self).spec_incoming_bandwidth(),
            final(self).spec_outgoing_bandwidth() == old(self).spec_outgoing_bandwidth(),
            final(self).spec_channel_limit_wire() == old(self).spec_channel_limit_wire(),
    {
        self.peers.as_mut_slice()
    }

    /// Clears the payload of the slot the previous poll marked, if any, and
    /// resets the marker: the deferred-cleanup step every poll runs first.
    fn drop_disconnected(&mut self)
        requires
            old(self).wf(),
        ensures
            final(self).wf(),
            final(self).spec_pending_cleanup() is None,
            final(self).spec_peer_count() == old(self).spec_peer_count(),
            final(self).spec_address() == old(self).spec_address(),
            final(self).spec_incoming_bandwidth() == old(self).spec_incoming_bandwidth(),
            final(self).spec_outgoing_bandwidth() == old(self).spec_outgoing_bandwidth(),
            final(self).spec_channel_limit_wire() == old(self).spec_channel_limit_wire(),
            forall|i: int|
                0 <= i < old(self).spec_peer_count() ==> {
                    &&& (#[trigger] final(self).spec_peers()[i]).spec_data() == expected_payload(
                        old(self).spec_pending_cleanup(),
                        i,
                        old(self).spec_peers()[i],
                    )
                    &&& attrs_unchanged(old(self).spec_peers()[i], final(self).spec_peers()[i])
                    &&& final(self).spec_peers()[i].spec_round_trip_time() == old(self).spec_peers()[i].spec_round_trip_time()
                },
    {
        match self.pending_cleanup {
            Some(idx) => {
                self.pending_cleanup = None;
                let p = &mut self.peers[idx.0];
                p.set_data(None);
            },
            None => {},
        }
    }

    /// One poll: runs the deferred cleanup first, then interprets the
    /// transport's report — an error code becomes an error, silence becomes
    /// no event, and an event updates its slot and reaches the caller, a
    /// disconnect marking its slot for cleanup on the next poll.
    fn process_poll(&mut self, poll: TransportPoll) -> (r: Result<Option<Event>, Error>)
        requires
            old(self).wf(),
            poll.wf(old(self).spec_peer_count()),
        ensures
            final(self).wf(),
            poll_transition(*old(self), *final(self), poll, r),
    {
        self.drop_disconnected();
        match poll {
            TransportPoll::Failure(code) => Err(Error(code)),
            TransportPoll::Quiet => Ok(None),
            TransportPoll::Connect { peer_index, channel_count, address } => {
                let p = &mut self.peers[peer_index];
                p.apply_connect(channel_count, address);
                Ok(
                    Some(
                        Event {
                            peer_id: PeerID(peer_index),
                            kind: EventKind::Connect { channel_count },
                        },
                    ),
                )
            },
            TransportPoll::Receive { peer_index, channel_id, payload } => {
                Ok(
                    Some(
                        Event {
                            peer_id: PeerID(peer_index),
                            kind: EventKind::Receive { channel_id, payload },
                        },
                    ),
                )
            },
            TransportPoll::Disconnect { peer_index, reason } => {
                let p = &mut self.peers[peer_index];
                p.apply_disconnect();
                self.pending_cleanup = Some(PeerID(peer_index));
                Ok(
                    Some(
                        Event { peer_id: PeerID(peer_index), kind: EventKind::Disconnect { reason } },
                    ),
                )
            },
        }
    }

    /// Maintains this host and delivers an event if one is available: the
    /// blocking poll entry point. The layer that makes the native call
    /// bounds the blocking by its timeout and hands the result here; a
    /// timeout of zero makes it the same call as `check_events`.
    pub fn service(&mut self, poll: TransportPoll) -> (r: Result<Option<Event>, Error>)
        requires
            old(self).wf(),
            poll.wf(old(self).spec_peer_count()),
        ensures
            final(self).wf(),
            poll_transition(*old(self), *final(self), poll, r),
            old(self).spec_pending_cleanup() matches Some(p) ==> final(self).spec_peers()[
                p.0 as int
            ].spec_data() is None,
            r matches Ok(Some(e)) ==> e.peer_id.0 < final(self).spec_peer_count(),
    {
        self.process_poll(poll)
    }

    /// Delivers a queued event if one is available: the non-blocking poll
    /// entry point. Same protocol as `service`, the native call merely
    /// never waits.
    pub fn check_events(&mut self, poll: TransportPoll) -> (r: Result<Option<Event>, Error>)
        requires
            old(self).wf(),
            poll.wf(old(self).spec_peer_count()),
        ensures
            final(self).wf(),
            poll_transition(*old(self), *final(self), poll, r),
            old(self).spec_pending_cleanup() matches Some(p) ==> final(self).spec_peers()[
                p.0 as int
            ].spec_data() is None,
            r matches Ok(Some(e)) ==> e.peer_id.0 < final(self).spec_peer_count(),
    {
        self.process_poll(poll)
    }

    /// Records an outbound connection request. The transport either hands
    /// out a free slot — which enters the connecting state with the clamped
    /// channel count, completion being signaled by a later connect event —
    /// or no slot at all, which is the one failure and carries code zero.
    pub fn connect(&mut self, address: &Address, channel_count: usize, slot: Option<usize>) -> (r:
        Result<PeerID, Error>)
        requires
            old(self).wf(),
            slot matches Some(j) ==> j < old(self).spec_peer_count(),
        ensures
            final(self).wf(),
            final(self).spec_peer_count() == old(self).spec_peer_count(),
            match slot {
                None => r == Err::<PeerID, Error>(Error(0i32)) && *final(self) == *old(self),
                Some(j) => {
                    &&& r == Ok::<PeerID, Error>(PeerID(j))
                    &&& final(self).spec_peers()[j as int].spec_state() == PeerState::Connecting
                    &&& final(self).spec_peers()[j as int].spec_channel_count()
                        == spec_clamped_channel_count(channel_count)
                    &&& final(self).spec_peers()[j as int].spec_address() == Some(*address)
                    &&& final(self).spec_peers()[j as int].spec_data() == old(self).spec_peers()[
                        j as int
                    ].spec_data()
                    &&& final(self).spec_peers()[j as int].spec_round_trip_time() == old(self).spec_peers()[j as int].spec_round_trip_time()
                    &&& forall|i: int|
                        0 <= i < old(self).spec_peer_count() && i != j ==> (
                        #[trigger] final(self).spec_peers()[i]) == old(self).spec_peers()[i]
                    &&& final(self).spec_pending_cleanup() == old(self).spec_pending_cleanup()
                    &&& final(self).spec_address() == old(self).spec_address()
                    &&& final(self).spec_incoming_bandwidth() == old(self).spec_incoming_bandwidth()
                    &&& final(self).spec_outgoing_bandwidth() == old(self).spec_outgoing_bandwidth()
                    &&& final(self).spec_channel_limit_wire() == old(self).spec_channel_limit_wire()
                },
            },
    {
        match slot {
            None => Err(Error(0)),
            Some(j) => {
                let count = clamped_channel_count(channel_count);
                let p = &mut self.peers[j];
                p.apply_connecting(count, *address);
                Ok(PeerID(j))
            },
        }
    }

    /// Clears every slot's payload: the teardown a host runs over its whole
    /// table before it is destroyed.
    pub fn clear_all_peer_data(&mut self)
        ensures
            final(self).spec_peer_count() == old(self).spec_peer_count(),
            final(self).spec_pending_cleanup() == old(self).spec_pending_cleanup(),
            final(self).spec_address() == old(self).spec_address(),
            final(self).spec_incoming_bandwidth() == old(self).spec_incoming_bandwidth(),
            final(self).spec_outgoing_bandwidth() == old(self).spec_outgoing_bandwidth(),
            final(self).spec_channel_limit_wire() == old(self).spec_channel_limit_wire(),
            forall|i: int|
                0 <= i < old(self).spec_peer_count() ==> {
                    &&& (#[trigger] final(self).spec_peers()[i]).spec_data() is None
                    &&& attrs_unchanged(old(self).spec_peers()[i], final(self).spec_peers()[i])
                    &&& final(self).spec_peers()[i].spec_round_trip_time() == old(self).spec_peers()[i].spec_round_trip_time()
                },
            old(self).wf() ==> final(self).wf(),
    {
        let ghost pre = *old(self);
        let n = self.peers.len();
        let mut k: usize = 0;
        while k < n
            invariant
                k <= n,
                n == pre.spec_peer_count(),
                self.spec_peer_count() == pre.spec_peer_count(),
                self.spec_pending_cleanup() == pre.spec_pending_cleanup(),
                self.spec_address() == pre.spec_address(),
                self.spec_incoming_bandwidth() == pre.spec_incoming_bandwidth(),
                self.spec_outgoing_bandwidth() == pre.spec_outgoing_bandwidth(),
                self.spec_channel_limit_wire() == pre.spec_channel_limit_wire(),
                forall|i: int|
                    0 <= i < k ==> {
                        &&& (#[trigger] self.spec_peers()[i]).spec_data() is None
                        &&& attrs_unchanged(pre.spec_peers()[i], self.spec_peers()[i])
                        &&& self.spec_peers()[i].spec_round_trip_time() == pre.spec_peers()[
                            i
                        ].spec_round_trip_time()
                    },
                forall|i: int|
                    k <= i < n ==> (#[trigger] self.spec_peers()[i]) == pre.spec_peers()[i],
            decreases n - k,
        {
            let p = self.index_mut(PeerID(k));
            p.set_data(None);
            k += 1;
        }
    }
}

/// Resolves a native peer handle back to its slot in the table: the table
/// is one contiguous run of records, so a handle's identifier is its byte
/// distance from the table's start divided by the record stride. Only
/// meaningful for a handle inside the table it came from, which is the
/// caller's burden to establish.
pub fn peer_id_of_native(table_base: usize, handle: usize, record_stride: usize) -> (r: PeerID)
    requires
        record_stride > 0,
        handle >= table_base,
    ensures
        r.0 == (handle - table_base) as int / record_stride as int,
{
    PeerID((handle - table_base) / record_stride)
}

/// Law: a peer identifier delivered by a poll's event resolves in the
/// table, and the poll leaves the table's size alone, so the identifier
/// stays resolvable by later lookups until its slot is reused.
pub proof fn lemma_delivered_peer_id_resolves<T>(
    pre: Host<T>,
    post: Host<T>,
    poll: TransportPoll,
    r: Result<Option<Event>, Error>,
    ev: Event,
)
    requires
        poll.wf(pre.spec_peer_count()),
        poll_transition(pre, post, poll, r),
        r == Ok::<Option<Event>, Error>(Some(ev)),
    ensures
        ev.peer_id.0 < post.spec_peer_count(),
        post.spec_peer_count() == pre.spec_peer_count(),
{
}

/// Law: deferred cleanup. Whatever one poll reports — an event, silence or
/// an error — a payload whose slot the previous poll marked after its
/// disconnect is gone when the call returns.
pub proof fn lemma_deferred_cleanup_clears_payload<T>(
    pre: Host<T>,
    post: Host<T>,
    poll: TransportPoll,
    r: Result<Option<Event>, Error>,
    p: PeerID,
)
    requires
        poll_transition(pre, post, poll, r),
        pre.spec_pending_cleanup() == Some(p),
        p.0 < pre.spec_peer_count(),
    ensures
        post.spec_peers()[p.0 as int].spec_data() is None,
{
    assert(slot_after_poll(
        pre.spec_pending_cleanup(),
        poll,
        p.0 as int,
        pre.spec_peers()[p.0 as int],
        post.spec_peers()[p.0 as int],
    ));
}

} // verus!

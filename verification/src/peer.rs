use vstd::prelude::*;

use crate::address::Address;

verus! {

/// An index into one host's peer table. Stable until its slot's occupant
/// fully disconnects and the slot is reused; never meaningful against
/// another host's table.
#[derive(Debug, Clone, Copy, PartialEq, Eq, Hash, Structural)]
pub struct PeerID(pub usize);

/// The connection state of one peer slot.
#[derive(Debug, Clone, Copy, PartialEq, Eq, Hash, Structural)]
pub enum PeerState {
    /// The slot holds no connection.
    Disconnected,
    /// An outbound connection was requested and awaits its connect event.
    Connecting,
    /// The connection is established.
    Connected,
}

/// One row of a host's peer table: the connection attributes the transport
/// negotiated, and an optional payload the caller attached.
///
/// The attributes are read-only to callers; the payload is read-write, and
/// the host itself tears it down when the peer disconnects.
#[verifier::ext_equal]
pub struct Peer<T> {
    pub(crate) state: PeerState,
    pub(crate) channel_count: usize,
    pub(crate) round_trip_time: u32,
    pub(crate) address: Option<Address>,
    pub(crate) data: Option<T>,
}

impl<T> Peer<T> {
    /// The connection state of this slot.
    pub closed spec fn spec_state(self) -> PeerState {
        self.state
    }

    /// How many channels the connection in this slot carries.
    pub closed spec fn spec_channel_count(self) -> usize {
        self.channel_count
    }

    /// The transport's current round-trip-time estimate for this slot.
    pub closed spec fn spec_round_trip_time(self) -> u32 {
        self.round_trip_time
    }

    /// The remote endpoint this slot is bound to, if any.
    pub closed spec fn spec_address(self) -> Option<Address> {
        self.address
    }

    /// The payload the caller attached to this slot, if any.
    pub closed spec fn spec_data(self) -> Option<T> {
        self.data
    }

    /// A slot that was never occupied: disconnected, with no attributes and
    /// no payload.
    pub(crate) fn inactive() -> (r: Peer<T>)
        ensures
            r.spec_state() == PeerState::Disconnected,
            r.spec_channel_count() == 0usize,
            r.spec_round_trip_time() == 0u32,
            r.spec_address() is None,
            r.spec_data() is None,
    {
        Peer {
            state: PeerState::Disconnected,
            channel_count: 0,
            round_trip_time: 0,
            address: None,
            data: None,
        }
    }

    /// The connection state of this peer slot.
    pub fn state(&self) -> (r: PeerState)
        ensures
            r == self.spec_state(),
    {
        self.state
    }

    /// The number of channels of this peer's connection.
    pub fn channel_count(&self) -> (r: usize)
        ensures
            r == self.spec_channel_count(),
    {
        self.channel_count
    }

    /// The transport's round-trip-time estimate for this peer.
    pub fn round_trip_time(&self) -> (r: u32)
        ensures
            r == self.spec_round_trip_time(),
    {
        self.round_trip_time
    }

    /// The remote endpoint of this peer, if one is known.
    pub fn address(&self) -> (r: Option<Address>)
        ensures
            r == self.spec_address(),
    {
        self.address
    }

    /// A reference to the attached payload, if one is set.
    pub fn data(&self) -> (r: Option<&T>)
        ensures
            r is Some <==> self.spec_data() is Some,
            r matches Some(v) ==> self.spec_data() == Some(*v),
    {
        match &self.data {
            Some(v) => Some(v),
            None => None,
        }
    }

    /// A mutable reference to the attached payload, if one is set.
    pub fn data_mut(&mut self) -> (r: Option<&mut T>)
        ensures
            r is Some <==> old(self).spec_data() is Some,
            r matches Some(v) ==> old(self).spec_data() == Some(*v)
                && final(self).spec_data() == Some(*final(v))
                && final(self).spec_state() == old(self).spec_state()
                && final(self).spec_channel_count() == old(self).spec_channel_count()
                && final(self).spec_round_trip_time() == old(self).spec_round_trip_time()
                && final(self).spec_address() == old(self).spec_address(),
            r is None ==> *final(self) == *old(self),
    {
        match &mut self.data {
            Some(v) => Some(v),
            None => None,
        }
    }

    /// Replaces the attached payload. Setting `None` is the sanctioned
    /// teardown path: it is what the host's deferred cleanup invokes, and on
    /// a peer that holds no payload it is a no-op.
    pub fn set_data(&mut self, data: Option<T>)
        ensures
            final(self).spec_data() == data,
            final(self).spec_state() == old(self).spec_state(),
            final(self).spec_channel_count() == old(self).spec_channel_count(),
            final(self).spec_round_trip_time() == old(self).spec_round_trip_time(),
            final(self).spec_address() == old(self).spec_address(),
            old(self).spec_data() is None && data is None ==> *final(self) == *old(self),
    {
        self.data = data;
    }

    /// Records the transport's fresh round-trip-time reading for this slot.
    /// The transport owns the estimate; the layer embedding this table
    /// mirrors it here.
    pub fn set_round_trip_time(&mut self, round_trip_time: u32)
        ensures
            final(self).spec_round_trip_time() == round_trip_time,
            final(self).spec_state() == old(self).spec_state(),
            final(self).spec_channel_count() == old(self).spec_channel_count(),
            final(self).spec_address() == old(self).spec_address(),
            final(self).spec_data() == old(self).spec_data(),
    {
        self.round_trip_time = round_trip_time;
    }

    /// Marks this slot established with the negotiated channel count and
    /// remote endpoint; the payload and the round-trip estimate stay.
    pub(crate) fn apply_connect(&mut self, channel_count: usize, address: Address)
        ensures
            final(self).spec_state() == PeerState::Connected,
            final(self).spec_channel_count() == channel_count,
            final(self).spec_address() == Some(address),
            final(self).spec_round_trip_time() == old(self).spec_round_trip_time(),
            final(self).spec_data() == old(self).spec_data(),
    {
        self.state = PeerState::Connected;
        self.channel_count = channel_count;
        self.address = Some(address);
    }

    /// Marks this slot as requesting an outbound connection to `address`
    /// over `channel_count` channels; the payload stays.
    pub(crate) fn apply_connecting(&mut self, channel_count: usize, address: Address)
        ensures
            final(self).spec_state() == PeerState::Connecting,
            final(self).spec_channel_count() == channel_count,
            final(self).spec_address() == Some(address),
            final(self).spec_round_trip_time() == old(self).spec_round_trip_time(),
            final(self).spec_data() == old(self).spec_data(),
    {
        self.state = PeerState::Connecting;
        self.channel_count = channel_count;
        self.address = Some(address);
    }

    /// Marks this slot disconnected; every other attribute, the payload
    /// included, stays until the deferred cleanup tears the payload down.
    pub(crate) fn apply_disconnect(&mut self)
        ensures
            final(self).spec_state() == PeerState::Disconnected,
            final(self).spec_channel_count() == old(self).spec_channel_count(),
            final(self).spec_address() == old(self).spec_address(),
            final(self).spec_round_trip_time() == old(self).spec_round_trip_time(),
            final(self).spec_data() == old(self).spec_data(),
    {
        self.state = PeerState::Disconnected;
    }
}

/// Law: clearing the payload of a peer that holds none changes nothing: a
/// peer without a payload and the same peer after `set_data(None)` are one
/// value.
pub proof fn lemma_clear_absent_payload_is_noop<T>(p: Peer<T>, q: Peer<T>)
    requires
        p.spec_data() is None,
        q.spec_data() is None,
        q.spec_state() == p.spec_state(),
        q.spec_channel_count() == p.spec_channel_count(),
        q.spec_round_trip_time() == p.spec_round_trip_time(),
        q.spec_address() == p.spec_address(),
    ensures
        p == q,
{
    assert(p =~= q);
}

} // verus!

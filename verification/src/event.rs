use vstd::prelude::*;

use crate::address::Address;
use crate::peer::PeerID;

verus! {

/// A failure reported by the transport: the raw numeric result code of the
/// poll or connect call that failed. Code `0` is overloaded to mean that an
/// outbound connection could not even begin, so a code of `0` does not
/// always mean "no event".
#[derive(Debug, Clone, Copy, PartialEq, Eq, Hash, Structural)]
pub struct Error(pub i32);

/// What one poll call observed on one peer slot. Produced by a single call
/// to `service` or `check_events`, consumed immediately by the caller, and
/// never retained by the host.
#[derive(Debug, Clone, PartialEq, Eq)]
pub struct Event {
    /// The slot the event concerns.
    pub peer_id: PeerID,
    /// What happened on that slot.
    pub kind: EventKind,
}

/// The three things a poll can report of a peer slot.
#[derive(Debug, Clone, PartialEq, Eq)]
pub enum EventKind {
    /// A connection was established, carrying the negotiated channel count.
    Connect {
        /// The number of channels the two endpoints negotiated.
        channel_count: usize,
    },
    /// A data packet arrived on one channel.
    Receive {
        /// The channel the packet arrived on.
        channel_id: u8,
        /// The packet's payload.
        payload: Vec<u8>,
    },
    /// The slot's occupant disconnected, with the reason code the remote
    /// side supplied.
    Disconnect {
        /// The reason code carried by the disconnection.
        reason: u32,
    },
}

/// What the transport reported from one poll call, already read out of its
/// native representation into plain values. The layer that makes the native
/// poll call builds one of these and hands it to the host, which alone
/// decides what the caller sees.
pub enum TransportPoll {
    /// The poll call failed with a negative result code.
    Failure(i32),
    /// The poll call returned zero: nothing happened.
    Quiet,
    /// A connection was established on the given slot.
    Connect {
        /// The slot the connection landed in.
        peer_index: usize,
        /// The negotiated channel count.
        channel_count: usize,
        /// The remote endpoint.
        address: Address,
    },
    /// A packet arrived for the given slot.
    Receive {
        /// The slot the packet belongs to.
        peer_index: usize,
        /// The channel the packet arrived on.
        channel_id: u8,
        /// The packet's payload.
        payload: Vec<u8>,
    },
    /// The given slot's occupant disconnected.
    Disconnect {
        /// The slot that disconnected.
        peer_index: usize,
        /// The reason code supplied by the remote side.
        reason: u32,
    },
}

impl TransportPoll {
    /// A report is well formed for a table of `peer_count` slots when its
    /// failure code is negative and the slot it names lies inside the table:
    /// the transport only ever hands out slots of the table it was asked to
    /// poll.
    pub open spec fn wf(self, peer_count: nat) -> bool {
        match self {
            TransportPoll::Failure(code) => code < 0,
            TransportPoll::Quiet => true,
            TransportPoll::Connect { peer_index, .. } => peer_index < peer_count,
            TransportPoll::Receive { peer_index, .. } => peer_index < peer_count,
            TransportPoll::Disconnect { peer_index, .. } => peer_index < peer_count,
        }
    }

    /// What the caller is handed for each possible report: an error carrying
    /// the failure code, nothing, or the report's event form.
    pub open spec fn spec_outcome(self) -> Result<Option<Event>, Error> {
        match self {
            TransportPoll::Failure(code) => Err(Error(code)),
            TransportPoll::Quiet => Ok(None),
            TransportPoll::Connect { peer_index, channel_count, .. } => Ok(
                Some(
                    Event {
                        peer_id: PeerID(peer_index),
                        kind: EventKind::Connect { channel_count },
                    },
                ),
            ),
            TransportPoll::Receive { peer_index, channel_id, payload } => Ok(
                Some(
                    Event {
                        peer_id: PeerID(peer_index),
                        kind: EventKind::Receive { channel_id, payload },
                    },
                ),
            ),
            TransportPoll::Disconnect { peer_index, reason } => Ok(
                Some(Event { peer_id: PeerID(peer_index), kind: EventKind::Disconnect { reason } }),
            ),
        }
    }
}

} // verus!

use vstd::prelude::*;

verus! {

/// Largest number of channels one connection may carry; on the wire a channel
/// limit of zero stands for this maximum.
pub const PROTOCOL_MAXIMUM_CHANNEL_COUNT: usize = 255;

/// Smallest number of channels one connection may carry.
pub const PROTOCOL_MINIMUM_CHANNEL_COUNT: usize = 1;

/// A bandwidth limit for one direction of a host, or no limit at all.
#[derive(Debug, Clone, Copy, PartialEq, Eq, Hash, Structural)]
pub enum BandwidthLimit {
    /// No limit on bandwidth
    Unlimited,
    /// Bandwidth limit in bytes/second
    Limited(u32),
}

/// A limit on the number of channels of future connections, or the protocol
/// maximum.
#[derive(Debug, Clone, Copy, PartialEq, Eq, Hash, Structural)]
pub enum ChannelLimit {
    /// Maximum limit on the number of channels
    Maximum,
    /// Channel limit
    Limited(usize),
}

impl BandwidthLimit {
    /// The value handed to the transport: zero stands for "unlimited".
    pub open spec fn spec_wire_value(self) -> u32 {
        match self {
            BandwidthLimit::Unlimited => 0,
            BandwidthLimit::Limited(l) => l,
        }
    }

    /// Translates the limit to the transport's wire representation.
    pub fn to_enet_u32(self) -> (r: u32)
        ensures
            r == self.spec_wire_value(),
    {
        match self {
            BandwidthLimit::Unlimited => 0,
            BandwidthLimit::Limited(l) => l,
        }
    }
}

impl ChannelLimit {
    /// The value handed to the transport: zero stands for "maximum".
    pub open spec fn spec_wire_value(self) -> usize {
        match self {
            ChannelLimit::Maximum => 0,
            ChannelLimit::Limited(l) => l,
        }
    }

    /// The channel limit a host ends up holding once the transport has taken
    /// in a requested limit: a wire value of zero or one beyond the protocol
    /// maximum selects the maximum.
    pub open spec fn spec_effective_wire(self) -> usize {
        if self.spec_wire_value() == 0 || self.spec_wire_value() > PROTOCOL_MAXIMUM_CHANNEL_COUNT {
            PROTOCOL_MAXIMUM_CHANNEL_COUNT
        } else {
            self.spec_wire_value()
        }
    }

    /// How a stored wire value reads back as a limit: the protocol maximum
    /// stands for `Maximum`, anything else for itself.
    pub open spec fn spec_from_wire(wire: usize) -> ChannelLimit {
        if wire == PROTOCOL_MAXIMUM_CHANNEL_COUNT {
            ChannelLimit::Maximum
        } else {
            ChannelLimit::Limited(wire)
        }
    }

    /// The wire value a host holds after taking in this limit: the
    /// transport's own clamping rule, zero or an overlarge request
    /// selecting the protocol maximum.
    pub fn effective_wire(self) -> (r: usize)
        ensures
            r == self.spec_effective_wire(),
    {
        let wire = self.to_enet_val();
        if wire == 0 || wire > PROTOCOL_MAXIMUM_CHANNEL_COUNT {
            PROTOCOL_MAXIMUM_CHANNEL_COUNT
        } else {
            wire
        }
    }

    /// Translates the limit to the transport's wire representation.
    pub fn to_enet_val(self) -> (r: usize)
        ensures
            r == self.spec_wire_value(),
    {
        match self {
            ChannelLimit::Maximum => 0,
            ChannelLimit::Limited(l) => l,
        }
    }

    /// Reads a stored wire value back as a limit. A stored value of zero
    /// would mean the maximum was silently reported as a finite limit, which
    /// is an invariant violation, so that input is ruled out.
    pub fn from_enet_val(enet_val: usize) -> (r: ChannelLimit)
        requires
            enet_val != 0,
        ensures
            r == ChannelLimit::spec_from_wire(enet_val),
            r != ChannelLimit::Limited(0usize),
    {
        if enet_val == PROTOCOL_MAXIMUM_CHANNEL_COUNT {
            ChannelLimit::Maximum
        } else {
            ChannelLimit::Limited(enet_val)
        }
    }
}

/// Law: pushing a channel limit through the wire and reading it back never
/// yields `Limited(0)`, and `Maximum` always reads back as `Maximum`.
pub proof fn lemma_channel_limit_round_trip(l: ChannelLimit)
    ensures
        ChannelLimit::spec_from_wire(l.spec_effective_wire()) != ChannelLimit::Limited(0usize),
        l == ChannelLimit::Maximum ==> ChannelLimit::spec_from_wire(l.spec_effective_wire())
            == ChannelLimit::Maximum,
{
}

/// The channel count one connection actually gets when asked for `count`:
/// the transport clamps a request into the protocol's range.
pub open spec fn spec_clamped_channel_count(count: usize) -> usize {
    if count < PROTOCOL_MINIMUM_CHANNEL_COUNT {
        PROTOCOL_MINIMUM_CHANNEL_COUNT
    } else if count > PROTOCOL_MAXIMUM_CHANNEL_COUNT {
        PROTOCOL_MAXIMUM_CHANNEL_COUNT
    } else {
        count
    }
}

/// Clamps a requested channel count into the protocol's range, as the
/// transport does when a connection is originated.
pub fn clamped_channel_count(count: usize) -> (r: usize)
    ensures
        r == spec_clamped_channel_count(count),
{
    if count < PROTOCOL_MINIMUM_CHANNEL_COUNT {
        PROTOCOL_MINIMUM_CHANNEL_COUNT
    } else if count > PROTOCOL_MAXIMUM_CHANNEL_COUNT {
        PROTOCOL_MAXIMUM_CHANNEL_COUNT
    } else {
        count
    }
}

} // verus!

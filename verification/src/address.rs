use vstd::prelude::*;

verus! {

/// A network endpoint: a host given as a numeric address, and a port.
/// A plain value with no identity or lifecycle of its own.
#[derive(Debug, Clone, Copy, PartialEq, Eq, Hash, Structural)]
pub struct Address {
    /// The numeric host address, in the transport's native encoding.
    pub host: u32,
    /// The port.
    pub port: u16,
}

impl Address {
    /// Builds an address from the transport's native pair of host and port.
    pub fn from_native(host: u32, port: u16) -> (r: Address)
        ensures
            r == (Address { host, port }),
    {
        Address { host, port }
    }

    /// Hands the address back as the transport's native pair, so that
    /// `from_native` of the result gives the address itself: the two
    /// conversions round-trip losslessly.
    pub fn to_native(self) -> (r: (u32, u16))
        ensures
            r.0 == self.host,
            r.1 == self.port,
            (Address { host: r.0, port: r.1 }) == self,
    {
        (self.host, self.port)
    }
}

} // verus!

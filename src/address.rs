use vstd::prelude::*;

verus! {

/// The address family of a socket.
#[derive(Clone, Copy, Debug, PartialEq, Eq, Structural)]
pub enum Family {
    V4,
    V6,
}

/// A socket address: an IP address and a port.
#[derive(Clone, Copy, Debug, PartialEq, Eq)]
pub enum Address {
    V4 { octets: [u8; 4], port: u16 },
    V6 { segments: [u16; 8], port: u16 },
}

/// The IPv4 loopback address, 127.0.0.1.
pub open spec fn is_loopback_v4(octets: Seq<u8>) -> bool {
    octets == seq![127u8, 0u8, 0u8, 1u8]
}

impl Address {
    /// The family that a socket bound to this address must have.
    pub open spec fn spec_family(&self) -> Family {
        match self {
            Address::V4 { .. } => Family::V4,
            Address::V6 { .. } => Family::V6,
        }
    }

    pub open spec fn spec_port(&self) -> u16 {
        match self {
            Address::V4 { port, .. } => *port,
            Address::V6 { port, .. } => *port,
        }
    }

    /// The IPv4 loopback address with port 0, so that the system picks an
    /// ephemeral port when the socket is bound.
    pub fn loopback_ephemeral() -> (r: Address)
        ensures
            r is V4,
            is_loopback_v4(r->V4_octets@),
            r.spec_port() == 0,
    {
        let r = Address::V4 { octets: [127u8, 0u8, 0u8, 1u8], port: 0 };
        assert(r->V4_octets@ =~= seq![127u8, 0u8, 0u8, 1u8]);
        r
    }

    pub fn family(&self) -> (r: Family)
        ensures
            r == self.spec_family(),
    {
        match self {
            Address::V4 { .. } => Family::V4,
            Address::V6 { .. } => Family::V6,
        }
    }

    pub fn port(&self) -> (r: u16)
        ensures
            r == self.spec_port(),
    {
        match self {
            Address::V4 { port, .. } => *port,
            Address::V6 { port, .. } => *port,
        }
    }
}

} // verus!

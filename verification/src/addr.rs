//! IPv4 endpoints and the multicast address class.

use vstd::prelude::*;

verus! {

/// An IPv4 address, held as its four dotted-quad octets.
#[derive(Clone, Copy, Debug, PartialEq, Eq)]
pub struct Ipv4Address {
    pub oct0: u8,
    pub oct1: u8,
    pub oct2: u8,
    pub oct3: u8,
}

/// An IPv4 address together with a UDP port.
#[derive(Clone, Copy, Debug, PartialEq, Eq)]
pub struct Endpoint {
    pub addr: Ipv4Address,
    pub port: u16,
}

impl Ipv4Address {
    /// The multicast class: 224.0.0.0 through 239.255.255.255, that is,
    /// every address whose first octet lies in 224..=239.
    pub open spec fn spec_is_multicast(&self) -> bool {
        224 <= self.oct0 && self.oct0 <= 239
    }

    pub fn new(oct0: u8, oct1: u8, oct2: u8, oct3: u8) -> (r: Ipv4Address)
        ensures
            r == (Ipv4Address { oct0, oct1, oct2, oct3 }),
    {
        Ipv4Address { oct0, oct1, oct2, oct3 }
    }

    /// Whether the address lies in the IPv4 multicast range.
    #[verifier::when_used_as_spec(spec_is_multicast)]
    pub fn is_multicast(&self) -> (r: bool)
        ensures
            r == self.spec_is_multicast(),
    {
        224 <= self.oct0 && self.oct0 <= 239
    }
}

impl Endpoint {
    pub fn new(addr: Ipv4Address, port: u16) -> (r: Endpoint)
        ensures
            r == (Endpoint { addr, port }),
    {
        Endpoint { addr, port }
    }
}

} // verus!

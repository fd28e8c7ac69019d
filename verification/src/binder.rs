//! Planning the multicast socket: the fail-fast address class check and
//! the configuration the socket must receive before any datagram flows.

use vstd::prelude::*;
use crate::addr::{Endpoint, Ipv4Address};

verus! {

/// A fatal configuration error, reported before any socket is touched.
#[derive(Clone, Copy, Debug, PartialEq, Eq)]
pub enum ConfigError {
    /// The group endpoint's address is not in the multicast range.
    GroupNotMulticast,
}

/// Everything the process must do to the socket, in order: create a UDP
/// socket, enable address reuse, bind `bind_endpoint`, enable multicast
/// loopback, and join `group` on `interface`.
#[derive(Clone, Copy, Debug, PartialEq, Eq)]
pub struct BindPlan {
    /// The local endpoint the socket is bound to (wildcard address, chosen port).
    pub bind_endpoint: Endpoint,
    /// The multicast group to join.
    pub group: Ipv4Address,
    /// The local interface on which the group is joined.
    pub interface: Ipv4Address,
    /// Address reuse is enabled before binding, so several local
    /// processes can share the port.
    pub reuse_address: bool,
    /// Multicast loopback is enabled, so a sender also receives its own
    /// locally-looped datagrams.
    pub multicast_loopback: bool,
}

impl ConfigError {
    /// A short description of the error, for reporting at startup.
    pub fn describe(&self) -> (r: &'static str)
        ensures
            self is GroupNotMulticast ==> r@ =~= "group address must be a multicast address"@,
    {
        match self {
            ConfigError::GroupNotMulticast => "group address must be a multicast address",
        }
    }
}

/// Checks the group endpoint and, only when its address is multicast,
/// returns the full socket configuration plan. A non-multicast group is
/// rejected here, before any socket exists or any option is set.
pub fn plan_bind(bind: Endpoint, group: Endpoint) -> (r: Result<BindPlan, ConfigError>)
    ensures
        r is Ok <==> group.addr.spec_is_multicast(),
        r matches Ok(p) ==> p == (BindPlan {
            bind_endpoint: bind,
            group: group.addr,
            interface: bind.addr,
            reuse_address: true,
            multicast_loopback: true,
        }),
        r matches Err(e) ==> e is GroupNotMulticast,
{
    if !group.addr.is_multicast() {
        Err(ConfigError::GroupNotMulticast)
    } else {
        Ok(BindPlan {
            bind_endpoint: bind,
            group: group.addr,
            interface: bind.addr,
            reuse_address: true,
            multicast_loopback: true,
        })
    }
}

} // verus!

//! The fields of a parsed DHCPOFFER or DHCPACK that the lease logic reads.
use vstd::prelude::*;

use crate::address::Ipv4Address;

verus! {

/// A server's offer or acknowledgement, already decoded from the wire.
#[derive(Clone, Copy, Debug, PartialEq, Eq, Structural)]
pub struct Response {
    /// `xid`: must equal the client's transaction id.
    pub transaction_id: u32,
    /// `yiaddr`: the offered or assigned address.
    pub your_ip_address: Ipv4Address,
    /// Option 54, the server identifier.
    pub dhcp_server_id: Option<Ipv4Address>,
    /// Option 51, the address lease time in seconds.
    pub address_time: Option<u32>,
    /// Option 58, the renewal (T1) time in seconds.
    pub renewal_time: Option<u32>,
    /// Option 59, the rebinding (T2) time in seconds.
    pub rebinding_time: Option<u32>,
}

} // verus!

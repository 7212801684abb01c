//! Network addresses of hosts, as plain octets.

use vstd::prelude::*;

verus! {

/// The address of a host: the octets of an IPv4 or of an IPv6 address, in
/// network order.
#[derive(Clone, Copy, Debug, PartialEq, Eq)]
pub enum HostAddress {
    V4([u8; 4]),
    V6([u8; 16]),
}

} // verus!

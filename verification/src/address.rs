//! Network addresses of Lightning nodes, as text.

use ldk_node::lightning::ln::msgs::{SocketAddress, SocketAddressParseError};
use std::str::FromStr;
use vstd::prelude::*;

verus! {

/// The address under which a Lightning node can be reached.
#[verifier::external_type_specification]
#[verifier::external_body]
pub struct ExSocketAddress(SocketAddress);

/// Why a text is no address of a Lightning node.
#[verifier::external_type_specification]
#[verifier::external_body]
pub struct ExSocketAddressParseError(SocketAddressParseError);

/// Whether a text is read as the address of a Lightning node: an IP address,
/// an onion address or a host name, each followed by a colon and a port.
pub uninterp spec fn socket_address_accepted(text: Seq<char>) -> bool;

/// `SocketAddress::from_str`: whether it accepts a text depends on the text
/// alone.
#[verifier::external_body]
pub(crate) fn parse_socket_address(text: &str) -> (r: Result<
    SocketAddress,
    SocketAddressParseError,
>)
    ensures
        r is Ok <==> socket_address_accepted(text@),
{
    SocketAddress::from_str(text)
}

} // verus!

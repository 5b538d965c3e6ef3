//! The numbers of the netlink protocol that a route query carries.
//!
//! Their values are those of `netlink-packet-core` and `netlink-packet-route`:
//! executable code reads them from these crates, and the contracts of the
//! functions that do so say which number each of them is.

use vstd::prelude::*;

verus! {

/// `NLM_F_REQUEST`, the flag set on every request.
pub open spec fn nlm_f_request() -> u16 {
    0x001
}

/// `NLM_F_DUMP`, the flag that asks for every matching entry.
pub open spec fn nlm_f_dump() -> u16 {
    0x300
}

/// `RTM_F_LOOKUP_TABLE`, the route flag that asks for the table of the lookup.
pub open spec fn rtm_f_lookup_table() -> u32 {
    0x1000
}

/// `RT_SCOPE_UNIVERSE`, the scope of a route that is valid everywhere.
pub open spec fn rt_scope_universe() -> u8 {
    0
}

/// `RTN_UNSPEC`, the route type that names no type.
pub open spec fn rtn_unspec() -> u8 {
    0
}

/// `RT_TABLE_UNSPEC`, the table id that names no table.
pub open spec fn rt_table_unspec() -> u8 {
    0
}

/// `RTPROT_UNSPEC`, the protocol id that names no protocol.
pub open spec fn rtprot_unspec() -> u8 {
    0
}

/// Reads the constant `netlink_packet_core::NLM_F_REQUEST`.
/// Trusted: its value is 1.
#[verifier::external_body]
pub(crate) fn request_flag() -> (flag: u16)
    ensures
        flag == nlm_f_request(),
{
    netlink_packet_core::NLM_F_REQUEST
}

/// Reads the constant `netlink_packet_core::NLM_F_DUMP`.
/// Trusted: its value is 768, the two bits `NLM_F_ROOT` and `NLM_F_MATCH`.
#[verifier::external_body]
pub(crate) fn dump_flag() -> (flag: u16)
    ensures
        flag == nlm_f_dump(),
{
    netlink_packet_core::NLM_F_DUMP
}

/// Calls `bits` on `netlink_packet_route::route::RouteFlags::LookupTable`.
/// Trusted: that flag is the single bit 0x1000.
#[verifier::external_body]
pub(crate) fn lookup_table_flag() -> (flag: u32)
    ensures
        flag == rtm_f_lookup_table(),
{
    netlink_packet_route::route::RouteFlags::LookupTable.bits()
}

/// Converts `netlink_packet_route::route::RouteScope::Universe` to its number
/// with the crate's `From<RouteScope> for u8`.
/// Trusted: the number is 0.
#[verifier::external_body]
pub(crate) fn scope_universe() -> (scope: u8)
    ensures
        scope == rt_scope_universe(),
{
    u8::from(netlink_packet_route::route::RouteScope::Universe)
}

/// Converts `netlink_packet_route::route::RouteType::Unspec` to its number
/// with the crate's `From<RouteType> for u8`.
/// Trusted: the number is 0.
#[verifier::external_body]
pub(crate) fn kind_unspec() -> (kind: u8)
    ensures
        kind == rtn_unspec(),
{
    u8::from(netlink_packet_route::route::RouteType::Unspec)
}

/// Reads the constant `netlink_packet_route::route::RouteHeader::RT_TABLE_UNSPEC`.
/// Trusted: its value is 0.
#[verifier::external_body]
pub(crate) fn table_unspec() -> (table: u8)
    ensures
        table == rt_table_unspec(),
{
    netlink_packet_route::route::RouteHeader::RT_TABLE_UNSPEC
}

/// Converts `netlink_packet_route::route::RouteProtocol::Unspec` to its number
/// with the crate's `From<RouteProtocol> for u8`.
/// Trusted: the number is 0.
#[verifier::external_body]
pub(crate) fn protocol_unspec() -> (protocol: u8)
    ensures
        protocol == rtprot_unspec(),
{
    u8::from(netlink_packet_route::route::RouteProtocol::Unspec)
}

} // verus!

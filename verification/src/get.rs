//! The two builders of route queries.
//!
//! A builder owns its descriptor and the handle of the transport until one
//! of its terminal operations ends it. The operation decides the flags of
//! the request and gives both back as a [`Submission`]; nothing is sent
//! from here.

use vstd::prelude::*;
use crate::codes::{
    kind_unspec, lookup_table_flag, nlm_f_dump, nlm_f_request, protocol_unspec,
    rt_scope_universe, rt_table_unspec, rtm_f_lookup_table, rtn_unspec, rtprot_unspec,
    scope_universe, table_unspec,
};
use crate::message::{
    AddressFamily, RouteAttribute, RouteAttributeView, RouteHeader, RouteMessage,
    RouteMessageView,
};
use crate::request::{lemma_flags_tell_modes_apart, QueryMode, RouteRequest, Submission};

verus! {

/// Internet Protocol (IP) version.
#[derive(Debug, Clone, Eq, PartialEq, PartialOrd, Structural)]
pub enum IpVersion {
    /// IPv4
    V4,
    /// IPv6
    V6,
}

impl IpVersion {
    /// The address family of this version.
    pub open spec fn address_family(self) -> AddressFamily {
        match self {
            IpVersion::V4 => AddressFamily::Inet,
            IpVersion::V6 => AddressFamily::Inet6,
        }
    }

    /// The address family of this version.
    pub fn family(self) -> (family: AddressFamily)
        ensures
            family == self.address_family(),
    {
        match self {
            IpVersion::V4 => AddressFamily::Inet,
            IpVersion::V6 => AddressFamily::Inet6,
        }
    }
}

/// A general route query. What it asks for is decided when it is submitted,
/// by the descriptor as it then is.
#[derive(Debug, Clone)]
pub struct RouteGetRequest<H> {
    handle: H,
    message: RouteMessage,
}

impl<H> RouteGetRequest<H> {
    /// The transport handle that the query was made with.
    pub closed spec fn handle(&self) -> H {
        self.handle
    }

    /// The descriptor of the query.
    pub closed spec fn message(&self) -> RouteMessage {
        self.message
    }

    /// A query for `message`, to be sent through `handle`.
    pub fn new(handle: H, message: RouteMessage) -> (request: Self)
        ensures
            request.handle() == handle,
            request.message() == message,
    {
        RouteGetRequest { handle, message }
    }

    /// The descriptor, to change it before the query is submitted.
    pub fn message_mut(&mut self) -> (message: &mut RouteMessage)
        ensures
            *message == old(self).message(),
            final(self).message() == *final(message),
            final(self).handle() == old(self).handle(),
    {
        &mut self.message
    }

    /// Ends the query as a lookup, whatever the descriptor holds: the request
    /// carries the request flag and nothing else, so never the dump bits.
    pub fn lookup(self) -> (submission: Submission<H>)
        ensures
            submission.handle == self.handle(),
            submission.request.message == self.message(),
            submission.request.flags == nlm_f_request(),
            submission.request.flags & nlm_f_dump() == 0,
    {
        proof {
            lemma_flags_tell_modes_apart(QueryMode::Lookup);
        }
        let RouteGetRequest { handle, message } = self;
        Submission { handle, request: RouteRequest::new(QueryMode::Lookup, message) }
    }

    /// Ends the query in the mode that the descriptor asks for as it now is:
    /// a dump if it names no destination, a lookup if it names one.
    pub fn execute(self) -> (submission: Submission<H>)
        ensures
            submission.handle == self.handle(),
            submission.request.message == self.message(),
            submission.request.flags == QueryMode::of(self.message()@).flags(),
            !self.message()@.has_destination() ==> submission.request.flags == nlm_f_request()
                | nlm_f_dump(),
            self.message()@.has_destination() ==> submission.request.flags == nlm_f_request(),
    {
        let RouteGetRequest { handle, message } = self;
        let mode = QueryMode::select(&message);
        Submission { handle, request: RouteRequest::new(mode, message) }
    }
}

/// The descriptor that asks which route the kernel would use to reach the
/// IPv4 address `octets`: an exact-host match on the destination, any
/// source, the table of the lookup asked for, and the address as the one
/// attribute.
pub open spec fn resolve_descriptor(octets: Seq<u8>) -> RouteMessageView {
    RouteMessageView {
        header: RouteHeader {
            address_family: AddressFamily::Inet,
            destination_prefix_length: 32,
            source_prefix_length: 0,
            tos: 0,
            table: rt_table_unspec(),
            protocol: rtprot_unspec(),
            scope: rt_scope_universe(),
            kind: rtn_unspec(),
            flags: rtm_f_lookup_table(),
        },
        attributes: seq![RouteAttributeView::Destination(octets)],
    }
}

/// The descriptor of a query for the route to an IPv4 address has the
/// address length of its family, names a destination, so asks for a lookup
/// by what it holds too, and has the lookup-table bit among its flags.
pub proof fn lemma_resolve_descriptor(octets: Seq<u8>)
    requires
        octets.len() == 4,
    ensures
        resolve_descriptor(octets).well_formed(),
        resolve_descriptor(octets).has_destination(),
        QueryMode::of(resolve_descriptor(octets)) == QueryMode::Lookup,
        resolve_descriptor(octets).header.flags & rtm_f_lookup_table() == rtm_f_lookup_table(),
{
    let descriptor = resolve_descriptor(octets);
    assert(descriptor.attributes[0] is Destination);
    assert(0x1000u32 & 0x1000u32 == 0x1000u32) by (bit_vector);
}

/// The query for the route to one address.
#[derive(Debug, Clone)]
pub struct RouteGetResolve<H, IP> {
    handle: H,
    message: RouteMessage,
    ip: IP,
}

impl<H> RouteGetResolve<H, [u8; 4]> {
    /// A query for the route to the IPv4 address `ip`, given by its four
    /// octets, to be sent through `handle`.
    pub fn new(handle: H, ip: [u8; 4]) -> (resolve: Self)
        ensures
            resolve.handle() == handle,
            resolve.ip() == ip,
            resolve.message()@ == resolve_descriptor(ip@),
            resolve.message()@.well_formed(),
    {
        proof {
            lemma_resolve_descriptor(ip@);
        }
        let mut octets: Vec<u8> = Vec::new();
        octets.push(ip[0]);
        octets.push(ip[1]);
        octets.push(ip[2]);
        octets.push(ip[3]);
        assert(octets@ =~= ip@);
        let mut message = RouteMessage::default();
        message.header.address_family = IpVersion::V4.family();
        message.header.destination_prefix_length = 32;
        message.header.source_prefix_length = 0;
        message.header.flags = lookup_table_flag();
        message.header.scope = scope_universe();
        message.header.kind = kind_unspec();
        message.header.table = table_unspec();
        message.header.protocol = protocol_unspec();
        message.attributes.push(RouteAttribute::Destination(octets));
        assert(message@.attributes =~= seq![RouteAttributeView::Destination(ip@)]);
        RouteGetResolve { handle, message, ip }
    }
}

impl<H, IP> RouteGetResolve<H, IP> {
    /// The transport handle that the query was made with.
    pub closed spec fn handle(&self) -> H {
        self.handle
    }

    /// The descriptor of the query.
    pub closed spec fn message(&self) -> RouteMessage {
        self.message
    }

    /// The address that the query was made for.
    pub closed spec fn ip(&self) -> IP {
        self.ip
    }

    /// The descriptor, to change it before the query is submitted. Whoever
    /// changes it answers for what the query then asks.
    pub fn message_mut(&mut self) -> (message: &mut RouteMessage)
        ensures
            *message == old(self).message(),
            final(self).message() == *final(message),
            final(self).handle() == old(self).handle(),
            final(self).ip() == old(self).ip(),
    {
        &mut self.message
    }

    /// Ends the query, always as a lookup: the request carries the request
    /// flag and nothing else, so never the dump bits.
    pub fn lookup(self) -> (submission: Submission<H>)
        ensures
            submission.handle == self.handle(),
            submission.request.message == self.message(),
            submission.request.flags == nlm_f_request(),
            submission.request.flags & nlm_f_dump() == 0,
    {
        proof {
            lemma_flags_tell_modes_apart(QueryMode::Lookup);
        }
        let RouteGetResolve { handle, message, ip: _ } = self;
        Submission { handle, request: RouteRequest::new(QueryMode::Lookup, message) }
    }
}

} // verus!

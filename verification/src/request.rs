//! The request that goes on the wire, and the flags that tell a dump from a
//! lookup.

use vstd::prelude::*;
use crate::codes::{dump_flag, nlm_f_dump, nlm_f_request, request_flag};
use crate::message::{RouteMessage, RouteMessageView};

verus! {

/// What a query asks the kernel to do. The protocol has one message kind for
/// both: only a flag tells them apart.
#[derive(Debug, Clone, Copy, PartialEq, Eq, Structural)]
pub enum QueryMode {
    /// Every route that matches the header.
    Dump,
    /// The one route that the kernel resolves for the query.
    Lookup,
}

impl QueryMode {
    /// The mode that a descriptor asks for by what it holds: a lookup if it
    /// names a destination, a dump if not.
    pub open spec fn of(message: RouteMessageView) -> QueryMode {
        if message.has_destination() {
            QueryMode::Lookup
        } else {
            QueryMode::Dump
        }
    }

    /// The netlink header flags of a request in this mode.
    pub open spec fn flags(self) -> u16 {
        match self {
            QueryMode::Dump => nlm_f_request() | nlm_f_dump(),
            QueryMode::Lookup => nlm_f_request(),
        }
    }

    /// Selects the mode that `message` asks for.
    pub fn select(message: &RouteMessage) -> (mode: QueryMode)
        ensures
            mode == QueryMode::of(message@),
    {
        if message.has_destination() {
            QueryMode::Lookup
        } else {
            QueryMode::Dump
        }
    }

    /// Computes the netlink header flags of a request in this mode.
    pub fn header_flags(self) -> (flags: u16)
        ensures
            flags == self.flags(),
    {
        match self {
            QueryMode::Dump => request_flag() | dump_flag(),
            QueryMode::Lookup => request_flag(),
        }
    }
}

/// Every request carries the request flag, and the dump bits are set in a
/// dump, both of them, and clear in a lookup, both of them.
pub proof fn lemma_flags_tell_modes_apart(mode: QueryMode)
    ensures
        mode.flags() & nlm_f_request() == nlm_f_request(),
        mode == QueryMode::Dump ==> mode.flags() & nlm_f_dump() == nlm_f_dump(),
        mode == QueryMode::Lookup ==> mode.flags() & nlm_f_dump() == 0,
        mode == QueryMode::Dump ==> mode.flags() == 0x301,
        mode == QueryMode::Lookup ==> mode.flags() == 0x001,
{
    assert((0x001u16 | 0x300u16) & 0x001u16 == 0x001u16) by (bit_vector);
    assert((0x001u16 | 0x300u16) & 0x300u16 == 0x300u16) by (bit_vector);
    assert(0x001u16 | 0x300u16 == 0x301u16) by (bit_vector);
    assert(0x001u16 & 0x001u16 == 0x001u16) by (bit_vector);
    assert(0x001u16 & 0x300u16 == 0u16) by (bit_vector);
}

/// A route query as it goes on the wire: a "get route" message with its
/// netlink header flags.
#[derive(Debug, Clone, PartialEq, Eq)]
pub struct RouteRequest {
    /// The flags of the netlink header.
    pub flags: u16,
    /// The descriptor that the message carries.
    pub message: RouteMessage,
}

impl RouteRequest {
    /// Makes the request that carries `message` in the given mode.
    pub fn new(mode: QueryMode, message: RouteMessage) -> (request: RouteRequest)
        ensures
            request.flags == mode.flags(),
            request.message == message,
    {
        RouteRequest { flags: mode.header_flags(), message }
    }
}

/// A request on its way out: the transport handle that a builder was made
/// with, and the request to hand to it, once.
#[derive(Debug, Clone, PartialEq, Eq)]
pub struct Submission<H> {
    pub handle: H,
    pub request: RouteRequest,
}

} // verus!

//! The route descriptor: the header of a route message and its attributes.

use vstd::prelude::*;

verus! {

/// Address family of a route.
#[derive(Debug, Clone, Copy, PartialEq, Eq, Structural)]
pub enum AddressFamily {
    /// No family given.
    Unspec,
    /// IPv4.
    Inet,
    /// IPv6.
    Inet6,
    /// Any other family, by its number.
    Other(u8),
}

impl AddressFamily {
    /// How many octets an address of this family has, where the family fixes it.
    pub open spec fn address_len(self) -> Option<nat> {
        match self {
            AddressFamily::Inet => Some(4),
            AddressFamily::Inet6 => Some(16),
            _ => None,
        }
    }

    /// Whether an address of `len` octets can belong to this family.
    pub open spec fn admits(self, len: nat) -> bool {
        self.address_len() matches Some(n) ==> n == len
    }

    /// Whether an address of `len` octets can belong to this family: always for
    /// a family without a fixed address length.
    pub fn admits_len(self, len: usize) -> (fits: bool)
        ensures
            fits == self.admits(len as nat),
    {
        match self {
            AddressFamily::Inet => len == 4,
            AddressFamily::Inet6 => len == 16,
            _ => true,
        }
    }
}

/// Header of a route message, field for field what the kernel calls `rtmsg`.
#[derive(Debug, Clone, Copy, PartialEq, Eq, Structural)]
pub struct RouteHeader {
    /// Address family of the route.
    pub address_family: AddressFamily,
    /// Prefix length of the destination.
    pub destination_prefix_length: u8,
    /// Prefix length of the source.
    pub source_prefix_length: u8,
    /// Type of service.
    pub tos: u8,
    /// Routing table id.
    pub table: u8,
    /// Routing protocol id.
    pub protocol: u8,
    /// Scope of the route.
    pub scope: u8,
    /// Type of the route.
    pub kind: u8,
    /// Route flags, a set of bits.
    pub flags: u32,
}

impl RouteHeader {
    /// The header that selects nothing: no family, and every other field zero.
    pub open spec fn unspecified() -> RouteHeader {
        RouteHeader {
            address_family: AddressFamily::Unspec,
            destination_prefix_length: 0,
            source_prefix_length: 0,
            tos: 0,
            table: 0,
            protocol: 0,
            scope: 0,
            kind: 0,
            flags: 0,
        }
    }
}

impl Default for RouteHeader {
    /// The header that selects nothing.
    fn default() -> (header: RouteHeader)
        ensures
            header == RouteHeader::unspecified(),
    {
        RouteHeader {
            address_family: AddressFamily::Unspec,
            destination_prefix_length: 0,
            source_prefix_length: 0,
            tos: 0,
            table: 0,
            protocol: 0,
            scope: 0,
            kind: 0,
            flags: 0,
        }
    }
}

/// One attribute of a route message.
#[derive(Debug, Clone, PartialEq, Eq)]
pub enum RouteAttribute {
    /// The destination address, as raw octets.
    Destination(Vec<u8>),
    /// Any other attribute, by its kind and its raw value.
    Other { kind: u16, value: Vec<u8> },
}

/// What a [`RouteAttribute`] stands for.
pub enum RouteAttributeView {
    Destination(Seq<u8>),
    Other { kind: u16, value: Seq<u8> },
}

impl View for RouteAttribute {
    type V = RouteAttributeView;

    open spec fn view(&self) -> RouteAttributeView {
        match *self {
            RouteAttribute::Destination(octets) => RouteAttributeView::Destination(octets@),
            RouteAttribute::Other { kind, value } => RouteAttributeView::Other {
                kind,
                value: value@,
            },
        }
    }
}

/// A route descriptor: what a query asks for, or what the kernel reports.
#[derive(Debug, Clone, PartialEq, Eq)]
pub struct RouteMessage {
    pub header: RouteHeader,
    /// The attributes, in the order in which they go on the wire.
    pub attributes: Vec<RouteAttribute>,
}

/// What a [`RouteMessage`] stands for.
pub struct RouteMessageView {
    pub header: RouteHeader,
    pub attributes: Seq<RouteAttributeView>,
}

impl View for RouteMessage {
    type V = RouteMessageView;

    open spec fn view(&self) -> RouteMessageView {
        RouteMessageView {
            header: self.header,
            attributes: self.attributes@.map_values(|a: RouteAttribute| a@),
        }
    }
}

impl RouteMessageView {
    /// The empty descriptor: the unspecified header and no attribute.
    pub open spec fn empty() -> RouteMessageView {
        RouteMessageView { header: RouteHeader::unspecified(), attributes: Seq::empty() }
    }

    /// Whether some attribute is a destination address.
    pub open spec fn has_destination(self) -> bool {
        exists|i: int| 0 <= i < self.attributes.len() && (#[trigger] self.attributes[i]) is Destination
    }

    /// Whether every destination address has the length that the header's
    /// address family asks for: 4 octets for IPv4, 16 for IPv6.
    pub open spec fn well_formed(self) -> bool {
        forall|i: int|
            0 <= i < self.attributes.len() ==> (#[trigger] self.attributes[i] matches RouteAttributeView::Destination(
                octets,
            ) ==> self.header.address_family.admits(octets.len()))
    }
}

impl Default for RouteMessage {
    /// The empty descriptor.
    fn default() -> (message: RouteMessage)
        ensures
            message.header == RouteHeader::unspecified(),
            message.attributes@.len() == 0,
            message@ == RouteMessageView::empty(),
    {
        let message = RouteMessage { header: RouteHeader::default(), attributes: Vec::new() };
        assert(message@.attributes =~= Seq::empty());
        message
    }
}

impl RouteMessage {
    /// Whether some attribute is a destination address.
    pub fn has_destination(&self) -> (found: bool)
        ensures
            found == self@.has_destination(),
    {
        let mut i: usize = 0;
        while i < self.attributes.len()
            invariant
                i <= self.attributes.len(),
                forall|j: int| 0 <= j < i ==> !((#[trigger] self@.attributes[j]) is Destination),
            decreases self.attributes.len() - i,
        {
            if let RouteAttribute::Destination(_) = &self.attributes[i] {
                assert(self@.attributes[i as int] is Destination);
                return true;
            }
            i += 1;
        }
        false
    }

    /// Whether every destination address has the length that the header's
    /// address family asks for.
    pub fn is_well_formed(&self) -> (ok: bool)
        ensures
            ok == self@.well_formed(),
    {
        let mut i: usize = 0;
        while i < self.attributes.len()
            invariant
                i <= self.attributes.len(),
                forall|j: int|
                    0 <= j < i ==> (#[trigger] self@.attributes[j] matches RouteAttributeView::Destination(
                        octets,
                    ) ==> self.header.address_family.admits(octets.len())),
            decreases self.attributes.len() - i,
        {
            if let RouteAttribute::Destination(octets) = &self.attributes[i] {
                if !self.header.address_family.admits_len(octets.len()) {
                    assert(self@.attributes[i as int] == RouteAttributeView::Destination(octets@));
                    return false;
                }
            }
            i += 1;
        }
        true
    }
}

} // verus!

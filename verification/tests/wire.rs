use netlink_packet_core::{NetlinkMessage, NetlinkPayload};
use netlink_packet_route::route::{
    RouteAddress, RouteAttribute as PacketAttribute, RouteFlags, RouteHeader as PacketHeader,
    RouteMessage as PacketMessage, RouteProtocol, RouteScope, RouteType,
};
use netlink_packet_route::{AddressFamily as PacketFamily, RouteNetlinkMessage};
use rtnetlink::reply::try_route;
use rtnetlink::{
    AddressFamily, Error, RouteAttribute, RouteGetRequest, RouteGetResolve, RouteMessage,
    RouteReply, RouteRequest,
};

/// The netlink message of a request over IPv4 whose attributes are
/// destinations.
fn netlink(request: &RouteRequest) -> NetlinkMessage<RouteNetlinkMessage> {
    let header = request.message.header;
    assert!(matches!(
        header.address_family,
        AddressFamily::Inet | AddressFamily::Unspec
    ));
    let mut message = PacketMessage::default();
    message.header = PacketHeader {
        address_family: if header.address_family == AddressFamily::Inet {
            PacketFamily::Inet
        } else {
            PacketFamily::Unspec
        },
        destination_prefix_length: header.destination_prefix_length,
        source_prefix_length: header.source_prefix_length,
        tos: header.tos,
        table: header.table,
        protocol: RouteProtocol::from(header.protocol),
        scope: RouteScope::from(header.scope),
        kind: RouteType::from(header.kind),
        flags: RouteFlags::from_bits_retain(header.flags),
    };
    for attribute in &request.message.attributes {
        match attribute {
            RouteAttribute::Destination(octets) => {
                let octets: [u8; 4] = octets.as_slice().try_into().unwrap();
                message
                    .attributes
                    .push(PacketAttribute::Destination(RouteAddress::Inet(octets.into())));
            }
            RouteAttribute::Other { .. } => panic!("only destinations here"),
        }
    }
    let mut out = NetlinkMessage::from(RouteNetlinkMessage::GetRoute(message));
    out.header.flags = request.flags;
    out.finalize();
    out
}

fn bytes(message: &NetlinkMessage<RouteNetlinkMessage>) -> Vec<u8> {
    let mut buffer = vec![0; message.buffer_len()];
    message.serialize(&mut buffer);
    buffer
}

#[test]
fn a_resolve_request_serializes_as_a_table_lookup() {
    let submission = RouteGetResolve::new((), [10, 0, 0, 1]).lookup();
    let message = netlink(&submission.request);
    assert!(matches!(
        message.payload,
        NetlinkPayload::InnerMessage(RouteNetlinkMessage::GetRoute(_))
    ));
    assert_eq!(
        bytes(&message),
        vec![
            36, 0, 0, 0, // length
            26, 0, // get route
            1, 0, // request
            0, 0, 0, 0, // sequence number
            0, 0, 0, 0, // port
            2, 32, 0, 0, // IPv4, /32, any source, no tos
            0, 0, 0, 0, // table, protocol, scope, type
            0, 0x10, 0, 0, // lookup table
            8, 0, 1, 0, // destination
            10, 0, 0, 1,
        ]
    );
}

#[test]
fn an_empty_ipv4_query_serializes_as_a_dump() {
    let mut descriptor = RouteMessage::default();
    descriptor.header.address_family = AddressFamily::Inet;
    let submission = RouteGetRequest::new((), descriptor).execute();
    assert_eq!(
        bytes(&netlink(&submission.request)),
        vec![
            28, 0, 0, 0, // length
            26, 0, // get route
            1, 3, // request, dump
            0, 0, 0, 0, // sequence number
            0, 0, 0, 0, // port
            2, 0, 0, 0, // IPv4
            0, 0, 0, 0, //
            0, 0, 0, 0, //
        ]
    );
}

#[test]
fn a_query_with_a_destination_serializes_as_a_lookup() {
    let mut request = RouteGetRequest::new((), RouteMessage::default());
    request.message_mut().header.address_family = AddressFamily::Inet;
    request.message_mut().header.destination_prefix_length = 32;
    request
        .message_mut()
        .attributes
        .push(RouteAttribute::Destination(vec![1, 1, 1, 1]));
    let message = netlink(&request.execute().request);
    let wire = bytes(&message);
    assert_eq!(&wire[4..8], &[26, 0, 1, 0]);
    assert_eq!(&wire[28..], &[8, 0, 1, 0, 1, 1, 1, 1]);
}

#[test]
fn replies_are_told_apart_by_the_message_type_of_the_packet_crate() {
    let new_route = RouteNetlinkMessage::NewRoute(PacketMessage::default());
    let new_link = RouteNetlinkMessage::NewLink(Default::default());
    assert_eq!(new_route.message_type(), 24);
    assert_eq!(
        try_route(RouteReply::Other(new_link.message_type())),
        Err(Error::UnexpectedMessage(RouteReply::Other(16)))
    );
    assert_eq!(
        try_route(RouteReply::NewRoute(RouteMessage::default())),
        Ok(RouteMessage::default())
    );
}

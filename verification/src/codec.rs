//! The packet codec: from the bytes of a datagram to a message, and from a decision to
//! the bytes of a reply.

use vstd::prelude::*;
use crate::addr::Ipv4Addr;
use crate::packet::{DhcpOption, Packet, PacketView};

verus! {

/// What `edge_dhcp::Packet::decode` reads in the bytes of a datagram, as far as the server
/// reads it, or none for bytes that it refuses.
pub uninterp spec fn decoded_packet(data: Seq<u8>) -> Option<PacketView>;

/// The bytes of the reply that `edge_dhcp` builds to the request in `request`: a message
/// of the kind with the number `kind` that hands the client `ip`, sent by the server
/// `server_ip`, with a lease of `lease_secs` seconds and with those of `gateways`, `subnet`,
/// `dns` and `captive_url` that the request asks for. None where `edge_dhcp` refuses the
/// request or the kind, or where the reply does not fit into `room` bytes.
pub uninterp spec fn encoded_reply(
    request: Seq<u8>,
    kind: u8,
    ip: Option<Ipv4Addr>,
    server_ip: Ipv4Addr,
    lease_secs: u32,
    gateways: Seq<Ipv4Addr>,
    subnet: Option<Ipv4Addr>,
    dns: Seq<Ipv4Addr>,
    captive_url: Option<Seq<char>>,
    room: usize,
) -> Option<Seq<u8>>;

/// The characters of a text that may be missing.
pub open spec fn text_of(text: Option<&str>) -> Option<Seq<char>> {
    match text {
        Some(text) => Some(text@),
        None => None,
    }
}

/// `edge_dhcp::Packet::decode`, and `edge_dhcp::Options::iter` over what it decoded: the
/// fields that the server reads and the options in message order, each moved into the
/// library's own types. The same bytes always decode to the same message.
#[verifier::external_body]
pub(crate) fn decode_packet(data: &[u8]) -> (packet: Option<Packet>)
    ensures
        match packet {
            Some(p) => decoded_packet(data@) == Some(p@),
            None => decoded_packet(data@) is None,
        },
{
    let p = edge_dhcp::Packet::decode(data).ok()?;
    let mut options = Vec::new();
    for option in p.options.iter() {
        options.push(match option {
            edge_dhcp::DhcpOption::MessageType(kind) => DhcpOption::MessageType(kind as u8),
            edge_dhcp::DhcpOption::ServerIdentifier(ip) => DhcpOption::ServerIdentifier(Ipv4Addr { bits: ip.to_bits() }),
            edge_dhcp::DhcpOption::RequestedIpAddress(ip) => DhcpOption::RequestedIpAddress(Ipv4Addr { bits: ip.to_bits() }),
            other => DhcpOption::Other(other.code()),
        });
    }
    let (ciaddr, yiaddr) = (Ipv4Addr { bits: p.ciaddr.to_bits() }, Ipv4Addr { bits: p.yiaddr.to_bits() });
    Some(Packet { reply: p.reply, ciaddr, yiaddr, chaddr: p.chaddr, options })
}

/// `edge_dhcp::Options::reply`, `edge_dhcp::Packet::new_reply` and
/// `edge_dhcp::Packet::encode`, on the request that `edge_dhcp::Packet::decode` reads in
/// `request`, into a buffer of `room` bytes. The same arguments always give the same
/// bytes, and never more than the buffer holds.
#[verifier::external_body]
pub(crate) fn encode_reply(
    request: &[u8],
    kind: u8,
    ip: Option<Ipv4Addr>,
    server_ip: Ipv4Addr,
    lease_secs: u32,
    gateways: &[Ipv4Addr],
    subnet: Option<Ipv4Addr>,
    dns: &[Ipv4Addr],
    captive_url: Option<&str>,
    room: usize,
) -> (bytes: Option<Vec<u8>>)
    ensures
        match bytes {
            Some(b) => b@.len() <= room && encoded_reply(
                request@,
                kind,
                ip,
                server_ip,
                lease_secs,
                gateways@,
                subnet,
                dns@,
                text_of(captive_url),
                room,
            ) == Some(b@),
            None => encoded_reply(
                request@,
                kind,
                ip,
                server_ip,
                lease_secs,
                gateways@,
                subnet,
                dns@,
                text_of(captive_url),
                room,
            ) is None,
        },
{
    let wire = |ip: &Ipv4Addr| edge_dhcp::Ipv4Addr::from_bits(ip.bits);
    let packet = edge_dhcp::Packet::decode(request).ok()?;
    let kind = edge_dhcp::MessageType::try_from(kind).ok()?;
    let gateways = Vec::from_iter(gateways.iter().map(wire));
    let dns = Vec::from_iter(dns.iter().map(wire));
    let mut option_buf = edge_dhcp::Options::buf();
    let options = packet.options.reply(kind, wire(&server_ip), lease_secs, &gateways, subnet.as_ref().map(wire), &dns, captive_url, &mut option_buf);
    let mut buf = vec![0u8; room];
    packet.new_reply(ip.as_ref().map(wire), options).encode(&mut buf).ok().map(Vec::from)
}

} // verus!

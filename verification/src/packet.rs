//! Decoded client messages, and the rule that turns one into the action it asks for.

use vstd::prelude::*;
use crate::addr::Ipv4Addr;
use crate::search::{first_index, first_index_is};

verus! {

/// The kinds of DHCP message.
#[derive(Clone, Copy, Debug, PartialEq, Eq, Structural)]
pub enum MessageType {
    Discover,
    Offer,
    Request,
    Decline,
    Ack,
    Nak,
    Release,
    Inform,
}

impl MessageType {
    /// The number that stands for a kind of message in the message-type option.
    pub open spec fn code_of(self) -> u8 {
        match self {
            MessageType::Discover => 1,
            MessageType::Offer => 2,
            MessageType::Request => 3,
            MessageType::Decline => 4,
            MessageType::Ack => 5,
            MessageType::Nak => 6,
            MessageType::Release => 7,
            MessageType::Inform => 8,
        }
    }

    /// The kind of message that `code` stands for.
    pub open spec fn of_code(code: u8) -> Option<MessageType> {
        if code == 1 {
            Some(MessageType::Discover)
        } else if code == 2 {
            Some(MessageType::Offer)
        } else if code == 3 {
            Some(MessageType::Request)
        } else if code == 4 {
            Some(MessageType::Decline)
        } else if code == 5 {
            Some(MessageType::Ack)
        } else if code == 6 {
            Some(MessageType::Nak)
        } else if code == 7 {
            Some(MessageType::Release)
        } else if code == 8 {
            Some(MessageType::Inform)
        } else {
            None
        }
    }

    /// The number that stands for this kind of message.
    pub fn code(&self) -> (code: u8)
        ensures
            code == self.code_of(),
    {
        match self {
            MessageType::Discover => 1,
            MessageType::Offer => 2,
            MessageType::Request => 3,
            MessageType::Decline => 4,
            MessageType::Ack => 5,
            MessageType::Nak => 6,
            MessageType::Release => 7,
            MessageType::Inform => 8,
        }
    }

    /// The kind of message that `code` stands for, or none where it stands for no kind.
    pub fn from_code(code: u8) -> (kind: Option<MessageType>)
        ensures
            kind == MessageType::of_code(code),
    {
        match code {
            1 => Some(MessageType::Discover),
            2 => Some(MessageType::Offer),
            3 => Some(MessageType::Request),
            4 => Some(MessageType::Decline),
            5 => Some(MessageType::Ack),
            6 => Some(MessageType::Nak),
            7 => Some(MessageType::Release),
            8 => Some(MessageType::Inform),
            _ => None,
        }
    }
}

/// Every kind of message is found again from its number, and no two kinds share one.
pub proof fn message_type_codes_round_trip(kind: MessageType, code: u8)
    ensures
        MessageType::of_code(kind.code_of()) == Some(kind),
        MessageType::of_code(code) == Some(kind) <==> kind.code_of() == code,
{
}

/// One option of a client message, as far as the server reads it.
#[derive(Clone, Copy, Debug, PartialEq, Eq, Structural)]
pub enum DhcpOption {
    /// The kind of message, by its number.
    MessageType(u8),
    /// The server that the message is addressed to.
    ServerIdentifier(Ipv4Addr),
    /// The address that the client would like.
    RequestedIpAddress(Ipv4Addr),
    /// An option that the server does not read, by its option number.
    Other(u8),
}

/// A decoded message, as far as the server reads it.
#[derive(Debug, PartialEq, Eq)]
pub struct Packet {
    /// Whether the message is marked as sent by a server.
    pub reply: bool,
    /// The address that the client says it uses now.
    pub ciaddr: Ipv4Addr,
    /// The "your address" field of the message.
    pub yiaddr: Ipv4Addr,
    /// The client's hardware-address field, all 16 bytes of it.
    pub chaddr: [u8; 16],
    /// The options, in message order.
    pub options: Vec<DhcpOption>,
}

/// What a decoded message holds, as plain values.
pub struct PacketView {
    pub reply: bool,
    pub ciaddr: Ipv4Addr,
    pub yiaddr: Ipv4Addr,
    pub chaddr: [u8; 16],
    pub options: Seq<DhcpOption>,
}

impl View for Packet {
    type V = PacketView;

    open spec fn view(&self) -> PacketView {
        PacketView {
            reply: self.reply,
            ciaddr: self.ciaddr,
            yiaddr: self.yiaddr,
            chaddr: self.chaddr,
            options: self.options@,
        }
    }
}

/// What a client message asks the server to do, with the client it comes from.
#[derive(Clone, Copy, Debug, PartialEq, Eq)]
pub enum Action {
    /// The client looks for an address, and may name one that it would like.
    Discover(Option<Ipv4Addr>, [u8; 16]),
    /// The client claims an address.
    Request(Ipv4Addr, [u8; 16]),
    /// The client gives its address up.
    Release(Ipv4Addr, [u8; 16]),
    /// The client refuses the address that it was offered.
    Decline(Ipv4Addr, [u8; 16]),
}

/// The condition "this option gives the kind of message".
pub open spec fn gives_message_type() -> spec_fn(DhcpOption) -> bool {
    |option: DhcpOption| option is MessageType
}

/// The condition "this option names a server".
pub open spec fn names_server() -> spec_fn(DhcpOption) -> bool {
    |option: DhcpOption| option is ServerIdentifier
}

/// The condition "this option asks for an address".
pub open spec fn asks_for_address() -> spec_fn(DhcpOption) -> bool {
    |option: DhcpOption| option is RequestedIpAddress
}

/// The number in the first message-type option.
pub open spec fn message_code_of(options: Seq<DhcpOption>) -> Option<u8> {
    match first_index(options, gives_message_type()) {
        Some(i) => Some(options[i]->MessageType_0),
        None => None,
    }
}

/// The address in the first server-identifier option.
pub open spec fn server_identifier_of(options: Seq<DhcpOption>) -> Option<Ipv4Addr> {
    match first_index(options, names_server()) {
        Some(i) => Some(options[i]->ServerIdentifier_0),
        None => None,
    }
}

/// The address in the first requested-address option.
pub open spec fn requested_ip_of(options: Seq<DhcpOption>) -> Option<Ipv4Addr> {
    match first_index(options, asks_for_address()) {
        Some(i) => Some(options[i]->RequestedIpAddress_0),
        None => None,
    }
}

/// The address that a request is about: the one it asks for, else the one the client
/// says it uses, unless that is `0.0.0.0`.
pub open spec fn claimed_ip_of(packet: PacketView) -> Option<Ipv4Addr> {
    match requested_ip_of(packet.options) {
        Some(ip) => Some(ip),
        None => if packet.ciaddr.bits == 0 {
            None
        } else {
            Some(packet.ciaddr)
        },
    }
}

/// The action that a message asks of the server `server_ip`, or none where the message
/// is to be ignored.
///
/// Ignored are: messages marked as replies; messages without a kind; messages that name
/// another server; requests that name no address; releases and declines that do not
/// name this server; and every kind of message but discover, request, release and
/// decline.
pub open spec fn classify(packet: PacketView, server_ip: Ipv4Addr) -> Option<Action> {
    let named = server_identifier_of(packet.options);
    if packet.reply {
        None
    } else if message_code_of(packet.options) is None {
        None
    } else if named is Some && named != Some(server_ip) {
        None
    } else {
        match MessageType::of_code(message_code_of(packet.options).unwrap()) {
            Some(MessageType::Discover) => Some(
                Action::Discover(requested_ip_of(packet.options), packet.chaddr),
            ),
            Some(MessageType::Request) => match claimed_ip_of(packet) {
                Some(ip) => Some(Action::Request(ip, packet.chaddr)),
                None => None,
            },
            Some(MessageType::Release) => if named == Some(server_ip) {
                Some(Action::Release(packet.yiaddr, packet.chaddr))
            } else {
                None
            },
            Some(MessageType::Decline) => if named == Some(server_ip) {
                Some(Action::Decline(packet.yiaddr, packet.chaddr))
            } else {
                None
            },
            _ => None,
        }
    }
}

/// Why a message is ignored.
#[derive(Clone, Copy, Debug, PartialEq, Eq, Structural)]
pub enum Ignored {
    /// The message is marked as sent by a server.
    FromServer,
    /// The message has no message-type option.
    NoMessageType,
    /// The message names another server.
    OtherServer,
    /// The message is a request that names no address.
    NoAddress,
    /// The message is a release or a decline that does not name this server.
    ServerNotNamed,
    /// The message is of a kind that the server does not act on.
    OtherKind,
}

/// The action that a message asks of the server `server_ip`, or why the message is
/// ignored. The tests are made in this order: the reply mark, the kind, the server that
/// is named, and then what the kind needs.
pub open spec fn triaged(packet: PacketView, server_ip: Ipv4Addr) -> Result<Action, Ignored> {
    let named = server_identifier_of(packet.options);
    if packet.reply {
        Err(Ignored::FromServer)
    } else if message_code_of(packet.options) is None {
        Err(Ignored::NoMessageType)
    } else if named is Some && named != Some(server_ip) {
        Err(Ignored::OtherServer)
    } else {
        match MessageType::of_code(message_code_of(packet.options).unwrap()) {
            Some(MessageType::Discover) => Ok(Action::Discover(requested_ip_of(packet.options), packet.chaddr)),
            Some(MessageType::Request) => match claimed_ip_of(packet) {
                Some(ip) => Ok(Action::Request(ip, packet.chaddr)),
                None => Err(Ignored::NoAddress),
            },
            Some(MessageType::Release) => if named == Some(server_ip) {
                Ok(Action::Release(packet.yiaddr, packet.chaddr))
            } else {
                Err(Ignored::ServerNotNamed)
            },
            Some(MessageType::Decline) => if named == Some(server_ip) {
                Ok(Action::Decline(packet.yiaddr, packet.chaddr))
            } else {
                Err(Ignored::ServerNotNamed)
            },
            _ => Err(Ignored::OtherKind),
        }
    }
}

/// A message is acted on exactly where it is not ignored, and the action is the same.
pub proof fn triage_agrees_with_classify(packet: PacketView, server_ip: Ipv4Addr)
    ensures
        classify(packet, server_ip) == match triaged(packet, server_ip) {
            Ok(action) => Some(action),
            Err(_) => None::<Action>,
        },
{
}

/// The number in the first message-type option of `options`.
pub fn message_code(options: &[DhcpOption]) -> (code: Option<u8>)
    ensures
        code == message_code_of(options@),
{
    let mut i: usize = 0;
    while i < options.len()
        invariant
            i <= options.len(),
            forall|j: int| 0 <= j < i ==> !gives_message_type()(#[trigger] options@[j]),
        decreases options.len() - i,
    {
        if let DhcpOption::MessageType(code) = options[i] {
            proof {
                first_index_is(options@, gives_message_type(), i as int);
            }
            return Some(code);
        }
        i += 1;
    }
    None
}

/// The address in the first server-identifier option of `options`.
pub fn server_identifier(options: &[DhcpOption]) -> (ip: Option<Ipv4Addr>)
    ensures
        ip == server_identifier_of(options@),
{
    let mut i: usize = 0;
    while i < options.len()
        invariant
            i <= options.len(),
            forall|j: int| 0 <= j < i ==> !names_server()(#[trigger] options@[j]),
        decreases options.len() - i,
    {
        if let DhcpOption::ServerIdentifier(ip) = options[i] {
            proof {
                first_index_is(options@, names_server(), i as int);
            }
            return Some(ip);
        }
        i += 1;
    }
    None
}

/// The address in the first requested-address option of `options`.
pub fn requested_ip(options: &[DhcpOption]) -> (ip: Option<Ipv4Addr>)
    ensures
        ip == requested_ip_of(options@),
{
    let mut i: usize = 0;
    while i < options.len()
        invariant
            i <= options.len(),
            forall|j: int| 0 <= j < i ==> !asks_for_address()(#[trigger] options@[j]),
        decreases options.len() - i,
    {
        if let DhcpOption::RequestedIpAddress(ip) = options[i] {
            proof {
                first_index_is(options@, asks_for_address(), i as int);
            }
            return Some(ip);
        }
        i += 1;
    }
    None
}

/// The action that `request` asks of the server `server_ip`, or why the message is
/// ignored.
pub fn triage_packet(request: &Packet, server_ip: Ipv4Addr) -> (sorted: Result<Action, Ignored>)
    ensures
        sorted == triaged(request@, server_ip),
{
    if request.reply {
        return Err(Ignored::FromServer);
    }
    let code: u8 = match message_code(request.options.as_slice()) {
        Some(code) => code,
        None => {
            return Err(Ignored::NoMessageType);
        },
    };
    let named = server_identifier(request.options.as_slice());
    let for_us = match named {
        Some(ip) => ip == server_ip,
        None => false,
    };
    if named.is_some() && !for_us {
        return Err(Ignored::OtherServer);
    }
    match MessageType::from_code(code) {
        Some(MessageType::Discover) => Ok(Action::Discover(requested_ip(request.options.as_slice()), request.chaddr)),
        Some(MessageType::Request) => {
            match requested_ip(request.options.as_slice()) {
                Some(ip) => Ok(Action::Request(ip, request.chaddr)),
                None => if request.ciaddr.is_unspecified() {
                    Err(Ignored::NoAddress)
                } else {
                    Ok(Action::Request(request.ciaddr, request.chaddr))
                },
            }
        },
        Some(MessageType::Release) => if for_us {
            Ok(Action::Release(request.yiaddr, request.chaddr))
        } else {
            Err(Ignored::ServerNotNamed)
        },
        Some(MessageType::Decline) => if for_us {
            Ok(Action::Decline(request.yiaddr, request.chaddr))
        } else {
            Err(Ignored::ServerNotNamed)
        },
        _ => Err(Ignored::OtherKind),
    }
}

/// The action that `request` asks of the server `server_ip`, or none where the message
/// is to be ignored.
pub fn process_packet(request: &Packet, server_ip: Ipv4Addr) -> (action: Option<Action>)
    ensures
        action == classify(request@, server_ip),
{
    proof {
        triage_agrees_with_classify(request@, server_ip);
    }
    match triage_packet(request, server_ip) {
        Ok(action) => Some(action),
        Err(_) => None,
    }
}

/// A message that names another server is ignored, whatever its kind.
pub proof fn foreign_server_identifier_is_ignored(packet: PacketView, server_ip: Ipv4Addr)
    requires
        server_identifier_of(packet.options) matches Some(named) && named != server_ip,
    ensures
        classify(packet, server_ip) is None,
{
}

/// A release or a decline is acted on only where it names this server.
pub proof fn release_and_decline_name_this_server(packet: PacketView, server_ip: Ipv4Addr)
    requires
        classify(packet, server_ip) matches Some(action) && (action is Release || action is Decline),
    ensures
        server_identifier_of(packet.options) == Some(server_ip),
{
}

} // verus!

use esp_hal_dhcp_server::packet::{
    message_code, process_packet, requested_ip, server_identifier, triage_packet, Action, DhcpOption, Ignored,
    MessageType, Packet,
};
use esp_hal_dhcp_server::Ipv4Addr;

const ALL_KINDS: [MessageType; 8] = [
    MessageType::Discover,
    MessageType::Offer,
    MessageType::Request,
    MessageType::Decline,
    MessageType::Ack,
    MessageType::Nak,
    MessageType::Release,
    MessageType::Inform,
];

fn ip(last: u8) -> Ipv4Addr {
    Ipv4Addr::new(192, 168, 2, last)
}

fn server() -> Ipv4Addr {
    ip(1)
}

fn mac() -> [u8; 16] {
    [0xAA, 0xBB, 0xCC, 0xDD, 0xEE, 0x01, 0, 0, 0, 0, 0, 0, 0, 0, 0, 0]
}

fn message(options: Vec<DhcpOption>) -> Packet {
    Packet { reply: false, ciaddr: Ipv4Addr::new(0, 0, 0, 0), yiaddr: Ipv4Addr::new(0, 0, 0, 0), chaddr: mac(), options }
}

fn kind(kind: MessageType) -> DhcpOption {
    DhcpOption::MessageType(kind.code())
}

#[test]
fn message_type_numbers() {
    let codes: Vec<u8> = ALL_KINDS.iter().map(|k| k.code()).collect();
    assert_eq!(codes, vec![1, 2, 3, 4, 5, 6, 7, 8]);
}

#[test]
fn message_type_numbers_round_trip() {
    for k in ALL_KINDS {
        assert_eq!(MessageType::from_code(k.code()), Some(k));
    }
    assert_eq!(MessageType::from_code(0), None);
    assert_eq!(MessageType::from_code(9), None);
    assert_eq!(MessageType::from_code(255), None);
    for code in 0..=255u8 {
        match MessageType::from_code(code) {
            Some(k) => assert_eq!(k.code(), code),
            None => assert!(code == 0 || code > 8),
        }
    }
}

#[test]
fn message_type_numbers_agree_with_the_codec() {
    for k in ALL_KINDS {
        let wire = edge_dhcp::MessageType::try_from(k.code()).unwrap();
        assert_eq!(wire as u8, k.code());
        assert_eq!(format!("{:?}", wire), format!("{:?}", k));
    }
}

#[test]
fn first_option_of_each_kind_is_read() {
    let options = vec![
        DhcpOption::Other(12),
        DhcpOption::RequestedIpAddress(ip(15)),
        DhcpOption::MessageType(3),
        DhcpOption::ServerIdentifier(ip(1)),
        DhcpOption::MessageType(1),
        DhcpOption::RequestedIpAddress(ip(16)),
        DhcpOption::ServerIdentifier(ip(2)),
    ];
    assert_eq!(message_code(&options), Some(3));
    assert_eq!(server_identifier(&options), Some(ip(1)));
    assert_eq!(requested_ip(&options), Some(ip(15)));
}

#[test]
fn missing_options_are_none() {
    assert_eq!(message_code(&[]), None);
    assert_eq!(server_identifier(&[]), None);
    assert_eq!(requested_ip(&[]), None);
    let others = vec![DhcpOption::Other(55), DhcpOption::Other(61)];
    assert_eq!(message_code(&others), None);
    assert_eq!(server_identifier(&others), None);
    assert_eq!(requested_ip(&others), None);
    let only_kind = vec![DhcpOption::MessageType(1)];
    assert_eq!(message_code(&only_kind), Some(1));
    assert_eq!(server_identifier(&only_kind), None);
    assert_eq!(requested_ip(&only_kind), None);
}

#[test]
fn replies_are_ignored() {
    for k in ALL_KINDS {
        let mut packet = message(vec![kind(k), DhcpOption::ServerIdentifier(server()), DhcpOption::RequestedIpAddress(ip(10))]);
        packet.reply = true;
        assert_eq!(process_packet(&packet, server()), None);
    }
}

#[test]
fn message_without_a_kind_is_ignored() {
    assert_eq!(process_packet(&message(vec![]), server()), None);
    assert_eq!(
        process_packet(&message(vec![DhcpOption::RequestedIpAddress(ip(10)), DhcpOption::Other(55)]), server()),
        None
    );
}

#[test]
fn message_for_another_server_is_ignored_whatever_its_kind() {
    for k in ALL_KINDS {
        let mut packet = message(vec![kind(k), DhcpOption::ServerIdentifier(ip(2)), DhcpOption::RequestedIpAddress(ip(10))]);
        packet.ciaddr = ip(10);
        packet.yiaddr = ip(10);
        assert_eq!(process_packet(&packet, server()), None);
    }
    for code in [0u8, 9, 100, 255] {
        let packet = message(vec![DhcpOption::MessageType(code), DhcpOption::ServerIdentifier(ip(2))]);
        assert_eq!(process_packet(&packet, server()), None);
    }
}

#[test]
fn discover_carries_the_requested_address() {
    let packet = message(vec![kind(MessageType::Discover)]);
    assert_eq!(process_packet(&packet, server()), Some(Action::Discover(None, mac())));
    let packet = message(vec![kind(MessageType::Discover), DhcpOption::RequestedIpAddress(ip(15))]);
    assert_eq!(process_packet(&packet, server()), Some(Action::Discover(Some(ip(15)), mac())));
    let packet = message(vec![DhcpOption::ServerIdentifier(server()), kind(MessageType::Discover)]);
    assert_eq!(process_packet(&packet, server()), Some(Action::Discover(None, mac())));
}

#[test]
fn discover_does_not_fall_back_on_the_client_address() {
    let mut packet = message(vec![kind(MessageType::Discover)]);
    packet.ciaddr = ip(33);
    assert_eq!(process_packet(&packet, server()), Some(Action::Discover(None, mac())));
}

#[test]
fn request_prefers_the_requested_address() {
    let mut packet = message(vec![kind(MessageType::Request), DhcpOption::RequestedIpAddress(ip(15))]);
    packet.ciaddr = ip(33);
    assert_eq!(process_packet(&packet, server()), Some(Action::Request(ip(15), mac())));
}

#[test]
fn request_falls_back_on_the_client_address() {
    let mut packet = message(vec![kind(MessageType::Request)]);
    packet.ciaddr = ip(33);
    assert_eq!(process_packet(&packet, server()), Some(Action::Request(ip(33), mac())));
}

#[test]
fn request_without_any_address_is_ignored() {
    let packet = message(vec![kind(MessageType::Request)]);
    assert_eq!(process_packet(&packet, server()), None);
    let mut packet = message(vec![kind(MessageType::Request), DhcpOption::ServerIdentifier(server())]);
    packet.yiaddr = ip(10);
    assert_eq!(process_packet(&packet, server()), None);
}

#[test]
fn request_for_the_unspecified_address_by_option_is_passed_on() {
    let packet = message(vec![kind(MessageType::Request), DhcpOption::RequestedIpAddress(Ipv4Addr::new(0, 0, 0, 0))]);
    assert_eq!(process_packet(&packet, server()), Some(Action::Request(Ipv4Addr::new(0, 0, 0, 0), mac())));
}

#[test]
fn release_and_decline_must_name_this_server() {
    for (k, named) in [(MessageType::Release, false), (MessageType::Decline, false)] {
        let mut packet = message(vec![kind(k)]);
        packet.yiaddr = ip(10);
        assert_eq!(process_packet(&packet, server()).is_some(), named);
    }
    let mut packet = message(vec![kind(MessageType::Release), DhcpOption::ServerIdentifier(server())]);
    packet.yiaddr = ip(10);
    packet.ciaddr = ip(11);
    assert_eq!(process_packet(&packet, server()), Some(Action::Release(ip(10), mac())));
    let mut packet = message(vec![kind(MessageType::Decline), DhcpOption::ServerIdentifier(server())]);
    packet.yiaddr = ip(12);
    assert_eq!(process_packet(&packet, server()), Some(Action::Decline(ip(12), mac())));
}

#[test]
fn other_kinds_are_ignored() {
    for k in [MessageType::Offer, MessageType::Ack, MessageType::Nak, MessageType::Inform] {
        let mut packet = message(vec![kind(k), DhcpOption::ServerIdentifier(server()), DhcpOption::RequestedIpAddress(ip(10))]);
        packet.ciaddr = ip(10);
        assert_eq!(process_packet(&packet, server()), None);
        let packet = message(vec![kind(k)]);
        assert_eq!(process_packet(&packet, server()), None);
    }
    for code in [0u8, 9, 200] {
        let packet = message(vec![DhcpOption::MessageType(code), DhcpOption::RequestedIpAddress(ip(10))]);
        assert_eq!(process_packet(&packet, server()), None);
    }
}

#[test]
fn action_carries_all_sixteen_bytes_of_the_client() {
    let mut packet = message(vec![kind(MessageType::Discover)]);
    packet.chaddr = [9, 8, 7, 6, 5, 4, 3, 2, 1, 0, 1, 2, 3, 4, 5, 6];
    assert_eq!(
        process_packet(&packet, server()),
        Some(Action::Discover(None, [9, 8, 7, 6, 5, 4, 3, 2, 1, 0, 1, 2, 3, 4, 5, 6]))
    );
}

#[test]
fn triage_gives_the_action_or_the_reason() {
    let mut packet = message(vec![kind(MessageType::Request), DhcpOption::RequestedIpAddress(ip(15))]);
    assert_eq!(triage_packet(&packet, server()), Ok(Action::Request(ip(15), mac())));
    packet.reply = true;
    assert_eq!(triage_packet(&packet, server()), Err(Ignored::FromServer));
    assert_eq!(triage_packet(&message(vec![DhcpOption::Other(55)]), server()), Err(Ignored::NoMessageType));
    let foreign = message(vec![kind(MessageType::Discover), DhcpOption::ServerIdentifier(ip(2))]);
    assert_eq!(triage_packet(&foreign, server()), Err(Ignored::OtherServer));
    assert_eq!(triage_packet(&message(vec![kind(MessageType::Request)]), server()), Err(Ignored::NoAddress));
    assert_eq!(triage_packet(&message(vec![kind(MessageType::Release)]), server()), Err(Ignored::ServerNotNamed));
    assert_eq!(triage_packet(&message(vec![kind(MessageType::Decline)]), server()), Err(Ignored::ServerNotNamed));
    for k in [MessageType::Offer, MessageType::Ack, MessageType::Nak, MessageType::Inform] {
        assert_eq!(triage_packet(&message(vec![kind(k)]), server()), Err(Ignored::OtherKind));
    }
    assert_eq!(triage_packet(&message(vec![DhcpOption::MessageType(77)]), server()), Err(Ignored::OtherKind));
}

#[test]
fn reasons_are_tested_in_order() {
    // A reply without a kind that names another server: the reply mark is seen first.
    let mut packet = message(vec![DhcpOption::ServerIdentifier(ip(2))]);
    packet.reply = true;
    assert_eq!(triage_packet(&packet, server()), Err(Ignored::FromServer));
    packet.reply = false;
    assert_eq!(triage_packet(&packet, server()), Err(Ignored::NoMessageType));
    let packet = message(vec![kind(MessageType::Inform), DhcpOption::ServerIdentifier(ip(2))]);
    assert_eq!(triage_packet(&packet, server()), Err(Ignored::OtherServer));
}

#[test]
fn triage_and_classification_agree() {
    for k in ALL_KINDS {
        for named in [None, Some(ip(1)), Some(ip(2))] {
            for asked in [None, Some(ip(15))] {
                let mut options = vec![kind(k)];
                if let Some(named) = named {
                    options.push(DhcpOption::ServerIdentifier(named));
                }
                if let Some(asked) = asked {
                    options.push(DhcpOption::RequestedIpAddress(asked));
                }
                let packet = message(options);
                assert_eq!(process_packet(&packet, server()), triage_packet(&packet, server()).ok());
            }
        }
    }
}

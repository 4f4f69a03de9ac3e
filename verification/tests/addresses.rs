use esp_hal_dhcp_server::addr::Ipv4Addr;

#[test]
fn new_puts_the_first_octet_highest() {
    assert_eq!(Ipv4Addr::new(192, 168, 2, 10).to_bits(), 0xC0A8_020A);
    assert_eq!(Ipv4Addr::new(0, 0, 0, 1).to_bits(), 1);
    assert_eq!(Ipv4Addr::new(1, 0, 0, 0).to_bits(), 0x0100_0000);
    assert_eq!(Ipv4Addr::new(255, 255, 255, 255).to_bits(), u32::MAX);
}

#[test]
fn octets_come_back_in_order() {
    assert_eq!(Ipv4Addr::new(192, 168, 2, 10).octets(), [192, 168, 2, 10]);
    assert_eq!(Ipv4Addr::from_bits(0x0102_0304).octets(), [1, 2, 3, 4]);
    assert_eq!(Ipv4Addr::from_bits(u32::MAX).octets(), [255, 255, 255, 255]);
    assert_eq!(Ipv4Addr::from_bits(0).octets(), [0, 0, 0, 0]);
}

#[test]
fn bits_round_trip() {
    for bits in [0u32, 1, 255, 256, 0xC0A8_0201, 0x7FFF_FFFF, 0x8000_0000, u32::MAX] {
        let ip = Ipv4Addr::from_bits(bits);
        assert_eq!(ip.to_bits(), bits);
        let o = ip.octets();
        assert_eq!(Ipv4Addr::new(o[0], o[1], o[2], o[3]), ip);
    }
}

#[test]
fn successor_address_is_bits_plus_one() {
    let ten = Ipv4Addr::new(192, 168, 2, 10);
    assert_eq!(Ipv4Addr::from_bits(ten.to_bits() + 1), Ipv4Addr::new(192, 168, 2, 11));
    let edge = Ipv4Addr::new(10, 0, 0, 255);
    assert_eq!(Ipv4Addr::from_bits(edge.to_bits() + 1), Ipv4Addr::new(10, 0, 1, 0));
}

#[test]
fn only_all_zero_is_unspecified() {
    assert!(Ipv4Addr::new(0, 0, 0, 0).is_unspecified());
    assert!(!Ipv4Addr::new(0, 0, 0, 1).is_unspecified());
    assert!(!Ipv4Addr::new(1, 0, 0, 0).is_unspecified());
    assert!(!Ipv4Addr::new(255, 255, 255, 255).is_unspecified());
}

#[test]
fn addresses_agree_with_the_codec() {
    for (a, b, c, d) in [(192u8, 168u8, 2u8, 10u8), (0, 0, 0, 0), (255, 255, 255, 255), (10, 20, 30, 40)] {
        let std_ip = edge_dhcp::Ipv4Addr::new(a, b, c, d);
        let ip = Ipv4Addr::new(a, b, c, d);
        assert_eq!(ip.to_bits(), u32::from(std_ip));
        assert_eq!(ip.octets(), std_ip.octets());
        assert_eq!(ip.is_unspecified(), std_ip.is_unspecified());
    }
}

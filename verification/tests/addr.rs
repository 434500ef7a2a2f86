use beacon_pulse::addr::{ipv4s_in_listing, parse_ipv4};
use beacon_pulse::ipc::Ipv4;

fn ip(a: u8, b: u8, c: u8, d: u8) -> Ipv4 {
    Ipv4 { a, b, c, d }
}

#[test]
fn parses_dotted_quads() {
    assert_eq!(parse_ipv4("192.168.1.10"), Some(ip(192, 168, 1, 10)));
    assert_eq!(parse_ipv4("0.0.0.0"), Some(ip(0, 0, 0, 0)));
    assert_eq!(parse_ipv4("255.255.255.255"), Some(ip(255, 255, 255, 255)));
    assert_eq!(parse_ipv4("10.0.0.7"), Some(ip(10, 0, 0, 7)));
}

#[test]
fn refuses_malformed_quads() {
    assert_eq!(parse_ipv4(""), None);
    assert_eq!(parse_ipv4("1.2.3"), None);
    assert_eq!(parse_ipv4("1.2.3.4.5"), None);
    assert_eq!(parse_ipv4("256.1.1.1"), None);
    assert_eq!(parse_ipv4("01.2.3.4"), None);
    assert_eq!(parse_ipv4("1.2.3.0004"), None);
    assert_eq!(parse_ipv4("1..3.4"), None);
    assert_eq!(parse_ipv4(" 1.2.3.4"), None);
    assert_eq!(parse_ipv4("1.2.3.4 "), None);
    assert_eq!(parse_ipv4("+1.2.3.4"), None);
    assert_eq!(parse_ipv4("10.0.0.7(Preferred)"), None);
    assert_eq!(parse_ipv4("a.b.c.d"), None);
}

#[test]
fn reads_usable_addresses_from_an_interface_report() {
    let report = "\r\nWindows IP Configuration\r\n\r\n\
Ethernet adapter Ethernet:\r\n\r\n\
   Connection-specific DNS Suffix  . : lan\r\n\
   IPv4 Address. . . . . . . . . . . : 192.168.1.23\r\n\
   Subnet Mask . . . . . . . . . . . : 255.255.255.0\r\n\
   Default Gateway . . . . . . . . . : 192.168.1.1\r\n\r\n\
Wireless LAN adapter Wi-Fi:\r\n\r\n\
   IPv4 Address. . . . . . . . . . . : 10.0.0.7(Preferred)\r\n\
   Autoconfiguration IPv4 Address. . : 169.254.3.4\r\n\
   IPv4 Address. . . . . . . . . . . : 127.0.0.1\r\n\
   IP Address. . . . . . . . . . . . : 172.16.0.5\r\n\
   IPv4 Address: 10.1.2.3";
    assert_eq!(
        ipv4s_in_listing(report),
        vec![ip(192, 168, 1, 23), ip(172, 16, 0, 5), ip(10, 1, 2, 3)]
    );
}

#[test]
fn report_without_addresses_gives_none() {
    assert_eq!(ipv4s_in_listing(""), Vec::<Ipv4>::new());
    assert_eq!(ipv4s_in_listing("IPv4 Address 192.168.0.2\n"), Vec::<Ipv4>::new());
    assert_eq!(ipv4s_in_listing("Address: 192.168.0.2\n"), Vec::<Ipv4>::new());
}

#[test]
fn writes_dotted_quads() {
    assert_eq!(beacon_pulse::addr::ipv4_to_text(ip(192, 168, 1, 23)), "192.168.1.23");
    assert_eq!(beacon_pulse::addr::ipv4_to_text(ip(0, 0, 0, 0)), "0.0.0.0");
    assert_eq!(beacon_pulse::addr::ipv4_to_text(ip(255, 10, 100, 9)), "255.10.100.9");
}

#[test]
fn written_address_parses_back() {
    for q in [ip(192, 168, 1, 23), ip(0, 0, 0, 0), ip(255, 10, 100, 9), ip(8, 8, 4, 4)] {
        let text = beacon_pulse::addr::ipv4_to_text(q);
        assert_eq!(parse_ipv4(&text), Some(q));
    }
}

use packet_capture::capture::Capture;
use packet_capture::errors::ParseError;
use packet_capture::packet::{Packet, PacketHeader};

fn packet_from_bytes(data: Vec<u8>) -> Packet {
    let n = data.len() as u32;
    let header = PacketHeader { ts_sec: 0, ts_usec: 0, caplen: n, len: n };
    Packet::new(header, data)
}

fn capture_of(datas: Vec<Vec<u8>>) -> Capture {
    let packets: Vec<Packet> = datas.into_iter().map(packet_from_bytes).collect();
    Capture::from_packets(65535, packets).unwrap()
}

/// A 46-byte UDP datagram inside IPv4 inside Ethernet-II.
fn udp_over_ipv4_frame() -> Vec<u8> {
    let mut b: Vec<u8> = Vec::new();
    // Ethernet-II: destination, source, EtherType 0x0800 (IPv4).
    b.extend_from_slice(&[2, 3, 4, 5, 6, 7]);
    b.extend_from_slice(&[8, 9, 10, 11, 12, 13]);
    b.extend_from_slice(&[0x08, 0x00]);
    // IPv4: ihl 5, total length 32, ttl 64, protocol 17 (UDP),
    // 192.168.1.1 -> 10.0.0.1.
    b.extend_from_slice(&[0x45, 0x00, 0x00, 0x20, 0x12, 0x34, 0x00, 0x00, 0x40, 0x11, 0x00, 0x00]);
    b.extend_from_slice(&[192, 168, 1, 1]);
    b.extend_from_slice(&[10, 0, 0, 1]);
    // UDP: port 21 -> 1234, length 12, checksum 0.
    b.extend_from_slice(&[0x00, 0x15, 0x04, 0xD2, 0x00, 0x0C, 0x00, 0x00]);
    // Payload.
    b.extend_from_slice(&[0xDE, 0xAD, 0xBE, 0xEF]);
    b
}

#[test]
fn ethernet_decode_of_a_valid_udp_frame() {
    let mut iter = capture_of(vec![udp_over_ipv4_frame()]).iter().parse_ethernet();
    let frame = iter.next().expect("one packet").expect("a well-formed frame");
    assert_eq!(frame.ether_type, 0x0800);
    assert!(frame.has_ip);
    assert!(frame.has_transport);
    assert_eq!(frame.payload_len, 4);
    assert!(iter.next().is_none());
}

#[test]
fn ethernet_decode_of_an_unknown_ether_type_stops_at_the_link_layer() {
    let mut data = udp_over_ipv4_frame();
    data[12] = 0x12;
    data[13] = 0x34;
    let mut iter = capture_of(vec![data]).iter().parse_ethernet();
    let frame = iter.next().unwrap().unwrap();
    assert_eq!(frame.ether_type, 0x1234);
    assert!(!frame.has_ip);
    assert!(!frame.has_transport);
    assert_eq!(frame.payload_len, 32);
}

#[test]
fn ethernet_decode_of_a_10_byte_packet_is_a_parse_error() {
    let mut iter = capture_of(vec![vec![0; 10]]).iter().parse_ethernet();
    let r = iter.next().expect("one packet");
    assert_eq!(r, Err(ParseError::UnexpectedEndOfSlice(14)));
    assert!(iter.next().is_none());
}

#[test]
fn ethernet_decode_of_a_malformed_ip_layer_is_a_content_error() {
    // A full Ethernet header announcing IPv4, followed by 20 bytes whose
    // version nibble says 6.
    let mut data = udp_over_ipv4_frame();
    data[14] = 0x60;
    let mut iter = capture_of(vec![data]).iter().parse_ethernet();
    assert_eq!(iter.next().unwrap(), Err(ParseError::Content));
}

#[test]
fn ipv4_fields_of_a_valid_frame() {
    let mut iter = capture_of(vec![udp_over_ipv4_frame()]).iter().parse_ip();
    let fields = iter.next().expect("one packet").expect("a well-formed header");
    assert_eq!(fields.ihl, 5);
    assert_eq!(fields.total_len, 32);
    assert_eq!(fields.ttl, 64);
    assert_eq!(fields.protocol, 17);
    assert_eq!(fields.source, u32::from_be_bytes([192, 168, 1, 1]));
    assert_eq!(fields.destination, u32::from_be_bytes([10, 0, 0, 1]));
    assert!(iter.next().is_none());
}

#[test]
fn ipv4_parse_of_a_packet_shorter_than_14_bytes_never_reaches_the_parser() {
    let mut iter = capture_of(vec![vec![0; 13], Vec::new()]).iter().parse_ip();
    assert_eq!(iter.next().unwrap(), Err(ParseError::UnexpectedEndOfSlice(14)));
    assert_eq!(iter.next().unwrap(), Err(ParseError::UnexpectedEndOfSlice(14)));
    assert!(iter.next().is_none());
}

#[test]
fn ipv4_parse_of_an_empty_ip_layer_wants_its_20_bytes() {
    let mut iter = capture_of(vec![vec![0; 14]]).iter().parse_ip();
    assert_eq!(iter.next().unwrap(), Err(ParseError::UnexpectedEndOfSlice(20)));
}

#[test]
fn ipv4_parse_rejects_a_wrong_version_nibble() {
    let mut data = udp_over_ipv4_frame();
    data[14] = 0x65;
    let mut iter = capture_of(vec![data]).iter().parse_ip();
    assert_eq!(iter.next().unwrap(), Err(ParseError::UnexpectedIpVersion(6)));
}

#[test]
fn ipv4_parse_rejects_a_header_length_below_five() {
    let mut data = udp_over_ipv4_frame();
    data[14] = 0x44;
    let mut iter = capture_of(vec![data]).iter().parse_ip();
    assert_eq!(iter.next().unwrap(), Err(ParseError::BadIpHeaderLength(4)));
}

#[test]
fn ipv4_parse_rejects_options_running_past_the_slice() {
    let mut data = vec![0u8; 14];
    data.extend_from_slice(&[0x4F; 20]);
    let mut iter = capture_of(vec![data]).iter().parse_ip();
    assert_eq!(iter.next().unwrap(), Err(ParseError::UnexpectedEndOfSlice(60)));
}

#[test]
fn ipv4_parse_rejects_a_total_length_below_the_header() {
    let mut data = udp_over_ipv4_frame();
    data[16] = 0x00;
    data[17] = 0x0A;
    let mut iter = capture_of(vec![data]).iter().parse_ip();
    assert_eq!(iter.next().unwrap(), Err(ParseError::TotalLengthTooSmall(10)));
}

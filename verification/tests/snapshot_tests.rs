use packet_capture::snapshot::{Platform, SnapshotIntent, FULL_PACKET_LEN};

fn standard() -> Platform {
    Platform { ethernet_header_len: 14, loopback_header_len: 4 }
}

fn wide_loopback() -> Platform {
    Platform { ethernet_header_len: 14, loopback_header_len: 16 }
}

#[test]
fn ethernet_is_link_header() {
    assert_eq!(SnapshotIntent::EthernetII.resolve(standard()), 14);
}

#[test]
fn ipv4_adds_minimum_ip_header() {
    assert_eq!(SnapshotIntent::Ipv4.resolve(standard()), 34);
}

#[test]
fn tcp_adds_minimum_tcp_header() {
    assert_eq!(SnapshotIntent::Tcp.resolve(standard()), 54);
}

#[test]
fn udp_is_42_on_14_byte_platform() {
    assert_eq!(SnapshotIntent::Udp.resolve(standard()), 42);
}

#[test]
fn local_variants_use_loopback_header() {
    assert_eq!(SnapshotIntent::LocalIpv4.resolve(standard()), 24);
    assert_eq!(SnapshotIntent::LocalTcp.resolve(standard()), 44);
    assert_eq!(SnapshotIntent::LocalUdp.resolve(standard()), 32);
}

#[test]
fn local_variants_follow_the_platform_constant() {
    assert_eq!(SnapshotIntent::LocalIpv4.resolve(wide_loopback()), 36);
    assert_eq!(SnapshotIntent::LocalTcp.resolve(wide_loopback()), 56);
    assert_eq!(SnapshotIntent::LocalUdp.resolve(wide_loopback()), 44);
}

#[test]
fn full_packet_means_no_truncation() {
    assert_eq!(SnapshotIntent::FullPacket.resolve(standard()), 65535);
    assert_eq!(FULL_PACKET_LEN, 65535);
}

#[test]
fn custom_resolves_to_itself() {
    assert_eq!(SnapshotIntent::Custom(0).resolve(standard()), 0);
    assert_eq!(SnapshotIntent::Custom(1).resolve(standard()), 1);
    assert_eq!(SnapshotIntent::Custom(96).resolve(standard()), 96);
    assert_eq!(SnapshotIntent::Custom(65535).resolve(standard()), 65535);
}

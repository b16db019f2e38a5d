use vstd::prelude::*;

verus! {

/// The snapshot length that stands for "do not truncate": the maximum
/// representable capture length.
pub const FULL_PACKET_LEN: u32 = 65535;

/// The platform's link-layer header sizes, fixed once per target and
/// handed to the snapshot policy as an explicit configuration value.
///
/// The Ethernet-II header is 14 bytes on most platforms, but a
/// loopback-capable "any device" representation may frame packets
/// differently, so the size is carried here rather than assumed.  The
/// loopback header is a platform property too: 4 bytes on one platform
/// family, larger (for example 16) on another.
#[derive(Clone, Copy, PartialEq, Eq, Structural, Debug)]
pub struct Platform {
    pub ethernet_header_len: u16,
    pub loopback_header_len: u16,
}

/// A named or custom truncation target for the capture's snapshot length.
/// Resolved once, at session configuration time, to an integer byte
/// count; immutable thereafter.
#[derive(Clone, Copy, PartialEq, Eq, Structural, Debug)]
pub enum SnapshotIntent {
    /// Keep exactly the given number of bytes; this layer passes the
    /// value through unconstrained.
    Custom(u32),
    /// A full Ethernet-II frame header.
    EthernetII,
    /// Ethernet-II plus a minimum IPv4 header (no options).
    Ipv4,
    /// Ethernet-II plus minimum IPv4 plus a minimum TCP header.
    Tcp,
    /// Ethernet-II plus minimum IPv4 plus the fixed UDP header.
    Udp,
    /// As `Ipv4`, with the platform's loopback link header in place of
    /// the Ethernet-II header.
    LocalIpv4,
    /// As `Tcp`, over the loopback link header.
    LocalTcp,
    /// As `Udp`, over the loopback link header.
    LocalUdp,
    /// Do not truncate: keep every captured byte.
    FullPacket,
}

/// The byte count an intent resolves to on the given platform: pure
/// arithmetic over the platform's link-header sizes, with 20 bytes for a
/// minimum IPv4 header, 20 for a minimum TCP header and 8 for the fixed
/// UDP header.
pub open spec fn spec_resolve(intent: SnapshotIntent, platform: Platform) -> int {
    match intent {
        SnapshotIntent::Custom(n) => n as int,
        SnapshotIntent::EthernetII => platform.ethernet_header_len as int,
        SnapshotIntent::Ipv4 => platform.ethernet_header_len + 20,
        SnapshotIntent::Tcp => platform.ethernet_header_len + 40,
        SnapshotIntent::Udp => platform.ethernet_header_len + 28,
        SnapshotIntent::LocalIpv4 => platform.loopback_header_len + 20,
        SnapshotIntent::LocalTcp => platform.loopback_header_len + 40,
        SnapshotIntent::LocalUdp => platform.loopback_header_len + 28,
        SnapshotIntent::FullPacket => FULL_PACKET_LEN as int,
    }
}

impl SnapshotIntent {
    /// Resolves the intent to its byte count on the given platform.
    ///
    /// Every named intent resolves to the fixed, platform-pinned value of
    /// `spec_resolve`; a custom intent resolves to exactly the number it
    /// carries.
    pub fn resolve(self, platform: Platform) -> (r: u32)
        ensures
            r == spec_resolve(self, platform),
            self matches SnapshotIntent::Custom(n) ==> r == n,
    {
        match self {
            SnapshotIntent::Custom(n) => n,
            SnapshotIntent::EthernetII => platform.ethernet_header_len as u32,
            SnapshotIntent::Ipv4 => platform.ethernet_header_len as u32 + 20,
            SnapshotIntent::Tcp => platform.ethernet_header_len as u32 + 40,
            SnapshotIntent::Udp => platform.ethernet_header_len as u32 + 28,
            SnapshotIntent::LocalIpv4 => platform.loopback_header_len as u32 + 20,
            SnapshotIntent::LocalTcp => platform.loopback_header_len as u32 + 40,
            SnapshotIntent::LocalUdp => platform.loopback_header_len as u32 + 28,
            SnapshotIntent::FullPacket => FULL_PACKET_LEN,
        }
    }
}

} // verus!

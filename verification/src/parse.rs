use vstd::prelude::*;
use vstd::slice::slice_subrange;

use etherparse::ReadError;

use crate::capture::PacketsIter;
use crate::errors::ParseError;
use crate::packet::PacketView;

verus! {

/// The big-endian 16-bit integer held at offset `i` of the bytes.
pub open spec fn be16(d: Seq<u8>, i: int) -> int {
    d[i] * 0x100 + d[i + 1]
}

/// The big-endian 32-bit integer held at offset `i` of the bytes.
pub open spec fn be32(d: Seq<u8>, i: int) -> int {
    d[i] * 0x1000000 + d[i + 1] * 0x10000 + d[i + 2] * 0x100 + d[i + 3]
}

/// The fields the IPv4 parse copies out of a well-formed header slice,
/// as plain values: the header length in units of four bytes, the
/// total-length field, time-to-live, the transport protocol number, and
/// the source and destination addresses as big-endian integers.
#[derive(Clone, Copy, PartialEq, Eq, Structural, Debug)]
pub struct Ipv4Fields {
    pub ihl: u8,
    pub total_len: u16,
    pub ttl: u8,
    pub protocol: u8,
    pub source: u32,
    pub destination: u32,
}

/// What parsing the bytes as an IPv4 header (with options) yields.  The
/// slice is accepted exactly when it holds at least 20 bytes, the
/// version nibble is 4, the header-length field is at least 5 and
/// covered by the slice, and the total-length field is no smaller than
/// the header; each check fails with its own error, tried in this
/// order.
pub open spec fn spec_ipv4_parse(d: Seq<u8>) -> Result<Ipv4Fields, ParseError> {
    let version = d[0] >> 4;
    let ihl = d[0] & 0xf;
    if d.len() < 20 {
        Err(ParseError::UnexpectedEndOfSlice(20))
    } else if version != 4 {
        Err(ParseError::UnexpectedIpVersion(version))
    } else if ihl < 5 {
        Err(ParseError::BadIpHeaderLength(ihl))
    } else if d.len() < ihl * 4 {
        Err(ParseError::UnexpectedEndOfSlice((ihl * 4) as usize))
    } else if be16(d, 2) < ihl * 4 {
        Err(ParseError::TotalLengthTooSmall(be16(d, 2) as u16))
    } else {
        Ok(Ipv4Fields {
            ihl,
            total_len: be16(d, 2) as u16,
            ttl: d[8],
            protocol: d[9],
            source: be32(d, 12) as u32,
            destination: be32(d, 16) as u32,
        })
    }
}

/// Relies on `etherparse::Ipv4HeaderSlice::from_slice`: the slice is
/// accepted or rejected exactly as `spec_ipv4_parse` says, and the
/// accessors read the fields big-endian from their fixed offsets.
#[verifier::external_body]
fn ipv4_from_slice(data: &[u8]) -> (r: Result<Ipv4Fields, ParseError>)
    ensures
        r == spec_ipv4_parse(data@),
{
    match etherparse::Ipv4HeaderSlice::from_slice(data) {
        Ok(h) => Ok(Ipv4Fields {
            ihl: h.ihl(), total_len: h.total_len(), ttl: h.ttl(), protocol: h.protocol(),
            source: u32::from_be_bytes(h.source()),
            destination: u32::from_be_bytes(h.destination()),
        }),
        Err(ReadError::UnexpectedEndOfSlice(n)) => Err(ParseError::UnexpectedEndOfSlice(n)),
        Err(ReadError::Ipv4UnexpectedVersion(v)) => Err(ParseError::UnexpectedIpVersion(v)),
        Err(ReadError::Ipv4HeaderLengthBad(l)) => Err(ParseError::BadIpHeaderLength(l)),
        Err(ReadError::Ipv4TotalLengthTooSmall(t)) => Err(ParseError::TotalLengthTooSmall(t)),
        Err(_) => Err(ParseError::Content),
    }
}

/// What the layered Ethernet decode of one packet yields, as plain
/// values: the frame's EtherType, whether an IP layer and a transport
/// layer were recognised, and how many bytes were left undecoded as
/// payload.
#[derive(Clone, Copy, PartialEq, Eq, Structural, Debug)]
pub struct EtherFrame {
    pub ether_type: u16,
    pub has_ip: bool,
    pub has_transport: bool,
    pub payload_len: usize,
}

/// The result of the full layered Ethernet decode of the given bytes: a
/// function of the bytes alone.  Only what the wrapper below states of
/// it is known; the decode itself is the outside library's.
pub uninterp spec fn spec_ethernet_parse(d: Seq<u8>) -> Result<EtherFrame, ParseError>;

/// Relies on `etherparse::SlicedPacket::from_ethernet` for the layered
/// decode (link, network and transport slicing).  Its result is a
/// function of the bytes alone; a slice shorter than the 14-byte
/// Ethernet-II header is rejected with the end-of-slice error before
/// anything else is tried, and on success the EtherType field is read
/// big-endian from offset 12.
#[verifier::external_body]
fn ethernet_from_slice(data: &[u8]) -> (r: Result<EtherFrame, ParseError>)
    ensures
        r == spec_ethernet_parse(data@),
        data@.len() < 14 ==> r is Err && r->Err_0 == ParseError::UnexpectedEndOfSlice(14),
        r matches Ok(f) ==> f.ether_type == be16(data@, 12),
{
    match etherparse::SlicedPacket::from_ethernet(data) {
        Ok(v) => {
            let ether_type = match &v.link {
                Some(etherparse::LinkSlice::Ethernet2(e)) => e.ether_type(),
                None => 0,
            };
            Ok(EtherFrame { ether_type, has_ip: v.ip.is_some(),
                has_transport: v.transport.is_some(), payload_len: v.payload.len() })
        },
        Err(ReadError::UnexpectedEndOfSlice(n)) => Err(ParseError::UnexpectedEndOfSlice(n)),
        Err(_) => Err(ParseError::Content),
    }
}

impl PacketsIter {
    /// Wraps the iterator so that each pulled packet is decoded as an
    /// Ethernet-II frame.  The protocol iterator owns this iterator and
    /// terminates exactly where it does.
    pub fn parse_ethernet(self) -> (r: EtherIter)
        ensures
            r.remaining() == self.remaining(),
    {
        EtherIter { iter: self }
    }

    /// Wraps the iterator so that each pulled packet is parsed as an
    /// IPv4 header sitting at the standard 14-byte Ethernet offset.
    pub fn parse_ip(self) -> (r: IpIter)
        ensures
            r.remaining() == self.remaining(),
    {
        IpIter { iter: self }
    }
}

/// An iterator that reinterprets each pulled packet's bytes as an
/// Ethernet-II frame, slicing link, network and transport layers in one
/// pass; a malformed packet yields a parse error, never a panic.  The
/// decode assumes a 14-byte Ethernet-II header at offset 0; on capture
/// configurations whose link header differs (some loopback
/// representations), checking that assumption is the caller's
/// responsibility.
pub struct EtherIter {
    iter: PacketsIter,
}

impl EtherIter {
    /// The packets not yet decoded, oldest first.
    pub closed spec fn remaining(self) -> Seq<PacketView> {
        self.iter.remaining()
    }

    /// Decodes the next packet, or reports the end of the sequence once
    /// the underlying iterator is exhausted.
    pub fn next(&mut self) -> (r: Option<Result<EtherFrame, ParseError>>)
        ensures
            old(self).remaining().len() == 0 ==> r is None
                && final(self).remaining() == old(self).remaining(),
            old(self).remaining().len() > 0 ==> r is Some
                && final(self).remaining() == old(self).remaining().skip(1)
                && r->0 == spec_ethernet_parse(old(self).remaining()[0].data)
                && (old(self).remaining()[0].data.len() < 14 ==> r->0 == Err::<
                    EtherFrame,
                    ParseError,
                >(ParseError::UnexpectedEndOfSlice(14)))
                && (r->0 matches Ok(f) ==> f.ether_type == be16(
                    old(self).remaining()[0].data,
                    12,
                )),
    {
        match self.iter.next() {
            None => None,
            Some(p) => Some(ethernet_from_slice(p.data.as_slice())),
        }
    }
}

/// An iterator that parses each pulled packet as an IPv4 header at the
/// standard 14-byte Ethernet offset.  A packet shorter than 14 bytes
/// yields the end-of-slice error for those 14 bytes and the underlying
/// parse is never attempted; otherwise the IPv4 parse of the bytes from
/// offset 14 is yielded.  The same loopback caveat as for the Ethernet
/// iterator applies.
pub struct IpIter {
    iter: PacketsIter,
}

impl IpIter {
    /// The packets not yet parsed, oldest first.
    pub closed spec fn remaining(self) -> Seq<PacketView> {
        self.iter.remaining()
    }

    /// Parses the next packet, or reports the end of the sequence once
    /// the underlying iterator is exhausted.
    pub fn next(&mut self) -> (r: Option<Result<Ipv4Fields, ParseError>>)
        ensures
            old(self).remaining().len() == 0 ==> r is None
                && final(self).remaining() == old(self).remaining(),
            old(self).remaining().len() > 0 ==> r is Some
                && final(self).remaining() == old(self).remaining().skip(1)
                && (old(self).remaining()[0].data.len() < 14 ==> r->0 == Err::<
                    Ipv4Fields,
                    ParseError,
                >(ParseError::UnexpectedEndOfSlice(14)))
                && (old(self).remaining()[0].data.len() >= 14 ==> r->0 == spec_ipv4_parse(
                    old(self).remaining()[0].data.skip(14),
                )),
    {
        match self.iter.next() {
            None => None,
            Some(p) => {
                if p.data.len() < 14 {
                    Some(Err(ParseError::UnexpectedEndOfSlice(14)))
                } else {
                    let tail = slice_subrange(p.data.as_slice(), 14, p.data.len());
                    Some(ipv4_from_slice(tail))
                }
            },
        }
    }
}

} // verus!

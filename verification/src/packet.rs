use vstd::prelude::*;

verus! {

/// Fixed-layout record describing one captured packet: the timestamp in
/// seconds and microseconds, the number of bytes actually captured
/// (`caplen`), and the original on-wire length (`len`).  It carries no
/// ownership and is copied by value, exactly as the bit-compatible native
/// header it is read from.
#[derive(Clone, Copy, PartialEq, Eq, Structural, Debug)]
pub struct PacketHeader {
    pub ts_sec: i64,
    pub ts_usec: i64,
    pub caplen: u32,
    pub len: u32,
}

/// Mathematical model of a packet: its header and the captured bytes.
pub struct PacketView {
    pub header: PacketHeader,
    pub data: Seq<u8>,
}

impl PacketView {
    /// The captured bytes agree with the header's captured-length field.
    pub open spec fn wf(self) -> bool {
        self.data.len() == self.header.caplen
    }

    /// No more bytes were kept than the session's resolved snapshot
    /// length allows.
    pub open spec fn within(self, snaplen: u32) -> bool {
        self.data.len() <= snaplen
    }
}

/// One captured packet: a header and an owned copy of the captured bytes.
/// The capture session's native buffer is reused on every fetch, so the
/// bytes are copied out rather than borrowed.
pub struct Packet {
    pub header: PacketHeader,
    pub data: Vec<u8>,
}

impl View for Packet {
    type V = PacketView;

    open spec fn view(&self) -> PacketView {
        PacketView { header: self.header, data: self.data@ }
    }
}

impl Packet {
    /// The packet's bytes agree with its header's captured-length field.
    pub open spec fn wf(self) -> bool {
        self@.wf()
    }

    /// Builds a packet from a header copied out of a capture record and
    /// the captured bytes.  The header travels unchanged into the packet:
    /// no field is truncated, reordered or dropped.  The byte count must
    /// equal the header's `caplen`, the only length the session vouches
    /// for.
    pub fn new(header: PacketHeader, data: Vec<u8>) -> (r: Packet)
        requires
            data@.len() == header.caplen,
        ensures
            r@.header == header,
            r@.data == data@,
            r.wf(),
    {
        Packet { header, data }
    }
}

} // verus!

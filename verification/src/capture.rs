use vstd::prelude::*;
use vstd::assert_seqs_equal;

use crate::errors::CaptureError;
use crate::packet::{Packet, PacketView};

verus! {

/// The views of a sequence of packets, in the same order.
pub open spec fn views_of(s: Seq<Packet>) -> Seq<PacketView> {
    s.map(|i: int, p: Packet| p@)
}

proof fn lemma_views_drop_first(s: Seq<Packet>)
    requires
        s.len() > 0,
    ensures
        views_of(s.remove(0)) == views_of(s).skip(1),
{
    assert_seqs_equal!(views_of(s.remove(0)) == views_of(s).skip(1), i => {
        assert(s.remove(0)[i] == s[i + 1]);
    });
}

/// A recorded, activated capture session: the packets still to be
/// fetched, oldest first, together with the snapshot length the session
/// was configured with.  The session is exclusively owned by one
/// consumer at a time; a fetched packet is handed out as an owned copy,
/// since a live session reuses its buffer on every fetch.
pub struct Capture {
    packets: Vec<Packet>,
    snaplen: u32,
}

impl Capture {
    /// The packets not yet fetched, oldest first.
    pub closed spec fn remaining(self) -> Seq<PacketView> {
        views_of(self.packets@)
    }

    /// The snapshot length the session was configured with.
    pub closed spec fn snaplen(self) -> u32 {
        self.snaplen
    }

    /// Every remaining packet's bytes agree with its header's `caplen`
    /// and never exceed the session's snapshot length.
    pub open spec fn wf(self) -> bool {
        forall|i: int| 0 <= i < self.remaining().len() ==>
            (#[trigger] self.remaining()[i]).wf() && self.remaining()[i].within(self.snaplen())
    }

    /// Builds a session over recorded packets with the given snapshot
    /// length.  It succeeds if and only if every packet's bytes agree
    /// with its header's `caplen` and fit within the snapshot length.
    pub fn from_packets(snaplen: u32, packets: Vec<Packet>) -> (r: Option<Capture>)
        ensures
            r is Some <==> (forall|i: int| 0 <= i < packets@.len() ==>
                (#[trigger] packets@[i]@).wf() && packets@[i]@.within(snaplen)),
            r matches Some(c) ==> {
                &&& c.remaining() == views_of(packets@)
                &&& c.snaplen() == snaplen
                &&& c.wf()
            },
    {
        let n: usize = packets.len();
        let mut i: usize = 0;
        while i < n
            invariant
                n == packets@.len(),
                i <= n,
                forall|j: int| 0 <= j < i ==>
                    (#[trigger] packets@[j]@).wf() && packets@[j]@.within(snaplen),
            decreases n - i,
        {
            let fits: bool = packets[i].data.len() == packets[i].header.caplen as usize
                && packets[i].data.len() <= snaplen as usize;
            if !fits {
                proof {
                    assert(!((#[trigger] packets@[i as int]@).wf()
                        && packets@[i as int]@.within(snaplen)));
                }
                return None;
            }
            i += 1;
        }
        Some(Capture { packets, snaplen })
    }

    /// Pulls the next packet.  While packets remain, the oldest one is
    /// handed out and removed from the session; on an exhausted session
    /// the pull fails with `NoMorePackets` and changes nothing, so every
    /// later pull fails the same way.
    pub fn next(&mut self) -> (r: Result<Packet, CaptureError>)
        ensures
            final(self).snaplen() == old(self).snaplen(),
            old(self).remaining().len() > 0 ==> r is Ok
                && r->Ok_0@ == old(self).remaining()[0]
                && final(self).remaining() == old(self).remaining().skip(1),
            old(self).remaining().len() == 0 ==> r is Err
                && r->Err_0 == CaptureError::NoMorePackets
                && final(self).remaining() == old(self).remaining(),
            old(self).wf() ==> final(self).wf(),
            old(self).wf() && r is Ok ==>
                r->Ok_0@.wf() && r->Ok_0@.within(old(self).snaplen()),
    {
        if self.packets.len() == 0 {
            Err(CaptureError::NoMorePackets)
        } else {
            let ghost before = self.packets@;
            let p = self.packets.remove(0);
            proof {
                lemma_views_drop_first(before);
            }
            Ok(p)
        }
    }

    /// The number of packets still to be fetched.
    pub fn count(&self) -> (r: usize)
        ensures
            r == self.remaining().len(),
    {
        self.packets.len()
    }

    /// Hands the session to a pull-based packet iterator.  The iterator
    /// owns the session, so no second consumer can pull from it while
    /// the iterator lives.
    pub fn iter(self) -> (r: PacketsIter)
        ensures
            r.remaining() == self.remaining(),
            r.snaplen() == self.snaplen(),
            self.wf() ==> r.wf(),
    {
        PacketsIter { capture: self }
    }
}

/// A pull-based iterator over the captured packets.  Each pull fetches
/// the next packet from the session; the end-of-stream and timeout
/// conditions are reported as `None`, the normal end of the sequence,
/// and the error value itself is swallowed (a caller that must tell
/// them apart has to ask the session layer).  The sequence is not
/// restartable: once `None` is returned, every later pull returns
/// `None` as well.
pub struct PacketsIter {
    pub(crate) capture: Capture,
}

impl PacketsIter {
    /// The packets not yet yielded, oldest first.
    pub closed spec fn remaining(self) -> Seq<PacketView> {
        self.capture.remaining()
    }

    /// The snapshot length of the underlying session.
    pub closed spec fn snaplen(self) -> u32 {
        self.capture.snaplen()
    }

    /// Every remaining packet's bytes agree with its header's `caplen`
    /// and never exceed the session's snapshot length.
    pub open spec fn wf(self) -> bool {
        forall|i: int| 0 <= i < self.remaining().len() ==>
            (#[trigger] self.remaining()[i]).wf() && self.remaining()[i].within(self.snaplen())
    }

    /// Pulls the next packet, or reports the end of the sequence.  While
    /// packets remain the oldest one is yielded; afterwards every pull
    /// yields `None` and leaves the iterator unchanged.
    pub fn next(&mut self) -> (r: Option<Packet>)
        ensures
            final(self).snaplen() == old(self).snaplen(),
            old(self).remaining().len() > 0 ==> r is Some
                && r->0@ == old(self).remaining()[0]
                && final(self).remaining() == old(self).remaining().skip(1),
            old(self).remaining().len() == 0 ==> r is None
                && final(self).remaining() == old(self).remaining(),
            old(self).wf() ==> final(self).wf(),
            old(self).wf() && r is Some ==>
                r->0@.wf() && r->0@.within(old(self).snaplen()),
    {
        match self.capture.next() {
            Ok(p) => Some(p),
            Err(_) => None,
        }
    }
}

} // verus!

use vstd::prelude::*;

use crate::capture::{views_of, Capture};
use crate::errors::CaptureError;
use crate::packet::{Packet, PacketView};

verus! {

/// A packet sink: the type-safe counterpart of the native per-packet
/// callback.  The processing loop hands every delivered packet to the
/// sink; `seen` is the sink's accounting of those packets, oldest
/// first.  The native loop protocol has no channel for application
/// errors, so a sink that fails must handle the failure internally.
pub trait PacketSink {
    /// The packets handed to this sink so far, oldest first.
    spec fn seen(&self) -> Seq<PacketView>;

    /// Receives one packet, accounting for it at the end of `seen`.
    fn handle(&mut self, packet: Packet)
        ensures
            final(self).seen() == old(self).seen().push(packet@),
    ;
}

/// A sink that keeps every packet it is handed, in arrival order.
pub struct Collector {
    pub packets: Vec<Packet>,
}

impl Collector {
    /// An empty collector.
    pub fn new() -> (r: Collector)
        ensures
            r.seen() == Seq::<PacketView>::empty(),
    {
        Collector { packets: Vec::new() }
    }
}

impl PacketSink for Collector {
    open spec fn seen(&self) -> Seq<PacketView> {
        views_of(self.packets@)
    }

    fn handle(&mut self, packet: Packet) {
        let ghost before = self.packets@;
        let ghost pv = packet@;
        self.packets.push(packet);
        proof {
            assert(views_of(before.push(self.packets@[before.len() as int])) =~=
                views_of(before).push(pv));
        }
    }
}

/// True when the maximum-count argument means "run to completion": the
/// native convention writes zero for "unbounded", and `None` is mapped
/// to zero.
pub open spec fn run_unbounded(max: Option<usize>) -> bool {
    max is None || max->0 == 0
}

/// The packets a processing loop over `packets` delivers under `max`:
/// all of them when the run is unbounded or the recording holds no more
/// than the requested count, and otherwise exactly the first `max`.
pub open spec fn spec_delivered(packets: Seq<PacketView>, max: Option<usize>) -> Seq<PacketView> {
    if run_unbounded(max) || packets.len() <= max->0 {
        packets
    } else {
        packets.take(max->0 as int)
    }
}

/// Whether such a loop completes normally: an unbounded run always
/// does, and a bounded one exactly when the recording holds at least
/// the requested count of packets.
pub open spec fn spec_loop_completes(packets: Seq<PacketView>, max: Option<usize>) -> bool {
    run_unbounded(max) || max->0 <= packets.len()
}

/// Processes packets from the session until `max` packets have been
/// handed to the sink, or the recording is exhausted.  `None` (like
/// `Some(0)`, following the native convention) means run to
/// completion.  The call is blocking and single-threaded: it consumes
/// the session, and no other consumer can pull from it meanwhile.
///
/// The sink receives the delivered packets one at a time, in arrival
/// order.  A bounded run over a recording with fewer packets than
/// requested delivers them all and then fails with `NoMorePackets`;
/// every other run returns success.
pub fn pcap_loop<H: PacketSink>(capture: Capture, max: Option<usize>, handler: &mut H) -> (r:
    Result<(), CaptureError>)
    ensures
        final(handler).seen() == old(handler).seen() + spec_delivered(capture.remaining(), max),
        r is Ok <==> spec_loop_completes(capture.remaining(), max),
        r is Err ==> r->Err_0 == CaptureError::NoMorePackets,
{
    let ghost all = capture.remaining();
    let ghost seen0 = handler.seen();
    let bounded: bool;
    let m: usize;
    match max {
        None => {
            bounded = false;
            m = 0;
        },
        Some(k) => {
            bounded = k != 0;
            m = k;
        },
    }
    let mut cap = capture;
    let total: usize = cap.count();
    let mut count: usize = 0;
    loop
        invariant
            all == capture.remaining(),
            all.len() == total,
            seen0 == old(handler).seen(),
            bounded == !run_unbounded(max),
            bounded ==> m == max->0,
            bounded ==> count <= m,
            count <= all.len(),
            cap.remaining() == all.skip(count as int),
            handler.seen() == seen0 + all.take(count as int),
        decreases all.len() - count,
    {
        if bounded && count >= m {
            proof {
                assert(all.take(m as int) =~= spec_delivered(all, max));
            }
            return Ok(());
        }
        let ghost mid = cap.remaining();
        match cap.next() {
            Ok(p) => {
                let ghost pv = p@;
                handler.handle(p);
                count += 1;
                proof {
                    assert(pv == all[count - 1]);
                    assert(all.take(count as int) =~= all.take(count - 1).push(all[count - 1]));
                    assert(seen0 + all.take(count - 1).push(all[count - 1]) =~=
                        (seen0 + all.take(count - 1)).push(all[count - 1]));
                    assert(mid.skip(1) =~= all.skip(count as int));
                }
            },
            Err(_) => {
                proof {
                    assert(count == all.len());
                    assert(all.take(count as int) =~= all);
                }
                if bounded {
                    return Err(CaptureError::NoMorePackets);
                } else {
                    return Ok(());
                }
            },
        }
    }
}

/// Maps the native blocking-loop primitive's return code to the loop's
/// result: zero is normal completion, the sentinel -2 reports that the
/// source is exhausted, and any other code is a native failure that the
/// session's own error classifier may describe further.
pub fn classify_loop_code(code: i32) -> (r: Result<(), CaptureError>)
    ensures
        code == 0 ==> r is Ok,
        code == -2 ==> r == Err::<(), CaptureError>(CaptureError::NoMorePackets),
        code != 0 && code != -2 ==> r == Err::<(), CaptureError>(CaptureError::Native(code)),
{
    if code == 0 {
        Ok(())
    } else if code == -2 {
        Err(CaptureError::NoMorePackets)
    } else {
        Err(CaptureError::Native(code))
    }
}

} // verus!

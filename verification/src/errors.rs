use vstd::prelude::*;

verus! {

/// The error kinds a capture session surfaces while packets are pulled or
/// processed.
#[derive(Clone, Copy, PartialEq, Eq, Structural, Debug)]
pub enum CaptureError {
    /// The stream is exhausted: recoverable, treated by the pull iterators
    /// as normal end of iteration.
    NoMorePackets,
    /// A configured read timeout elapsed with no packet: recoverable,
    /// likewise treated as end of iteration by the pull iterators.
    TimeoutExpired,
    /// The native capture layer reported the given nonzero status code;
    /// a hard stop.  Callers that can reach the session's own error
    /// classifier may translate it into a more specific message.
    Native(i32),
}

/// The errors the protocol iterators yield when a packet's bytes cannot be
/// reinterpreted as the expected protocol headers.
#[derive(Clone, Copy, PartialEq, Eq, Structural, Debug)]
pub enum ParseError {
    /// The slice ends before the header that needs at least the given
    /// number of bytes is complete.
    UnexpectedEndOfSlice(usize),
    /// The IP version nibble held the given value instead of 4.
    UnexpectedIpVersion(u8),
    /// The IPv4 header-length field held the given value, below the
    /// minimum of 5 (in units of four bytes).
    BadIpHeaderLength(u8),
    /// The IPv4 total-length field held the given value, smaller than the
    /// header it is supposed to cover.
    TotalLengthTooSmall(u16),
    /// The layers above the link header are malformed in some other way.
    Content,
}

} // verus!

//! A verified packet-consumption layer for captured network traffic.
//!
//! The crate models a recorded capture session as a finite sequence of
//! packets and offers the two consumption styles of a capture library:
//! a pull-based iterator over the session and a blocking processing loop
//! that hands every packet to a sink.  Thin protocol iterators reinterpret
//! each packet's bytes as Ethernet or IPv4 structures through `etherparse`.

pub mod capture;
pub mod errors;
pub mod packet;
pub mod parse;
pub mod process;
pub mod snapshot;

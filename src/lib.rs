//! The transport-layer datagram (UDP) header of a packet toolkit: an
//! in-memory model of its fields, parsing from captured bytes, and
//! serialization with a pseudo-header checksum.

pub mod checksum;
pub mod ip;
pub mod layer;
pub mod udp;
pub mod wire;

//! Bounds-checked, zero-copy navigation over a raw packet buffer, together
//! with a typed record-plus-trailing-payload encoding for exporting packet
//! data through a bounded perf event channel.
//!
//! The packet is modelled as the byte range handed to an XDP program: every
//! accessor narrows from the whole packet to the Ethernet, IP and transport
//! headers, checking at each step that the next structure lies inside the
//! buffer before any field is read.

pub mod headers;
pub mod perf;
pub mod xdp;

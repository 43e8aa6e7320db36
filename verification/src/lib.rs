//! Single-radio LoRa gateway core: a fixed channel plan, the ordered
//! configuration sequence derived from it, and the forwarding-loop state
//! machine that drains received packets and republishes each one.
//!
//! All hardware and socket I/O lives outside this crate; the library only
//! decides what to do next, and its decisions are verified.

pub mod cmdline;
pub mod forwarder;
pub mod plan;

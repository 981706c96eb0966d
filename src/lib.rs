//! The attach engine of a container monitor: the wire framing between a
//! container's standard streams and attached clients, the decisions of the
//! per-connection read and write loops, and the hub that fans output out to
//! every connection and gathers their input.

pub mod error;
pub mod frame;
pub mod read_loop;
pub mod write_loop;
pub mod hub;

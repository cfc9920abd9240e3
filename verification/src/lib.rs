//! Direct file transfer between two hosts, one of which may sit behind a NAT
//! gateway.
//!
//! The library holds the verified core of the tool: the sender and receiver
//! transfer-session state machines, the classification of a port-mapping
//! negotiation run under a deadline, the choice of the address advertised to
//! the remote operator, and the textual form of that address.  All network,
//! file and gateway I/O is performed by the surrounding binary, which drives
//! these state machines and reports each outcome back to them.

pub mod addr;
pub mod errors;
pub mod negotiate;
pub mod session;

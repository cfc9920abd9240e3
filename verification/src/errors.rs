//! The failure kinds a transfer invocation can end in.

use vstd::prelude::*;

verus! {

/// Every way one invocation can fail.  Each kind is unrecoverable for the
/// current invocation: there is no internal retry anywhere in the core.
#[derive(Clone, Copy, Debug, PartialEq, Eq, Structural)]
pub enum ErrorKind {
    /// The sender's input path does not exist or is not a regular file.
    InputValidation,
    /// No NAT gateway was located on the local segment.
    NotFound,
    /// A gateway was located but offers no port-mapping capability.
    NoGatewayCapability,
    /// The gateway explicitly refused the requested mapping.
    NegotiationRejected,
    /// The gateway answered with a malformed response.
    ProtocolError,
    /// Gateway discovery plus mapping negotiation exceeded the deadline.
    TimedOut,
    /// The sender could not reach the peer address.
    ConnectError,
    /// The receiver could not bind its listening socket.
    BindError,
    /// The receiver could not accept the incoming connection.
    AcceptError,
    /// An I/O failure occurred mid-copy (file or connection).
    TransferError,
}

} // verus!

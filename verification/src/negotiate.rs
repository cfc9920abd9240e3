//! Port-mapping negotiation: the lease that is requested, the deadline that
//! bounds the whole negotiation, and the classification of its outcome.
//!
//! The surrounding binary performs gateway discovery and the mapping request
//! under a wall-clock deadline and reports the outcome here; the library
//! decides which failure kind the invocation ends in.

use vstd::prelude::*;
use crate::addr::Endpoint;
use crate::errors::ErrorKind;

verus! {

/// Seconds allowed for gateway discovery plus mapping negotiation together.
/// One deadline bounds the whole composite operation, not each sub-step.
pub const NEGOTIATION_DEADLINE_SECS: u64 = 30;

/// Seconds a requested port mapping stays alive on the gateway.  The gateway,
/// not this process, owns and expires the lease; it is never renewed.
pub const MAPPING_LEASE_SECS: u64 = 3600;

/// The transport protocol a mapping forwards; only TCP is ever requested.
#[derive(Clone, Copy, Debug, PartialEq, Eq, Structural)]
pub enum Protocol {
    Tcp,
}

/// How gateway discovery or the mapping request itself can fail, apart from
/// the deadline: no gateway located, a gateway without mapping capability, an
/// explicit refusal, or a malformed response.
#[derive(Clone, Copy, Debug, PartialEq, Eq, Structural)]
pub enum NegotiationError {
    NotFound,
    NoGatewayCapability,
    NegotiationRejected,
    ProtocolError,
}

/// A lease binding an external port on the gateway to an internal socket
/// address.  At most one mapping is requested per transfer attempt, and the
/// process never tears it down: it relies on lease expiry.
#[derive(Clone, Copy, Debug, PartialEq, Eq, Structural)]
pub struct PortMapping {
    /// The external port the gateway actually assigned, which may equal the
    /// internal port or differ.
    pub external_port: u16,
    /// The internal socket address inbound traffic is forwarded to.
    pub internal: Endpoint,
    pub protocol: Protocol,
    pub lease_secs: u64,
}

impl PortMapping {
    /// Records a successfully negotiated mapping: TCP, with the fixed lease.
    pub fn new(external_port: u16, internal: Endpoint) -> (m: PortMapping)
        ensures
            m == (PortMapping {
                external_port,
                internal,
                protocol: Protocol::Tcp,
                lease_secs: MAPPING_LEASE_SECS,
            }),
    {
        PortMapping { external_port, internal, protocol: Protocol::Tcp, lease_secs: MAPPING_LEASE_SECS }
    }
}

/// The failure kind an invocation ends in for each negotiation failure.
pub open spec fn negotiation_error_kind(e: NegotiationError) -> ErrorKind {
    match e {
        NegotiationError::NotFound => ErrorKind::NotFound,
        NegotiationError::NoGatewayCapability => ErrorKind::NoGatewayCapability,
        NegotiationError::NegotiationRejected => ErrorKind::NegotiationRejected,
        NegotiationError::ProtocolError => ErrorKind::ProtocolError,
    }
}

/// Classifies one run of "locate gateway, then create mapping" under the
/// deadline.  `None` means the deadline elapsed before the composite
/// operation completed: that is reported as `TimedOut`, distinct from every
/// failure the operation itself can report — an explicit rejection within the
/// deadline is `NegotiationRejected`, never `TimedOut`.
pub fn resolve_negotiation(outcome: Option<Result<u16, NegotiationError>>) -> (r: Result<
    u16,
    ErrorKind,
>)
    ensures
        outcome is None ==> r == Result::<u16, ErrorKind>::Err(ErrorKind::TimedOut),
        (outcome matches Some(inner) ==> (inner matches Ok(p) ==> r == Result::<
            u16,
            ErrorKind,
        >::Ok(p))),
        (outcome matches Some(inner) ==> (inner matches Err(e) ==> r == Result::<
            u16,
            ErrorKind,
        >::Err(negotiation_error_kind(e)))),
        r is Ok <==> (outcome matches Some(inner) && inner is Ok),
{
    match outcome {
        Option::None => Result::Err(ErrorKind::TimedOut),
        Option::Some(Result::Ok(port)) => Result::Ok(port),
        Option::Some(Result::Err(NegotiationError::NotFound)) => Result::Err(ErrorKind::NotFound),
        Option::Some(Result::Err(NegotiationError::NoGatewayCapability)) => Result::Err(
            ErrorKind::NoGatewayCapability,
        ),
        Option::Some(Result::Err(NegotiationError::NegotiationRejected)) => Result::Err(
            ErrorKind::NegotiationRejected,
        ),
        Option::Some(Result::Err(NegotiationError::ProtocolError)) => Result::Err(
            ErrorKind::ProtocolError,
        ),
    }
}

} // verus!

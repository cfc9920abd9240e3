use holepunch::addr::{Endpoint, IpAddress};
use holepunch::errors::ErrorKind;
use holepunch::negotiate::{
    resolve_negotiation, NegotiationError, PortMapping, Protocol, MAPPING_LEASE_SECS,
    NEGOTIATION_DEADLINE_SECS,
};

#[test]
fn deadline_elapsed_is_timed_out() {
    assert_eq!(resolve_negotiation(None), Err(ErrorKind::TimedOut));
}

#[test]
fn rejection_within_deadline_is_not_timed_out() {
    let r = resolve_negotiation(Some(Err(NegotiationError::NegotiationRejected)));
    assert_eq!(r, Err(ErrorKind::NegotiationRejected));
    assert_ne!(r, Err(ErrorKind::TimedOut));
}

#[test]
fn no_gateway_is_not_found() {
    let r = resolve_negotiation(Some(Err(NegotiationError::NotFound)));
    assert_eq!(r, Err(ErrorKind::NotFound));
}

#[test]
fn missing_capability_is_reported() {
    let r = resolve_negotiation(Some(Err(NegotiationError::NoGatewayCapability)));
    assert_eq!(r, Err(ErrorKind::NoGatewayCapability));
}

#[test]
fn malformed_response_is_protocol_error() {
    let r = resolve_negotiation(Some(Err(NegotiationError::ProtocolError)));
    assert_eq!(r, Err(ErrorKind::ProtocolError));
}

#[test]
fn success_returns_assigned_port() {
    assert_eq!(resolve_negotiation(Some(Ok(61234))), Ok(61234));
}

#[test]
fn mapping_records_assigned_port_and_lease() {
    let internal = Endpoint { ip: IpAddress::V4 { a: 192, b: 168, c: 0, d: 2 }, port: 5000 };
    let m = PortMapping::new(61234, internal);
    assert_eq!(m.external_port, 61234);
    assert_eq!(m.internal, internal);
    assert_eq!(m.protocol, Protocol::Tcp);
    assert_eq!(m.lease_secs, MAPPING_LEASE_SECS);
}

#[test]
fn fixed_deadline_and_lease() {
    assert_eq!(NEGOTIATION_DEADLINE_SECS, 30);
    assert_eq!(MAPPING_LEASE_SECS, 3600);
}

use holepunch::addr::{reachable_endpoint, Endpoint, IpAddress};

#[test]
fn v4_endpoint_text() {
    let e = Endpoint { ip: IpAddress::V4 { a: 192, b: 168, c: 1, d: 7 }, port: 8080 };
    assert_eq!(e.to_text(), "192.168.1.7:8080");
}

#[test]
fn v4_endpoint_text_zeros() {
    let e = Endpoint { ip: IpAddress::V4 { a: 0, b: 0, c: 0, d: 0 }, port: 0 };
    assert_eq!(e.to_text(), "0.0.0.0:0");
}

#[test]
fn v4_endpoint_text_max() {
    let e = Endpoint { ip: IpAddress::V4 { a: 255, b: 255, c: 255, d: 255 }, port: 65535 };
    assert_eq!(e.to_text(), "255.255.255.255:65535");
}

#[test]
fn v6_loopback_endpoint_text() {
    let e = Endpoint {
        ip: IpAddress::V6 { g0: 0, g1: 0, g2: 0, g3: 0, g4: 0, g5: 0, g6: 0, g7: 1 },
        port: 443,
    };
    assert_eq!(e.to_text(), "[0:0:0:0:0:0:0:1]:443");
}

#[test]
fn v6_endpoint_text_hex_groups() {
    let e = Endpoint {
        ip: IpAddress::V6 {
            g0: 0x2001,
            g1: 0xdb8,
            g2: 0,
            g3: 0x42,
            g4: 0x8a2e,
            g5: 0x370,
            g6: 0x7334,
            g7: 0xffff,
        },
        port: 9,
    };
    assert_eq!(e.to_text(), "[2001:db8:0:42:8a2e:370:7334:ffff]:9");
}

#[test]
fn advertises_external_address_with_negotiated_port() {
    let internal = Endpoint { ip: IpAddress::V4 { a: 10, b: 0, c: 0, d: 5 }, port: 4000 };
    let external = IpAddress::V4 { a: 203, b: 0, c: 113, d: 9 };
    let r = reachable_endpoint(Some(external), 61000, internal);
    assert_eq!(r, Endpoint { ip: external, port: 61000 });
}

#[test]
fn falls_back_to_internal_address() {
    let internal = Endpoint { ip: IpAddress::V4 { a: 10, b: 0, c: 0, d: 5 }, port: 4000 };
    let r = reachable_endpoint(None, 61000, internal);
    assert_eq!(r, internal);
}

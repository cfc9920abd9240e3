//! Addresses, the advertised endpoint, and its textual form.
//!
//! The surrounding binary resolves concrete network addresses; the library
//! holds them as plain values, picks the one endpoint advertised to the
//! remote operator, and renders it as `host:port` text.

use vstd::prelude::*;
use vstd::string::StringExecFns;

verus! {

/// An IP address held as plain values: four octets, or eight 16-bit groups.
#[derive(Clone, Copy, Debug, PartialEq, Eq, Structural)]
pub enum IpAddress {
    V4 { a: u8, b: u8, c: u8, d: u8 },
    V6 { g0: u16, g1: u16, g2: u16, g3: u16, g4: u16, g5: u16, g6: u16, g7: u16 },
}

/// A socket address: an IP address together with a port number.
#[derive(Clone, Copy, Debug, PartialEq, Eq, Structural)]
pub struct Endpoint {
    pub ip: IpAddress,
    pub port: u16,
}

/// Picks the endpoint advertised to the remote operator: the external address
/// combined with the negotiated port when a public-address lookup succeeded,
/// else the bare internal socket address as a fallback.
pub fn reachable_endpoint(
    external_ip: Option<IpAddress>,
    negotiated_port: u16,
    internal: Endpoint,
) -> (r: Endpoint)
    ensures
        (external_ip matches Some(ip) ==> r == (Endpoint { ip, port: negotiated_port })),
        external_ip is None ==> r == internal,
{
    match external_ip {
        Option::Some(ip) => Endpoint { ip, port: negotiated_port },
        Option::None => internal,
    }
}

/// The character for one digit value below sixteen, decimal digits first.
pub open spec fn digit_char(d: nat) -> char {
    if d == 0 {
        '0'
    } else if d == 1 {
        '1'
    } else if d == 2 {
        '2'
    } else if d == 3 {
        '3'
    } else if d == 4 {
        '4'
    } else if d == 5 {
        '5'
    } else if d == 6 {
        '6'
    } else if d == 7 {
        '7'
    } else if d == 8 {
        '8'
    } else if d == 9 {
        '9'
    } else if d == 10 {
        'a'
    } else if d == 11 {
        'b'
    } else if d == 12 {
        'c'
    } else if d == 13 {
        'd'
    } else if d == 14 {
        'e'
    } else {
        'f'
    }
}

/// The decimal text of a number, most significant digit first, no leading
/// zeros except for the number zero itself.
pub open spec fn dec_text(n: nat) -> Seq<char>
    decreases n,
{
    if n < 10 {
        seq![digit_char(n)]
    } else {
        dec_text(n / 10).push(digit_char(n % 10))
    }
}

/// The hexadecimal text of a number, lower case, most significant digit
/// first, no leading zeros except for the number zero itself.
pub open spec fn hex_text(n: nat) -> Seq<char>
    decreases n,
{
    if n < 16 {
        seq![digit_char(n)]
    } else {
        hex_text(n / 16).push(digit_char(n % 16))
    }
}

/// The text of an address alone: dotted decimal octets for a version-4
/// address, colon-separated lower-case hexadecimal groups, written in full,
/// for a version-6 address.
pub open spec fn ip_text(ip: IpAddress) -> Seq<char> {
    match ip {
        IpAddress::V4 { a, b, c, d } => dec_text(a as nat) + seq!['.'] + dec_text(b as nat)
            + seq!['.'] + dec_text(c as nat) + seq!['.'] + dec_text(d as nat),
        IpAddress::V6 { g0, g1, g2, g3, g4, g5, g6, g7 } => hex_text(g0 as nat) + seq![':']
            + hex_text(g1 as nat) + seq![':'] + hex_text(g2 as nat) + seq![':']
            + hex_text(g3 as nat) + seq![':'] + hex_text(g4 as nat) + seq![':']
            + hex_text(g5 as nat) + seq![':'] + hex_text(g6 as nat) + seq![':']
            + hex_text(g7 as nat),
    }
}

/// The `host:port` text of an endpoint; a version-6 host stands in brackets.
pub open spec fn endpoint_text(e: Endpoint) -> Seq<char> {
    match e.ip {
        IpAddress::V4 { .. } => ip_text(e.ip) + seq![':'] + dec_text(e.port as nat),
        IpAddress::V6 { .. } => seq!['['] + ip_text(e.ip) + seq![']'] + seq![':'] + dec_text(
            e.port as nat,
        ),
    }
}

/// Text for one digit value below sixteen.
fn digit_str(d: u8) -> (r: &'static str)
    requires
        d < 16,
    ensures
        r@ == seq![digit_char(d as nat)],
{
    if d == 0 {
        proof {
            reveal_strlit("0");
            assert("0"@ =~= seq![digit_char(d as nat)]);
        }
        "0"
    } else if d == 1 {
        proof {
            reveal_strlit("1");
            assert("1"@ =~= seq![digit_char(d as nat)]);
        }
        "1"
    } else if d == 2 {
        proof {
            reveal_strlit("2");
            assert("2"@ =~= seq![digit_char(d as nat)]);
        }
        "2"
    } else if d == 3 {
        proof {
            reveal_strlit("3");
            assert("3"@ =~= seq![digit_char(d as nat)]);
        }
        "3"
    } else if d == 4 {
        proof {
            reveal_strlit("4");
            assert("4"@ =~= seq![digit_char(d as nat)]);
        }
        "4"
    } else if d == 5 {
        proof {
            reveal_strlit("5");
            assert("5"@ =~= seq![digit_char(d as nat)]);
        }
        "5"
    } else if d == 6 {
        proof {
            reveal_strlit("6");
            assert("6"@ =~= seq![digit_char(d as nat)]);
        }
        "6"
    } else if d == 7 {
        proof {
            reveal_strlit("7");
            assert("7"@ =~= seq![digit_char(d as nat)]);
        }
        "7"
    } else if d == 8 {
        proof {
            reveal_strlit("8");
            assert("8"@ =~= seq![digit_char(d as nat)]);
        }
        "8"
    } else if d == 9 {
        proof {
            reveal_strlit("9");
            assert("9"@ =~= seq![digit_char(d as nat)]);
        }
        "9"
    } else if d == 10 {
        proof {
            reveal_strlit("a");
            assert("a"@ =~= seq![digit_char(d as nat)]);
        }
        "a"
    } else if d == 11 {
        proof {
            reveal_strlit("b");
            assert("b"@ =~= seq![digit_char(d as nat)]);
        }
        "b"
    } else if d == 12 {
        proof {
            reveal_strlit("c");
            assert("c"@ =~= seq![digit_char(d as nat)]);
        }
        "c"
    } else if d == 13 {
        proof {
            reveal_strlit("d");
            assert("d"@ =~= seq![digit_char(d as nat)]);
        }
        "d"
    } else if d == 14 {
        proof {
            reveal_strlit("e");
            assert("e"@ =~= seq![digit_char(d as nat)]);
        }
        "e"
    } else {
        proof {
            reveal_strlit("f");
            assert("f"@ =~= seq![digit_char(d as nat)]);
        }
        "f"
    }
}

/// Appends the decimal text of a number.
pub fn push_dec(out: &mut String, n: u16)
    ensures
        final(out)@ == old(out)@ + dec_text(n as nat),
    decreases n,
{
    if n >= 10 {
        push_dec(out, n / 10);
    }
    let d = digit_str((n % 10) as u8);
    out.append(d);
    proof {
        if n < 10 {
            assert(old(out)@ + seq![digit_char(n as nat)] =~= old(out)@ + dec_text(n as nat));
        } else {
            assert(old(out)@ + dec_text((n / 10) as nat) + seq![digit_char((n % 10) as nat)]
                =~= old(out)@ + dec_text(n as nat));
        }
    }
}

/// Appends the lower-case hexadecimal text of a number.
pub fn push_hex(out: &mut String, n: u16)
    ensures
        final(out)@ == old(out)@ + hex_text(n as nat),
    decreases n,
{
    if n >= 16 {
        push_hex(out, n / 16);
    }
    let d = digit_str((n % 16) as u8);
    out.append(d);
    proof {
        if n < 16 {
            assert(old(out)@ + seq![digit_char(n as nat)] =~= old(out)@ + hex_text(n as nat));
        } else {
            assert(old(out)@ + hex_text((n / 16) as nat) + seq![digit_char((n % 16) as nat)]
                =~= old(out)@ + hex_text(n as nat));
        }
    }
}

impl Endpoint {
    /// The `host:port` text advertised to the remote operator.
    pub fn to_text(&self) -> (r: String)
        ensures
            r@ == endpoint_text(*self),
    {
        let mut s = String::new();
        match self.ip {
            IpAddress::V4 { a, b, c, d } => {
                push_dec(&mut s, a as u16);
                proof {
                    assert(s@ =~= dec_text(a as nat));
                    reveal_strlit(".");
                    reveal_strlit(":");
                    assert("."@ =~= seq!['.']);
                    assert(":"@ =~= seq![':']);
                }
                s.append(".");
                push_dec(&mut s, b as u16);
                s.append(".");
                push_dec(&mut s, c as u16);
                s.append(".");
                push_dec(&mut s, d as u16);
                s.append(":");
                push_dec(&mut s, self.port);
                proof {
                    assert(s@ =~= endpoint_text(*self));
                }
            },
            IpAddress::V6 { g0, g1, g2, g3, g4, g5, g6, g7 } => {
                proof {
                    reveal_strlit("[");
                    reveal_strlit("]");
                    reveal_strlit(":");
                    assert("["@ =~= seq!['[']);
                    assert("]"@ =~= seq![']']);
                    assert(":"@ =~= seq![':']);
                }
                s.append("[");
                proof {
                    assert(s@ =~= seq!['[']);
                }
                push_hex(&mut s, g0);
                s.append(":");
                push_hex(&mut s, g1);
                s.append(":");
                push_hex(&mut s, g2);
                s.append(":");
                push_hex(&mut s, g3);
                s.append(":");
                push_hex(&mut s, g4);
                s.append(":");
                push_hex(&mut s, g5);
                s.append(":");
                push_hex(&mut s, g6);
                s.append(":");
                push_hex(&mut s, g7);
                s.append("]");
                s.append(":");
                push_dec(&mut s, self.port);
                proof {
                    assert(s@ =~= endpoint_text(*self));
                }
            },
        }
        s
    }
}

} // verus!

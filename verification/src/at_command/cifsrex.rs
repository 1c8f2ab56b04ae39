//! Local IP address.
use vstd::prelude::*;
use embassy_time::{Duration, Instant};
use super::{AtParseErr, AtParseLine, AtRequest, GenericOk, RequestType};
use crate::text::{chars_of, parse_u8, parse_unsigned, splitn, splitn_exec, strip_prefix, strip_prefix_exec, views};

verus! {

/// AT+CIFSREX
#[derive(Debug)]
pub struct GetLocalIpExt;

impl AtRequest for GetLocalIpExt {
    type Response = (IpExt, GenericOk);

    open spec fn spec_encode(&self) -> Seq<char> {
        "AT+CIFSREX\r"@
    }

    open spec fn spec_request_type() -> RequestType {
        RequestType::NonCommand
    }

    fn request_type() -> (t: RequestType) {
        RequestType::NonCommand
    }

    fn encode(&self) -> (s: String) {
        let mut s = String::new();
        s.append("AT+CIFSREX\r");
        s
    }

    fn default_timeout() -> (t: Option<Duration>) {
        None
    }
}

#[derive(Clone, Copy, Debug, PartialEq, Eq)]
pub struct IpExt {
    pub addr: [u8; 4],
}

impl View for IpExt {
    type V = Seq<u8>;

    open spec fn view(&self) -> Seq<u8> {
        self.addr@
    }
}

/// The value of an address segment.
pub open spec fn spec_segment(s: Seq<char>) -> Option<u8> {
    match parse_unsigned(s, 10, u8::MAX as nat) {
        Some(v) => Some(v as u8),
        None => None,
    }
}

/// `+CIFSREX: <a>.<b>.<c>.<d>`: all four segments must read as bytes.
pub open spec fn spec_ip_ext(line: Seq<char>) -> Result<Seq<u8>, AtParseErr> {
    match strip_prefix(line, "+CIFSREX: "@) {
        None => Err(AtParseErr::Mismatch),
        Some(addr) => {
            let p = splitn(addr, 4, '.');
            if p.len() == 4 && spec_segment(p[0]) is Some && spec_segment(p[1]) is Some
                && spec_segment(p[2]) is Some && spec_segment(p[3]) is Some {
                Ok(
                    seq![
                        spec_segment(p[0])->0,
                        spec_segment(p[1])->0,
                        spec_segment(p[2])->0,
                        spec_segment(p[3])->0,
                    ],
                )
            } else {
                Err(AtParseErr::Parsing("Failed to parse IP segment"))
            }
        },
    }
}

impl AtParseLine for IpExt {
    open spec fn spec_from_line(line: Seq<char>, instant: Instant) -> Result<Seq<u8>, AtParseErr> {
        spec_ip_ext(line)
    }

    fn from_line(line: &str, instant: &Instant) -> (r: Result<Self, AtParseErr>) {
        let v = chars_of(line);
        let addr = match strip_prefix_exec(v.as_slice(), "+CIFSREX: ") {
            Some(a) => a,
            None => return Err(AtParseErr::Mismatch),
        };
        let p = splitn_exec(addr, 4, '.');
        let ghost w = views(p@);
        if p.len() != 4 {
            return Err(AtParseErr::Parsing("Failed to parse IP segment"));
        }
        assert(forall|i: int| 0 <= i < p@.len() ==> w[i] == (#[trigger] p@[i])@);
        let a = parse_u8(p[0]);
        let b = parse_u8(p[1]);
        let c = parse_u8(p[2]);
        let d = parse_u8(p[3]);
        match (a, b, c, d) {
            (Some(a), Some(b), Some(c), Some(d)) => {
                let r = IpExt { addr: [a, b, c, d] };
                assert(r.addr@ =~= seq![a, b, c, d]);
                Ok(r)
            },
            _ => Err(AtParseErr::Parsing("Failed to parse IP segment")),
        }
    }
}

/// An address that parses holds the four dot-separated segments of the line, in the
/// order they are written.
pub proof fn law_address_segments_in_order(line: Seq<char>)
    requires
        strip_prefix(line, "+CIFSREX: "@) is Some,
    ensures
        ({
            let p = splitn(strip_prefix(line, "+CIFSREX: "@).unwrap(), 4, '.');
            match spec_ip_ext(line) {
                Ok(a) => {
                    &&& a.len() == 4
                    &&& p.len() == 4
                    &&& forall|i: int| 0 <= i < 4 ==> parse_unsigned(#[trigger] p[i], 10, u8::MAX as nat)
                        == Some(a[i] as nat)
                },
                Err(_) => true,
            }
        }),
{
}

} // verus!

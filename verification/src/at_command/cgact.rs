//! PDP context activation.
use vstd::prelude::*;
use embassy_time::{Duration, Instant};
use super::{AtParseErr, AtParseLine, AtRequest, GenericOk, RequestType, ResponseSeq};
use super::cnact::CnactMode;
use crate::out::{decimal, push_decimal};
use crate::text::{chars_of, parse_u8, parse_unsigned, split, split_exec, strip_prefix, strip_prefix_exec, trim, trim_exec, views, lemma_split_nonempty};

verus! {

/// AT+CGACT?
#[derive(Debug)]
pub struct GetPdpContextActivation;

impl AtRequest for GetPdpContextActivation {
    type Response = ResponseSeq<CGact, 4, GenericOk>;

    open spec fn spec_encode(&self) -> Seq<char> {
        "AT+CGACT?\r"@
    }

    open spec fn spec_request_type() -> RequestType {
        RequestType::NonCommand
    }

    fn request_type() -> (t: RequestType) {
        RequestType::NonCommand
    }

    fn encode(&self) -> (s: String) {
        String::from_str("AT+CGACT?\r")
    }

    fn default_timeout() -> (t: Option<Duration>) {
        None
    }
}

#[derive(Clone, Copy, Debug, PartialEq, Eq)]
pub struct CGact {
    pub cid: u8,
    pub state: CnactMode,
}

impl View for CGact {
    type V = CGact;

    open spec fn view(&self) -> CGact {
        *self
    }
}

impl AtRequest for CGact {
    type Response = (Vec<CGact>, GenericOk);

    open spec fn spec_encode(&self) -> Seq<char> {
        "AT+CGACT="@ + decimal(self.cid as nat) + ","@ + decimal(self.state.value() as nat) + "\r"@
    }

    open spec fn spec_request_type() -> RequestType {
        RequestType::NonCommand
    }

    fn request_type() -> (t: RequestType) {
        RequestType::NonCommand
    }

    fn encode(&self) -> (s: String) {
        let mut s = String::new();
        s.append("AT+CGACT=");
        push_decimal(&mut s, self.cid as u64);
        s.append(",");
        push_decimal(&mut s, self.state.value() as u64);
        s.append("\r");
        s
    }

    fn default_timeout() -> (t: Option<Duration>) {
        None
    }
}

/// `+CGACT:<cid>,<state>[,...]`: further arguments are ignored; a missing
/// state reads as deactivated.
pub open spec fn spec_cgact(line: Seq<char>) -> Result<CGact, AtParseErr> {
    match strip_prefix(line, "+CGACT:"@) {
        None => Err(AtParseErr::Mismatch),
        Some(rest) => {
            let q = split(rest, ',');
            match parse_unsigned(trim(q[0]), 10, u8::MAX as nat) {
                None => Err(AtParseErr::Parsing("invalid value")),
                Some(cid) => if q.len() >= 2 {
                    match CnactMode::spec_from_str(trim(q[1])) {
                        Err(_) => Err(AtParseErr::Parsing("invalid value")),
                        Ok(state) => Ok(CGact { cid: cid as u8, state }),
                    }
                } else {
                    Ok(CGact { cid: cid as u8, state: CnactMode::Deactive })
                },
            }
        },
    }
}

impl CGact {
    pub fn from_chars(line: &[char]) -> (r: Result<Self, AtParseErr>)
        ensures
            r == spec_cgact(line@),
    {
        let rest = match strip_prefix_exec(line, "+CGACT:") {
            Some(r) => r,
            None => return Err(AtParseErr::Mismatch),
        };
        let q = split_exec(rest, ',');
        let ghost v = views(q@);
        proof {
            lemma_split_nonempty(rest@, ',');
        }
        assert(forall|i: int| 0 <= i < q@.len() ==> v[i] == (#[trigger] q@[i])@);
        let cid = match parse_u8(trim_exec(q[0])) {
            Some(c) => c,
            None => return Err(AtParseErr::Parsing("invalid value")),
        };
        if q.len() >= 2 {
            match CnactMode::from_chars(trim_exec(q[1])) {
                Err(_) => Err(AtParseErr::Parsing("invalid value")),
                Ok(state) => Ok(CGact { cid, state }),
            }
        } else {
            Ok(CGact { cid, state: CnactMode::Deactive })
        }
    }
}

impl AtParseLine for CGact {
    open spec fn spec_from_line(line: Seq<char>, instant: Instant) -> Result<CGact, AtParseErr> {
        spec_cgact(line)
    }

    fn from_line(line: &str, instant: &Instant) -> (r: Result<Self, AtParseErr>) {
        let v = chars_of(line);
        Self::from_chars(v.as_slice())
    }
}

/// A `+CGACT:` line gives the context id first and its state second; a line with the
/// id alone reports a deactivated context.
pub proof fn law_cgact_arguments(line: Seq<char>)
    requires
        strip_prefix(line, "+CGACT:"@) is Some,
    ensures
        ({
            let q = split(strip_prefix(line, "+CGACT:"@).unwrap(), ',');
            match spec_cgact(line) {
                Ok(c) => {
                    &&& parse_unsigned(trim(q[0]), 10, u8::MAX as nat) == Some(c.cid as nat)
                    &&& q.len() >= 2 ==> CnactMode::spec_from_str(trim(q[1])) == Ok::<
                        CnactMode,
                        AtParseErr,
                    >(c.state)
                    &&& q.len() < 2 ==> c.state == CnactMode::Deactive
                },
                Err(_) => true,
            }
        }),
{
}

} // verus!

//! Application network (PDP context) activation.
use vstd::prelude::*;
use embassy_time::{Duration, Instant};
use super::{int_err, int_err_exec, view_result, AtParseErr, AtParseLine, AtRequest, GenericOk, RequestType};
use crate::out::{decimal, lemma_decimal_reads_back, push_decimal};
use crate::text::{
    chars_of, fits_in_bytes, lemma_splitn_len, parse_u8, parse_unsigned, splitn, splitn_exec,
    string_from_chars,
    strip_prefix, strip_prefix_exec, strip_suffix, strip_suffix_exec, trim, trim_exec, utf8_len,
    views,
};

verus! {

#[derive(Clone, Copy, Debug, PartialEq, Eq)]
pub enum CnactMode {
    Deactive,
    Active,
    AutoActive,
}

impl CnactMode {
    /// The number that stands for this value in commands.
    #[verifier::allow_in_spec]
    pub fn value(&self) -> u8
        returns
            (match self {
                CnactMode::Deactive => 0u8,
                CnactMode::Active => 1u8,
                CnactMode::AutoActive => 2u8,
            }),
    {
        match self {
            CnactMode::Deactive => 0,
            CnactMode::Active => 1,
            CnactMode::AutoActive => 2,
        }
    }

    /// A decimal `u8` that is 0, 1 or 2.
    pub open spec fn spec_from_str(s: Seq<char>) -> Result<CnactMode, AtParseErr> {
        match parse_unsigned(s, 10, u8::MAX as nat) {
            None => Err(int_err()),
            Some(v) => if v == 0 {
                Ok(CnactMode::Deactive)
            } else if v == 1 {
                Ok(CnactMode::Active)
            } else if v == 2 {
                Ok(CnactMode::AutoActive)
            } else {
                Err(AtParseErr::Parsing("unhandled CnactMode value"))
            },
        }
    }

    pub fn from_chars(s: &[char]) -> (r: Result<CnactMode, AtParseErr>)
        ensures
            r == Self::spec_from_str(s@),
    {
        match parse_u8(s) {
            None => Err(int_err_exec()),
            Some(v) => match v {
                0 => Ok(CnactMode::Deactive),
                1 => Ok(CnactMode::Active),
                2 => Ok(CnactMode::AutoActive),
                _ => Err(AtParseErr::Parsing("unhandled CnactMode value")),
            },
        }
    }

    pub fn from_str(s: &str) -> (r: Result<CnactMode, AtParseErr>)
        ensures
            r == Self::spec_from_str(s@),
    {
        let v = chars_of(s);
        Self::from_chars(v.as_slice())
    }
}

/// AT+CNACT=... for SIM7000. The APN is at most 63 bytes.
#[derive(Debug)]
pub struct SetAppNetwork {
    pub mode: CnactMode,
    pub apn: String,
}

impl AtRequest for SetAppNetwork {
    type Response = GenericOk;

    open spec fn spec_encode(&self) -> Seq<char> {
        "AT+CNACT="@ + decimal(self.mode.value() as nat) + ",\""@ + self.apn@ + "\"\r"@
    }

    open spec fn spec_request_type() -> RequestType {
        RequestType::NonCommand
    }

    fn request_type() -> (t: RequestType) {
        RequestType::NonCommand
    }

    fn encode(&self) -> (s: String) {
        let mut s = String::new();
        s.append("AT+CNACT=");
        push_decimal(&mut s, self.mode.value() as u64);
        s.append(",\"");
        s.append(self.apn.as_str());
        s.append("\"\r");
        s
    }

    fn default_timeout() -> (t: Option<Duration>) {
        None
    }
}

/// AT+CNACT=... for PDP. The address is at most 64 bytes.
#[derive(Clone, Debug)]
pub struct CNActPDP {
    pub pdp_index: u8,
    pub mode: CnactMode,
    pub address: Option<String>,
}

pub struct CNActPDPView {
    pub pdp_index: u8,
    pub mode: CnactMode,
    pub address: Option<Seq<char>>,
}

impl View for CNActPDP {
    type V = CNActPDPView;

    open spec fn view(&self) -> CNActPDPView {
        CNActPDPView {
            pdp_index: self.pdp_index,
            mode: self.mode,
            address: match self.address {
                Some(a) => Some(a@),
                None => None,
            },
        }
    }
}

#[derive(Debug)]
pub struct SetAppNetworkPDP(pub CNActPDP);

impl AtRequest for SetAppNetworkPDP {
    type Response = GenericOk;

    open spec fn spec_encode(&self) -> Seq<char> {
        "AT+CNACT="@ + decimal(self.0.pdp_index as nat) + ","@ + decimal(self.0.mode.value() as nat)
            + match self.0.address {
            Some(a) => ",\""@ + a@ + "\""@,
            None => ""@,
        } + "\r"@
    }

    open spec fn spec_request_type() -> RequestType {
        RequestType::NonCommand
    }

    fn request_type() -> (t: RequestType) {
        RequestType::NonCommand
    }

    fn encode(&self) -> (s: String) {
        let mut s = String::new();
        s.append("AT+CNACT=");
        push_decimal(&mut s, self.0.pdp_index as u64);
        s.append(",");
        push_decimal(&mut s, self.0.mode.value() as u64);
        match &self.0.address {
            Some(a) => {
                s.append(",\"");
                s.append(a.as_str());
                s.append("\"");
            },
            None => {
                proof {
                    reveal_strlit("");
                    assert(s@ + ""@ =~= s@);
                }
            },
        }
        s.append("\r");
        s
    }

    fn default_timeout() -> (t: Option<Duration>) {
        None
    }
}

/// AT+CNACT?
#[derive(Debug)]
pub struct GetAppNetworkPDP;

impl AtRequest for GetAppNetworkPDP {
    type Response = (Vec<CNActPDP>, GenericOk);

    open spec fn spec_encode(&self) -> Seq<char> {
        "AT+CNACT?\r"@
    }

    open spec fn spec_request_type() -> RequestType {
        RequestType::NonCommand
    }

    fn request_type() -> (t: RequestType) {
        RequestType::NonCommand
    }

    fn encode(&self) -> (s: String) {
        String::from_str("AT+CNACT?\r")
    }

    fn default_timeout() -> (t: Option<Duration>) {
        None
    }
}

/// `+CNACT:<pdp index>,<mode>,"<address>"`
pub open spec fn spec_cnact_pdp(line: Seq<char>) -> Result<CNActPDPView, AtParseErr> {
    match strip_prefix(line, "+CNACT:"@) {
        None => Err(AtParseErr::Mismatch),
        Some(rest) => {
            let p = splitn(rest, 3, ',');
            if p.len() < 3 {
                Err(AtParseErr::Parsing("missing arguments"))
            } else {
                match parse_unsigned(trim(p[0]), 10, u8::MAX as nat) {
                    None => Err(AtParseErr::Parsing("invalid value")),
                    Some(pdp_index) => match CnactMode::spec_from_str(trim(p[1])) {
                        Err(_) => Err(AtParseErr::Parsing("invalid value")),
                        Ok(mode) => match strip_prefix(trim(p[2]), "\""@) {
                            None => Err(AtParseErr::Parsing("invalid value")),
                            Some(a) => match strip_suffix(a, "\""@) {
                                None => Err(AtParseErr::Parsing("invalid value")),
                                Some(address) => if utf8_len(address) <= 64 {
                                    Ok(
                                        CNActPDPView {
                                            pdp_index: pdp_index as u8,
                                            mode,
                                            address: Some(address),
                                        },
                                    )
                                } else {
                                    Err(AtParseErr::Parsing("address too long"))
                                },
                            },
                        },
                    },
                }
            }
        },
    }
}

impl CNActPDP {
    pub fn from_chars(line: &[char]) -> (r: Result<Self, AtParseErr>)
        ensures
            view_result(r) == spec_cnact_pdp(line@),
    {
        let rest = match strip_prefix_exec(line, "+CNACT:") {
            Some(r) => r,
            None => return Err(AtParseErr::Mismatch),
        };
        let p = splitn_exec(rest, 3, ',');
        let ghost v = views(p@);
        if p.len() < 3 {
            return Err(AtParseErr::Parsing("missing arguments"));
        }
        assert(forall|i: int| 0 <= i < p@.len() ==> v[i] == (#[trigger] p@[i])@);
        let pdp_index = match parse_u8(trim_exec(p[0])) {
            Some(i) => i,
            None => return Err(AtParseErr::Parsing("invalid value")),
        };
        let mode = match CnactMode::from_chars(trim_exec(p[1])) {
            Ok(m) => m,
            Err(_) => return Err(AtParseErr::Parsing("invalid value")),
        };
        let a = match strip_prefix_exec(trim_exec(p[2]), "\"") {
            Some(a) => a,
            None => return Err(AtParseErr::Parsing("invalid value")),
        };
        let address = match strip_suffix_exec(a, "\"") {
            Some(a) => a,
            None => return Err(AtParseErr::Parsing("invalid value")),
        };
        if !fits_in_bytes(address, 64) {
            return Err(AtParseErr::Parsing("address too long"));
        }
        Ok(CNActPDP { pdp_index, mode, address: Some(string_from_chars(address)) })
    }
}

impl AtParseLine for CNActPDP {
    open spec fn spec_from_line(line: Seq<char>, instant: Instant) -> Result<CNActPDPView, AtParseErr> {
        spec_cnact_pdp(line)
    }

    fn from_line(line: &str, instant: &Instant) -> (r: Result<Self, AtParseErr>) {
        let v = chars_of(line);
        Self::from_chars(v.as_slice())
    }
}


/// The number that a request sends for an activation mode reads back as
/// that mode.
pub proof fn law_cnact_mode_round_trip(m: CnactMode)
    ensures
        CnactMode::spec_from_str(decimal(m.value() as nat)) == Ok::<CnactMode, AtParseErr>(m),
{
    lemma_decimal_reads_back(m.value() as nat);
    assert(decimal(m.value() as nat)[0] != '+');
}

/// A `+CNACT:` line that parses gives the PDP index first, the activation mode second
/// and the quoted address third, the address without its quotes.
pub proof fn law_cnact_arguments(line: Seq<char>)
    requires
        strip_prefix(line, "+CNACT:"@) is Some,
    ensures
        ({
            let p = splitn(strip_prefix(line, "+CNACT:"@).unwrap(), 3, ',');
            match spec_cnact_pdp(line) {
                Ok(c) => {
                    &&& p.len() == 3
                    &&& parse_unsigned(trim(p[0]), 10, u8::MAX as nat) == Some(c.pdp_index as nat)
                    &&& CnactMode::spec_from_str(trim(p[1])) == Ok::<CnactMode, AtParseErr>(c.mode)
                    &&& c.address is Some
                    &&& trim(p[2]) == seq!['"'] + c.address.unwrap() + seq!['"']
                },
                Err(_) => true,
            }
        }),
{
    reveal_strlit("\"");
    let rest = strip_prefix(line, "+CNACT:"@).unwrap();
    lemma_splitn_len(rest, 3, ',');
    let p = splitn(rest, 3, ',');
    if let Ok(c) = spec_cnact_pdp(line) {
        let t = trim(p[2]);
        let a = strip_prefix(t, "\""@).unwrap();
        let addr = strip_suffix(a, "\""@).unwrap();
        assert(t.subrange(0, 1) == "\""@);
        assert(t[0] == t.subrange(0, 1)[0]);
        assert(t =~= seq!['"'] + a);
        assert(a.subrange(a.len() - 1, a.len() as int) == "\""@);
        assert(a[a.len() - 1] == a.subrange(a.len() - 1, a.len() as int)[0]);
        assert(a =~= addr + seq!['"']);
    }
}

} // verus!

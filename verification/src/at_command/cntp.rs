//! Network time synchronisation.
use vstd::prelude::*;
use embassy_time::{Duration, Instant};
use super::{AtParseErr, AtParseLine, AtRequest, GenericOk, RequestType};
use super::cclk::{FromCclkStr, UtcDateTime};
use crate::out::{decimal, digit_char, push_decimal};
use crate::text::{chars_of, eq_str, split_once, split_once_exec, strip_circumfix, strip_circumfix_exec, strip_prefix, strip_prefix_exec, trim, trim_exec};

verus! {

/// AT+CNTP=... The server name is at most 64 bytes.
#[derive(Debug)]
pub struct SynchronizeNetworkTime {
    pub ntp_server: String,
    pub timezone: u16,
    pub cid: u8,
}

/// AT+CNTP
#[derive(Debug)]
pub struct Execute;

impl AtRequest for SynchronizeNetworkTime {
    type Response = GenericOk;

    open spec fn spec_encode(&self) -> Seq<char> {
        "AT+CNTP=\""@ + self.ntp_server@ + "\","@ + decimal(self.timezone as nat) + ","@ + decimal(self.cid as nat) + "\r"@
    }

    open spec fn spec_request_type() -> RequestType {
        RequestType::NonCommand
    }

    fn request_type() -> (t: RequestType) {
        RequestType::NonCommand
    }

    fn encode(&self) -> (s: String) {
        let mut s = String::new();
        s.append("AT+CNTP=\"");
        s.append(self.ntp_server.as_str());
        s.append("\",");
        push_decimal(&mut s, self.timezone as u64);
        s.append(",");
        push_decimal(&mut s, self.cid as u64);
        s.append("\r");
        s
    }

    fn default_timeout() -> (t: Option<Duration>) {
        None
    }
}

impl AtRequest for Execute {
    type Response = (GenericOk, NetworkTime);

    open spec fn spec_encode(&self) -> Seq<char> {
        "AT+CNTP\r"@
    }

    open spec fn spec_request_type() -> RequestType {
        RequestType::NonCommand
    }

    fn request_type() -> (t: RequestType) {
        RequestType::NonCommand
    }

    fn encode(&self) -> (s: String) {
        let mut s = String::new();
        s.append("AT+CNTP\r");
        s
    }

    fn default_timeout() -> (t: Option<Duration>) {
        None
    }
}

#[derive(Clone, Copy, Debug, PartialEq, Eq)]
pub enum SyncNtpStatusCode {
    Success,
    NetworkError,
    DnsResolutionError,
    ConnectionError,
    ServiceResponseError,
    ServiceResponseTimeout,
}

impl SyncNtpStatusCode {
    /// The number that stands for this value in commands.
    #[verifier::allow_in_spec]
    pub fn value(&self) -> u8
        returns
            (match self {
                SyncNtpStatusCode::Success => 1u8,
                SyncNtpStatusCode::NetworkError => 61u8,
                SyncNtpStatusCode::DnsResolutionError => 62u8,
                SyncNtpStatusCode::ConnectionError => 63u8,
                SyncNtpStatusCode::ServiceResponseError => 64u8,
                SyncNtpStatusCode::ServiceResponseTimeout => 65u8,
            }),
    {
        match self {
            SyncNtpStatusCode::Success => 1,
            SyncNtpStatusCode::NetworkError => 61,
            SyncNtpStatusCode::DnsResolutionError => 62,
            SyncNtpStatusCode::ConnectionError => 63,
            SyncNtpStatusCode::ServiceResponseError => 64,
            SyncNtpStatusCode::ServiceResponseTimeout => 65,
        }
    }
}

#[derive(Clone, Copy, Debug)]
pub struct NetworkTime {
    pub time: Option<UtcDateTime>,
    pub instant: Instant,
    pub code: SyncNtpStatusCode,
}

impl View for NetworkTime {
    type V = NetworkTime;

    open spec fn view(&self) -> NetworkTime {
        *self
    }
}

pub open spec fn spec_ntp_code(s: Seq<char>) -> Option<SyncNtpStatusCode> {
    if s == "1"@ {
        Some(SyncNtpStatusCode::Success)
    } else if s == "61"@ {
        Some(SyncNtpStatusCode::NetworkError)
    } else if s == "62"@ {
        Some(SyncNtpStatusCode::DnsResolutionError)
    } else if s == "63"@ {
        Some(SyncNtpStatusCode::ConnectionError)
    } else if s == "64"@ {
        Some(SyncNtpStatusCode::ServiceResponseError)
    } else if s == "65"@ {
        Some(SyncNtpStatusCode::ServiceResponseTimeout)
    } else {
        None
    }
}

fn ntp_code(s: &[char]) -> (r: Option<SyncNtpStatusCode>)
    ensures
        r == spec_ntp_code(s@),
{
    if eq_str(s, "1") {
        Some(SyncNtpStatusCode::Success)
    } else if eq_str(s, "61") {
        Some(SyncNtpStatusCode::NetworkError)
    } else if eq_str(s, "62") {
        Some(SyncNtpStatusCode::DnsResolutionError)
    } else if eq_str(s, "63") {
        Some(SyncNtpStatusCode::ConnectionError)
    } else if eq_str(s, "64") {
        Some(SyncNtpStatusCode::ServiceResponseError)
    } else if eq_str(s, "65") {
        Some(SyncNtpStatusCode::ServiceResponseTimeout)
    } else {
        None
    }
}

/// The time of a `+CNTP` line, where the quoted text reads as a CCLK
/// date-time.
pub open spec fn spec_ntp_time(quoted: Seq<char>) -> Option<UtcDateTime> {
    match UtcDateTime::spec_from_cclk(quoted) {
        Ok((d, _)) => Some(d),
        Err(_) => None,
    }
}

/// `+CNTP: <code>[,"<time>"]`, received at `instant`.
pub open spec fn spec_network_time(line: Seq<char>, instant: Instant) -> Result<NetworkTime, AtParseErr> {
    match strip_prefix(line, "+CNTP:"@) {
        None => Err(AtParseErr::Mismatch),
        Some(l) => {
            let line = trim(l);
            match split_once(line, ',') {
                Some((code, time)) => match strip_circumfix(time, '"') {
                    None => Err(AtParseErr::Parsing("no quotes around expected time parameter")),
                    Some(quoted) => match spec_ntp_code(code) {
                        None => Err(AtParseErr::Parsing("Unexpected response")),
                        Some(code) => Ok(NetworkTime { time: spec_ntp_time(quoted), instant, code }),
                    },
                },
                None => match spec_ntp_code(line) {
                    None => Err(AtParseErr::Parsing("Unexpected response")),
                    Some(code) => Ok(NetworkTime { time: None, instant, code }),
                },
            }
        },
    }
}

impl NetworkTime {
    /// Reads a `+CNTP:` line received at `instant`.
    pub fn from_line_timestamped(line: &str, instant: Instant) -> (r: Result<Self, AtParseErr>)
        ensures
            r == spec_network_time(line@, instant),
    {
        let v = chars_of(line);
        let l = match strip_prefix_exec(v.as_slice(), "+CNTP:") {
            Some(l) => l,
            None => return Err(AtParseErr::Mismatch),
        };
        let line = trim_exec(l);
        match split_once_exec(line, ',') {
            Some((code, time)) => {
                let quoted = match strip_circumfix_exec(time, '"') {
                    Some(q) => q,
                    None => return Err(AtParseErr::Parsing("no quotes around expected time parameter")),
                };
                let time = match UtcDateTime::from_cclk_chars(quoted) {
                    Ok((d, _)) => Some(d),
                    Err(_) => None,
                };
                match ntp_code(code) {
                    None => Err(AtParseErr::Parsing("Unexpected response")),
                    Some(code) => Ok(NetworkTime { time, instant, code }),
                }
            },
            None => match ntp_code(line) {
                None => Err(AtParseErr::Parsing("Unexpected response")),
                Some(code) => Ok(NetworkTime { time: None, instant, code }),
            },
        }
    }

    /// Reads a `+CNTP:` line, stamped with the time at which it is read.
    pub fn from_line_now(line: &str) -> (r: Result<Self, AtParseErr>)
        ensures
            exists|t: Instant| r == spec_network_time(line@, t),
    {
        Self::from_line_timestamped(line, crate::time::now())
    }
}

impl AtParseLine for NetworkTime {
    open spec fn spec_from_line(line: Seq<char>, instant: Instant) -> Result<NetworkTime, AtParseErr> {
        spec_network_time(line, instant)
    }

    fn from_line(line: &str, instant: &Instant) -> (r: Result<Self, AtParseErr>) {
        Self::from_line_timestamped(line, *instant)
    }
}

/// AT+CLTS=...
#[derive(Debug)]
pub struct EnableLocalTimestamp(pub bool);

impl AtRequest for EnableLocalTimestamp {
    type Response = GenericOk;

    open spec fn spec_encode(&self) -> Seq<char> {
        if self.0 {
            "AT+CLTS=1\r"@
        } else {
            "AT+CLTS=0\r"@
        }
    }

    open spec fn spec_request_type() -> RequestType {
        RequestType::NonCommand
    }

    fn request_type() -> (t: RequestType) {
        RequestType::NonCommand
    }

    fn encode(&self) -> (s: String) {
        let mut s = String::new();
        if self.0 {
            s.append("AT+CLTS=1\r");
        } else {
            s.append("AT+CLTS=0\r");
        }
        s
    }

    fn default_timeout() -> (t: Option<Duration>) {
        None
    }
}

/// A status code is read from the decimal text of its number, and from no other
/// text: `1` success, `61` to `65` the network, DNS, connection, response and
/// timeout errors.
pub proof fn law_ntp_code_numbers(s: Seq<char>, code: SyncNtpStatusCode)
    ensures
        spec_ntp_code(s) == Some(code) <==> s == decimal(code.value() as nat),
{
    reveal_strlit("1");
    reveal_strlit("61");
    reveal_strlit("62");
    reveal_strlit("63");
    reveal_strlit("64");
    reveal_strlit("65");
    assert("1"@ != "61"@) by {
        assert("1"@.len() != "61"@.len());
    }
    assert("1"@ != "62"@) by {
        assert("1"@.len() != "62"@.len());
    }
    assert("1"@ != "63"@) by {
        assert("1"@.len() != "63"@.len());
    }
    assert("1"@ != "64"@) by {
        assert("1"@.len() != "64"@.len());
    }
    assert("1"@ != "65"@) by {
        assert("1"@.len() != "65"@.len());
    }
    assert("61"@ != "62"@) by {
        assert("61"@[1] != "62"@[1]);
    }
    assert("61"@ != "63"@) by {
        assert("61"@[1] != "63"@[1]);
    }
    assert("61"@ != "64"@) by {
        assert("61"@[1] != "64"@[1]);
    }
    assert("61"@ != "65"@) by {
        assert("61"@[1] != "65"@[1]);
    }
    assert("62"@ != "63"@) by {
        assert("62"@[1] != "63"@[1]);
    }
    assert("62"@ != "64"@) by {
        assert("62"@[1] != "64"@[1]);
    }
    assert("62"@ != "65"@) by {
        assert("62"@[1] != "65"@[1]);
    }
    assert("63"@ != "64"@) by {
        assert("63"@[1] != "64"@[1]);
    }
    assert("63"@ != "65"@) by {
        assert("63"@[1] != "65"@[1]);
    }
    assert("64"@ != "65"@) by {
        assert("64"@[1] != "65"@[1]);
    }
    assert(decimal(1) =~= "1"@);
    assert(decimal(6) =~= seq!['6']);
    assert(decimal(61) == decimal(6) + seq![digit_char(1)]);
    assert(decimal(61) =~= "61"@);
    assert(decimal(62) == decimal(6) + seq![digit_char(2)]);
    assert(decimal(62) =~= "62"@);
    assert(decimal(63) == decimal(6) + seq![digit_char(3)]);
    assert(decimal(63) =~= "63"@);
    assert(decimal(64) == decimal(6) + seq![digit_char(4)]);
    assert(decimal(64) =~= "64"@);
    assert(decimal(65) == decimal(6) + seq![digit_char(5)]);
    assert(decimal(65) =~= "65"@);
}

/// A `+CNTP:` line that parses is stamped with the instant it was received at and
/// gives the status code first; a time comes only from a quoted second argument.
pub proof fn law_network_time_arguments(line: Seq<char>, instant: Instant)
    requires
        strip_prefix(line, "+CNTP:"@) is Some,
    ensures
        ({
            let l = trim(strip_prefix(line, "+CNTP:"@).unwrap());
            match spec_network_time(line, instant) {
                Ok(nt) => {
                    &&& nt.instant == instant
                    &&& match split_once(l, ',') {
                        Some((code, time)) => {
                            &&& spec_ntp_code(code) == Some(nt.code)
                            &&& strip_circumfix(time, '"') matches Some(q) && nt.time
                                == spec_ntp_time(q)
                        },
                        None => spec_ntp_code(l) == Some(nt.code) && nt.time is None,
                    }
                },
                Err(_) => true,
            }
        }),
{
}

} // verus!

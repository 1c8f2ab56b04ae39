//! GNSS XTRA assistance data.
use vstd::prelude::*;
use embassy_time::{Duration, Instant};
use super::{AtParseErr, AtParseLine, AtRequest, GenericOk, RequestType};
use super::cclk::{datetime_to_utc, to_utc, FromCclkStr, LocalDateTime, UtcDateTime};
use crate::out::{decimal, push_decimal};
use crate::text::{chars_of, eq_str, has_prefix, trim_start, parse_i16, parse_signed, parse_u32, parse_unsigned, splitn, splitn_exec, starts_with, strip_prefix, strip_prefix_exec, trim, trim_exec, views};

verus! {

#[derive(Clone, Copy, Debug, PartialEq, Eq)]
pub enum ToggleXtra {
    Disable,
    Enable,
}

impl ToggleXtra {
    /// The number that stands for this value in commands.
    #[verifier::allow_in_spec]
    pub fn value(&self) -> u8
        returns
            (match self {
                ToggleXtra::Disable => 0u8,
                ToggleXtra::Enable => 1u8,
            }),
    {
        match self {
            ToggleXtra::Disable => 0,
            ToggleXtra::Enable => 1,
        }
    }
}

impl View for ToggleXtra {
    type V = ToggleXtra;

    open spec fn view(&self) -> ToggleXtra {
        *self
    }
}

/// AT+CGNSXTRA=...
#[derive(Debug)]
pub struct GnssXtra(pub ToggleXtra);

impl AtRequest for GnssXtra {
    type Response = GenericOk;

    open spec fn spec_encode(&self) -> Seq<char> {
        "AT+CGNSXTRA="@ + decimal(self.0.value() as nat) + "\r"@
    }

    open spec fn spec_request_type() -> RequestType {
        RequestType::NonCommand
    }

    fn request_type() -> (t: RequestType) {
        RequestType::NonCommand
    }

    fn encode(&self) -> (s: String) {
        let mut s = String::new();
        s.append("AT+CGNSXTRA=");
        push_decimal(&mut s, self.0.value() as u64);
        s.append("\r");
        s
    }

    fn default_timeout() -> (t: Option<Duration>) {
        None
    }
}

/// AT+CGNSXTRA?
#[derive(Debug)]
pub struct GetGnssXtra;

/// AT+CGNSXTRA
#[derive(Debug)]
pub struct ValidateGnssXtra;

impl AtRequest for GetGnssXtra {
    type Response = (ToggleXtra, GenericOk);

    open spec fn spec_encode(&self) -> Seq<char> {
        "AT+CGNSXTRA?\r"@
    }

    open spec fn spec_request_type() -> RequestType {
        RequestType::NonCommand
    }

    fn request_type() -> (t: RequestType) {
        RequestType::NonCommand
    }

    fn encode(&self) -> (s: String) {
        let mut s = String::new();
        s.append("AT+CGNSXTRA?\r");
        s
    }

    fn default_timeout() -> (t: Option<Duration>) {
        None
    }
}

impl AtRequest for ValidateGnssXtra {
    type Response = (GnssXtraInfo, GenericOk);

    open spec fn spec_encode(&self) -> Seq<char> {
        "AT+CGNSXTRA\r"@
    }

    open spec fn spec_request_type() -> RequestType {
        RequestType::NonCommand
    }

    fn request_type() -> (t: RequestType) {
        RequestType::NonCommand
    }

    fn encode(&self) -> (s: String) {
        let mut s = String::new();
        s.append("AT+CGNSXTRA\r");
        s
    }

    fn default_timeout() -> (t: Option<Duration>) {
        None
    }
}

#[derive(Clone, Copy, Debug)]
pub struct GnssXtraInfo {
    pub valid_diff_hours: Option<u8>,
    pub valid_duration_hours: u32,
    pub download_time: UtcDateTime,
}

impl View for GnssXtraInfo {
    type V = GnssXtraInfo;

    open spec fn view(&self) -> GnssXtraInfo {
        *self
    }
}

/// `[+CGNSXTRA: ]<valid diff hours>,<valid duration hours>,<download time>`.
/// Without the prefix a line that does not read is another response's;
/// with it, it is an error of this one (`invalid data`). A negative
/// difference reads as absent, and a positive one keeps its low eight bits.
pub open spec fn spec_xtra_info(line: Seq<char>) -> Result<GnssXtraInfo, AtParseErr> {
    let (body, err) = if has_prefix(line, "+"@) {
        (strip_prefix(line, "+CGNSXTRA:"@), AtParseErr::Parsing("invalid data"))
    } else {
        (Some(line), AtParseErr::Mismatch)
    };
    match body {
        None => Err(AtParseErr::Mismatch),
        Some(body) => {
            let p = splitn(body, 3, ',');
            if p.len() < 3 {
                Err(err)
            } else {
                match parse_signed(p[0], 10, i16::MIN as int, i16::MAX as int) {
                    None => Err(AtParseErr::Parsing("invalid data")),
                    Some(diff) => match parse_unsigned(p[1], 10, u32::MAX as nat) {
                        None => Err(err),
                        Some(duration) => match LocalDateTime::spec_from_cclk(p[2]) {
                            Err(_) => Err(err),
                            Ok((local, _)) => Ok(
                                GnssXtraInfo {
                                    valid_diff_hours: if diff >= 0 {
                                        Some((diff % 256) as u8)
                                    } else {
                                        None
                                    },
                                    valid_duration_hours: duration as u32,
                                    download_time: datetime_to_utc(local),
                                },
                            ),
                        },
                    },
                }
            }
        },
    }
}

impl GnssXtraInfo {
    pub fn from_chars(line: &[char]) -> (r: Result<Self, AtParseErr>)
        ensures
            r == spec_xtra_info(line@),
    {
        let (body, err) = if starts_with(line, "+") {
            (strip_prefix_exec(line, "+CGNSXTRA:"), AtParseErr::Parsing("invalid data"))
        } else {
            (Some(line), AtParseErr::Mismatch)
        };
        let body = match body {
            Some(b) => b,
            None => return Err(AtParseErr::Mismatch),
        };
        let p = splitn_exec(body, 3, ',');
        let ghost v = views(p@);
        if p.len() < 3 {
            return Err(err);
        }
        assert(forall|i: int| 0 <= i < p@.len() ==> v[i] == (#[trigger] p@[i])@);
        let diff = match parse_i16(p[0]) {
            Some(d) => d,
            None => return Err(AtParseErr::Parsing("invalid data")),
        };
        let valid_duration_hours = match parse_u32(p[1]) {
            Some(d) => d,
            None => return Err(err),
        };
        let local = match LocalDateTime::from_cclk_chars(p[2]) {
            Ok((local, _)) => local,
            Err(_) => return Err(err),
        };
        let valid_diff_hours = if diff >= 0 {
            Some((diff % 256) as u8)
        } else {
            None
        };
        Ok(GnssXtraInfo { valid_diff_hours, valid_duration_hours, download_time: to_utc(&local) })
    }
}

impl AtParseLine for GnssXtraInfo {
    open spec fn spec_from_line(line: Seq<char>, instant: Instant) -> Result<GnssXtraInfo, AtParseErr> {
        spec_xtra_info(line)
    }

    fn from_line(line: &str, instant: &Instant) -> (r: Result<Self, AtParseErr>) {
        let v = chars_of(line);
        Self::from_chars(v.as_slice())
    }
}

/// `+CGNSXTRA: <0 or 1>`
pub open spec fn spec_toggle_xtra(line: Seq<char>) -> Result<ToggleXtra, AtParseErr> {
    match strip_prefix(line, "+CGNSXTRA:"@) {
        None => Err(AtParseErr::Mismatch),
        Some(rest) => if trim(rest) == "0"@ {
            Ok(ToggleXtra::Disable)
        } else if trim(rest) == "1"@ {
            Ok(ToggleXtra::Enable)
        } else {
            Err(AtParseErr::Parsing("Invalid response, expected 0, 1"))
        },
    }
}

impl AtParseLine for ToggleXtra {
    open spec fn spec_from_line(line: Seq<char>, instant: Instant) -> Result<ToggleXtra, AtParseErr> {
        spec_toggle_xtra(line)
    }

    fn from_line(line: &str, instant: &Instant) -> (r: Result<Self, AtParseErr>) {
        let v = chars_of(line);
        let rest = match strip_prefix_exec(v.as_slice(), "+CGNSXTRA:") {
            Some(r) => trim_exec(r),
            None => return Err(AtParseErr::Mismatch),
        };
        if eq_str(rest, "0") {
            Ok(ToggleXtra::Disable)
        } else if eq_str(rest, "1") {
            Ok(ToggleXtra::Enable)
        } else {
            Err(AtParseErr::Parsing("Invalid response, expected 0, 1"))
        }
    }
}


/// The number that [GnssXtra] sends for a setting, reported back after
/// `+CGNSXTRA: `, reads as that setting.
pub proof fn law_toggle_xtra_round_trip(t: ToggleXtra)
    ensures
        spec_toggle_xtra("+CGNSXTRA: "@ + decimal(t.value() as nat)) == Ok::<ToggleXtra, AtParseErr>(
            t,
        ),
{
    reveal_strlit("+CGNSXTRA: ");
    reveal_strlit("+CGNSXTRA:");
    reveal_strlit("0");
    reveal_strlit("1");
    let d = decimal(t.value() as nat);
    let line = "+CGNSXTRA: "@ + d;
    assert(d =~= seq![if t.value() == 0 { '0' } else { '1' }]);
    assert(line.subrange(0, 10) =~= "+CGNSXTRA:"@);
    let rest = line.subrange(10, line.len() as int);
    assert(rest =~= seq![' '] + d);
    assert(rest.drop_first() =~= d);
    assert(trim_start(d) == d);
    assert(rest[0] == ' ');
    assert(trim_start(rest) == trim_start(rest.drop_first()));
    assert(trim_start(rest) == d);
    assert(trim(rest) == d);
    assert(decimal(0) =~= "0"@);
    assert(decimal(1) =~= "1"@);
    assert("0"@[0] != "1"@[0]);
}

} // verus!

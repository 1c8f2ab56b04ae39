//! Base-station location.
use vstd::prelude::*;
use embassy_time::{Duration, Instant};
use super::{int_err, int_err_exec, view_result, AtParseErr, AtParseLine, AtRequest, CommandGroup, GenericOk, RequestType};
use super::cclk::{FromCclkStr, UtcDateTime};
use crate::numeral::{float_syntax, is_float_syntax};
use crate::out::{decimal, digit_char, push_decimal};
use crate::text::{
    chars_of, eq_str, parse_u32, parse_unsigned, split_once, split_once_exec, splitn, splitn_exec,
    string_from_chars, strip_prefix, strip_prefix_exec, trim, trim_exec, views,
};

verus! {

/// AT+CLBS Base-station Location
///
/// Accesses a web service provided by SIMCOM to
/// to determine a location for the receiver based
/// on the connected cell base station info.
#[derive(Debug)]
pub enum BaseStationLocation {
    CellInfo { cid: u8 },
    RetrieveAll { cid: u8 },
}

impl AtRequest for BaseStationLocation {
    type Response = (LocationInfoResult, GenericOk);

    open spec fn spec_encode(&self) -> Seq<char> {
        match self {
            BaseStationLocation::CellInfo { cid } => "+CLBS=1,"@ + decimal(*cid as nat),
            BaseStationLocation::RetrieveAll { cid } => "+CLBS=4,"@ + decimal(*cid as nat),
        }
    }

    open spec fn spec_request_type() -> RequestType {
        RequestType::Command(CommandGroup::Extended)
    }

    fn request_type() -> (t: RequestType) {
        RequestType::Command(CommandGroup::Extended)
    }

    fn encode(&self) -> (s: String) {
        let mut s = String::new();
        match self {
            BaseStationLocation::CellInfo { cid } => {
                s.append("+CLBS=1,");
                push_decimal(&mut s, *cid as u64);
            },
            BaseStationLocation::RetrieveAll { cid } => {
                s.append("+CLBS=4,");
                push_decimal(&mut s, *cid as u64);
            },
        }
        s
    }

    fn default_timeout() -> (t: Option<Duration>) {
        None
    }
}

/// Error codes reported in reponse to
/// regular queries.
#[derive(Debug, Clone, Copy, PartialEq, Eq)]
pub enum ErrorCode {
    LocationFailed,
    TimeOut,
    NetError,
    DnsError,
    ServiceOverdue,
    AuthenticateFailed,
    OtherError,
}

impl ErrorCode {
    /// The number that stands for this value in commands.
    #[verifier::allow_in_spec]
    pub fn value(&self) -> u8
        returns
            (match self {
                ErrorCode::LocationFailed => 1u8,
                ErrorCode::TimeOut => 2u8,
                ErrorCode::NetError => 3u8,
                ErrorCode::DnsError => 4u8,
                ErrorCode::ServiceOverdue => 5u8,
                ErrorCode::AuthenticateFailed => 6u8,
                ErrorCode::OtherError => 7u8,
            }),
    {
        match self {
            ErrorCode::LocationFailed => 1,
            ErrorCode::TimeOut => 2,
            ErrorCode::NetError => 3,
            ErrorCode::DnsError => 4,
            ErrorCode::ServiceOverdue => 5,
            ErrorCode::AuthenticateFailed => 6,
            ErrorCode::OtherError => 7,
        }
    }
}

/// Error codes used when interracting
/// with the paid service.
#[derive(Debug, Clone, Copy, PartialEq, Eq)]
pub enum ReportErrorCode {
    /// Error in lon/lat reported to server.
    ParameterError,
    /// Failed to report lon/lat to server.
    ServerFailed,
}

impl ReportErrorCode {
    /// The number that stands for this value in commands.
    #[verifier::allow_in_spec]
    pub fn value(&self) -> u8
        returns
            (match self {
                ReportErrorCode::ParameterError => 81u8,
                ReportErrorCode::ServerFailed => 82u8,
            }),
    {
        match self {
            ReportErrorCode::ParameterError => 81,
            ReportErrorCode::ServerFailed => 82,
        }
    }
}

/// A location; latitude and longitude are kept as their text, each a
/// numeral.
#[derive(Debug, Clone, PartialEq)]
pub struct LocationInfo {
    pub latitude: String,
    pub longitude: String,
    pub accuracy: u32,
}

pub struct LocationInfoView {
    pub latitude: Seq<char>,
    pub longitude: Seq<char>,
    pub accuracy: u32,
}

impl View for LocationInfo {
    type V = LocationInfoView;

    open spec fn view(&self) -> LocationInfoView {
        LocationInfoView {
            latitude: self.latitude@,
            longitude: self.longitude@,
            accuracy: self.accuracy,
        }
    }
}

impl Default for LocationInfo {
    /// Latitude and longitude `0`, accuracy 0.
    fn default() -> (l: Self)
        ensures
            l.latitude@ == "0"@,
            l.longitude@ == "0"@,
            l.accuracy == 0,
    {
        LocationInfo {
            latitude: String::from_str("0"),
            longitude: String::from_str("0"),
            accuracy: 0,
        }
    }
}

#[derive(Debug, Clone, PartialEq)]
pub enum LocationInfoResult {
    Location(LocationInfo),
    Full { location: LocationInfo, date_time: UtcDateTime, instant: Instant },
    ReportOk,
    Error(ErrorCode),
    ReportError(ReportErrorCode),
}

pub enum LocationInfoResultView {
    Location(LocationInfoView),
    Full { location: LocationInfoView, date_time: UtcDateTime, instant: Instant },
    ReportOk,
    Error(ErrorCode),
    ReportError(ReportErrorCode),
}

impl View for LocationInfoResult {
    type V = LocationInfoResultView;

    open spec fn view(&self) -> LocationInfoResultView {
        match self {
            LocationInfoResult::Location(l) => LocationInfoResultView::Location(l@),
            LocationInfoResult::Full { location, date_time, instant } => LocationInfoResultView::Full {
                location: location@,
                date_time: *date_time,
                instant: *instant,
            },
            LocationInfoResult::ReportOk => LocationInfoResultView::ReportOk,
            LocationInfoResult::Error(e) => LocationInfoResultView::Error(*e),
            LocationInfoResult::ReportError(e) => LocationInfoResultView::ReportError(*e),
        }
    }
}

/// The result code that opens a +CLBS line.
pub enum ResultCode {
    Success,
    Error(ErrorCode),
    ReportSuccess,
    ReportError(ReportErrorCode),
}

pub open spec fn spec_result_code(s: Seq<char>) -> Option<ResultCode> {
    if s == "0"@ {
        Some(ResultCode::Success)
    } else if s == "1"@ {
        Some(ResultCode::Error(ErrorCode::LocationFailed))
    } else if s == "2"@ {
        Some(ResultCode::Error(ErrorCode::TimeOut))
    } else if s == "3"@ {
        Some(ResultCode::Error(ErrorCode::NetError))
    } else if s == "4"@ {
        Some(ResultCode::Error(ErrorCode::DnsError))
    } else if s == "5"@ {
        Some(ResultCode::Error(ErrorCode::ServiceOverdue))
    } else if s == "6"@ {
        Some(ResultCode::Error(ErrorCode::AuthenticateFailed))
    } else if s == "7"@ {
        Some(ResultCode::Error(ErrorCode::OtherError))
    } else if s == "80"@ {
        Some(ResultCode::ReportSuccess)
    } else if s == "81"@ {
        Some(ResultCode::ReportError(ReportErrorCode::ParameterError))
    } else if s == "82"@ {
        Some(ResultCode::ReportError(ReportErrorCode::ServerFailed))
    } else {
        None
    }
}

fn result_code(s: &[char]) -> (r: Option<ResultCode>)
    ensures
        r == spec_result_code(s@),
{
    if eq_str(s, "0") {
        Some(ResultCode::Success)
    } else if eq_str(s, "1") {
        Some(ResultCode::Error(ErrorCode::LocationFailed))
    } else if eq_str(s, "2") {
        Some(ResultCode::Error(ErrorCode::TimeOut))
    } else if eq_str(s, "3") {
        Some(ResultCode::Error(ErrorCode::NetError))
    } else if eq_str(s, "4") {
        Some(ResultCode::Error(ErrorCode::DnsError))
    } else if eq_str(s, "5") {
        Some(ResultCode::Error(ErrorCode::ServiceOverdue))
    } else if eq_str(s, "6") {
        Some(ResultCode::Error(ErrorCode::AuthenticateFailed))
    } else if eq_str(s, "7") {
        Some(ResultCode::Error(ErrorCode::OtherError))
    } else if eq_str(s, "80") {
        Some(ResultCode::ReportSuccess)
    } else if eq_str(s, "81") {
        Some(ResultCode::ReportError(ReportErrorCode::ParameterError))
    } else if eq_str(s, "82") {
        Some(ResultCode::ReportError(ReportErrorCode::ServerFailed))
    } else {
        None
    }
}

/// The arguments after a success code, `<latitude>,<longitude>,<accuracy>`,
/// optionally followed by `,<date>,<time>`. A date-time that does not read
/// as one is ignored.
pub open spec fn spec_location(rest: Seq<char>, instant: Instant) -> Result<
    LocationInfoResultView,
    AtParseErr,
> {
    let p = splitn(rest, 4, ',');
    if p.len() < 3 {
        Err(AtParseErr::Parsing("Missing arguments"))
    } else if !float_syntax(p[0]) || !float_syntax(p[1]) {
        Err(AtParseErr::Parsing("Failed to parse float"))
    } else {
        match parse_unsigned(p[2], 10, u32::MAX as nat) {
            None => Err(int_err()),
            Some(accuracy) => {
                let location = LocationInfoView {
                    latitude: p[0],
                    longitude: p[1],
                    accuracy: accuracy as u32,
                };
                if p.len() == 4 {
                    match UtcDateTime::spec_from_cclk(p[3]) {
                        Ok((date_time, _)) => Ok(
                            LocationInfoResultView::Full { location, date_time, instant },
                        ),
                        Err(_) => Ok(LocationInfoResultView::Location(location)),
                    }
                } else {
                    Ok(LocationInfoResultView::Location(location))
                }
            },
        }
    }
}

/// `+CLBS: <result code>[,<arguments>]`: an error code may stand alone.
pub open spec fn spec_location_info_result(line: Seq<char>, instant: Instant) -> Result<
    LocationInfoResultView,
    AtParseErr,
> {
    match strip_prefix(line, "+CLBS:"@) {
        None => Err(AtParseErr::Mismatch),
        Some(line) => {
            let (code, rest) = match split_once(line, ',') {
                Some((c, r)) => (c, Some(r)),
                None => (line, None),
            };
            match spec_result_code(trim(code)) {
                None => Err(AtParseErr::Parsing("Failed to parse result code")),
                Some(ResultCode::Error(e)) => Ok(LocationInfoResultView::Error(e)),
                Some(ResultCode::ReportError(e)) => Ok(LocationInfoResultView::ReportError(e)),
                Some(ResultCode::ReportSuccess) => Err(
                    AtParseErr::Parsing("The paid service isn't supported by this crate yet."),
                ),
                Some(ResultCode::Success) => match rest {
                    None => Err(AtParseErr::Parsing("Missing ','")),
                    Some(rest) => spec_location(rest, instant),
                },
            }
        },
    }
}

fn location(rest: &[char], instant: Instant) -> (r: Result<LocationInfoResult, AtParseErr>)
    ensures
        view_result(r) == spec_location(rest@, instant),
{
    let p = splitn_exec(rest, 4, ',');
    let ghost v = views(p@);
    if p.len() < 3 {
        return Err(AtParseErr::Parsing("Missing arguments"));
    }
    assert(forall|i: int| 0 <= i < p@.len() ==> v[i] == (#[trigger] p@[i])@);
    if !is_float_syntax(p[0]) || !is_float_syntax(p[1]) {
        return Err(AtParseErr::Parsing("Failed to parse float"));
    }
    let accuracy = match parse_u32(p[2]) {
        Some(a) => a,
        None => return Err(int_err_exec()),
    };
    let location = LocationInfo {
        latitude: string_from_chars(p[0]),
        longitude: string_from_chars(p[1]),
        accuracy,
    };
    if p.len() == 4 {
        match UtcDateTime::from_cclk_chars(p[3]) {
            Ok((date_time, _)) => Ok(LocationInfoResult::Full { location, date_time, instant }),
            Err(_) => Ok(LocationInfoResult::Location(location)),
        }
    } else {
        Ok(LocationInfoResult::Location(location))
    }
}

impl LocationInfoResult {
    pub fn from_chars(line: &[char], instant: Instant) -> (r: Result<Self, AtParseErr>)
        ensures
            view_result(r) == spec_location_info_result(line@, instant),
    {
        let line = match strip_prefix_exec(line, "+CLBS:") {
            Some(l) => l,
            None => return Err(AtParseErr::Mismatch),
        };
        let (code, rest) = match split_once_exec(line, ',') {
            Some((c, r)) => (c, Some(r)),
            None => (line, None),
        };
        match result_code(trim_exec(code)) {
            None => Err(AtParseErr::Parsing("Failed to parse result code")),
            Some(ResultCode::Error(e)) => Ok(LocationInfoResult::Error(e)),
            Some(ResultCode::ReportError(e)) => Ok(LocationInfoResult::ReportError(e)),
            Some(ResultCode::ReportSuccess) => Err(
                AtParseErr::Parsing("The paid service isn't supported by this crate yet."),
            ),
            Some(ResultCode::Success) => match rest {
                None => Err(AtParseErr::Parsing("Missing ','")),
                Some(rest) => location(rest, instant),
            },
        }
    }
}

impl AtParseLine for LocationInfoResult {
    open spec fn spec_from_line(line: Seq<char>, instant: Instant) -> Result<
        LocationInfoResultView,
        AtParseErr,
    > {
        spec_location_info_result(line, instant)
    }

    fn from_line(line: &str, instant: &Instant) -> (r: Result<Self, AtParseErr>) {
        let v = chars_of(line);
        Self::from_chars(v.as_slice(), *instant)
    }
}

/// The code that opens a `+CLBS:` line: `0` success, `80` report success, and each
/// error by the decimal text of its number; no other text reads as a code.
pub proof fn law_result_code_numbers(s: Seq<char>, e: ErrorCode, r: ReportErrorCode)
    ensures
        spec_result_code(s) matches Some(ResultCode::Success) <==> s == "0"@,
        spec_result_code(s) matches Some(ResultCode::ReportSuccess) <==> s == "80"@,
        spec_result_code(s) == Some(ResultCode::Error(e)) <==> s == decimal(e.value() as nat),
        spec_result_code(s) == Some(ResultCode::ReportError(r)) <==> s == decimal(
            r.value() as nat,
        ),
{
    reveal_strlit("0");
    reveal_strlit("1");
    reveal_strlit("2");
    reveal_strlit("3");
    reveal_strlit("4");
    reveal_strlit("5");
    reveal_strlit("6");
    reveal_strlit("7");
    reveal_strlit("80");
    reveal_strlit("81");
    reveal_strlit("82");
    assert("0"@ != "1"@) by {
        assert("0"@[0] != "1"@[0]);
    }
    assert("0"@ != "2"@) by {
        assert("0"@[0] != "2"@[0]);
    }
    assert("0"@ != "3"@) by {
        assert("0"@[0] != "3"@[0]);
    }
    assert("0"@ != "4"@) by {
        assert("0"@[0] != "4"@[0]);
    }
    assert("0"@ != "5"@) by {
        assert("0"@[0] != "5"@[0]);
    }
    assert("0"@ != "6"@) by {
        assert("0"@[0] != "6"@[0]);
    }
    assert("0"@ != "7"@) by {
        assert("0"@[0] != "7"@[0]);
    }
    assert("0"@ != "80"@) by {
        assert("0"@.len() != "80"@.len());
    }
    assert("0"@ != "81"@) by {
        assert("0"@.len() != "81"@.len());
    }
    assert("0"@ != "82"@) by {
        assert("0"@.len() != "82"@.len());
    }
    assert("1"@ != "2"@) by {
        assert("1"@[0] != "2"@[0]);
    }
    assert("1"@ != "3"@) by {
        assert("1"@[0] != "3"@[0]);
    }
    assert("1"@ != "4"@) by {
        assert("1"@[0] != "4"@[0]);
    }
    assert("1"@ != "5"@) by {
        assert("1"@[0] != "5"@[0]);
    }
    assert("1"@ != "6"@) by {
        assert("1"@[0] != "6"@[0]);
    }
    assert("1"@ != "7"@) by {
        assert("1"@[0] != "7"@[0]);
    }
    assert("1"@ != "80"@) by {
        assert("1"@.len() != "80"@.len());
    }
    assert("1"@ != "81"@) by {
        assert("1"@.len() != "81"@.len());
    }
    assert("1"@ != "82"@) by {
        assert("1"@.len() != "82"@.len());
    }
    assert("2"@ != "3"@) by {
        assert("2"@[0] != "3"@[0]);
    }
    assert("2"@ != "4"@) by {
        assert("2"@[0] != "4"@[0]);
    }
    assert("2"@ != "5"@) by {
        assert("2"@[0] != "5"@[0]);
    }
    assert("2"@ != "6"@) by {
        assert("2"@[0] != "6"@[0]);
    }
    assert("2"@ != "7"@) by {
        assert("2"@[0] != "7"@[0]);
    }
    assert("2"@ != "80"@) by {
        assert("2"@.len() != "80"@.len());
    }
    assert("2"@ != "81"@) by {
        assert("2"@.len() != "81"@.len());
    }
    assert("2"@ != "82"@) by {
        assert("2"@.len() != "82"@.len());
    }
    assert("3"@ != "4"@) by {
        assert("3"@[0] != "4"@[0]);
    }
    assert("3"@ != "5"@) by {
        assert("3"@[0] != "5"@[0]);
    }
    assert("3"@ != "6"@) by {
        assert("3"@[0] != "6"@[0]);
    }
    assert("3"@ != "7"@) by {
        assert("3"@[0] != "7"@[0]);
    }
    assert("3"@ != "80"@) by {
        assert("3"@.len() != "80"@.len());
    }
    assert("3"@ != "81"@) by {
        assert("3"@.len() != "81"@.len());
    }
    assert("3"@ != "82"@) by {
        assert("3"@.len() != "82"@.len());
    }
    assert("4"@ != "5"@) by {
        assert("4"@[0] != "5"@[0]);
    }
    assert("4"@ != "6"@) by {
        assert("4"@[0] != "6"@[0]);
    }
    assert("4"@ != "7"@) by {
        assert("4"@[0] != "7"@[0]);
    }
    assert("4"@ != "80"@) by {
        assert("4"@.len() != "80"@.len());
    }
    assert("4"@ != "81"@) by {
        assert("4"@.len() != "81"@.len());
    }
    assert("4"@ != "82"@) by {
        assert("4"@.len() != "82"@.len());
    }
    assert("5"@ != "6"@) by {
        assert("5"@[0] != "6"@[0]);
    }
    assert("5"@ != "7"@) by {
        assert("5"@[0] != "7"@[0]);
    }
    assert("5"@ != "80"@) by {
        assert("5"@.len() != "80"@.len());
    }
    assert("5"@ != "81"@) by {
        assert("5"@.len() != "81"@.len());
    }
    assert("5"@ != "82"@) by {
        assert("5"@.len() != "82"@.len());
    }
    assert("6"@ != "7"@) by {
        assert("6"@[0] != "7"@[0]);
    }
    assert("6"@ != "80"@) by {
        assert("6"@.len() != "80"@.len());
    }
    assert("6"@ != "81"@) by {
        assert("6"@.len() != "81"@.len());
    }
    assert("6"@ != "82"@) by {
        assert("6"@.len() != "82"@.len());
    }
    assert("7"@ != "80"@) by {
        assert("7"@.len() != "80"@.len());
    }
    assert("7"@ != "81"@) by {
        assert("7"@.len() != "81"@.len());
    }
    assert("7"@ != "82"@) by {
        assert("7"@.len() != "82"@.len());
    }
    assert("80"@ != "81"@) by {
        assert("80"@[1] != "81"@[1]);
    }
    assert("80"@ != "82"@) by {
        assert("80"@[1] != "82"@[1]);
    }
    assert("81"@ != "82"@) by {
        assert("81"@[1] != "82"@[1]);
    }
    assert(decimal(1) =~= "1"@);
    assert(decimal(2) =~= "2"@);
    assert(decimal(3) =~= "3"@);
    assert(decimal(4) =~= "4"@);
    assert(decimal(5) =~= "5"@);
    assert(decimal(6) =~= "6"@);
    assert(decimal(7) =~= "7"@);
    assert(decimal(8) =~= seq!['8']);
    assert(decimal(81) == decimal(8) + seq![digit_char(1)]);
    assert(decimal(81) =~= "81"@);
    assert(decimal(82) == decimal(8) + seq![digit_char(2)]);
    assert(decimal(82) =~= "82"@);
}

/// A location that parses is read from the documented arguments after the success
/// code: `<latitude>,<longitude>,<accuracy>`, each of the first two a numeral; a fourth
/// argument that reads as a date-time stamps it with the instant it was received at.
pub proof fn law_location_by_position(rest: Seq<char>, instant: Instant)
    ensures
        ({
            let p = splitn(rest, 4, ',');
            let position_holds = |l: LocationInfoView|
                {
                    &&& p.len() >= 3
                    &&& l.latitude == p[0]
                    &&& l.longitude == p[1]
                    &&& float_syntax(p[0]) && float_syntax(p[1])
                    &&& parse_unsigned(p[2], 10, u32::MAX as nat) == Some(l.accuracy as nat)
                };
            match spec_location(rest, instant) {
                Ok(LocationInfoResultView::Location(l)) => position_holds(l),
                Ok(LocationInfoResultView::Full { location, date_time, instant: at }) => {
                    &&& position_holds(location)
                    &&& at == instant
                    &&& p.len() == 4
                },
                Ok(_) => false,
                Err(_) => true,
            }
        }),
{
}

} // verus!

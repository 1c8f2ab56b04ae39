//! GNSS navigation information.
use vstd::prelude::*;
use embassy_time::{Duration, Instant};
use super::{int_err, int_err_exec, view_result, AtParseErr, AtParseLine, AtRequest, GenericOk, RequestType};
use super::cclk::{parse_18char_chars, spec_parse_18char_str, UtcDateTime};
use crate::numeral::{float_syntax, is_float_syntax, real_field, spec_real_field, view_real};
use crate::text::{
    chars_of, eq_str, parse_u32, parse_u8, parse_unsigned, splitn, splitn_exec, string_from_chars,
    strip_prefix, strip_prefix_exec, trim, trim_exec, trim_start, trim_start_exec, views,
};

verus! {

/// `str::parse::<u8>()`, as an option.
pub open spec fn spec_u8(s: Seq<char>) -> Option<u8> {
    match parse_unsigned(s, 10, u8::MAX as nat) {
        Some(v) => Some(v as u8),
        None => None,
    }
}

/// `str::parse::<u32>()`, as an option.
pub open spec fn spec_u32(s: Seq<char>) -> Option<u32> {
    match parse_unsigned(s, 10, u32::MAX as nat) {
        Some(v) => Some(v as u32),
        None => None,
    }
}

/// AT+CGNSINF response. Real-number fields are kept as their text.
#[derive(Clone, PartialEq, Debug)]
pub struct NavInfo {
    pub utc: Option<UtcDateTime>,
    pub latitude: Option<String>,
    pub longitude: Option<String>,
    pub altitude: String,
    pub speed_over_ground: Option<String>,
    pub course_over_ground: Option<String>,
    pub fix_mode: u32,
    pub hdop: Option<String>,
    pub pdop: Option<String>,
    pub vdop: Option<String>,
    pub hpa: Option<String>,
    pub vpa: Option<String>,
    pub satellites_in_view: u8,
}

/// A [NavInfo] with its text fields as character sequences.
pub struct NavInfoView {
    pub utc: Option<UtcDateTime>,
    pub latitude: Option<Seq<char>>,
    pub longitude: Option<Seq<char>>,
    pub altitude: Seq<char>,
    pub speed_over_ground: Option<Seq<char>>,
    pub course_over_ground: Option<Seq<char>>,
    pub fix_mode: u32,
    pub hdop: Option<Seq<char>>,
    pub pdop: Option<Seq<char>>,
    pub vdop: Option<Seq<char>>,
    pub hpa: Option<Seq<char>>,
    pub vpa: Option<Seq<char>>,
    pub satellites_in_view: u8,
}

impl View for NavInfo {
    type V = NavInfoView;

    open spec fn view(&self) -> NavInfoView {
        NavInfoView {
            utc: self.utc,
            latitude: view_real(self.latitude),
            longitude: view_real(self.longitude),
            altitude: self.altitude@,
            speed_over_ground: view_real(self.speed_over_ground),
            course_over_ground: view_real(self.course_over_ground),
            fix_mode: self.fix_mode,
            hdop: view_real(self.hdop),
            pdop: view_real(self.pdop),
            vdop: view_real(self.vdop),
            hpa: view_real(self.hpa),
            vpa: view_real(self.vpa),
            satellites_in_view: self.satellites_in_view,
        }
    }
}

#[derive(Clone, PartialEq, Debug)]
pub enum GnssReport {
    NotEnabled,
    NoFix { satellites_in_view: Option<u8> },
    Fix { nav_info: NavInfo, instant: Instant },
}

pub enum GnssReportView {
    NotEnabled,
    NoFix { satellites_in_view: Option<u8> },
    Fix { nav_info: NavInfoView, instant: Instant },
}

impl View for GnssReport {
    type V = GnssReportView;

    open spec fn view(&self) -> GnssReportView {
        match self {
            GnssReport::NotEnabled => GnssReportView::NotEnabled,
            GnssReport::NoFix { satellites_in_view } => GnssReportView::NoFix {
                satellites_in_view: *satellites_in_view,
            },
            GnssReport::Fix { nav_info, instant } => GnssReportView::Fix {
                nav_info: nav_info@,
                instant: *instant,
            },
        }
    }
}

/// AT+CGNSINF
#[derive(Debug)]
pub struct GetGnssReport;

impl AtRequest for GetGnssReport {
    type Response = (GnssReport, GenericOk);

    open spec fn spec_encode(&self) -> Seq<char> {
        "AT+CGNSINF\r"@
    }

    open spec fn spec_request_type() -> RequestType {
        RequestType::NonCommand
    }

    fn request_type() -> (t: RequestType) {
        RequestType::NonCommand
    }

    fn encode(&self) -> (s: String) {
        String::from_str("AT+CGNSINF\r")
    }

    fn default_timeout() -> (t: Option<Duration>) {
        None
    }
}

/// The fields of a report with a fix, from the eighteen arguments
/// `<run>,<fix>,<utc>,<lat>,<lon>,<alt>,<speed>,<course>,<fix mode>,,<hdop>,
/// <pdop>,<vdop>,,<satellites in view>,,<hpa>,<vpa>`.
pub open spec fn spec_nav_info(p: Seq<Seq<char>>) -> Result<NavInfoView, AtParseErr> {
    if !float_syntax(p[5]) {
        Err(AtParseErr::Parsing("Failed to parse float"))
    } else {
        match spec_u32(p[8]) {
            None => Err(int_err()),
            Some(fix_mode) => Ok(
                NavInfoView {
                    utc: spec_parse_18char_str(p[2]),
                    latitude: spec_real_field(p[3]),
                    longitude: spec_real_field(p[4]),
                    altitude: p[5],
                    speed_over_ground: spec_real_field(p[6]),
                    course_over_ground: spec_real_field(p[7]),
                    fix_mode,
                    hdop: spec_real_field(p[10]),
                    pdop: spec_real_field(p[11]),
                    vdop: spec_real_field(p[12]),
                    hpa: spec_real_field(p[16]),
                    vpa: spec_real_field(p[17]),
                    satellites_in_view: match spec_u8(p[14]) {
                        Some(n) => n,
                        None => 0,
                    },
                },
            ),
        }
    }
}

/// `+CGNSINF: <eighteen arguments>`, received at `instant`.
pub open spec fn spec_gnss_report(line: Seq<char>, instant: Instant) -> Result<
    GnssReportView,
    AtParseErr,
> {
    match strip_prefix(line, "+CGNSINF:"@) {
        None => Err(AtParseErr::Mismatch),
        Some(rest) => {
            let p = splitn(trim_start(rest), 18, ',');
            if p.len() != 18 {
                Err(AtParseErr::Parsing("missing arguments"))
            } else if trim(p[0]) != "1"@ {
                Ok(GnssReportView::NotEnabled)
            } else if trim(p[1]) != "1"@ {
                Ok(GnssReportView::NoFix { satellites_in_view: spec_u8(p[14]) })
            } else {
                match spec_nav_info(p) {
                    Ok(nav_info) => Ok(GnssReportView::Fix { nav_info, instant }),
                    Err(e) => Err(e),
                }
            }
        },
    }
}

fn nav_info(p: &Vec<&[char]>) -> (r: Result<NavInfo, AtParseErr>)
    requires
        p@.len() == 18,
    ensures
        view_result(r) == spec_nav_info(views(p@)),
{
    let ghost q = views(p@);
    assert(forall|i: int| 0 <= i < 18 ==> q[i] == (#[trigger] p@[i])@);
    if !is_float_syntax(p[5]) {
        return Err(AtParseErr::Parsing("Failed to parse float"));
    }
    let fix_mode = match parse_u32(p[8]) {
        Some(v) => v,
        None => return Err(int_err_exec()),
    };
    let satellites_in_view = match parse_u8(p[14]) {
        Some(n) => n,
        None => 0,
    };
    let nav = NavInfo {
        utc: parse_18char_chars(p[2]),
        latitude: real_field(p[3]),
        longitude: real_field(p[4]),
        altitude: string_from_chars(p[5]),
        speed_over_ground: real_field(p[6]),
        course_over_ground: real_field(p[7]),
        fix_mode,
        hdop: real_field(p[10]),
        pdop: real_field(p[11]),
        vdop: real_field(p[12]),
        hpa: real_field(p[16]),
        vpa: real_field(p[17]),
        satellites_in_view,
    };
    Ok(nav)
}

impl GnssReport {
    /// Reads a `+CGNSINF:` line received at `instant`.
    pub fn from_line_timestamped(line: &str, instant: Instant) -> (r: Result<Self, AtParseErr>)
        ensures
            view_result(r) == spec_gnss_report(line@, instant),
    {
        let v = chars_of(line);
        let rest = match strip_prefix_exec(v.as_slice(), "+CGNSINF:") {
            Some(r) => r,
            None => return Err(AtParseErr::Mismatch),
        };
        let p = splitn_exec(trim_start_exec(rest), 18, ',');
        let ghost q = views(p@);
        if p.len() != 18 {
            return Err(AtParseErr::Parsing("missing arguments"));
        }
        assert(forall|i: int| 0 <= i < 18 ==> q[i] == (#[trigger] p@[i])@);
        if !eq_str(trim_exec(p[0]), "1") {
            Ok(GnssReport::NotEnabled)
        } else if !eq_str(trim_exec(p[1]), "1") {
            let satellites_in_view = match parse_u8(p[14]) {
                Some(n) => Some(n),
                None => None,
            };
            Ok(GnssReport::NoFix { satellites_in_view })
        } else {
            let nav_info = nav_info(&p)?;
            Ok(GnssReport::Fix { nav_info, instant })
        }
    }

    /// Reads a `+CGNSINF:` line, stamped with the time at which it is read.
    pub fn from_line_now(line: &str) -> (r: Result<Self, AtParseErr>)
        ensures
            exists|t: Instant| view_result(r) == spec_gnss_report(line@, t),
    {
        Self::from_line_timestamped(line, crate::time::now())
    }
}

impl AtParseLine for GnssReport {
    open spec fn spec_from_line(line: Seq<char>, instant: Instant) -> Result<
        GnssReportView,
        AtParseErr,
    > {
        spec_gnss_report(line, instant)
    }

    fn from_line(line: &str, instant: &Instant) -> (r: Result<Self, AtParseErr>) {
        Self::from_line_timestamped(line, *instant)
    }
}

/// The arguments of a `+CGNSINF:` line, split at the first seventeen commas.
pub open spec fn report_arguments(line: Seq<char>) -> Seq<Seq<char>> {
    match strip_prefix(line, "+CGNSINF:"@) {
        Some(rest) => splitn(trim_start(rest), 18, ','),
        None => Seq::empty(),
    }
}

/// A report with a fix carries the instant it was received at, and each of its fields
/// is read from its documented argument: `<run>,<fix>,<utc>,<latitude>,<longitude>,
/// <altitude>,<speed>,<course>,<fix mode>,,<HDOP>,<PDOP>,<VDOP>,,<satellites in view>,,
/// <HPA>,<VPA>`. A line gives a fix exactly when its run and fix status are both `1`,
/// its altitude is a numeral and its fix mode a `u32`.
pub proof fn law_fix_fields_by_position(line: Seq<char>, instant: Instant)
    requires
        strip_prefix(line, "+CGNSINF:"@) is Some,
    ensures
        ({
            let p = report_arguments(line);
            match spec_gnss_report(line, instant) {
                Ok(GnssReportView::Fix { nav_info, instant: at }) => {
                    &&& at == instant
                    &&& p.len() == 18
                    &&& trim(p[0]) == "1"@
                    &&& trim(p[1]) == "1"@
                    &&& nav_info.utc == spec_parse_18char_str(p[2])
                    &&& nav_info.latitude == spec_real_field(p[3])
                    &&& nav_info.longitude == spec_real_field(p[4])
                    &&& nav_info.altitude == p[5]
                    &&& float_syntax(p[5])
                    &&& nav_info.speed_over_ground == spec_real_field(p[6])
                    &&& nav_info.course_over_ground == spec_real_field(p[7])
                    &&& parse_unsigned(p[8], 10, u32::MAX as nat) == Some(nav_info.fix_mode as nat)
                    &&& nav_info.hdop == spec_real_field(p[10])
                    &&& nav_info.pdop == spec_real_field(p[11])
                    &&& nav_info.vdop == spec_real_field(p[12])
                    &&& nav_info.satellites_in_view as nat == match parse_unsigned(
                        p[14],
                        10,
                        u8::MAX as nat,
                    ) {
                        Some(n) => n,
                        None => 0,
                    }
                    &&& nav_info.hpa == spec_real_field(p[16])
                    &&& nav_info.vpa == spec_real_field(p[17])
                },
                _ => !(p.len() == 18 && trim(p[0]) == "1"@ && trim(p[1]) == "1"@ && float_syntax(
                    p[5],
                ) && parse_unsigned(p[8], 10, u32::MAX as nat) is Some),
            }
        }),
{
}

/// A report whose run status (first argument) is not `1` says that GNSS is not
/// enabled; one that runs without a fix (second argument not `1`) gives the satellites
/// in view from the fifteenth argument, where it is a `u8`.
pub proof fn law_report_status(line: Seq<char>, instant: Instant)
    requires
        strip_prefix(line, "+CGNSINF:"@) is Some,
        report_arguments(line).len() == 18,
    ensures
        ({
            let p = report_arguments(line);
            &&& (spec_gnss_report(line, instant) matches Ok(GnssReportView::NotEnabled)) <==> trim(p[0])
                != "1"@
            &&& (spec_gnss_report(line, instant) matches Ok(GnssReportView::NoFix { .. })) <==> (trim(p[0])
                == "1"@ && trim(p[1]) != "1"@)
            &&& spec_gnss_report(line, instant) matches Ok(GnssReportView::NoFix { satellites_in_view })
                ==> satellites_in_view == match parse_unsigned(p[14], 10, u8::MAX as nat) {
                Some(n) => Some(n as u8),
                None => None,
            }
        }),
{
}

} // verus!

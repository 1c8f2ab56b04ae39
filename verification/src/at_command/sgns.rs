//! GNSS configuration and commands, and their results.
use vstd::prelude::*;
use embassy_time::{Duration, Instant};
use super::{int_err, int_err_exec, view_result, AtParseErr, AtParseLine, AtRequest, GenericOk, RequestType, SimError};
use super::cclk::{parse_sgnscmd_chars, spec_parse_sgnscmd_time, spec_timestamp_millis, timestamp_millis, UtcDateTime};
use crate::numeral::{float_syntax, is_float_syntax};
use crate::out::{decimal, lemma_decimal_padded_reads_back, lemma_decimal_reads_back, push_decimal};
use crate::text::{
    chars_of, count_char, count_char_exec, eq_str, is_whitespace, lemma_splitn_len, parse_u32, parse_u8,
    parse_unsigned, split,
    split_exec, splitn, splitn_exec, string_from_chars, strip_prefix, strip_prefix_exec, trim,
    trim_end, trim_exec, trim_start, views,
};
use crate::time::{as_millis, duration_millis};

verus! {

/// Options for NMEA output
#[derive(Clone, Copy, PartialEq, Eq, Debug)]
pub enum NmeaOutputPort {
    Off,
    Usb,
    Uart(UartBaudRate),
}

impl NmeaOutputPort {
    #[verifier::allow_in_spec]
    pub fn id(&self) -> u8
        returns
            (match self {
                NmeaOutputPort::Off => 0u8,
                NmeaOutputPort::Usb => 1u8,
                NmeaOutputPort::Uart(_) => 2u8,
            }),
    {
        match self {
            Self::Off => 0,
            Self::Usb => 1,
            Self::Uart(_) => 2,
        }
    }
}

/// Baud rate when using UART output port
#[derive(Clone, Copy, PartialEq, Eq, Debug)]
pub enum UartBaudRate {
    _9600,
    _19200,
    _38400,
    _57600,
    _115200,
}

impl UartBaudRate {
    #[verifier::allow_in_spec]
    pub fn into_hz(self) -> u32
        returns
            (match self {
                UartBaudRate::_9600 => 9600u32,
                UartBaudRate::_19200 => 19200u32,
                UartBaudRate::_38400 => 38400u32,
                UartBaudRate::_57600 => 57600u32,
                UartBaudRate::_115200 => 115200u32,
            }),
    {
        match self {
            Self::_9600 => 9600,
            Self::_19200 => 19200,
            Self::_38400 => 38400,
            Self::_57600 => 57600,
            Self::_115200 => 115200,
        }
    }
}

/// Config flags for the NmeaType config variable. The flag constants are
/// bit masks, named after the NMEA message identifiers; combine them with
/// `|` and [NmeaType::from_bits_retain].
#[derive(Clone, Copy, PartialEq, Eq, Debug)]
pub struct NmeaType {
    bits: u8,
}

impl NmeaType {
    /// GPGSV: GPS satellites in view.
    pub const GPGSV: u8 = 0b0000_0001;
    /// GLGSV: GLONASS satellites in view (exclusive).
    pub const GLGSV: u8 = 0b0000_0010;
    /// GAGSV: Galileo satellites in view.
    pub const GAGSV: u8 = 0b0000_0100;
    /// BDGSV_QZGSV: Beidou/QZSS satellites in view.
    pub const BDGSV_QZGSV: u8 = 0b0000_1000;
    /// GSA: GNSS DOP, active satellites, and 2D/3D mode.
    pub const GSA: u8 = 0b0001_0000;
    /// VTG: nav course and speed over ground.
    pub const VTG: u8 = 0b0010_0000;
    /// RMC: Recommended minimum specific GPS data (time, 2D position, ground
    /// speed and course, date).
    pub const RMC: u8 = 0b0100_0000;
    /// GGA: Global Positioning System Fixed Data (time, 3D position, HDOP).
    pub const GGA: u8 = 0b1000_0000;

    pub closed spec fn spec_bits(self) -> u8 {
        self.bits
    }

    /// The flags as the number the modem reads.
    pub fn bits(&self) -> (b: u8)
        ensures
            b == self.spec_bits(),
    {
        self.bits
    }

    /// The flags whose bits are `bits`, unknown bits included.
    pub fn from_bits_retain(bits: u8) -> (t: Self)
        ensures
            t.spec_bits() == bits,
    {
        NmeaType { bits }
    }

    /// The flags of `self` and of `other`.
    pub fn union(self, other: Self) -> (t: Self)
        ensures
            t.spec_bits() == self.spec_bits() | other.spec_bits(),
    {
        NmeaType { bits: self.bits | other.bits }
    }

    /// Whether every flag of `other` is set in `self`.
    pub fn contains(&self, other: Self) -> (b: bool)
        ensures
            b == (self.spec_bits() & other.spec_bits() == other.spec_bits()),
    {
        self.bits & other.bits == other.bits
    }
}


/// Options for the AdssMode (assistance data) config variable
#[derive(Clone, Copy, Debug, PartialEq, Eq)]
pub enum AdssMode {
    /// Do not delete any data. Perform hot start if the conditions are permitted after starting GNSS.
    AttemptHotStart,
    /// Delete some related data. Perform warm start if the conditions are permitted after starting GNSS.
    AttemptWarmStart,
    /// Delete all assistance data except almanac data. Enforce cold start after starting GNSS.
    CleanDataAndForceColdStart,
    /// Delete all assistance data except almanac and sv health data. Enforce xtra cold start after starting GNSS.
    ForceColdStart,
    /// Delete all assistance data. Enforce reset start after starting GNSS.
    CleanDataAndForceColdStartWithReset,
}

impl AdssMode {
    /// The number that stands for this value in commands.
    #[verifier::allow_in_spec]
    pub fn value(&self) -> u8
        returns
            (match self {
                AdssMode::AttemptHotStart => 0u8,
                AdssMode::AttemptWarmStart => 1u8,
                AdssMode::CleanDataAndForceColdStart => 2u8,
                AdssMode::ForceColdStart => 3u8,
                AdssMode::CleanDataAndForceColdStartWithReset => 4u8,
            }),
    {
        match self {
            AdssMode::AttemptHotStart => 0,
            AdssMode::AttemptWarmStart => 1,
            AdssMode::CleanDataAndForceColdStart => 2,
            AdssMode::ForceColdStart => 3,
            AdssMode::CleanDataAndForceColdStartWithReset => 4,
        }
    }
}

/// Options for the Mode config variable
#[derive(Clone, Copy, Debug, PartialEq, Eq)]
pub enum Mode {
    /// Start GPS and GLONASS constellation.
    GLONASS,
    /// Start GPS and Galileo constellation.
    Galileo,
    /// Start GPS and Beidou constellation.
    Beidou,
    /// Start GPS and QZSS constellation.
    QZSS,
}

impl Mode {
    /// The number that stands for this value in commands.
    #[verifier::allow_in_spec]
    pub fn value(&self) -> u8
        returns
            (match self {
                Mode::GLONASS => 0u8,
                Mode::Galileo => 1u8,
                Mode::Beidou => 2u8,
                Mode::QZSS => 3u8,
            }),
    {
        match self {
            Mode::GLONASS => 0,
            Mode::Galileo => 1,
            Mode::Beidou => 2,
            Mode::QZSS => 3,
        }
    }
}
/// `v` limited to `lo..=hi`.
pub open spec fn clamp(v: int, lo: int, hi: int) -> int {
    if v < lo {
        lo
    } else if v > hi {
        hi
    } else {
        v
    }
}

fn clamp_u64(v: u64, lo: u64, hi: u64) -> (r: u64)
    requires
        lo <= hi,
    ensures
        r == clamp(v as int, lo as int, hi as int),
{
    if v < lo {
        lo
    } else if v > hi {
        hi
    } else {
        v
    }
}

/// AT+SGNSCFG=...
#[derive(Debug)]
pub enum ConfigureGnss {
    /// +SGNSCFG: "NMEAOUTPORT",<port>[,<baudrate>]
    NmeaOutPort(NmeaOutputPort),
    /// +SGNSCFG: "NMEATYPE",<nmeatype>
    NmeaType(NmeaType),
    /// +SGNSCFG: "OUTURC",<mode>
    /// Enable / disable "URC" (unsolicited) output
    UrcOutputOn(bool),
    /// +SGNSCFG: "ADSS",<mode>
    AssistanceData(AdssMode),
    /// +SGNSCFG: "MODE",<mode>
    Mode(Mode),
    /// +SGNSCFG: "THRESHOLD",<threshold> (meters)
    Threshold(u16),
    /// +SGNSCFG: "TIMEOUT",<timeout>, in milliseconds from 10 s to 180 s
    Timeout(Duration),
    /// +SGNSCFG: "EXTRAINFO",<flag>
    GetExtraInfo(bool),
}

pub open spec fn flag_text(b: bool) -> Seq<char> {
    if b {
        "1"@
    } else {
        "0"@
    }
}

impl AtRequest for ConfigureGnss {
    type Response = Result<GenericOk, SimError>;

    open spec fn spec_encode(&self) -> Seq<char> {
        match self {
            ConfigureGnss::NmeaOutPort(NmeaOutputPort::Uart(baudrate)) => "AT+SGNSCFG=\"NMEAOUTPORT\","@
                + decimal(NmeaOutputPort::Uart(UartBaudRate::_9600).id() as nat) + ","@ + decimal(
                baudrate.into_hz() as nat,
            ) + "\r"@,
            ConfigureGnss::NmeaOutPort(port) => "AT+SGNSCFG=\"NMEAOUTPORT\","@ + decimal(
                port.id() as nat,
            ) + "\r"@,
            ConfigureGnss::NmeaType(nmea_type) => "AT+SGNSCFG=\"NMEATYPE\","@ + decimal(
                nmea_type.spec_bits() as nat,
            ) + "\r"@,
            ConfigureGnss::UrcOutputOn(on) => "AT+SGNSCFG=\"OUTURC\","@ + flag_text(*on) + "\r"@,
            ConfigureGnss::AssistanceData(adss_mode) => "AT+SGNSCFG=\"ADSS\","@ + decimal(
                adss_mode.value() as nat,
            ) + "\r"@,
            ConfigureGnss::Mode(mode) => "AT+SGNSCFG=\"MODE\","@ + decimal(mode.value() as nat)
                + "\r"@,
            ConfigureGnss::Threshold(threshold) => "AT+SGNSCFG=\"THRESHOLD\","@ + decimal(
                *threshold as nat,
            ) + "\r"@,
            ConfigureGnss::Timeout(duration) => "AT+SGNSCFG=\"TIMEOUT\","@ + decimal(
                clamp(duration_millis(*duration) as int, 10_000, 180_000) as nat,
            ) + "\r"@,
            ConfigureGnss::GetExtraInfo(on) => "AT+SGNSCFG=\"EXTRAINFO\","@ + flag_text(*on)
                + "\r"@,
        }
    }

    open spec fn spec_request_type() -> RequestType {
        RequestType::NonCommand
    }

    fn request_type() -> (t: RequestType) {
        RequestType::NonCommand
    }

    fn encode(&self) -> (s: String) {
        let mut s = String::new();
        match self {
            ConfigureGnss::NmeaOutPort(NmeaOutputPort::Uart(baudrate)) => {
                s.append("AT+SGNSCFG=\"NMEAOUTPORT\",");
                push_decimal(&mut s, NmeaOutputPort::Uart(UartBaudRate::_9600).id() as u64);
                s.append(",");
                push_decimal(&mut s, baudrate.into_hz() as u64);
            },
            ConfigureGnss::NmeaOutPort(port) => {
                s.append("AT+SGNSCFG=\"NMEAOUTPORT\",");
                push_decimal(&mut s, port.id() as u64);
            },
            ConfigureGnss::NmeaType(nmea_type) => {
                s.append("AT+SGNSCFG=\"NMEATYPE\",");
                push_decimal(&mut s, nmea_type.bits() as u64);
            },
            ConfigureGnss::UrcOutputOn(on) => {
                s.append("AT+SGNSCFG=\"OUTURC\",");
                s.append(if *on { "1" } else { "0" });
            },
            ConfigureGnss::AssistanceData(adss_mode) => {
                s.append("AT+SGNSCFG=\"ADSS\",");
                push_decimal(&mut s, adss_mode.value() as u64);
            },
            ConfigureGnss::Mode(mode) => {
                s.append("AT+SGNSCFG=\"MODE\",");
                push_decimal(&mut s, mode.value() as u64);
            },
            ConfigureGnss::Threshold(threshold) => {
                s.append("AT+SGNSCFG=\"THRESHOLD\",");
                push_decimal(&mut s, *threshold as u64);
            },
            ConfigureGnss::Timeout(duration) => {
                s.append("AT+SGNSCFG=\"TIMEOUT\",");
                push_decimal(&mut s, clamp_u64(as_millis(duration), 10_000, 180_000));
            },
            ConfigureGnss::GetExtraInfo(on) => {
                s.append("AT+SGNSCFG=\"EXTRAINFO\",");
                s.append(if *on { "1" } else { "0" });
            },
        }
        s.append("\r");
        s
    }

    fn default_timeout() -> (t: Option<Duration>) {
        None
    }
}

/// Options for the PowerLevel variable
#[derive(Clone, Copy, Debug, PartialEq, Eq)]
pub enum PowerLevel {
    /// Use all technologies available to calculate location.
    All,
    /// Use only low power technologies to calculate location.
    LowPower,
    /// Use only low and medium power technologies to calculate location.
    MediumPower,
}

impl PowerLevel {
    /// The number that stands for this value in commands.
    #[verifier::allow_in_spec]
    pub fn value(&self) -> u8
        returns
            (match self {
                PowerLevel::All => 0u8,
                PowerLevel::LowPower => 1u8,
                PowerLevel::MediumPower => 2u8,
            }),
    {
        match self {
            PowerLevel::All => 0,
            PowerLevel::LowPower => 1,
            PowerLevel::MediumPower => 2,
        }
    }
}

/// Options for the Accuracy variable
#[derive(Clone, Copy, Debug, PartialEq, Eq)]
pub enum Accuracy {
    /// Accuracy is not specified, use default.
    Default,
    /// Low Accuracy for location is acceptable.
    Low,
    /// Medium Accuracy for location is acceptable.
    Medium,
    /// Only High Accuracy for location is acceptable.
    High,
}

impl Accuracy {
    /// The number that stands for this value in commands.
    #[verifier::allow_in_spec]
    pub fn value(&self) -> u8
        returns
            (match self {
                Accuracy::Default => 0u8,
                Accuracy::Low => 1u8,
                Accuracy::Medium => 2u8,
                Accuracy::High => 3u8,
            }),
    {
        match self {
            Accuracy::Default => 0,
            Accuracy::Low => 1,
            Accuracy::Medium => 2,
            Accuracy::High => 3,
        }
    }
}
impl Default for PowerLevel {
    fn default() -> (p: Self)
        ensures
            p == PowerLevel::All,
    {
        PowerLevel::All
    }
}

impl Default for Accuracy {
    fn default() -> (a: Self)
        ensures
            a == Accuracy::Default,
    {
        Accuracy::Default
    }
}

/// AT+SGNSCMD=...
#[derive(Debug)]
pub enum GnssCommand {
    Off,
    Once(PowerLevel),
    Auto {
        /// Sent in milliseconds, from 1 s to 60 s.
        min_interval: Duration,
        /// Setting this to 0 will use only the min_interval; sent as at
        /// most 1000.
        min_distance_meters: u16,
        accuracy: Accuracy,
    },
}

impl AtRequest for GnssCommand {
    type Response = Result<GenericOk, Error>;

    open spec fn spec_encode(&self) -> Seq<char> {
        match self {
            GnssCommand::Off => "AT+SGNSCMD=0\r"@,
            GnssCommand::Once(power_level) => "AT+SGNSCMD=1,"@ + decimal(power_level.value() as nat)
                + "\r"@,
            GnssCommand::Auto { min_interval, min_distance_meters, accuracy } => "AT+SGNSCMD=2,"@
                + decimal(clamp(duration_millis(*min_interval) as int, 1_000, 60_000) as nat) + ","@
                + decimal(
                if *min_distance_meters < 1_000 {
                    *min_distance_meters as nat
                } else {
                    1_000
                },
            ) + ","@ + decimal(accuracy.value() as nat) + "\r"@,
        }
    }

    open spec fn spec_request_type() -> RequestType {
        RequestType::NonCommand
    }

    fn request_type() -> (t: RequestType) {
        RequestType::NonCommand
    }

    fn encode(&self) -> (s: String) {
        let mut s = String::new();
        match self {
            GnssCommand::Off => {
                s.append("AT+SGNSCMD=0\r");
            },
            GnssCommand::Once(power_level) => {
                s.append("AT+SGNSCMD=1,");
                push_decimal(&mut s, power_level.value() as u64);
                s.append("\r");
            },
            GnssCommand::Auto { min_interval, min_distance_meters, accuracy } => {
                s.append("AT+SGNSCMD=2,");
                push_decimal(&mut s, clamp_u64(as_millis(min_interval), 1_000, 60_000));
                s.append(",");
                let d: u16 = if *min_distance_meters < 1_000 {
                    *min_distance_meters
                } else {
                    1_000
                };
                push_decimal(&mut s, d as u64);
                s.append(",");
                push_decimal(&mut s, accuracy.value() as u64);
                s.append("\r");
            },
        }
        s
    }

    fn default_timeout() -> (t: Option<Duration>) {
        None
    }
}

#[derive(Debug, PartialEq, Eq)]
pub enum GnssCommandMode {
    Off,
    Once,
    Auto,
}

pub open spec fn spec_command_mode(s: Seq<char>) -> Option<GnssCommandMode> {
    if s == "0"@ {
        Some(GnssCommandMode::Off)
    } else if s == "1"@ {
        Some(GnssCommandMode::Once)
    } else if s == "2"@ {
        Some(GnssCommandMode::Auto)
    } else {
        None
    }
}

fn command_mode(s: &[char]) -> (r: Option<GnssCommandMode>)
    ensures
        r == spec_command_mode(s@),
{
    if eq_str(s, "0") {
        Some(GnssCommandMode::Off)
    } else if eq_str(s, "1") {
        Some(GnssCommandMode::Once)
    } else if eq_str(s, "2") {
        Some(GnssCommandMode::Auto)
    } else {
        None
    }
}

/// +SGNSCMD:<mode>[,<date>],<time>[,<total_satellites>],<latitude>,<longitude>,<accuracy>,
/// <altitude>,<altitude_mean_sea_level>,<speed>,<bearing>,<timestamp>,<flags>.
///
/// Real-number fields are kept as their text, each a numeral.
#[derive(Debug, PartialEq)]
pub struct GnssResult {
    pub mode: GnssCommandMode,
    pub date_time: UtcDateTime,
    pub total_satellites: Option<u32>,
    pub latitude: String,
    pub longitude: String,
    pub accuracy: String,
    pub altitude: String,
    pub altitude_mean_sea_level: String,
    pub speed_over_ground: String,
    pub course_over_ground: String,
    pub timestamp_millis: u64,
}

/// A [GnssResult] with its text fields as character sequences.
pub struct GnssResultView {
    pub mode: GnssCommandMode,
    pub date_time: UtcDateTime,
    pub total_satellites: Option<u32>,
    pub latitude: Seq<char>,
    pub longitude: Seq<char>,
    pub accuracy: Seq<char>,
    pub altitude: Seq<char>,
    pub altitude_mean_sea_level: Seq<char>,
    pub speed_over_ground: Seq<char>,
    pub course_over_ground: Seq<char>,
    pub timestamp_millis: u64,
}

impl View for GnssResult {
    type V = GnssResultView;

    open spec fn view(&self) -> GnssResultView {
        GnssResultView {
            mode: self.mode,
            date_time: self.date_time,
            total_satellites: self.total_satellites,
            latitude: self.latitude@,
            longitude: self.longitude@,
            accuracy: self.accuracy@,
            altitude: self.altitude@,
            altitude_mean_sea_level: self.altitude_mean_sea_level@,
            speed_over_ground: self.speed_over_ground@,
            course_over_ground: self.course_over_ground@,
            timestamp_millis: self.timestamp_millis,
        }
    }
}

/// The fields after the time (and total satellites): `q` holds
/// `<lat>,<lon>,<accuracy>,<alt>,<alt msl>,<speed>,<bearing>,<timestamp>,<flags>`.
pub open spec fn spec_gnss_result_fields(
    mode: Seq<char>,
    date: Option<Seq<char>>,
    time: Seq<char>,
    total_satellites: Option<u32>,
    q: Seq<Seq<char>>,
) -> Result<GnssResultView, AtParseErr> {
    if q.len() < 9 {
        Err(AtParseErr::Parsing("malformed parameters"))
    } else {
        match spec_command_mode(mode) {
            None => Err(AtParseErr::Parsing("invalid mode argument")),
            Some(mode) => match spec_parse_sgnscmd_time(date, time, q[7]) {
                None => Err(AtParseErr::Parsing("invalid date-time argument")),
                Some(date_time) => if !(float_syntax(q[0]) && float_syntax(q[1]) && float_syntax(
                    q[2],
                ) && float_syntax(q[3]) && float_syntax(q[4]) && float_syntax(q[5])
                    && float_syntax(q[6])) {
                    Err(AtParseErr::Parsing("Failed to parse float"))
                } else {
                    match spec_timestamp_millis(q[7]) {
                        None => Err(int_err()),
                        Some(ms) => Ok(
                            GnssResultView {
                                mode,
                                date_time,
                                total_satellites,
                                latitude: q[0],
                                longitude: q[1],
                                accuracy: q[2],
                                altitude: q[3],
                                altitude_mean_sea_level: q[4],
                                speed_over_ground: q[5],
                                course_over_ground: q[6],
                                timestamp_millis: if ms < 0 {
                                    0
                                } else {
                                    ms as u64
                                },
                            },
                        ),
                    }
                },
            },
        }
    }
}

/// `+SGNSCMD: ...` with 11 or 13 commas: thirteen means that the date and
/// the total number of satellites are present.
pub open spec fn spec_gnss_result(line: Seq<char>) -> Result<GnssResultView, AtParseErr> {
    match strip_prefix(line, "+SGNSCMD:"@) {
        None => Err(AtParseErr::Mismatch),
        Some(l) => {
            let line = trim(l);
            let n = count_char(line, ',');
            if n != 11 && n != 13 {
                Err(AtParseErr::Parsing("invalid length"))
            } else if n == 13 {
                let p = splitn(line, 5, ',');
                if p.len() < 5 {
                    Err(AtParseErr::Parsing("malformed parameters"))
                } else {
                    match spec_u32(p[3]) {
                        None => Err(int_err()),
                        Some(total) => spec_gnss_result_fields(
                            p[0],
                            Some(p[1]),
                            p[2],
                            Some(total),
                            split(p[4], ','),
                        ),
                    }
                }
            } else {
                let p = splitn(line, 3, ',');
                if p.len() < 3 {
                    Err(AtParseErr::Parsing("malformed parameters"))
                } else {
                    spec_gnss_result_fields(p[0], None, p[1], None, split(p[2], ','))
                }
            }
        },
    }
}

pub open spec fn spec_u32(s: Seq<char>) -> Option<u32> {
    match parse_unsigned(s, 10, u32::MAX as nat) {
        Some(v) => Some(v as u32),
        None => None,
    }
}

fn gnss_result_fields(
    mode: &[char],
    date: Option<&[char]>,
    time: &[char],
    total_satellites: Option<u32>,
    q: &Vec<&[char]>,
) -> (r: Result<GnssResult, AtParseErr>)
    ensures
        view_result(r) == spec_gnss_result_fields(
            mode@,
            match date {
                Some(d) => Some(d@),
                None => None,
            },
            time@,
            total_satellites,
            views(q@),
        ),
{
    let ghost v = views(q@);
    if q.len() < 9 {
        return Err(AtParseErr::Parsing("malformed parameters"));
    }
    assert(forall|i: int| 0 <= i < 9 ==> v[i] == (#[trigger] q@[i])@);
    let mode = match command_mode(mode) {
        Some(m) => m,
        None => return Err(AtParseErr::Parsing("invalid mode argument")),
    };
    let date_time = match parse_sgnscmd_chars(date, time, q[7]) {
        Some(d) => d,
        None => return Err(AtParseErr::Parsing("invalid date-time argument")),
    };
    if !(is_float_syntax(q[0]) && is_float_syntax(q[1]) && is_float_syntax(q[2]) && is_float_syntax(
        q[3],
    ) && is_float_syntax(q[4]) && is_float_syntax(q[5]) && is_float_syntax(q[6])) {
        return Err(AtParseErr::Parsing("Failed to parse float"));
    }
    let ms = match timestamp_millis(q[7]) {
        Some(ms) => ms,
        None => return Err(int_err_exec()),
    };
    let timestamp_millis: u64 = if ms < 0 {
        0
    } else {
        ms as u64
    };
    Ok(
        GnssResult {
            mode,
            date_time,
            total_satellites,
            latitude: string_from_chars(q[0]),
            longitude: string_from_chars(q[1]),
            accuracy: string_from_chars(q[2]),
            altitude: string_from_chars(q[3]),
            altitude_mean_sea_level: string_from_chars(q[4]),
            speed_over_ground: string_from_chars(q[5]),
            course_over_ground: string_from_chars(q[6]),
            timestamp_millis,
        },
    )
}

impl GnssResult {
    pub fn from_chars(line: &[char]) -> (r: Result<Self, AtParseErr>)
        ensures
            view_result(r) == spec_gnss_result(line@),
    {
        let l = match strip_prefix_exec(line, "+SGNSCMD:") {
            Some(l) => l,
            None => return Err(AtParseErr::Mismatch),
        };
        let line = trim_exec(l);
        let n = count_char_exec(line, ',');
        if n != 11 && n != 13 {
            return Err(AtParseErr::Parsing("invalid length"));
        }
        if n == 13 {
            let p = splitn_exec(line, 5, ',');
            let ghost v = views(p@);
            if p.len() < 5 {
                return Err(AtParseErr::Parsing("malformed parameters"));
            }
            assert(forall|i: int| 0 <= i < 5 ==> v[i] == (#[trigger] p@[i])@);
            let total = match parse_u32(p[3]) {
                Some(t) => t,
                None => return Err(int_err_exec()),
            };
            let q = split_exec(p[4], ',');
            gnss_result_fields(p[0], Some(p[1]), p[2], Some(total), &q)
        } else {
            let p = splitn_exec(line, 3, ',');
            let ghost v = views(p@);
            if p.len() < 3 {
                return Err(AtParseErr::Parsing("malformed parameters"));
            }
            assert(forall|i: int| 0 <= i < 3 ==> v[i] == (#[trigger] p@[i])@);
            let q = split_exec(p[2], ',');
            gnss_result_fields(p[0], None, p[1], None, &q)
        }
    }
}

impl AtParseLine for GnssResult {
    open spec fn spec_from_line(line: Seq<char>, instant: Instant) -> Result<
        GnssResultView,
        AtParseErr,
    > {
        spec_gnss_result(line)
    }

    fn from_line(line: &str, instant: &Instant) -> (r: Result<Self, AtParseErr>) {
        let v = chars_of(line);
        Self::from_chars(v.as_slice())
    }
}

/// Result codes of GNSS commands.
#[derive(Clone, Copy, PartialEq, Eq, Debug)]
pub enum Error {
    /// Success.
    Success,
    /// General failure.
    GeneralFailure,
    /// Callback is missing.
    CallbackIsMissing,
    /// Invalid parameter.
    InvalidParameter,
    /// ID already exists.
    IdAlreadyExists,
    /// ID is unknown.
    UnknownId,
    /// Already started.
    AlreadyStarted,
    /// Not initialized.
    NotInitialized,
    /// Maximum number of geofences reached.
    MaxGeofencesExceeded,
    /// Not supported.
    NotSupported,
    /// Timeout when asking single shot.
    SingleShotTimeout,
    /// GNSS engine could not get loaded.
    UnableToLoad,
    /// Location module license is disabled.
    Unlicensed,
    /// Best available position is invalid.
    NoValidPosition,
    UnknownError,
}

impl View for Error {
    type V = Error;

    open spec fn view(&self) -> Error {
        *self
    }
}

pub open spec fn spec_error_of_code(code: u8) -> Error {
    if code == 0 {
        Error::Success
    } else if code == 1 {
        Error::GeneralFailure
    } else if code == 2 {
        Error::CallbackIsMissing
    } else if code == 3 {
        Error::InvalidParameter
    } else if code == 4 {
        Error::IdAlreadyExists
    } else if code == 5 {
        Error::UnknownId
    } else if code == 6 {
        Error::AlreadyStarted
    } else if code == 7 {
        Error::NotInitialized
    } else if code == 8 {
        Error::MaxGeofencesExceeded
    } else if code == 9 {
        Error::NotSupported
    } else if code == 10 {
        Error::SingleShotTimeout
    } else if code == 11 {
        Error::UnableToLoad
    } else if code == 12 {
        Error::Unlicensed
    } else if code == 13 {
        Error::NoValidPosition
    } else {
        Error::UnknownError
    }
}

/// `+SGNSERR: <code>`
pub open spec fn spec_gnss_error(line: Seq<char>) -> Result<Error, AtParseErr> {
    match strip_prefix(line, "+SGNSERR:"@) {
        None => Err(AtParseErr::Mismatch),
        Some(l) => match parse_unsigned(trim(l), 10, u8::MAX as nat) {
            None => Err(AtParseErr::Parsing("invalid parameter")),
            Some(code) => Ok(spec_error_of_code(code as u8)),
        },
    }
}

impl AtParseLine for Error {
    open spec fn spec_from_line(line: Seq<char>, instant: Instant) -> Result<Error, AtParseErr> {
        spec_gnss_error(line)
    }

    fn from_line(line: &str, instant: &Instant) -> (r: Result<Self, AtParseErr>) {
        let v = chars_of(line);
        let l = match strip_prefix_exec(v.as_slice(), "+SGNSERR:") {
            Some(l) => l,
            None => return Err(AtParseErr::Mismatch),
        };
        let code = match parse_u8(trim_exec(l)) {
            Some(c) => c,
            None => return Err(AtParseErr::Parsing("invalid parameter")),
        };
        Ok(
            match code {
                0 => Self::Success,
                1 => Self::GeneralFailure,
                2 => Self::CallbackIsMissing,
                3 => Self::InvalidParameter,
                4 => Self::IdAlreadyExists,
                5 => Self::UnknownId,
                6 => Self::AlreadyStarted,
                7 => Self::NotInitialized,
                8 => Self::MaxGeofencesExceeded,
                9 => Self::NotSupported,
                10 => Self::SingleShotTimeout,
                11 => Self::UnableToLoad,
                12 => Self::Unlicensed,
                13 => Self::NoValidPosition,
                _ => Self::UnknownError,
            },
        )
    }
}

/// What a request sends stays within the modem's limits: a GNSS timeout
/// from 10 s to 180 s, and for automatic fixes an interval from 1 s to
/// 60 s and a distance of at most 1000 m.
pub proof fn law_gnss_limits(d: Duration, interval: Duration, distance: u16)
    ensures
        10_000 <= clamp(duration_millis(d) as int, 10_000, 180_000) <= 180_000,
        1_000 <= clamp(duration_millis(interval) as int, 1_000, 60_000) <= 60_000,
        (if distance < 1_000 {
            distance as int
        } else {
            1_000
        }) <= 1_000,
{
}

/// The arguments of a `+SGNSCMD:` line, trimmed, split at its first commas: at the
/// first four where the line holds thirteen commas (date and total satellites present),
/// else at the first two.
pub open spec fn result_head(line: Seq<char>) -> Seq<Seq<char>> {
    match strip_prefix(line, "+SGNSCMD:"@) {
        Some(l) => if count_char(trim(l), ',') == 13 {
            splitn(trim(l), 5, ',')
        } else {
            splitn(trim(l), 3, ',')
        },
        None => Seq::empty(),
    }
}

/// The comma-separated arguments of a `+SGNSCMD:` line after its time (and total
/// satellites): `<latitude>,<longitude>,<accuracy>,<altitude>,<altitude msl>,<speed>,
/// <course>,<timestamp>,...`.
pub open spec fn result_tail(line: Seq<char>) -> Seq<Seq<char>> {
    let h = result_head(line);
    if h.len() == 0 {
        Seq::empty()
    } else {
        split(h[h.len() - 1], ',')
    }
}

/// A GNSS result that parses holds the mode named by its first argument (`0` off,
/// `1` once, `2` auto), and each text field is the argument at its documented position
/// after the time: latitude, longitude, accuracy, altitude, altitude above mean sea
/// level, speed and course, in that order, then the timestamp (negative ones read as
/// zero). The total number of satellites is the argument after the time where the
/// line holds thirteen commas, and absent where it holds eleven.
pub proof fn law_result_fields_by_position(line: Seq<char>)
    ensures
        ({
            let h = result_head(line);
            let q = result_tail(line);
            match spec_gnss_result(line) {
                Ok(r) => {
                    &&& q.len() >= 9
                    &&& r.latitude == q[0]
                    &&& r.longitude == q[1]
                    &&& r.accuracy == q[2]
                    &&& r.altitude == q[3]
                    &&& r.altitude_mean_sea_level == q[4]
                    &&& r.speed_over_ground == q[5]
                    &&& r.course_over_ground == q[6]
                    &&& float_syntax(q[0]) && float_syntax(q[1]) && float_syntax(q[2])
                    &&& float_syntax(q[3]) && float_syntax(q[4]) && float_syntax(q[5])
                    &&& float_syntax(q[6])
                    &&& (match spec_timestamp_millis(q[7]) {
                        Some(ms) => r.timestamp_millis == if ms < 0 {
                            0
                        } else {
                            ms as u64
                        },
                        None => false,
                    })
                    &&& (r.mode == GnssCommandMode::Off <==> h[0] == "0"@)
                    &&& (r.mode == GnssCommandMode::Once <==> h[0] == "1"@)
                    &&& (r.mode == GnssCommandMode::Auto <==> h[0] == "2"@)
                    &&& (h.len() == 5 ==> r.total_satellites is Some && parse_unsigned(
                        h[3],
                        10,
                        u32::MAX as nat,
                    ) == Some(r.total_satellites.unwrap() as nat))
                    &&& (h.len() == 3 ==> r.total_satellites is None)
                },
                Err(_) => true,
            }
        }),
{
    reveal_strlit("0");
    reveal_strlit("1");
    reveal_strlit("2");
    assert("0"@ != "1"@) by {
        assert("0"@[0] != "1"@[0]);
    }
    assert("0"@ != "2"@) by {
        assert("0"@[0] != "2"@[0]);
    }
    assert("1"@ != "2"@) by {
        assert("1"@[0] != "2"@[0]);
    }
    if let Some(l) = strip_prefix(line, "+SGNSCMD:"@) {
        let t = trim(l);
        lemma_splitn_len(t, 5, ',');
        lemma_splitn_len(t, 3, ',');
        let n = count_char(t, ',');
        if n == 13 {
            let p = splitn(t, 5, ',');
            assert(result_head(line) == p);
            if p.len() >= 5 {
                assert(result_tail(line) == split(p[4], ','));
            }
        } else if n == 11 {
            let p = splitn(t, 3, ',');
            assert(result_head(line) == p);
            if p.len() >= 3 {
                assert(result_tail(line) == split(p[2], ','));
            }
        }
    }
}

/// The on/off settings send `1` for on and `0` for off.
pub proof fn law_flag_settings(on: bool)
    ensures
        ConfigureGnss::UrcOutputOn(on).spec_encode() == "AT+SGNSCFG=\"OUTURC\","@ + (if on {
            "1"@
        } else {
            "0"@
        }) + "\r"@,
        ConfigureGnss::GetExtraInfo(on).spec_encode() == "AT+SGNSCFG=\"EXTRAINFO\","@ + (if on {
            "1"@
        } else {
            "0"@
        }) + "\r"@,
{
}

/// The error codes, in the order the modem numbers them from 0.
pub open spec fn documented_errors() -> Seq<Error> {
    seq![
        Error::Success,
        Error::GeneralFailure,
        Error::CallbackIsMissing,
        Error::InvalidParameter,
        Error::IdAlreadyExists,
        Error::UnknownId,
        Error::AlreadyStarted,
        Error::NotInitialized,
        Error::MaxGeofencesExceeded,
        Error::NotSupported,
        Error::SingleShotTimeout,
        Error::UnableToLoad,
        Error::Unlicensed,
        Error::NoValidPosition,
    ]
}

/// A `+SGNSERR:` line reports the error its code numbers, counting from 0 in the
/// documented order; a code past the list is an unknown error.
pub proof fn law_gnss_error_codes(code: u8, instant: Instant)
    ensures
        code < 14 ==> spec_error_of_code(code) == documented_errors()[code as int],
        code >= 14 ==> spec_error_of_code(code) == Error::UnknownError,
        spec_gnss_error("+SGNSERR: "@ + decimal(code as nat)) == Ok::<Error, AtParseErr>(
            spec_error_of_code(code),
        ),
{
    reveal_strlit("+SGNSERR: ");
    reveal_strlit("+SGNSERR:");
    let d = decimal(code as nat);
    lemma_decimal_reads_back(code as nat);
    lemma_decimal_padded_reads_back(code as nat, 0, u8::MAX as nat);
    let line = "+SGNSERR: "@ + d;
    assert(line.subrange(0, 9) =~= "+SGNSERR:"@);
    let l = line.subrange(9, line.len() as int);
    assert(l =~= seq![' '] + d);
    assert(trim(l) == d) by {
        assert(l[0] == ' ');
        assert(l.drop_first() =~= d);
        assert(!is_whitespace(d[0]));
        assert(!is_whitespace(d.last()));
        assert(trim_start(d) == d);
        assert(trim_start(l) == trim_start(l.drop_first()));
        assert(trim_end(d) == d);
    }
}

/// A setting sent within bounds stays between them, and a requested value already
/// within them is sent unchanged; one below is raised to the lower bound and one above
/// lowered to the upper.
pub proof fn law_clamp_bounds(v: int, lo: int, hi: int)
    requires
        lo <= hi,
    ensures
        lo <= clamp(v, lo, hi) <= hi,
        lo <= v <= hi ==> clamp(v, lo, hi) == v,
        v < lo ==> clamp(v, lo, hi) == lo,
        v > hi ==> clamp(v, lo, hi) == hi,
{
}

} // verus!

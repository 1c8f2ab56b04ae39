use vstd::prelude::*;
use embassy_time::{Duration, Instant};
use super::{
    AtParseErr, AtParseLine, AtRequest, CommandGroup, GenericOk, RequestType, plmn, int_err, int_err_exec,
};
use crate::out::{decimal, lemma_decimal_padded_reads_back, lemma_decimal_reads_back};
use crate::text::{
    chars_of, eq_str, parse_i16, parse_signed, parse_signed_exec, parse_u16, parse_u8,
    parse_unsigned, parse_unsigned_exec, split_once, split_once_exec, split_once_whitespace,
    split_once_whitespace_exec, splitn, splitn_exec, strip_prefix, strip_prefix_exec, trim,
    trim_exec, trim_start, trim_start_exec, views,
};

verus! {

broadcast use {plmn::Mcc::lemma_new, plmn::Mnc::lemma_new};

/// AT+CPSI?
#[derive(Debug)]
pub struct GetSystemInfo;

impl AtRequest for GetSystemInfo {
    type Response = (SystemInfo, GenericOk);

    open spec fn spec_encode(&self) -> Seq<char> {
        "+CPSI?"@
    }

    open spec fn spec_request_type() -> RequestType {
        RequestType::Command(CommandGroup::Extended)
    }

    fn request_type() -> (t: RequestType) {
        RequestType::Command(CommandGroup::Extended)
    }

    fn encode(&self) -> (s: String) {
        let mut s = String::new();
        s.append("+CPSI?");
        s
    }

    fn default_timeout() -> (t: Option<Duration>) {
        None
    }
}

#[derive(Debug, Clone, Copy, PartialEq, Eq)]
pub enum SystemMode {
    NoService,
    Gsm,
    LteCatM1,
    LteNbIot,
}

/// See https://en.wikipedia.org/wiki/GSM_frequency_bands
#[derive(Debug, Clone, Copy, PartialEq, Eq)]
pub enum GsmFrequencyBandAndChannel {
    TGSM380,
    TGSM410,
    GSM450(u16),
    GSM480(u16),
    GSM710,
    GSM750(u16),
    TGSM810,
    GSM850(u16),
    PGSM900(u16),
    EGSM900(u16),
    RGSM900(u16),
    TGSM900,
    DCS1800(u16),
    PCS1900(u16),
    /// Unknown band.
    Unknown,
}

impl Default for GsmFrequencyBandAndChannel {
    fn default() -> (b: Self)
        ensures
            b == GsmFrequencyBandAndChannel::Unknown,
    {
        GsmFrequencyBandAndChannel::Unknown
    }
}

impl View for GsmFrequencyBandAndChannel {
    type V = GsmFrequencyBandAndChannel;

    open spec fn view(&self) -> GsmFrequencyBandAndChannel {
        *self
    }
}

/// The band named `name`, on `channel` where the band has channels.
pub open spec fn spec_gsm_band(name: Seq<char>, channel: u16) -> Result<
    GsmFrequencyBandAndChannel,
    AtParseErr,
> {
    if name == "TGSM 380"@ {
        Ok(GsmFrequencyBandAndChannel::TGSM380)
    } else if name == "TGSM 410"@ {
        Ok(GsmFrequencyBandAndChannel::TGSM410)
    } else if name == "GSM 450"@ {
        Ok(GsmFrequencyBandAndChannel::GSM450(channel))
    } else if name == "GSM 480"@ {
        Ok(GsmFrequencyBandAndChannel::GSM480(channel))
    } else if name == "GSM 710"@ {
        Ok(GsmFrequencyBandAndChannel::GSM710)
    } else if name == "GSM 750"@ {
        Ok(GsmFrequencyBandAndChannel::GSM750(channel))
    } else if name == "TGSM 810"@ {
        Ok(GsmFrequencyBandAndChannel::TGSM810)
    } else if name == "GSM 850"@ {
        Ok(GsmFrequencyBandAndChannel::GSM850(channel))
    } else if name == "PGSM 900"@ {
        Ok(GsmFrequencyBandAndChannel::PGSM900(channel))
    } else if name == "EGSM 900"@ {
        Ok(GsmFrequencyBandAndChannel::EGSM900(channel))
    } else if name == "RGSM 900"@ {
        Ok(GsmFrequencyBandAndChannel::RGSM900(channel))
    } else if name == "TGSM 900"@ {
        Ok(GsmFrequencyBandAndChannel::TGSM900)
    } else if name == "DCS 1800"@ {
        Ok(GsmFrequencyBandAndChannel::DCS1800(channel))
    } else if name == "PCS 1900"@ {
        Ok(GsmFrequencyBandAndChannel::PCS1900(channel))
    } else {
        Err(AtParseErr::Parsing("Unknown GSM band identifier"))
    }
}

fn gsm_band(name: &[char], channel: u16) -> (r: Result<GsmFrequencyBandAndChannel, AtParseErr>)
    ensures
        r == spec_gsm_band(name@, channel),
{
    if eq_str(name, "TGSM 380") {
        Ok(GsmFrequencyBandAndChannel::TGSM380)
    } else if eq_str(name, "TGSM 410") {
        Ok(GsmFrequencyBandAndChannel::TGSM410)
    } else if eq_str(name, "GSM 450") {
        Ok(GsmFrequencyBandAndChannel::GSM450(channel))
    } else if eq_str(name, "GSM 480") {
        Ok(GsmFrequencyBandAndChannel::GSM480(channel))
    } else if eq_str(name, "GSM 710") {
        Ok(GsmFrequencyBandAndChannel::GSM710)
    } else if eq_str(name, "GSM 750") {
        Ok(GsmFrequencyBandAndChannel::GSM750(channel))
    } else if eq_str(name, "TGSM 810") {
        Ok(GsmFrequencyBandAndChannel::TGSM810)
    } else if eq_str(name, "GSM 850") {
        Ok(GsmFrequencyBandAndChannel::GSM850(channel))
    } else if eq_str(name, "PGSM 900") {
        Ok(GsmFrequencyBandAndChannel::PGSM900(channel))
    } else if eq_str(name, "EGSM 900") {
        Ok(GsmFrequencyBandAndChannel::EGSM900(channel))
    } else if eq_str(name, "RGSM 900") {
        Ok(GsmFrequencyBandAndChannel::RGSM900(channel))
    } else if eq_str(name, "TGSM 900") {
        Ok(GsmFrequencyBandAndChannel::TGSM900)
    } else if eq_str(name, "DCS 1800") {
        Ok(GsmFrequencyBandAndChannel::DCS1800(channel))
    } else if eq_str(name, "PCS 1900") {
        Ok(GsmFrequencyBandAndChannel::PCS1900(channel))
    } else {
        Err(AtParseErr::Parsing("Unknown GSM band identifier"))
    }
}

impl GsmFrequencyBandAndChannel {
    /// `<channel> <band name>`, or a band name alone (channel 0).
    pub open spec fn spec_from_str(s: Seq<char>) -> Result<Self, AtParseErr> {
        match split_once_whitespace(s) {
            Some((channel, rest)) => match parse_unsigned(channel, 10, u16::MAX as nat) {
                Some(c) => spec_gsm_band(trim_start(rest), c as u16),
                None => Err(AtParseErr::Parsing("Failed to parse channel number")),
            },
            None => spec_gsm_band(s, 0),
        }
    }

    pub fn from_chars(s: &[char]) -> (r: Result<Self, AtParseErr>)
        ensures
            r == Self::spec_from_str(s@),
    {
        match split_once_whitespace_exec(s) {
            Some((channel, rest)) => match parse_u16(channel) {
                Some(c) => gsm_band(trim_start_exec(rest), c),
                None => Err(AtParseErr::Parsing("Failed to parse channel number")),
            },
            None => gsm_band(s, 0),
        }
    }

    pub fn from_str(s: &str) -> (r: Result<Self, AtParseErr>)
        ensures
            r == Self::spec_from_str(s@),
    {
        let v = chars_of(s);
        Self::from_chars(v.as_slice())
    }
}

/// See https://en.wikipedia.org/wiki/LTE_frequency_bands
#[derive(Debug, Clone, Copy, PartialEq, Eq)]
pub enum LteFrequencyBand {
    /// E-UTRAN band of the given number.
    EUtran(u8),
    /// Unknown band.
    Unknown,
}

impl Default for LteFrequencyBand {
    fn default() -> (b: Self)
        ensures
            b == LteFrequencyBand::Unknown,
    {
        LteFrequencyBand::Unknown
    }
}

impl LteFrequencyBand {
    /// `EUTRAN-BAND<number>`
    pub open spec fn spec_from_str(s: Seq<char>) -> Result<Self, AtParseErr> {
        match strip_prefix(s, "EUTRAN-BAND"@) {
            Some(n) => match parse_unsigned(n, 10, u8::MAX as nat) {
                Some(b) => Ok(LteFrequencyBand::EUtran(b as u8)),
                None => Err(AtParseErr::Parsing("Failed to parse UTran band number")),
            },
            None => Err(AtParseErr::Parsing("Unknown LTE band identifier")),
        }
    }

    pub fn from_chars(s: &[char]) -> (r: Result<Self, AtParseErr>)
        ensures
            r == Self::spec_from_str(s@),
    {
        match strip_prefix_exec(s, "EUTRAN-BAND") {
            Some(n) => match parse_u8(n) {
                Some(b) => Ok(LteFrequencyBand::EUtran(b)),
                None => Err(AtParseErr::Parsing("Failed to parse UTran band number")),
            },
            None => Err(AtParseErr::Parsing("Unknown LTE band identifier")),
        }
    }

    pub fn from_str(s: &str) -> (r: Result<Self, AtParseErr>)
        ensures
            r == Self::spec_from_str(s@),
    {
        let v = chars_of(s);
        Self::from_chars(v.as_slice())
    }
}

#[derive(Debug, Clone, Copy, PartialEq)]
pub struct GsmModeParameters {
    pub mcc: plmn::Mcc,
    pub mnc: plmn::Mnc,
    pub lac: u16,
    pub cell_id: u16,
    pub freq_and_channel: GsmFrequencyBandAndChannel,
    pub rx_lev: i16,
    pub track_lo_adjust: u16,
    pub c1: u16,
    pub c2: u16,
}

pub open spec fn default_gsm_parameters() -> GsmModeParameters {
    GsmModeParameters {
        mcc: plmn::Mcc::spec_new(0),
        mnc: plmn::Mnc::spec_new(0, false),
        lac: 0,
        cell_id: 0,
        freq_and_channel: GsmFrequencyBandAndChannel::Unknown,
        rx_lev: 0,
        track_lo_adjust: 0,
        c1: 0,
        c2: 0,
    }
}

impl Default for GsmModeParameters {
    fn default() -> (p: Self)
        ensures
            p == default_gsm_parameters(),
    {
        GsmModeParameters {
            mcc: plmn::Mcc::new(0),
            mnc: plmn::Mnc::new_long(0),
            lac: 0,
            cell_id: 0,
            freq_and_channel: GsmFrequencyBandAndChannel::Unknown,
            rx_lev: 0,
            track_lo_adjust: 0,
            c1: 0,
            c2: 0,
        }
    }
}

#[derive(Debug, Clone, Copy, PartialEq)]
pub struct LteModeParameters {
    pub mcc: plmn::Mcc,
    pub mnc: plmn::Mnc,
    pub tac: u16,
    pub serving_cell_id: u32,
    pub phys_cell_id: u16,
    pub freq_band: LteFrequencyBand,
    pub e_ultra_channel_num: u16,
    pub downlink_bandwidth: u8,
    pub uplink_bandwidth: u8,
    pub rsrq: i16,
    pub rsrp: i16,
    pub rssi: i16,
    pub rssnr: i16,
}

pub open spec fn default_lte_parameters() -> LteModeParameters {
    LteModeParameters {
        mcc: plmn::Mcc::spec_new(0),
        mnc: plmn::Mnc::spec_new(0, false),
        tac: 0,
        serving_cell_id: 0,
        phys_cell_id: 0,
        freq_band: LteFrequencyBand::Unknown,
        e_ultra_channel_num: 0,
        downlink_bandwidth: 0,
        uplink_bandwidth: 0,
        rsrq: 0,
        rsrp: 0,
        rssi: 0,
        rssnr: 0,
    }
}

impl Default for LteModeParameters {
    fn default() -> (p: Self)
        ensures
            p == default_lte_parameters(),
    {
        LteModeParameters {
            mcc: plmn::Mcc::new(0),
            mnc: plmn::Mnc::new_long(0),
            tac: 0,
            serving_cell_id: 0,
            phys_cell_id: 0,
            freq_band: LteFrequencyBand::Unknown,
            e_ultra_channel_num: 0,
            downlink_bandwidth: 0,
            uplink_bandwidth: 0,
            rsrq: 0,
            rsrp: 0,
            rssi: 0,
            rssnr: 0,
        }
    }
}

#[derive(Debug, Clone, Copy, PartialEq)]
pub enum SystemModeParameters {
    NoService,
    Gsm(GsmModeParameters),
    LteCatM1(LteModeParameters),
    LteNbIot(LteModeParameters),
}

pub open spec fn spec_mode(p: SystemModeParameters) -> SystemMode {
    match p {
        SystemModeParameters::NoService => SystemMode::NoService,
        SystemModeParameters::Gsm(_) => SystemMode::Gsm,
        SystemModeParameters::LteCatM1(_) => SystemMode::LteCatM1,
        SystemModeParameters::LteNbIot(_) => SystemMode::LteNbIot,
    }
}

impl SystemModeParameters {
    /// The [SystemMode] of these parameters.
    pub fn mode(&self) -> (m: SystemMode)
        ensures
            m == spec_mode(*self),
    {
        match self {
            Self::NoService => SystemMode::NoService,
            Self::Gsm(_) => SystemMode::Gsm,
            Self::LteCatM1(_) => SystemMode::LteCatM1,
            Self::LteNbIot(_) => SystemMode::LteNbIot,
        }
    }
}

#[derive(Clone, Copy, Debug, PartialEq, Eq)]
pub enum OperationMode {
    Online,
    Offline,
    FactoryTest,
    Reset,
    LowPower,
}

impl OperationMode {
    pub open spec fn spec_from_str(s: Seq<char>) -> Result<Self, AtParseErr> {
        if s == "Online"@ {
            Ok(OperationMode::Online)
        } else if s == "Offline"@ {
            Ok(OperationMode::Offline)
        } else if s == "Factory Test Mode"@ {
            Ok(OperationMode::FactoryTest)
        } else if s == "Reset"@ {
            Ok(OperationMode::Reset)
        } else if s == "Low Power Mode"@ {
            Ok(OperationMode::LowPower)
        } else {
            Err(AtParseErr::Parsing("Failed to parse Operation Mode"))
        }
    }

    pub fn from_chars(s: &[char]) -> (r: Result<Self, AtParseErr>)
        ensures
            r == Self::spec_from_str(s@),
    {
        if eq_str(s, "Online") {
            Ok(OperationMode::Online)
        } else if eq_str(s, "Offline") {
            Ok(OperationMode::Offline)
        } else if eq_str(s, "Factory Test Mode") {
            Ok(OperationMode::FactoryTest)
        } else if eq_str(s, "Reset") {
            Ok(OperationMode::Reset)
        } else if eq_str(s, "Low Power Mode") {
            Ok(OperationMode::LowPower)
        } else {
            Err(AtParseErr::Parsing("Failed to parse Operation Mode"))
        }
    }

    pub fn from_str(s: &str) -> (r: Result<Self, AtParseErr>)
        ensures
            r == Self::spec_from_str(s@),
    {
        let v = chars_of(s);
        Self::from_chars(v.as_slice())
    }
}

#[derive(Clone, Copy, Debug, PartialEq)]
pub struct SystemInfo {
    pub operation_mode: OperationMode,
    pub system_mode_parameters: SystemModeParameters,
}

impl View for SystemInfo {
    type V = SystemInfo;

    open spec fn view(&self) -> SystemInfo {
        *self
    }
}

impl SystemInfo {
    pub fn system_mode(&self) -> (m: SystemMode)
        ensures
            m == spec_mode(self.system_mode_parameters),
    {
        self.system_mode_parameters.mode()
    }
}

/// A `u16` written in hexadecimal after `0x`, or else in decimal.
pub open spec fn spec_hex_or_decimal_u16(s: Seq<char>) -> Option<u16> {
    match strip_prefix(s, "0x"@) {
        Some(h) => match parse_unsigned(h, 16, u16::MAX as nat) {
            Some(v) => Some(v as u16),
            None => None,
        },
        None => match parse_unsigned(s, 10, u16::MAX as nat) {
            Some(v) => Some(v as u16),
            None => None,
        },
    }
}

pub fn hex_or_decimal_u16(s: &[char]) -> (r: Option<u16>)
    ensures
        r == spec_hex_or_decimal_u16(s@),
{
    match strip_prefix_exec(s, "0x") {
        Some(h) => match parse_unsigned_exec(h, 16, u16::MAX as u64) {
            Some(v) => Some(v as u16),
            None => None,
        },
        None => match parse_u16(s) {
            Some(v) => Some(v),
            None => None,
        },
    }
}

pub open spec fn spec_system_mode(s: Seq<char>) -> Option<SystemMode> {
    if s == "NO SERVICE"@ {
        Some(SystemMode::NoService)
    } else if s == "GSM"@ {
        Some(SystemMode::Gsm)
    } else if s == "LTE CAT-M1"@ {
        Some(SystemMode::LteCatM1)
    } else if s == "LTE NB-IOT"@ {
        Some(SystemMode::LteNbIot)
    } else {
        None
    }
}

fn system_mode_of(s: &[char]) -> (r: Option<SystemMode>)
    ensures
        r == spec_system_mode(s@),
{
    if eq_str(s, "NO SERVICE") {
        Some(SystemMode::NoService)
    } else if eq_str(s, "GSM") {
        Some(SystemMode::Gsm)
    } else if eq_str(s, "LTE CAT-M1") {
        Some(SystemMode::LteCatM1)
    } else if eq_str(s, "LTE NB-IOT") {
        Some(SystemMode::LteNbIot)
    } else {
        None
    }
}

/// The GSM parameters after the operation mode:
/// `<mcc>-<mnc>,<lac>,<cell id>,<band>,<rx lev>,<lo adjust>,<c1>-<c2>`.
pub open spec fn spec_gsm_parameters(rest: Seq<char>) -> Result<GsmModeParameters, AtParseErr> {
    let p = splitn(rest, 7, ',');
    if p.len() != 7 {
        Err(AtParseErr::Parsing("Missing ','"))
    } else {
        match split_once(p[0], '-') {
            None => Err(AtParseErr::Parsing("Missing '-' in mcc-mnc parameter")),
            Some((mcc, mnc)) => match split_once(p[6], '-') {
                None => Err(AtParseErr::Parsing("Missing '-' in c1-c2 parameter")),
                Some((c1, c2)) => match plmn::Mcc::spec_from_str(mcc) {
                    None => Err(AtParseErr::Parsing("Failed to parse mcc parameter")),
                    Some(mcc) => match plmn::Mnc::spec_from_str(mnc) {
                        None => Err(AtParseErr::Parsing("Failed to parse mnc parameter")),
                        Some(mnc) => match spec_hex_or_decimal_u16(p[1]) {
                            None => Err(AtParseErr::Parsing("Failed to parse lac")),
                            Some(lac) => match GsmFrequencyBandAndChannel::spec_from_str(
                                trim(p[3]),
                            ) {
                                Err(e) => Err(e),
                                Ok(freq_and_channel) => match parse_unsigned(
                                    p[2],
                                    10,
                                    u16::MAX as nat,
                                ) {
                                    None => Err(AtParseErr::Parsing("Failed to parse cell id")),
                                    Some(cell_id) => match parse_signed(
                                        p[4],
                                        10,
                                        i16::MIN as int,
                                        i16::MAX as int,
                                    ) {
                                        None => Err(AtParseErr::Parsing("Failed to parse rx level")),
                                        Some(rx_lev) => match parse_unsigned(
                                            p[5],
                                            10,
                                            u16::MAX as nat,
                                        ) {
                                            None => Err(
                                                AtParseErr::Parsing("Failed to parse lo adjust"),
                                            ),
                                            Some(track_lo_adjust) => match parse_unsigned(
                                                c1,
                                                10,
                                                u16::MAX as nat,
                                            ) {
                                                None => Err(int_err()),
                                                Some(c1) => match parse_unsigned(
                                                    c2,
                                                    10,
                                                    u16::MAX as nat,
                                                ) {
                                                    None => Err(int_err()),
                                                    Some(c2) => Ok(
                                                        GsmModeParameters {
                                                            mcc,
                                                            mnc,
                                                            lac,
                                                            cell_id: cell_id as u16,
                                                            freq_and_channel,
                                                            rx_lev: rx_lev as i16,
                                                            track_lo_adjust: track_lo_adjust as u16,
                                                            c1: c1 as u16,
                                                            c2: c2 as u16,
                                                        },
                                                    ),
                                                },
                                            },
                                        },
                                    },
                                },
                            },
                        },
                    },
                },
            },
        }
    }
}

fn gsm_parameters(rest: &[char]) -> (r: Result<GsmModeParameters, AtParseErr>)
    ensures
        r == spec_gsm_parameters(rest@),
{
    let p = splitn_exec(rest, 7, ',');
    if p.len() != 7 {
        return Err(AtParseErr::Parsing("Missing ','"));
    }
    assert(views(p@)[0] == p@[0]@);
    assert(views(p@)[1] == p@[1]@);
    assert(views(p@)[2] == p@[2]@);
    assert(views(p@)[3] == p@[3]@);
    assert(views(p@)[4] == p@[4]@);
    assert(views(p@)[5] == p@[5]@);
    assert(views(p@)[6] == p@[6]@);
    let (mcc, mnc) = match split_once_exec(p[0], '-') {
        Some(x) => x,
        None => return Err(AtParseErr::Parsing("Missing '-' in mcc-mnc parameter")),
    };
    let (c1, c2) = match split_once_exec(p[6], '-') {
        Some(x) => x,
        None => return Err(AtParseErr::Parsing("Missing '-' in c1-c2 parameter")),
    };
    let mcc = match plmn::Mcc::from_chars(mcc) {
        Some(x) => x,
        None => return Err(AtParseErr::Parsing("Failed to parse mcc parameter")),
    };
    let mnc = match plmn::Mnc::from_chars(mnc) {
        Some(x) => x,
        None => return Err(AtParseErr::Parsing("Failed to parse mnc parameter")),
    };
    let lac = match hex_or_decimal_u16(p[1]) {
        Some(x) => x,
        None => return Err(AtParseErr::Parsing("Failed to parse lac")),
    };
    let freq_and_channel = match GsmFrequencyBandAndChannel::from_chars(trim_exec(p[3])) {
        Ok(x) => x,
        Err(e) => return Err(e),
    };
    let cell_id = match parse_u16(p[2]) {
        Some(x) => x,
        None => return Err(AtParseErr::Parsing("Failed to parse cell id")),
    };
    let rx_lev = match parse_i16(p[4]) {
        Some(x) => x,
        None => return Err(AtParseErr::Parsing("Failed to parse rx level")),
    };
    let track_lo_adjust = match parse_u16(p[5]) {
        Some(x) => x,
        None => return Err(AtParseErr::Parsing("Failed to parse lo adjust")),
    };
    let c1 = match parse_u16(c1) {
        Some(x) => x,
        None => return Err(int_err_exec()),
    };
    let c2 = match parse_u16(c2) {
        Some(x) => x,
        None => return Err(int_err_exec()),
    };
    Ok(
        GsmModeParameters {
            mcc,
            mnc,
            lac,
            cell_id,
            freq_and_channel,
            rx_lev,
            track_lo_adjust,
            c1,
            c2,
        },
    )
}

/// An unsigned field, surrounding whitespace allowed.
pub open spec fn spec_field_unsigned(s: Seq<char>, max: nat) -> Result<nat, AtParseErr> {
    match parse_unsigned(trim(s), 10, max) {
        Some(v) => Ok(v),
        None => Err(int_err()),
    }
}

/// A signed field, surrounding whitespace allowed.
pub open spec fn spec_field_signed(s: Seq<char>, min: int, max: int) -> Result<int, AtParseErr> {
    match parse_signed(trim(s), 10, min, max) {
        Some(v) => Ok(v),
        None => Err(int_err()),
    }
}

/// The LTE parameters after the operation mode:
/// `<mcc>-<mnc>,<tac>,<serving cell>,<phys cell>,<band>,<channel>,<dl bw>,<ul bw>,<rsrq>,<rsrp>,<rssi>,<rssnr>`.
pub open spec fn spec_lte_parameters(rest: Seq<char>) -> Result<LteModeParameters, AtParseErr> {
    let p = splitn(rest, 12, ',');
    if p.len() != 12 {
        Err(AtParseErr::Parsing("Missing ','"))
    } else {
        match split_once(p[0], '-') {
            None => Err(AtParseErr::Parsing("Missing '-' in mcc-mnc parameter")),
            Some((mcc, mnc)) => match plmn::Mcc::spec_from_str(mcc) {
                None => Err(AtParseErr::Parsing("Failed to parse mcc parameter")),
                Some(mcc) => match plmn::Mnc::spec_from_str(mnc) {
                    None => Err(AtParseErr::Parsing("Failed to parse mnc parameter")),
                    Some(mnc) => match spec_hex_or_decimal_u16(p[1]) {
                        None => Err(AtParseErr::Parsing("Failed to parse tac")),
                        Some(tac) => match LteFrequencyBand::spec_from_str(trim(p[4])) {
                            Err(e) => Err(e),
                            Ok(freq_band) => spec_lte_numbers(mcc, mnc, tac, freq_band, p),
                        },
                    },
                },
            },
        }
    }
}

/// The numeric LTE fields, read in the order they are listed.
pub open spec fn spec_lte_numbers(
    mcc: plmn::Mcc,
    mnc: plmn::Mnc,
    tac: u16,
    freq_band: LteFrequencyBand,
    p: Seq<Seq<char>>,
) -> Result<LteModeParameters, AtParseErr> {
    match spec_field_unsigned(p[2], u32::MAX as nat) {
        Err(e) => Err(e),
        Ok(serving_cell_id) => match spec_field_unsigned(p[3], u16::MAX as nat) {
            Err(e) => Err(e),
            Ok(phys_cell_id) => match spec_field_unsigned(p[5], u16::MAX as nat) {
                Err(e) => Err(e),
                Ok(e_ultra_channel_num) => match spec_field_unsigned(p[6], u8::MAX as nat) {
                    Err(e) => Err(e),
                    Ok(downlink_bandwidth) => match spec_field_unsigned(p[7], u8::MAX as nat) {
                        Err(e) => Err(e),
                        Ok(uplink_bandwidth) => match spec_field_signed(
                            p[8],
                            i16::MIN as int,
                            i16::MAX as int,
                        ) {
                            Err(e) => Err(e),
                            Ok(rsrq) => match spec_field_signed(
                                p[9],
                                i16::MIN as int,
                                i16::MAX as int,
                            ) {
                                Err(e) => Err(e),
                                Ok(rsrp) => match spec_field_signed(
                                    p[10],
                                    i16::MIN as int,
                                    i16::MAX as int,
                                ) {
                                    Err(e) => Err(e),
                                    Ok(rssi) => match spec_field_signed(
                                        p[11],
                                        i16::MIN as int,
                                        i16::MAX as int,
                                    ) {
                                        Err(e) => Err(e),
                                        Ok(rssnr) => Ok(
                                            LteModeParameters {
                                                mcc,
                                                mnc,
                                                tac,
                                                serving_cell_id: serving_cell_id as u32,
                                                phys_cell_id: phys_cell_id as u16,
                                                freq_band,
                                                e_ultra_channel_num: e_ultra_channel_num as u16,
                                                downlink_bandwidth: downlink_bandwidth as u8,
                                                uplink_bandwidth: uplink_bandwidth as u8,
                                                rsrq: rsrq as i16,
                                                rsrp: rsrp as i16,
                                                rssi: rssi as i16,
                                                rssnr: rssnr as i16,
                                            },
                                        ),
                                    },
                                },
                            },
                        },
                    },
                },
            },
        },
    }
}

fn field_unsigned(s: &[char], max: u64) -> (r: Result<u64, AtParseErr>)
    ensures
        match r {
            Ok(v) => spec_field_unsigned(s@, max as nat) == Ok::<nat, AtParseErr>(v as nat),
            Err(e) => spec_field_unsigned(s@, max as nat) == Err::<nat, AtParseErr>(e),
        },
{
    match parse_unsigned_exec(trim_exec(s), 10, max) {
        Some(v) => Ok(v),
        None => Err(int_err_exec()),
    }
}

fn field_signed(s: &[char], min: i64, max: i64) -> (r: Result<i64, AtParseErr>)
    requires
        min <= 0 <= max,
    ensures
        match r {
            Ok(v) => spec_field_signed(s@, min as int, max as int) == Ok::<int, AtParseErr>(
                v as int,
            ),
            Err(e) => spec_field_signed(s@, min as int, max as int) == Err::<int, AtParseErr>(e),
        },
{
    match parse_signed_exec(trim_exec(s), 10, min, max) {
        Some(v) => Ok(v),
        None => Err(int_err_exec()),
    }
}

fn lte_parameters(rest: &[char]) -> (r: Result<LteModeParameters, AtParseErr>)
    ensures
        r == spec_lte_parameters(rest@),
{
    let p = splitn_exec(rest, 12, ',');
    if p.len() != 12 {
        return Err(AtParseErr::Parsing("Missing ','"));
    }
    let ghost ps = views(p@);
    assert(ps[0] == p@[0]@ && ps[1] == p@[1]@ && ps[2] == p@[2]@ && ps[3] == p@[3]@);
    assert(ps[4] == p@[4]@ && ps[5] == p@[5]@ && ps[6] == p@[6]@ && ps[7] == p@[7]@);
    assert(ps[8] == p@[8]@ && ps[9] == p@[9]@ && ps[10] == p@[10]@ && ps[11] == p@[11]@);
    let (mcc, mnc) = match split_once_exec(p[0], '-') {
        Some(x) => x,
        None => return Err(AtParseErr::Parsing("Missing '-' in mcc-mnc parameter")),
    };
    let mcc = match plmn::Mcc::from_chars(mcc) {
        Some(x) => x,
        None => return Err(AtParseErr::Parsing("Failed to parse mcc parameter")),
    };
    let mnc = match plmn::Mnc::from_chars(mnc) {
        Some(x) => x,
        None => return Err(AtParseErr::Parsing("Failed to parse mnc parameter")),
    };
    let tac = match hex_or_decimal_u16(p[1]) {
        Some(x) => x,
        None => return Err(AtParseErr::Parsing("Failed to parse tac")),
    };
    let freq_band = match LteFrequencyBand::from_chars(trim_exec(p[4])) {
        Ok(x) => x,
        Err(e) => return Err(e),
    };
    let serving_cell_id = field_unsigned(p[2], u32::MAX as u64)?;
    let phys_cell_id = field_unsigned(p[3], u16::MAX as u64)?;
    let e_ultra_channel_num = field_unsigned(p[5], u16::MAX as u64)?;
    let downlink_bandwidth = field_unsigned(p[6], u8::MAX as u64)?;
    let uplink_bandwidth = field_unsigned(p[7], u8::MAX as u64)?;
    let rsrq = field_signed(p[8], i16::MIN as i64, i16::MAX as i64)?;
    let rsrp = field_signed(p[9], i16::MIN as i64, i16::MAX as i64)?;
    let rssi = field_signed(p[10], i16::MIN as i64, i16::MAX as i64)?;
    let rssnr = field_signed(p[11], i16::MIN as i64, i16::MAX as i64)?;
    Ok(
        LteModeParameters {
            mcc,
            mnc,
            tac,
            serving_cell_id: serving_cell_id as u32,
            phys_cell_id: phys_cell_id as u16,
            freq_band,
            e_ultra_channel_num: e_ultra_channel_num as u16,
            downlink_bandwidth: downlink_bandwidth as u8,
            uplink_bandwidth: uplink_bandwidth as u8,
            rsrq: rsrq as i16,
            rsrp: rsrp as i16,
            rssi: rssi as i16,
            rssnr: rssnr as i16,
        },
    )
}

/// The parameters of a system mode when the line lists them.
pub open spec fn spec_mode_parameters(mode: SystemMode, rest: Seq<char>) -> Result<
    SystemModeParameters,
    AtParseErr,
> {
    match mode {
        SystemMode::NoService => Ok(SystemModeParameters::NoService),
        SystemMode::Gsm => match spec_gsm_parameters(rest) {
            Ok(p) => Ok(SystemModeParameters::Gsm(p)),
            Err(e) => Err(e),
        },
        SystemMode::LteCatM1 => match spec_lte_parameters(rest) {
            Ok(p) => Ok(SystemModeParameters::LteCatM1(p)),
            Err(e) => Err(e),
        },
        SystemMode::LteNbIot => match spec_lte_parameters(rest) {
            Ok(p) => Ok(SystemModeParameters::LteNbIot(p)),
            Err(e) => Err(e),
        },
    }
}

/// The parameters of a system mode when the line lists none.
pub open spec fn spec_default_parameters(mode: SystemMode) -> SystemModeParameters {
    match mode {
        SystemMode::NoService => SystemModeParameters::NoService,
        SystemMode::Gsm => SystemModeParameters::Gsm(default_gsm_parameters()),
        SystemMode::LteCatM1 => SystemModeParameters::LteCatM1(default_lte_parameters()),
        SystemMode::LteNbIot => SystemModeParameters::LteNbIot(default_lte_parameters()),
    }
}

/// `+CPSI: <system mode>,<operation mode>[,<parameters>]`
pub open spec fn spec_system_info(line: Seq<char>) -> Result<SystemInfo, AtParseErr> {
    match strip_prefix(line, "+CPSI:"@) {
        None => Err(AtParseErr::Mismatch),
        Some(line) => match split_once(line, ',') {
            None => Err(AtParseErr::Parsing("Missing ','")),
            Some((system_mode, rest)) => match spec_system_mode(trim(system_mode)) {
                None => Err(AtParseErr::Parsing("Failed to parse System Mode")),
                Some(mode) => match split_once(rest, ',') {
                    Some((operation_mode, rest)) => match OperationMode::spec_from_str(
                        operation_mode,
                    ) {
                        Err(e) => Err(e),
                        Ok(operation_mode) => match spec_mode_parameters(mode, rest) {
                            Err(e) => Err(e),
                            Ok(system_mode_parameters) => Ok(
                                SystemInfo { operation_mode, system_mode_parameters },
                            ),
                        },
                    },
                    None => match OperationMode::spec_from_str(rest) {
                        Err(e) => Err(e),
                        Ok(operation_mode) => Ok(
                            SystemInfo {
                                operation_mode,
                                system_mode_parameters: spec_default_parameters(mode),
                            },
                        ),
                    },
                },
            },
        },
    }
}

impl SystemInfo {
    pub fn from_chars(line: &[char]) -> (r: Result<Self, AtParseErr>)
        ensures
            r == spec_system_info(line@),
    {
        let line = match strip_prefix_exec(line, "+CPSI:") {
            Some(l) => l,
            None => return Err(AtParseErr::Mismatch),
        };
        let (system_mode, rest) = match split_once_exec(line, ',') {
            Some(x) => x,
            None => return Err(AtParseErr::Parsing("Missing ','")),
        };
        let mode = match system_mode_of(trim_exec(system_mode)) {
            Some(m) => m,
            None => return Err(AtParseErr::Parsing("Failed to parse System Mode")),
        };
        match split_once_exec(rest, ',') {
            Some((operation_mode, rest)) => {
                let operation_mode = OperationMode::from_chars(operation_mode)?;
                let system_mode_parameters = match mode {
                    SystemMode::NoService => SystemModeParameters::NoService,
                    SystemMode::Gsm => SystemModeParameters::Gsm(gsm_parameters(rest)?),
                    SystemMode::LteCatM1 => SystemModeParameters::LteCatM1(lte_parameters(rest)?),
                    SystemMode::LteNbIot => SystemModeParameters::LteNbIot(lte_parameters(rest)?),
                };
                Ok(SystemInfo { operation_mode, system_mode_parameters })
            },
            None => {
                let operation_mode = OperationMode::from_chars(rest)?;
                let system_mode_parameters = match mode {
                    SystemMode::NoService => SystemModeParameters::NoService,
                    SystemMode::Gsm => SystemModeParameters::Gsm(GsmModeParameters::default()),
                    SystemMode::LteCatM1 => SystemModeParameters::LteCatM1(
                        LteModeParameters::default(),
                    ),
                    SystemMode::LteNbIot => SystemModeParameters::LteNbIot(
                        LteModeParameters::default(),
                    ),
                };
                Ok(SystemInfo { operation_mode, system_mode_parameters })
            },
        }
    }
}

impl AtParseLine for SystemInfo {
    open spec fn spec_from_line(line: Seq<char>, instant: Instant) -> Result<SystemInfo, AtParseErr> {
        spec_system_info(line)
    }

    fn from_line(line: &str, instant: &Instant) -> (r: Result<Self, AtParseErr>) {
        let v = chars_of(line);
        Self::from_chars(v.as_slice())
    }
}

/// The first argument of a `+CPSI:` line, with surrounding whitespace removed:
/// the name of the system mode the modem reports.
pub open spec fn reported_mode_name(line: Seq<char>) -> Seq<char> {
    match strip_prefix(line, "+CPSI:"@) {
        Some(rest) => match split_once(rest, ',') {
            Some((first, _)) => trim(first),
            None => rest,
        },
        None => line,
    }
}

/// Whatever a `+CPSI:` line that parses goes on to list, its parameters are those of
/// the system mode named by its first argument: `NO SERVICE`, `GSM`, `LTE CAT-M1`
/// and `LTE NB-IOT` name four distinct modes, and no other name parses.
pub proof fn law_system_mode_is_named(line: Seq<char>, info: SystemInfo)
    requires
        spec_system_info(line) == Ok::<SystemInfo, AtParseErr>(info),
    ensures
        reported_mode_name(line) == "NO SERVICE"@ <==> spec_mode(info.system_mode_parameters)
            == SystemMode::NoService,
        reported_mode_name(line) == "GSM"@ <==> spec_mode(info.system_mode_parameters)
            == SystemMode::Gsm,
        reported_mode_name(line) == "LTE CAT-M1"@ <==> spec_mode(info.system_mode_parameters)
            == SystemMode::LteCatM1,
        reported_mode_name(line) == "LTE NB-IOT"@ <==> spec_mode(info.system_mode_parameters)
            == SystemMode::LteNbIot,
{
    reveal_strlit("NO SERVICE");
    reveal_strlit("GSM");
    reveal_strlit("LTE CAT-M1");
    reveal_strlit("LTE NB-IOT");
    assert("NO SERVICE"@ != "GSM"@) by {
        assert("NO SERVICE"@.len() != "GSM"@.len());
    }
    assert("NO SERVICE"@ != "LTE CAT-M1"@) by {
        assert("NO SERVICE"@[0] != "LTE CAT-M1"@[0]);
    }
    assert("NO SERVICE"@ != "LTE NB-IOT"@) by {
        assert("NO SERVICE"@[0] != "LTE NB-IOT"@[0]);
    }
    assert("GSM"@ != "LTE CAT-M1"@) by {
        assert("GSM"@.len() != "LTE CAT-M1"@.len());
    }
    assert("GSM"@ != "LTE NB-IOT"@) by {
        assert("GSM"@.len() != "LTE NB-IOT"@.len());
    }
    assert("LTE CAT-M1"@ != "LTE NB-IOT"@) by {
        assert("LTE CAT-M1"@[4] != "LTE NB-IOT"@[4]);
    }
    let rest = strip_prefix(line, "+CPSI:"@).unwrap();
    let (first, after) = split_once(rest, ',').unwrap();
    let mode = spec_system_mode(trim(first)).unwrap();
    assert(reported_mode_name(line) == trim(first));
    assert(spec_mode(info.system_mode_parameters) == mode);
}

/// Each operation mode is read from its own name, and from no other text: `Online`,
/// `Offline`, `Factory Test Mode`, `Reset` and `Low Power Mode`.
pub proof fn law_operation_mode_names(s: Seq<char>)
    ensures
        OperationMode::spec_from_str(s) == Ok::<OperationMode, AtParseErr>(OperationMode::Online) <==> s
            == "Online"@,
        OperationMode::spec_from_str(s) == Ok::<OperationMode, AtParseErr>(OperationMode::Offline) <==> s
            == "Offline"@,
        OperationMode::spec_from_str(s) == Ok::<OperationMode, AtParseErr>(OperationMode::FactoryTest) <==> s
            == "Factory Test Mode"@,
        OperationMode::spec_from_str(s) == Ok::<OperationMode, AtParseErr>(OperationMode::Reset) <==> s
            == "Reset"@,
        OperationMode::spec_from_str(s) == Ok::<OperationMode, AtParseErr>(OperationMode::LowPower) <==> s
            == "Low Power Mode"@,
{
    reveal_strlit("Online");
    reveal_strlit("Offline");
    reveal_strlit("Factory Test Mode");
    reveal_strlit("Reset");
    reveal_strlit("Low Power Mode");
    assert("Online"@ != "Offline"@) by {
        assert("Online"@.len() != "Offline"@.len());
    }
    assert("Online"@ != "Factory Test Mode"@) by {
        assert("Online"@.len() != "Factory Test Mode"@.len());
    }
    assert("Online"@ != "Reset"@) by {
        assert("Online"@.len() != "Reset"@.len());
    }
    assert("Online"@ != "Low Power Mode"@) by {
        assert("Online"@.len() != "Low Power Mode"@.len());
    }
    assert("Offline"@ != "Factory Test Mode"@) by {
        assert("Offline"@.len() != "Factory Test Mode"@.len());
    }
    assert("Offline"@ != "Reset"@) by {
        assert("Offline"@.len() != "Reset"@.len());
    }
    assert("Offline"@ != "Low Power Mode"@) by {
        assert("Offline"@.len() != "Low Power Mode"@.len());
    }
    assert("Factory Test Mode"@ != "Reset"@) by {
        assert("Factory Test Mode"@.len() != "Reset"@.len());
    }
    assert("Factory Test Mode"@ != "Low Power Mode"@) by {
        assert("Factory Test Mode"@.len() != "Low Power Mode"@.len());
    }
    assert("Reset"@ != "Low Power Mode"@) by {
        assert("Reset"@.len() != "Low Power Mode"@.len());
    }
}

/// Each GSM band is read from its own name, and from no other text; the bands that
/// have channels carry the channel given with the name.
pub proof fn law_gsm_band_names(name: Seq<char>, channel: u16)
    ensures
        spec_gsm_band(name, channel) == Ok::<GsmFrequencyBandAndChannel, AtParseErr>(
            GsmFrequencyBandAndChannel::TGSM380,
        ) <==> name == "TGSM 380"@,
        spec_gsm_band(name, channel) == Ok::<GsmFrequencyBandAndChannel, AtParseErr>(
            GsmFrequencyBandAndChannel::TGSM410,
        ) <==> name == "TGSM 410"@,
        spec_gsm_band(name, channel) == Ok::<GsmFrequencyBandAndChannel, AtParseErr>(
            GsmFrequencyBandAndChannel::GSM450(channel),
        ) <==> name == "GSM 450"@,
        spec_gsm_band(name, channel) == Ok::<GsmFrequencyBandAndChannel, AtParseErr>(
            GsmFrequencyBandAndChannel::GSM480(channel),
        ) <==> name == "GSM 480"@,
        spec_gsm_band(name, channel) == Ok::<GsmFrequencyBandAndChannel, AtParseErr>(
            GsmFrequencyBandAndChannel::GSM710,
        ) <==> name == "GSM 710"@,
        spec_gsm_band(name, channel) == Ok::<GsmFrequencyBandAndChannel, AtParseErr>(
            GsmFrequencyBandAndChannel::GSM750(channel),
        ) <==> name == "GSM 750"@,
        spec_gsm_band(name, channel) == Ok::<GsmFrequencyBandAndChannel, AtParseErr>(
            GsmFrequencyBandAndChannel::TGSM810,
        ) <==> name == "TGSM 810"@,
        spec_gsm_band(name, channel) == Ok::<GsmFrequencyBandAndChannel, AtParseErr>(
            GsmFrequencyBandAndChannel::GSM850(channel),
        ) <==> name == "GSM 850"@,
        spec_gsm_band(name, channel) == Ok::<GsmFrequencyBandAndChannel, AtParseErr>(
            GsmFrequencyBandAndChannel::PGSM900(channel),
        ) <==> name == "PGSM 900"@,
        spec_gsm_band(name, channel) == Ok::<GsmFrequencyBandAndChannel, AtParseErr>(
            GsmFrequencyBandAndChannel::EGSM900(channel),
        ) <==> name == "EGSM 900"@,
        spec_gsm_band(name, channel) == Ok::<GsmFrequencyBandAndChannel, AtParseErr>(
            GsmFrequencyBandAndChannel::RGSM900(channel),
        ) <==> name == "RGSM 900"@,
        spec_gsm_band(name, channel) == Ok::<GsmFrequencyBandAndChannel, AtParseErr>(
            GsmFrequencyBandAndChannel::TGSM900,
        ) <==> name == "TGSM 900"@,
        spec_gsm_band(name, channel) == Ok::<GsmFrequencyBandAndChannel, AtParseErr>(
            GsmFrequencyBandAndChannel::DCS1800(channel),
        ) <==> name == "DCS 1800"@,
        spec_gsm_band(name, channel) == Ok::<GsmFrequencyBandAndChannel, AtParseErr>(
            GsmFrequencyBandAndChannel::PCS1900(channel),
        ) <==> name == "PCS 1900"@,
{
    reveal_strlit("TGSM 380");
    reveal_strlit("TGSM 410");
    reveal_strlit("GSM 450");
    reveal_strlit("GSM 480");
    reveal_strlit("GSM 710");
    reveal_strlit("GSM 750");
    reveal_strlit("TGSM 810");
    reveal_strlit("GSM 850");
    reveal_strlit("PGSM 900");
    reveal_strlit("EGSM 900");
    reveal_strlit("RGSM 900");
    reveal_strlit("TGSM 900");
    reveal_strlit("DCS 1800");
    reveal_strlit("PCS 1900");
    assert("TGSM 380"@ != "TGSM 410"@) by {
        assert("TGSM 380"@[5] != "TGSM 410"@[5]);
    }
    assert("TGSM 380"@ != "GSM 450"@) by {
        assert("TGSM 380"@.len() != "GSM 450"@.len());
    }
    assert("TGSM 380"@ != "GSM 480"@) by {
        assert("TGSM 380"@.len() != "GSM 480"@.len());
    }
    assert("TGSM 380"@ != "GSM 710"@) by {
        assert("TGSM 380"@.len() != "GSM 710"@.len());
    }
    assert("TGSM 380"@ != "GSM 750"@) by {
        assert("TGSM 380"@.len() != "GSM 750"@.len());
    }
    assert("TGSM 380"@ != "TGSM 810"@) by {
        assert("TGSM 380"@[5] != "TGSM 810"@[5]);
    }
    assert("TGSM 380"@ != "GSM 850"@) by {
        assert("TGSM 380"@.len() != "GSM 850"@.len());
    }
    assert("TGSM 380"@ != "PGSM 900"@) by {
        assert("TGSM 380"@[0] != "PGSM 900"@[0]);
    }
    assert("TGSM 380"@ != "EGSM 900"@) by {
        assert("TGSM 380"@[0] != "EGSM 900"@[0]);
    }
    assert("TGSM 380"@ != "RGSM 900"@) by {
        assert("TGSM 380"@[0] != "RGSM 900"@[0]);
    }
    assert("TGSM 380"@ != "TGSM 900"@) by {
        assert("TGSM 380"@[5] != "TGSM 900"@[5]);
    }
    assert("TGSM 380"@ != "DCS 1800"@) by {
        assert("TGSM 380"@[0] != "DCS 1800"@[0]);
    }
    assert("TGSM 380"@ != "PCS 1900"@) by {
        assert("TGSM 380"@[0] != "PCS 1900"@[0]);
    }
    assert("TGSM 410"@ != "GSM 450"@) by {
        assert("TGSM 410"@.len() != "GSM 450"@.len());
    }
    assert("TGSM 410"@ != "GSM 480"@) by {
        assert("TGSM 410"@.len() != "GSM 480"@.len());
    }
    assert("TGSM 410"@ != "GSM 710"@) by {
        assert("TGSM 410"@.len() != "GSM 710"@.len());
    }
    assert("TGSM 410"@ != "GSM 750"@) by {
        assert("TGSM 410"@.len() != "GSM 750"@.len());
    }
    assert("TGSM 410"@ != "TGSM 810"@) by {
        assert("TGSM 410"@[5] != "TGSM 810"@[5]);
    }
    assert("TGSM 410"@ != "GSM 850"@) by {
        assert("TGSM 410"@.len() != "GSM 850"@.len());
    }
    assert("TGSM 410"@ != "PGSM 900"@) by {
        assert("TGSM 410"@[0] != "PGSM 900"@[0]);
    }
    assert("TGSM 410"@ != "EGSM 900"@) by {
        assert("TGSM 410"@[0] != "EGSM 900"@[0]);
    }
    assert("TGSM 410"@ != "RGSM 900"@) by {
        assert("TGSM 410"@[0] != "RGSM 900"@[0]);
    }
    assert("TGSM 410"@ != "TGSM 900"@) by {
        assert("TGSM 410"@[5] != "TGSM 900"@[5]);
    }
    assert("TGSM 410"@ != "DCS 1800"@) by {
        assert("TGSM 410"@[0] != "DCS 1800"@[0]);
    }
    assert("TGSM 410"@ != "PCS 1900"@) by {
        assert("TGSM 410"@[0] != "PCS 1900"@[0]);
    }
    assert("GSM 450"@ != "GSM 480"@) by {
        assert("GSM 450"@[5] != "GSM 480"@[5]);
    }
    assert("GSM 450"@ != "GSM 710"@) by {
        assert("GSM 450"@[4] != "GSM 710"@[4]);
    }
    assert("GSM 450"@ != "GSM 750"@) by {
        assert("GSM 450"@[4] != "GSM 750"@[4]);
    }
    assert("GSM 450"@ != "TGSM 810"@) by {
        assert("GSM 450"@.len() != "TGSM 810"@.len());
    }
    assert("GSM 450"@ != "GSM 850"@) by {
        assert("GSM 450"@[4] != "GSM 850"@[4]);
    }
    assert("GSM 450"@ != "PGSM 900"@) by {
        assert("GSM 450"@.len() != "PGSM 900"@.len());
    }
    assert("GSM 450"@ != "EGSM 900"@) by {
        assert("GSM 450"@.len() != "EGSM 900"@.len());
    }
    assert("GSM 450"@ != "RGSM 900"@) by {
        assert("GSM 450"@.len() != "RGSM 900"@.len());
    }
    assert("GSM 450"@ != "TGSM 900"@) by {
        assert("GSM 450"@.len() != "TGSM 900"@.len());
    }
    assert("GSM 450"@ != "DCS 1800"@) by {
        assert("GSM 450"@.len() != "DCS 1800"@.len());
    }
    assert("GSM 450"@ != "PCS 1900"@) by {
        assert("GSM 450"@.len() != "PCS 1900"@.len());
    }
    assert("GSM 480"@ != "GSM 710"@) by {
        assert("GSM 480"@[4] != "GSM 710"@[4]);
    }
    assert("GSM 480"@ != "GSM 750"@) by {
        assert("GSM 480"@[4] != "GSM 750"@[4]);
    }
    assert("GSM 480"@ != "TGSM 810"@) by {
        assert("GSM 480"@.len() != "TGSM 810"@.len());
    }
    assert("GSM 480"@ != "GSM 850"@) by {
        assert("GSM 480"@[4] != "GSM 850"@[4]);
    }
    assert("GSM 480"@ != "PGSM 900"@) by {
        assert("GSM 480"@.len() != "PGSM 900"@.len());
    }
    assert("GSM 480"@ != "EGSM 900"@) by {
        assert("GSM 480"@.len() != "EGSM 900"@.len());
    }
    assert("GSM 480"@ != "RGSM 900"@) by {
        assert("GSM 480"@.len() != "RGSM 900"@.len());
    }
    assert("GSM 480"@ != "TGSM 900"@) by {
        assert("GSM 480"@.len() != "TGSM 900"@.len());
    }
    assert("GSM 480"@ != "DCS 1800"@) by {
        assert("GSM 480"@.len() != "DCS 1800"@.len());
    }
    assert("GSM 480"@ != "PCS 1900"@) by {
        assert("GSM 480"@.len() != "PCS 1900"@.len());
    }
    assert("GSM 710"@ != "GSM 750"@) by {
        assert("GSM 710"@[5] != "GSM 750"@[5]);
    }
    assert("GSM 710"@ != "TGSM 810"@) by {
        assert("GSM 710"@.len() != "TGSM 810"@.len());
    }
    assert("GSM 710"@ != "GSM 850"@) by {
        assert("GSM 710"@[4] != "GSM 850"@[4]);
    }
    assert("GSM 710"@ != "PGSM 900"@) by {
        assert("GSM 710"@.len() != "PGSM 900"@.len());
    }
    assert("GSM 710"@ != "EGSM 900"@) by {
        assert("GSM 710"@.len() != "EGSM 900"@.len());
    }
    assert("GSM 710"@ != "RGSM 900"@) by {
        assert("GSM 710"@.len() != "RGSM 900"@.len());
    }
    assert("GSM 710"@ != "TGSM 900"@) by {
        assert("GSM 710"@.len() != "TGSM 900"@.len());
    }
    assert("GSM 710"@ != "DCS 1800"@) by {
        assert("GSM 710"@.len() != "DCS 1800"@.len());
    }
    assert("GSM 710"@ != "PCS 1900"@) by {
        assert("GSM 710"@.len() != "PCS 1900"@.len());
    }
    assert("GSM 750"@ != "TGSM 810"@) by {
        assert("GSM 750"@.len() != "TGSM 810"@.len());
    }
    assert("GSM 750"@ != "GSM 850"@) by {
        assert("GSM 750"@[4] != "GSM 850"@[4]);
    }
    assert("GSM 750"@ != "PGSM 900"@) by {
        assert("GSM 750"@.len() != "PGSM 900"@.len());
    }
    assert("GSM 750"@ != "EGSM 900"@) by {
        assert("GSM 750"@.len() != "EGSM 900"@.len());
    }
    assert("GSM 750"@ != "RGSM 900"@) by {
        assert("GSM 750"@.len() != "RGSM 900"@.len());
    }
    assert("GSM 750"@ != "TGSM 900"@) by {
        assert("GSM 750"@.len() != "TGSM 900"@.len());
    }
    assert("GSM 750"@ != "DCS 1800"@) by {
        assert("GSM 750"@.len() != "DCS 1800"@.len());
    }
    assert("GSM 750"@ != "PCS 1900"@) by {
        assert("GSM 750"@.len() != "PCS 1900"@.len());
    }
    assert("TGSM 810"@ != "GSM 850"@) by {
        assert("TGSM 810"@.len() != "GSM 850"@.len());
    }
    assert("TGSM 810"@ != "PGSM 900"@) by {
        assert("TGSM 810"@[0] != "PGSM 900"@[0]);
    }
    assert("TGSM 810"@ != "EGSM 900"@) by {
        assert("TGSM 810"@[0] != "EGSM 900"@[0]);
    }
    assert("TGSM 810"@ != "RGSM 900"@) by {
        assert("TGSM 810"@[0] != "RGSM 900"@[0]);
    }
    assert("TGSM 810"@ != "TGSM 900"@) by {
        assert("TGSM 810"@[5] != "TGSM 900"@[5]);
    }
    assert("TGSM 810"@ != "DCS 1800"@) by {
        assert("TGSM 810"@[0] != "DCS 1800"@[0]);
    }
    assert("TGSM 810"@ != "PCS 1900"@) by {
        assert("TGSM 810"@[0] != "PCS 1900"@[0]);
    }
    assert("GSM 850"@ != "PGSM 900"@) by {
        assert("GSM 850"@.len() != "PGSM 900"@.len());
    }
    assert("GSM 850"@ != "EGSM 900"@) by {
        assert("GSM 850"@.len() != "EGSM 900"@.len());
    }
    assert("GSM 850"@ != "RGSM 900"@) by {
        assert("GSM 850"@.len() != "RGSM 900"@.len());
    }
    assert("GSM 850"@ != "TGSM 900"@) by {
        assert("GSM 850"@.len() != "TGSM 900"@.len());
    }
    assert("GSM 850"@ != "DCS 1800"@) by {
        assert("GSM 850"@.len() != "DCS 1800"@.len());
    }
    assert("GSM 850"@ != "PCS 1900"@) by {
        assert("GSM 850"@.len() != "PCS 1900"@.len());
    }
    assert("PGSM 900"@ != "EGSM 900"@) by {
        assert("PGSM 900"@[0] != "EGSM 900"@[0]);
    }
    assert("PGSM 900"@ != "RGSM 900"@) by {
        assert("PGSM 900"@[0] != "RGSM 900"@[0]);
    }
    assert("PGSM 900"@ != "TGSM 900"@) by {
        assert("PGSM 900"@[0] != "TGSM 900"@[0]);
    }
    assert("PGSM 900"@ != "DCS 1800"@) by {
        assert("PGSM 900"@[0] != "DCS 1800"@[0]);
    }
    assert("PGSM 900"@ != "PCS 1900"@) by {
        assert("PGSM 900"@[1] != "PCS 1900"@[1]);
    }
    assert("EGSM 900"@ != "RGSM 900"@) by {
        assert("EGSM 900"@[0] != "RGSM 900"@[0]);
    }
    assert("EGSM 900"@ != "TGSM 900"@) by {
        assert("EGSM 900"@[0] != "TGSM 900"@[0]);
    }
    assert("EGSM 900"@ != "DCS 1800"@) by {
        assert("EGSM 900"@[0] != "DCS 1800"@[0]);
    }
    assert("EGSM 900"@ != "PCS 1900"@) by {
        assert("EGSM 900"@[0] != "PCS 1900"@[0]);
    }
    assert("RGSM 900"@ != "TGSM 900"@) by {
        assert("RGSM 900"@[0] != "TGSM 900"@[0]);
    }
    assert("RGSM 900"@ != "DCS 1800"@) by {
        assert("RGSM 900"@[0] != "DCS 1800"@[0]);
    }
    assert("RGSM 900"@ != "PCS 1900"@) by {
        assert("RGSM 900"@[0] != "PCS 1900"@[0]);
    }
    assert("TGSM 900"@ != "DCS 1800"@) by {
        assert("TGSM 900"@[0] != "DCS 1800"@[0]);
    }
    assert("TGSM 900"@ != "PCS 1900"@) by {
        assert("TGSM 900"@[0] != "PCS 1900"@[0]);
    }
    assert("DCS 1800"@ != "PCS 1900"@) by {
        assert("DCS 1800"@[0] != "PCS 1900"@[0]);
    }
}

/// GSM parameters that parse are read from their documented arguments
/// `<mcc>-<mnc>,<lac>,<cell id>,<band>,<rx lev>,<lo adjust>,<c1>-<c2>`.
pub proof fn law_gsm_parameters_by_position(rest: Seq<char>)
    ensures
        ({
            let p = splitn(rest, 7, ',');
            match spec_gsm_parameters(rest) {
                Ok(g) => {
                    &&& p.len() == 7
                    &&& split_once(p[0], '-') is Some
                    &&& split_once(p[6], '-') is Some
                    &&& plmn::Mcc::spec_from_str(split_once(p[0], '-').unwrap().0) == Some(g.mcc)
                    &&& plmn::Mnc::spec_from_str(split_once(p[0], '-').unwrap().1) == Some(g.mnc)
                    &&& spec_hex_or_decimal_u16(p[1]) == Some(g.lac)
                    &&& parse_unsigned(p[2], 10, u16::MAX as nat) == Some(g.cell_id as nat)
                    &&& GsmFrequencyBandAndChannel::spec_from_str(trim(p[3])) == Ok::<
                        GsmFrequencyBandAndChannel,
                        AtParseErr,
                    >(g.freq_and_channel)
                    &&& parse_signed(p[4], 10, i16::MIN as int, i16::MAX as int) == Some(
                        g.rx_lev as int,
                    )
                    &&& parse_unsigned(p[5], 10, u16::MAX as nat) == Some(g.track_lo_adjust as nat)
                    &&& parse_unsigned(split_once(p[6], '-').unwrap().0, 10, u16::MAX as nat) == Some(
                        g.c1 as nat,
                    )
                    &&& parse_unsigned(split_once(p[6], '-').unwrap().1, 10, u16::MAX as nat) == Some(
                        g.c2 as nat,
                    )
                },
                Err(_) => true,
            }
        }),
{
}

/// LTE parameters that parse are read from their documented arguments
/// `<mcc>-<mnc>,<tac>,<serving cell>,<phys cell>,<band>,<channel>,<dl bw>,<ul bw>,
/// <rsrq>,<rsrp>,<rssi>,<rssnr>`; the numbers may carry surrounding whitespace.
pub proof fn law_lte_parameters_by_position(rest: Seq<char>)
    ensures
        ({
            let p = splitn(rest, 12, ',');
            match spec_lte_parameters(rest) {
                Ok(l) => {
                    &&& p.len() == 12
                    &&& split_once(p[0], '-') is Some
                    &&& plmn::Mcc::spec_from_str(split_once(p[0], '-').unwrap().0) == Some(l.mcc)
                    &&& plmn::Mnc::spec_from_str(split_once(p[0], '-').unwrap().1) == Some(l.mnc)
                    &&& spec_hex_or_decimal_u16(p[1]) == Some(l.tac)
                    &&& parse_unsigned(trim(p[2]), 10, u32::MAX as nat) == Some(
                        l.serving_cell_id as nat,
                    )
                    &&& parse_unsigned(trim(p[3]), 10, u16::MAX as nat) == Some(
                        l.phys_cell_id as nat,
                    )
                    &&& LteFrequencyBand::spec_from_str(trim(p[4])) == Ok::<
                        LteFrequencyBand,
                        AtParseErr,
                    >(l.freq_band)
                    &&& parse_unsigned(trim(p[5]), 10, u16::MAX as nat) == Some(
                        l.e_ultra_channel_num as nat,
                    )
                    &&& parse_unsigned(trim(p[6]), 10, u8::MAX as nat) == Some(
                        l.downlink_bandwidth as nat,
                    )
                    &&& parse_unsigned(trim(p[7]), 10, u8::MAX as nat) == Some(
                        l.uplink_bandwidth as nat,
                    )
                    &&& parse_signed(trim(p[8]), 10, i16::MIN as int, i16::MAX as int) == Some(
                        l.rsrq as int,
                    )
                    &&& parse_signed(trim(p[9]), 10, i16::MIN as int, i16::MAX as int) == Some(
                        l.rsrp as int,
                    )
                    &&& parse_signed(trim(p[10]), 10, i16::MIN as int, i16::MAX as int) == Some(
                        l.rssi as int,
                    )
                    &&& parse_signed(trim(p[11]), 10, i16::MIN as int, i16::MAX as int) == Some(
                        l.rssnr as int,
                    )
                },
                Err(_) => true,
            }
        }),
{
}

/// An area code written after `0x` is read in hexadecimal, and every `u16` written in
/// decimal reads back as itself.
pub proof fn law_area_code_radix(h: Seq<char>, n: u16)
    ensures
        spec_hex_or_decimal_u16("0x"@ + h) == match parse_unsigned(h, 16, u16::MAX as nat) {
            Some(v) => Some(v as u16),
            None => None,
        },
        spec_hex_or_decimal_u16(decimal(n as nat)) == Some(n),
{
    reveal_strlit("0x");
    let x = "0x"@ + h;
    assert(x.subrange(0, 2) =~= "0x"@);
    assert(x.subrange(2, x.len() as int) =~= h);
    let d = decimal(n as nat);
    lemma_decimal_reads_back(n as nat);
    lemma_decimal_padded_reads_back(n as nat, 0, u16::MAX as nat);
    if d.len() >= 2 {
        assert(d.subrange(0, 2)[1] != "0x"@[1]);
    }
}

/// An LTE band is written `EUTRAN-BAND` and its number; every band number reads back.
pub proof fn law_lte_band_name(n: u8)
    ensures
        LteFrequencyBand::spec_from_str("EUTRAN-BAND"@ + decimal(n as nat)) == Ok::<
            LteFrequencyBand,
            AtParseErr,
        >(LteFrequencyBand::EUtran(n)),
{
    let s = "EUTRAN-BAND"@ + decimal(n as nat);
    assert(s.subrange(0, "EUTRAN-BAND"@.len() as int) =~= "EUTRAN-BAND"@);
    assert(s.subrange("EUTRAN-BAND"@.len() as int, s.len() as int) =~= decimal(n as nat));
    lemma_decimal_padded_reads_back(n as nat, 0, u8::MAX as nat);
    lemma_decimal_reads_back(n as nat);
}

} // verus!

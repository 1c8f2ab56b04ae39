use chrono::{TimeZone, Utc};
use sim7000_at::at_command::cclk::{
    parse_18char_str, parse_psuttz_time, parse_sgnscmd_time, parse_timezone, FromCclkStr,
    LocalDateTime, UtcDateTime,
};
use embassy_time::Instant;
use sim7000_at::at_command::ati::{ApRev, Csub, ProductInfoImei, QualityControlNumber};
use sim7000_at::at_command::cedrxs::{AcTType, ConfigureEDRX, EDRXSetting, EdrxCycleLength};
use sim7000_at::at_command::cgact::CGact;
use sim7000_at::at_command::cgnsinf::GnssReport;
use sim7000_at::at_command::cgnsmod::{GnssWorkModeSet, WorkMode};
use sim7000_at::at_command::cgnsxtra::{GnssXtraInfo, ToggleXtra};
use sim7000_at::at_command::cifsrex::IpExt;
use sim7000_at::at_command::clbs::{LocationInfoResult, ReportErrorCode};
use sim7000_at::at_command::cmgf::SmsMessageFormat;
use sim7000_at::at_command::cmgr::SmsMessage;
use sim7000_at::at_command::cmgs::MessageReference;
use sim7000_at::at_command::cnact::{CNActPDP, CnactMode};
use sim7000_at::at_command::cnsmod::{CNSMod, SystemMode};
use sim7000_at::at_command::cntp::{NetworkTime, SyncNtpStatusCode};
use sim7000_at::at_command::cops::{OperatorFormat, OperatorInfo, OperatorMode};
use sim7000_at::at_command::csq::SignalQuality;
use sim7000_at::at_command::gsn::{calculate_check_digit, Imei};
use sim7000_at::at_command::sgns::{Error, GnssCommandMode, GnssResult};
use sim7000_at::at_command::{AtParseErr, AtParseLine};

fn at() -> Instant {
    Instant::from_ticks(42)
}

#[test]
fn imei_check_digit() {
    assert_eq!(calculate_check_digit("49015420323751"), 8);
    assert_eq!(calculate_check_digit("86995103546091"), 8);
    assert_eq!(calculate_check_digit(""), 0);
}

#[test]
fn imei_errors() {
    let t = at();
    let imei = Imei::from_line("490154203237518", &t).unwrap();
    assert_eq!(imei.imei, "490154203237518");
    assert_eq!(
        Imei::from_line("490154203237517", &t).unwrap_err(),
        AtParseErr::Parsing("Imei number has invalid check digit")
    );
    assert_eq!(Imei::from_line("49015420323751", &t).unwrap_err(), AtParseErr::Parsing("Invalid length"));
    assert_eq!(Imei::from_line("49015420323751a", &t).unwrap_err(), AtParseErr::Mismatch);
    assert_eq!(Imei::from_line("+CMGS: 46", &t).unwrap_err(), AtParseErr::Mismatch);
    assert_eq!(
        ProductInfoImei::from_line("IMEI:49015420323751a", &t).unwrap_err(),
        AtParseErr::Parsing("Contains non-digit character")
    );
    assert_eq!(ProductInfoImei::from_line("OK", &t).unwrap_err(), AtParseErr::Mismatch);
}

#[test]
fn product_information_lines() {
    let t = at();
    assert_eq!(Csub::from_line("CSUB:V01", &t).unwrap().0, "V01");
    assert_eq!(
        Csub::from_line("CSUB:V01234567", &t).unwrap_err(),
        AtParseErr::Parsing("Modem csub string is too long")
    );
    assert_eq!(Csub::from_line("XSUB:V01", &t).unwrap_err(), AtParseErr::Mismatch);
    assert!(ApRev::from_line("APRev:1351B04SIM7000G,V01", &t).is_ok());
    assert_eq!(ApRev::from_line("CSUB:V01", &t).unwrap_err(), AtParseErr::Mismatch);
    assert_eq!(QualityControlNumber::from_line("QCN:", &t).unwrap().0, "");
    assert_eq!(ProductInfoImei::from_line("IMEI:490154203237518", &t).unwrap().0.imei, "490154203237518");
}

#[test]
fn edrx_setting_lines() {
    let t = at();
    assert_eq!(
        ConfigureEDRX::from_line("+CEDRXS: 1,5,0101", &t),
        Ok(ConfigureEDRX {
            n: EDRXSetting::Enable,
            act_type: AcTType::NbIot,
            requested_edrx_value: EdrxCycleLength::_81,
        })
    );
    assert_eq!(
        ConfigureEDRX::from_line("+CEDRXS:", &t),
        Ok(ConfigureEDRX {
            n: EDRXSetting::Disable,
            act_type: AcTType::CatM,
            requested_edrx_value: EdrxCycleLength::_5,
        })
    );
    assert_eq!(ConfigureEDRX::from_line("+CEDRXS: 3", &t), Err(AtParseErr::Parsing("Not a valid EDRXSetting")));
    assert_eq!(ConfigureEDRX::from_line("+CEDRXS: 1,4,12", &t), Err(AtParseErr::Parsing("not a edrx value")));
    assert_eq!(
        ConfigureEDRX::from_line("+CEDRXS: 1,4,10000", &t),
        Err(AtParseErr::Parsing("Not a EdrxCycleLength"))
    );
    assert_eq!(
        ConfigureEDRX::from_line("+CEDRXS: 1,4,0001,1", &t),
        Err(AtParseErr::Parsing("Not a valid EDRXSetting"))
    );
    assert_eq!(ConfigureEDRX::from_line("+CPSI: 1", &t), Err(AtParseErr::Mismatch));
}

#[test]
fn gnss_report_lines() {
    let t = at();
    let line = "+CGNSINF: 1,1,20191024051848.000,31.221946,121.355565,3.417,0.00,,0,,1.4,1.7,0.9,,6,,12.4,12.0";
    match GnssReport::from_line(line, &t).unwrap() {
        GnssReport::Fix { nav_info, instant } => {
            assert_eq!(instant, t);
            assert_eq!(nav_info.latitude.as_deref(), Some("31.221946"));
            assert_eq!(nav_info.longitude.as_deref(), Some("121.355565"));
            assert_eq!(nav_info.altitude, "3.417");
            assert_eq!(nav_info.speed_over_ground.as_deref(), Some("0.00"));
            assert_eq!(nav_info.course_over_ground, None);
            assert_eq!(nav_info.fix_mode, 0);
            assert_eq!(nav_info.hdop.as_deref(), Some("1.4"));
            assert_eq!(nav_info.satellites_in_view, 6);
            assert_eq!(nav_info.vpa.as_deref(), Some("12.0"));
            let utc = nav_info.utc.expect("the time reads");
            assert_eq!(utc.0, Utc.with_ymd_and_hms(2019, 10, 24, 5, 18, 48).unwrap());
        }
        other => panic!("expected a fix, got {:?}", other),
    }
    assert_eq!(GnssReport::from_line("+CGNSINF: 0,,,,,,,,,,,,,,,,,", &t), Ok(GnssReport::NotEnabled));
    assert_eq!(
        GnssReport::from_line("+CGNSINF: 1,0,,,,,,,,,,,,,7,,,", &t),
        Ok(GnssReport::NoFix { satellites_in_view: Some(7) })
    );
    assert_eq!(GnssReport::from_line("+CGNSINF: 1,0", &t), Err(AtParseErr::Parsing("missing arguments")));
    assert_eq!(GnssReport::from_line("OK", &t), Err(AtParseErr::Mismatch));
    assert_eq!(
        GnssReport::from_line("+CGNSINF: 1,1,,,,x,,,0,,,,,,,,,", &t),
        Err(AtParseErr::Parsing("Failed to parse float"))
    );
    assert_eq!(
        GnssReport::from_line("+CGNSINF: 1,1,,,,1.0,,,x,,,,,,,,,", &t),
        Err(AtParseErr::Parsing("Failed to parse integer"))
    );
    assert!(GnssReport::from_line_now("+CGNSINF: 0,,,,,,,,,,,,,,,,,").is_ok());
}

#[test]
fn gnss_command_result_lines() {
    let t = at();
    // 1700000000000 ms after the epoch is 2023-11-14 22:13:20 UTC.
    let line = "+SGNSCMD: 2,22:13:20,31.22,121.35,10.0,50.0,45.0,0.0,90.0,0x18BCFE56800,0,0";
    let r = GnssResult::from_line(line, &t).unwrap();
    assert_eq!(r.mode, GnssCommandMode::Auto);
    assert_eq!(r.date_time.0, Utc.timestamp_millis_opt(1_700_000_000_000).unwrap());
    assert_eq!(r.total_satellites, None);
    assert_eq!(r.latitude, "31.22");
    assert_eq!(r.course_over_ground, "90.0");
    assert_eq!(r.timestamp_millis, 1_700_000_000_000);
    assert_eq!(
        GnssResult::from_line("+SGNSCMD: 2,22:13:20", &t).unwrap_err(),
        AtParseErr::Parsing("invalid length")
    );
    assert_eq!(
        GnssResult::from_line("+SGNSCMD: 5,22:13:20,1,1,1,1,1,1,1,0x18BCFE56800,0,0", &t).unwrap_err(),
        AtParseErr::Parsing("invalid mode argument")
    );
    assert_eq!(
        GnssResult::from_line("+SGNSCMD: 2,22:13:21,1,1,1,1,1,1,1,0x18BCFE56800,0,0", &t).unwrap_err(),
        AtParseErr::Parsing("invalid date-time argument")
    );
    assert_eq!(
        GnssResult::from_line("+SGNSCMD: 2,22:13:20,x,1,1,1,1,1,1,0x18BCFE56800,0,0", &t).unwrap_err(),
        AtParseErr::Parsing("Failed to parse float")
    );
    assert_eq!(GnssResult::from_line("OK", &t).unwrap_err(), AtParseErr::Mismatch);
}

#[test]
fn gnss_error_lines() {
    let t = at();
    assert_eq!(Error::from_line("+SGNSERR: 3", &t), Ok(Error::InvalidParameter));
    assert_eq!(Error::from_line("+SGNSERR: 13", &t), Ok(Error::NoValidPosition));
    assert_eq!(Error::from_line("+SGNSERR: 99", &t), Ok(Error::UnknownError));
    assert_eq!(Error::from_line("+SGNSERR: x", &t), Err(AtParseErr::Parsing("invalid parameter")));
    assert_eq!(Error::from_line("OK", &t), Err(AtParseErr::Mismatch));
}

#[test]
fn base_station_location_errors() {
    let t = at();
    assert_eq!(
        LocationInfoResult::from_line("+CLBS: 81", &t),
        Ok(LocationInfoResult::ReportError(ReportErrorCode::ParameterError))
    );
    assert_eq!(
        LocationInfoResult::from_line("+CLBS: 80", &t),
        Err(AtParseErr::Parsing("The paid service isn't supported by this crate yet."))
    );
    assert_eq!(
        LocationInfoResult::from_line("+CLBS: 9", &t),
        Err(AtParseErr::Parsing("Failed to parse result code"))
    );
    assert_eq!(LocationInfoResult::from_line("+CLBS: 0", &t), Err(AtParseErr::Parsing("Missing ','")));
    assert_eq!(
        LocationInfoResult::from_line("+CLBS: 0,1.0,2.0", &t),
        Err(AtParseErr::Parsing("Missing arguments"))
    );
    assert_eq!(
        LocationInfoResult::from_line("+CLBS: 0,north,2.0,5", &t),
        Err(AtParseErr::Parsing("Failed to parse float"))
    );
    assert_eq!(
        LocationInfoResult::from_line("+CLBS: 0,1.0,2.0,far", &t),
        Err(AtParseErr::Parsing("Failed to parse integer"))
    );
    assert_eq!(LocationInfoResult::from_line("OK", &t), Err(AtParseErr::Mismatch));
}

#[test]
fn signal_quality_lines() {
    let t = at();
    assert_eq!(
        SignalQuality::from_line("+CSQ: 20,99", &t),
        Ok(SignalQuality { rssi: Some(-74), ber_class: None })
    );
    assert_eq!(
        SignalQuality::from_line("+CSQ: 0,7", &t),
        Ok(SignalQuality { rssi: Some(-115), ber_class: Some(7) })
    );
    assert_eq!(SignalQuality::from_line("+CSQ: 99,0", &t).unwrap().rssi, None);
    assert_eq!(SignalQuality::from_line("+CSQ: 32,0", &t), Err(AtParseErr::Parsing("Invalid RSSI value")));
    assert_eq!(SignalQuality::from_line("+CSQ: 20,8", &t), Err(AtParseErr::Parsing("Invalid BER value")));
    assert_eq!(SignalQuality::from_line("+CSQ: x,0", &t), Err(AtParseErr::Parsing("Failed to parse integer")));
    assert_eq!(SignalQuality::from_line("+CSQ: 20", &t), Err(AtParseErr::Parsing("Missing ','")));
    assert_eq!(SignalQuality::from_line("OK", &t), Err(AtParseErr::Mismatch));
}

#[test]
fn operator_and_system_mode_lines() {
    let t = at();
    let info = OperatorInfo::from_line("+COPS: 0,0,\"Tele2 1nce.net\",7", &t).unwrap();
    assert_eq!(info.mode, OperatorMode::Automatic);
    assert_eq!(info.format, OperatorFormat::Long);
    assert_eq!(info.operator_name, "Tele2 1nce.net");
    assert_eq!(
        OperatorInfo::from_line("+COPS: 3,0,\"x\",7", &t).unwrap_err(),
        AtParseErr::Parsing("Failed to parse mode")
    );
    assert_eq!(OperatorInfo::from_line("+COPS: 0,0", &t).unwrap_err(), AtParseErr::Parsing("Missing ','"));
    assert_eq!(
        CNSMod::from_line("+CNSMOD: 1,7", &t),
        Ok(CNSMod { enabled: true, system_mode: SystemMode::LteCatM1 })
    );
    assert_eq!(CNSMod::from_line("+CNSMOD: 1,2", &t), Err(AtParseErr::Parsing("Failed to parse System Mode")));
    assert_eq!(CNSMod::from_line("+CNSMOD: x,1", &t), Err(AtParseErr::Parsing("Failed to parse enabled")));
    assert_eq!(CNSMod::from_line("OK", &t), Err(AtParseErr::Mismatch));
}

#[test]
fn pdp_lines() {
    let t = at();
    let pdp = CNActPDP::from_line("+CNACT: 0,1,\"10.0.0.2\"", &t).unwrap();
    assert_eq!(pdp.pdp_index, 0);
    assert_eq!(pdp.mode, CnactMode::Active);
    assert_eq!(pdp.address.as_deref(), Some("10.0.0.2"));
    assert_eq!(CNActPDP::from_line("+CNACT: 0,7,\"a\"", &t).unwrap_err(), AtParseErr::Parsing("invalid value"));
    assert_eq!(CNActPDP::from_line("+CNACT: 0,1,a", &t).unwrap_err(), AtParseErr::Parsing("invalid value"));
    let long = format!("+CNACT: 0,1,\"{}\"", "a".repeat(65));
    assert_eq!(CNActPDP::from_line(&long, &t).unwrap_err(), AtParseErr::Parsing("address too long"));
    assert_eq!(CNActPDP::from_line("+CNACT: 0,1", &t).unwrap_err(), AtParseErr::Parsing("missing arguments"));
    assert_eq!(CGact::from_line("+CGACT: 1,1", &t), Ok(CGact { cid: 1, state: CnactMode::Active }));
    assert_eq!(CGact::from_line("+CGACT: 2", &t), Ok(CGact { cid: 2, state: CnactMode::Deactive }));
    assert_eq!(CGact::from_line("+CGACT: 1,5", &t), Err(AtParseErr::Parsing("invalid value")));
    assert_eq!(CGact::from_line("OK", &t), Err(AtParseErr::Mismatch));
    assert_eq!(CnactMode::from_str("2"), Ok(CnactMode::AutoActive));
    assert_eq!(CnactMode::from_str("3"), Err(AtParseErr::Parsing("unhandled CnactMode value")));
    assert_eq!(CnactMode::from_str("x"), Err(AtParseErr::Parsing("Failed to parse integer")));
}

#[test]
fn work_mode_and_xtra_lines() {
    let t = at();
    let set = GnssWorkModeSet {
        glonass: WorkMode::Start,
        beidou: WorkMode::Stop,
        galilean: WorkMode::Start,
        qzss: Some(WorkMode::Stop),
    };
    assert_eq!(<Option<GnssWorkModeSet>>::from_line("+CGNSMOD: 1,1,0,1,0", &t), Ok(Some(set)));
    assert_eq!(<Option<GnssWorkModeSet>>::from_line("+CGNSMOD: 0,1,0,1,0", &t), Ok(None));
    assert_eq!(GnssWorkModeSet::from_line("+CGNSMOD: 1,1,0,1,x", &t), Ok(GnssWorkModeSet { qzss: None, ..set }));
    assert_eq!(
        GnssWorkModeSet::from_line("+CGNSMOD: 0,1,0,1,0", &t),
        Err(AtParseErr::Parsing(
            "GPS disabled: match against Option<GnssWorkModeSet> instead to collect this result"
        ))
    );
    assert_eq!(GnssWorkModeSet::from_line("+CGNSMOD: 1,3,0,1,0", &t), Err(AtParseErr::Parsing("Unknown value")));
    assert_eq!(ToggleXtra::from_line("+CGNSXTRA: 1", &t), Ok(ToggleXtra::Enable));
    assert_eq!(
        ToggleXtra::from_line("+CGNSXTRA: 2", &t),
        Err(AtParseErr::Parsing("Invalid response, expected 0, 1"))
    );
    let info = GnssXtraInfo::from_line("10,168,24/05/06,12:00:00", &t).unwrap();
    assert_eq!(info.valid_diff_hours, Some(10));
    assert_eq!(info.valid_duration_hours, 168);
    assert_eq!(info.download_time.0, Utc.with_ymd_and_hms(24, 5, 6, 12, 0, 0).unwrap());
    assert_eq!(GnssXtraInfo::from_line("-3,168,24/05/06,12:00:00", &t).unwrap().valid_diff_hours, None);
    assert_eq!(GnssXtraInfo::from_line("+CGNSXTRA: 1", &t).unwrap_err(), AtParseErr::Parsing("invalid data"));
    assert_eq!(GnssXtraInfo::from_line("OK", &t).unwrap_err(), AtParseErr::Mismatch);
    assert_eq!(GnssXtraInfo::from_line("+CSQ: 1", &t).unwrap_err(), AtParseErr::Mismatch);
}

#[test]
fn network_time_lines() {
    let t = at();
    let nt = NetworkTime::from_line("+CNTP: 1,\"24/05/06,12:00:00+08\"", &t).unwrap();
    assert_eq!(nt.code.value(), SyncNtpStatusCode::Success.value());
    assert_eq!(nt.instant, t);
    assert_eq!(nt.time.unwrap().0, Utc.with_ymd_and_hms(24, 5, 6, 10, 0, 0).unwrap());
    let nt = NetworkTime::from_line("+CNTP: 61", &t).unwrap();
    assert_eq!(nt.code.value(), 61);
    assert!(nt.time.is_none());
    assert_eq!(
        NetworkTime::from_line("+CNTP: 1,24/05/06", &t).unwrap_err(),
        AtParseErr::Parsing("no quotes around expected time parameter")
    );
    assert_eq!(NetworkTime::from_line("+CNTP: 2", &t).unwrap_err(), AtParseErr::Parsing("Unexpected response"));
    assert!(NetworkTime::from_line_now("+CNTP: 1").is_ok());
}

#[test]
fn cclk_zone_in_quarter_hours() {
    let (utc, rest) = UtcDateTime::from_cclk_str("24/05/06,12:00:00+08\"tail").unwrap();
    assert_eq!(utc.0, Utc.with_ymd_and_hms(24, 5, 6, 10, 0, 0).unwrap());
    assert_eq!(rest, "tail");
    let (local, rest) = LocalDateTime::from_cclk_str("80/01/06,00:37:28-04 ").unwrap();
    assert_eq!(local.0.offset().local_minus_utc(), -3600);
    assert_eq!(rest, "");
    let (local, rest) = LocalDateTime::from_cclk_str("2024/05/21,10:11:12+08").unwrap();
    assert_eq!(local.0.offset().local_minus_utc(), 7200);
    assert_eq!(local.0.naive_local(), chrono::NaiveDate::from_ymd_opt(2024, 5, 21).unwrap().and_hms_opt(10, 11, 12).unwrap());
    assert_eq!(rest, "");
    let (local, rest) = LocalDateTime::from_cclk_str("80/01/06,00:37:28").unwrap();
    assert_eq!(local.0.offset().local_minus_utc(), 0);
    assert_eq!(rest, "");
    assert_eq!(
        LocalDateTime::from_cclk_str("80/13/06,00:37:28").unwrap_err(),
        AtParseErr::Parsing("A date or time field is out of range")
    );
    assert_eq!(LocalDateTime::from_cclk_str("80-01-06").unwrap_err(), AtParseErr::Parsing("Invalid characters"));
}

#[test]
fn timezone_offsets() {
    let (offset, dst) = parse_timezone("+32x").unwrap();
    assert_eq!(offset.local_minus_utc(), 8 * 3600);
    assert_eq!(dst, 0);
    let (offset, dst) = parse_timezone("-4x,1").unwrap();
    assert_eq!(offset.local_minus_utc(), 0);
    assert_eq!(dst, 4);
    assert!(parse_timezone("+97x").is_none());
    let (offset, dst) = parse_timezone("\"+32\",0").unwrap();
    assert_eq!(offset.local_minus_utc(), 8 * 3600);
    assert_eq!(dst, 0);
    assert_eq!(parse_timezone("+32").unwrap().0.local_minus_utc(), 8 * 3600);
    assert!(parse_timezone("x").is_none());
    let (utc, zone) = parse_psuttz_time("2024/05/06, 12:00:00+32x,0").unwrap();
    assert_eq!(utc.0, Utc.with_ymd_and_hms(2024, 5, 6, 12, 0, 0).unwrap());
    assert_eq!(zone.unwrap().0.local_minus_utc(), 8 * 3600);
    let (utc, zone) = parse_psuttz_time("2019,10,24,5,18,48,\"+32\",0").unwrap();
    assert_eq!(utc.0, Utc.with_ymd_and_hms(2019, 10, 24, 5, 18, 48).unwrap());
    let (offset, dst) = zone.unwrap();
    assert_eq!(offset.local_minus_utc(), 8 * 3600);
    assert_eq!(dst, 0);
    // A leap second at chrono's smallest timestamp is refused, not resolved.
    assert!(parse_sgnscmd_time(None, "00:00:60", "-8334601315200000").is_none());
    assert_eq!(parse_psuttz_time("2024/05/06, 12:00:00").unwrap_err(), AtParseErr::Parsing("Missing delimiter"));
    let t = parse_18char_str("20191024051848.000").unwrap();
    assert_eq!(t.0, Utc.with_ymd_and_hms(2019, 10, 24, 5, 18, 48).unwrap());
    assert!(parse_18char_str("2019102405").is_none());
    let t = parse_sgnscmd_time(None, "22:13:20", "1700000000000").unwrap();
    assert_eq!(t.0, Utc.timestamp_millis_opt(1_700_000_000_000).unwrap());
}

#[test]
fn sms_lines() {
    let t = at();
    assert_eq!(SmsMessageFormat::from_line("+CMGF: 1", &t), Ok(SmsMessageFormat::Text));
    assert_eq!(
        SmsMessageFormat::from_line("+CMGF: 2", &t),
        Err(AtParseErr::Parsing("Invalid SMS message format"))
    );
    let sms = SmsMessage::from_line("+CMGR: \"REC UNREAD\",\"+85291234567\",,\"07/02/18,00:12:05+32\"", &t)
        .unwrap();
    assert_eq!(sms.sender, "+85291234567");
    assert_eq!(sms.message, "");
    let long = SmsMessage::from_line("+CMGR: \"REC UNREAD\",\"+852912345678901234567\",,", &t).unwrap();
    assert_eq!(long.sender, "");
    assert_eq!(SmsMessage::from_line("+CMGR: 1", &t).unwrap_err(), AtParseErr::Parsing("Missing ','"));
    assert_eq!(MessageReference::from_line("+CMGS: 46", &t), Ok(MessageReference { value: 46 }));
    assert_eq!(
        MessageReference::from_line("+CMGS: x", &t),
        Err(AtParseErr::Parsing("Invalid message reference"))
    );
    assert_eq!(MessageReference::from_line("OK", &t), Err(AtParseErr::Mismatch));
}

#[test]
fn local_ip_lines() {
    let t = at();
    assert_eq!(IpExt::from_line("+CIFSREX: 10.12.1.2", &t), Ok(IpExt { addr: [10, 12, 1, 2] }));
    assert_eq!(
        IpExt::from_line("+CIFSREX: 10.12.1", &t),
        Err(AtParseErr::Parsing("Failed to parse IP segment"))
    );
    assert_eq!(
        IpExt::from_line("+CIFSREX: 10.12.1.256", &t),
        Err(AtParseErr::Parsing("Failed to parse IP segment"))
    );
    assert_eq!(IpExt::from_line("OK", &t), Err(AtParseErr::Mismatch));
}

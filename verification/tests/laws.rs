use embassy_time::Instant;
use sim7000_at::at_command::cedrxs::{AcTType, ConfigureEDRX, EDRXSetting, EdrxCycleLength};
use sim7000_at::at_command::cfun::Functionality;
use sim7000_at::at_command::cgnsmod::WorkMode;
use sim7000_at::at_command::cnact::CnactMode;
use sim7000_at::at_command::cnsmod::{CNSMod, SystemMode};
use sim7000_at::at_command::gsn::{calculate_check_digit, Imei};
use sim7000_at::at_command::plmn::{Mcc, Mnc};
use sim7000_at::at_command::{
    stub_parser_prefix, AtParseErr, AtParseLine, AtRequest, AtResponse, CommandGroup, Either,
    GenericOk, MetaResponse, RequestType, ResponseCode, SimError, Timestamped, TimestampedRef,
};
use sim7000_at::numeral::{is_float_syntax, real_field};
use sim7000_at::text::chars_of;

fn at() -> Instant {
    Instant::from_ticks(7)
}

#[test]
fn float_syntax_agrees_with_f32_parsing() {
    let samples = [
        "1", "-1.5", "+2.", ".5", "5.", "1e5", "1E-5", "2.5e+3", "inf", "-Infinity", "NaN", "nan",
        "+iNf", "0.004321", "000", "", ".", "e5", "1e", "1.2.3", " 1", "1 ", "+", "-", "infinit",
        "infinityx", "1e+", "0x10", "1,5", "--1", "∞", "١",
    ];
    for s in samples {
        let chars = chars_of(s);
        assert_eq!(is_float_syntax(&chars), s.parse::<f32>().is_ok(), "{:?}", s);
    }
}

#[test]
fn real_fields_keep_numerals_only() {
    assert_eq!(real_field(&chars_of("12.5")).as_deref(), Some("12.5"));
    assert_eq!(real_field(&chars_of("")), None);
    assert_eq!(real_field(&chars_of("n/a")), None);
}

#[test]
fn appended_check_digit_makes_an_accepted_imei() {
    let t = at();
    for body in ["86993103348091", "12345678901234", "00000000000000", "99999999999999"] {
        let line = format!("{}{}", body, calculate_check_digit(body));
        let imei = Imei::from_line(&line, &t).expect("the completed IMEI is accepted");
        assert_eq!(imei.imei, line);
    }
}

#[test]
fn codes_read_back_after_formatting() {
    for n in [0u16, 7, 24, 240, 999] {
        let m = Mcc::new(n);
        assert_eq!(Mcc::from_str(&m.format()), Some(m));
    }
    for n in [0u16, 7, 99] {
        let m = Mnc::new_short(n);
        assert_eq!(Mnc::from_str(&m.format()), Some(m));
    }
    for n in [0u16, 7, 999] {
        let m = Mnc::new_long(n);
        assert_eq!(Mnc::from_str(&m.format()), Some(m));
    }
    assert_eq!(Mcc::new(24).format(), "024");
    assert_eq!(Mnc::new_short(7).format(), "07");
    assert!(Mnc::from_str("07").unwrap().is_two_digits());
    assert_eq!(Mnc::from_str("007").unwrap().to_num(), 7);
    assert_eq!(Mcc::from_str("24"), None);
    // A country code of four digits does not read back.
    assert_eq!(Mcc::from_str(&Mcc::new(1234).format()), None);
}

#[test]
fn edrx_configuration_reads_back() {
    let t = at();
    for (n, n_text) in [(EDRXSetting::Disable, 0), (EDRXSetting::Enable, 1), (EDRXSetting::EnableWithAutoReport, 2)] {
        for (act, act_text) in [(AcTType::CatM, 4), (AcTType::NbIot, 5)] {
            for v in 0u8..16 {
                let value = EdrxCycleLength::try_from(v).unwrap();
                let c = ConfigureEDRX { n, act_type: act, requested_edrx_value: value };
                let line = format!("+CEDRXS:{},{},{:04b}", n_text, act_text, v);
                assert_eq!(ConfigureEDRX::from_line(&line, &t), Ok(c));
                assert!(c.encode().ends_with(&format!(",\"{:04b}\"\r", v)));
            }
        }
    }
}

#[test]
fn mode_numbers_read_back() {
    for m in [CnactMode::Deactive, CnactMode::Active, CnactMode::AutoActive] {
        assert_eq!(CnactMode::from_str(&m.value().to_string()), Ok(m));
    }
    for m in [WorkMode::Stop, WorkMode::Start, WorkMode::StartOutsideUs] {
        assert_eq!(WorkMode::from_str(&m.value().to_string()), Ok(m));
    }
    for f in [Functionality::Minimal, Functionality::Full] {
        assert_eq!(Functionality::from_str(&f.value().to_string()), Ok(f));
    }
}

#[test]
fn either_and_result_convert_both_ways() {
    let ok: Result<u8, SimError> = Ok(3);
    let e: Either<u8, SimError> = Either::from(ok);
    assert!(matches!(e, Either::T1(3)));
    assert_eq!(Result::<u8, SimError>::from(e), Ok(3));
    let err: Result<u8, SimError> = Err(SimError::CmeErr { code: 10 });
    let e: Either<u8, SimError> = err.into();
    assert!(matches!(e, Either::T2(SimError::CmeErr { code: 10 })));
    assert_eq!(Result::<u8, SimError>::from(e), Err(SimError::CmeErr { code: 10 }));
}

#[test]
fn dispatcher_takes_the_first_parser_that_claims_the_line() {
    let t = at();
    assert!(matches!(ResponseCode::from_line("OK", &t), Ok(ResponseCode::GenericOk(GenericOk))));
    assert!(matches!(ResponseCode::from_line("ERROR", &t), Ok(ResponseCode::Error(SimError::Generic))));
    assert!(matches!(
        ResponseCode::from_line("+CIFSREX: 10.0.0.1", &t),
        Ok(ResponseCode::IpExt(ip)) if ip.addr == [10, 0, 0, 1]
    ));
    assert!(matches!(
        ResponseCode::from_line("+CSQ: 20,99", &t),
        Ok(ResponseCode::SignalQuality(q)) if q.rssi == Some(-74)
    ));
    assert!(matches!(
        ResponseCode::from_line("+CNSMOD: 1,7", &t),
        Ok(ResponseCode::CNSMod(CNSMod { enabled: true, system_mode: SystemMode::LteCatM1 }))
    ));
    assert!(matches!(ResponseCode::from_line("+CMGS: 46", &t), Ok(ResponseCode::MessageReference(m)) if m.value == 46));
    assert!(matches!(ResponseCode::from_line("490154203237518", &t), Ok(ResponseCode::Imei(_))));
    // A claimed line that does not read gives that parser's error.
    assert_eq!(ResponseCode::from_line("+CSQ: 32,0", &t).err(), Some(AtParseErr::Parsing("Invalid RSSI value")));
    assert_eq!(ResponseCode::from_line("hello there", &t).err(), Some(AtParseErr::Mismatch));
}

#[test]
fn responses_are_taken_out_of_a_code() {
    let mut code = ResponseCode::CNSMod(CNSMod { enabled: false, system_mode: SystemMode::Gsm });
    {
        let m = CNSMod::from_generic(&mut code).expect("the code holds a system mode");
        assert_eq!(m.system_mode, SystemMode::Gsm);
        m.enabled = true;
    }
    assert!(matches!(code, ResponseCode::CNSMod(CNSMod { enabled: true, .. })));
    assert!(GenericOk::from_generic(&mut code).is_none());
    assert!(<CNSMod as AtResponse>::default_timeout().is_none());
}

#[test]
fn timestamps_and_wrappers() {
    let t = at();
    let stamped = Timestamped::new(5u32, t);
    assert_eq!(*stamped.as_ref(), 5);
    assert_eq!(stamped.instant, t);
    assert_eq!(stamped.into_response(), 5);
    let mut s = Timestamped::new_now(1u8);
    *s.as_mut() = 2;
    assert_eq!(s.response, 2);
    let mut value = String::from("x");
    let r = TimestampedRef::new(&mut value, t);
    assert_eq!(r.as_response(), "x");
    let copy = Timestamped::from(r);
    assert_eq!(copy.response, "x");
    assert_eq!(copy.instant, t);
    let mut other = 3u8;
    let mut r = TimestampedRef::new_now(&mut other);
    *r.response = 4;
    *r.as_mut_response() += 1;
    assert_eq!(other, 5);
    let meta: MetaResponse<GenericOk, u8> = MetaResponse::new(9);
    assert_eq!(*meta.as_ref(), 9);
    assert_eq!(meta.inner(), 9);
}

#[test]
fn stub_parser_and_error_conversion() {
    assert_eq!(stub_parser_prefix("APRev:x", "APRev:", 1u8), Ok(1));
    assert_eq!(stub_parser_prefix("OK", "APRev:", 1u8), Err(AtParseErr::Mismatch));
    assert_eq!(AtParseErr::from("bad"), AtParseErr::Parsing("bad"));
    assert_eq!(AtParseErr::default(), AtParseErr::Parsing(""));
    assert_eq!(
        AtParseErr::from("x".parse::<u8>().unwrap_err()),
        AtParseErr::Parsing("Failed to parse integer")
    );
    assert_eq!(
        AtParseErr::from("x".parse::<f32>().unwrap_err()),
        AtParseErr::Parsing("Failed to parse float")
    );
}

#[test]
fn request_kinds() {
    let t = RequestType::Combined { first: CommandGroup::Basic, last: CommandGroup::Extended };
    assert_eq!(*t.first_command(), CommandGroup::Basic);
    assert_eq!(*t.last_command(), CommandGroup::Extended);
    assert_eq!(*RequestType::NonCommand.first_command(), CommandGroup::NonCommand);
    assert_eq!(*RequestType::Command(CommandGroup::Context).last_command(), CommandGroup::Context);
    let _ = sim7000_at::at_command::gsn::GetImei.timeout();
}

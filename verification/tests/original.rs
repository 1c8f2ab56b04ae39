use embassy_time::Instant;
use sim7000_at::at_command::cclk::{FromCclkStr, UtcDateTime};
use sim7000_at::at_command::clbs::{ErrorCode, LocationInfoResult};
use sim7000_at::at_command::cpsi::{
    GsmFrequencyBandAndChannel, GsmModeParameters, LteFrequencyBand, LteModeParameters,
    OperationMode, SystemInfo, SystemModeParameters,
};
use sim7000_at::at_command::gsn::Imei;
use sim7000_at::at_command::plmn;
use sim7000_at::at_command::AtParseLine;

#[test]
fn clbs_parse_cpsi() {
    let now = Instant::now();
    assert_eq!(
        LocationInfoResult::from_line("+CLBS: 1", &now).ok(),
        Some(LocationInfoResult::Error(ErrorCode::LocationFailed))
    );
    match LocationInfoResult::from_line("+CLBS: 0,0.004321,0.0000,000", &now).unwrap() {
        LocationInfoResult::Location(location) => {
            assert_eq!(location.latitude.parse::<f32>().unwrap(), 0.004321);
            assert_eq!(location.longitude.parse::<f32>().unwrap(), 0.0);
            assert_eq!(location.accuracy, 0);
        }
        other => panic!("expected a location, got {:?}", other),
    }
    match LocationInfoResult::from_line("+CLBS: 0,40.004321,90.0000,5,2026/5/5,10:10:10", &now)
        .unwrap()
    {
        LocationInfoResult::Full { location, date_time, instant } => {
            assert_eq!(location.latitude.parse::<f32>().unwrap(), 40.004321);
            assert_eq!(location.longitude.parse::<f32>().unwrap(), 90.0);
            assert_eq!(location.accuracy, 5);
            assert_eq!(
                date_time,
                UtcDateTime::from_cclk_str("2026/5/5,10:10:10")
                    .expect("simple cclk date-time should parse")
                    .0
            );
            assert_eq!(instant, now);
        }
        other => panic!("expected a full location, got {:?}", other),
    }
}

#[test]
fn cpsi_parse_cpsi() {
    let now = Instant::now();
    assert_eq!(
        SystemInfo::from_line("+CPSI: NO SERVICE,Online", &now).ok(),
        Some(SystemInfo {
            operation_mode: OperationMode::Online,
            system_mode_parameters: SystemModeParameters::NoService,
        })
    );
    assert_eq!(
        SystemInfo::from_line("+CPSI: GSM,Online,240-24,0x28a0,50183,61 EGSM 900,-53,0,58-58", &now)
            .unwrap(),
        SystemInfo {
            operation_mode: OperationMode::Online,
            system_mode_parameters: SystemModeParameters::Gsm(GsmModeParameters {
                mcc: plmn::Mcc::new(240),
                mnc: plmn::Mnc::new_short(24),
                lac: 0x28a0,
                cell_id: 50183,
                freq_and_channel: GsmFrequencyBandAndChannel::EGSM900(61),
                rx_lev: -53,
                track_lo_adjust: 0,
                c1: 58,
                c2: 58
            }),
        }
    );
    assert_eq!(
        SystemInfo::from_line(
            "+CPSI: LTE CAT-M1,Online,240-07,0x2AFE,34564631,149,EUTRAN-BAND20,6400,3,3,-12,-81,-52,10",
            &now
        )
        .unwrap(),
        SystemInfo {
            operation_mode: OperationMode::Online,
            system_mode_parameters: SystemModeParameters::LteCatM1(LteModeParameters {
                mcc: plmn::Mcc::new(240),
                mnc: plmn::Mnc::new_short(7),
                tac: 0x2AFE,
                serving_cell_id: 34564631,
                phys_cell_id: 149,
                freq_band: LteFrequencyBand::EUtran(20),
                e_ultra_channel_num: 6400,
                downlink_bandwidth: 3,
                uplink_bandwidth: 3,
                rsrq: -12,
                rsrp: -81,
                rssi: -52,
                rssnr: 10
            }),
        }
    );
    assert_eq!(
        SystemInfo::from_line("+CPSI: LTE CAT-M1,Online", &now).unwrap(),
        SystemInfo {
            operation_mode: OperationMode::Online,
            system_mode_parameters: SystemModeParameters::LteCatM1(LteModeParameters::default()),
        }
    );
}

#[test]
fn parse_imei() {
    let now = Instant::now();
    let valid_imeis = ["490154203237518", "869951035460918", "869931033480910", "869951035458235"];

    for valid in valid_imeis {
        let _ = Imei::from_line(valid, &now).expect("failed to parse imei");
    }
}

use embassy_time::Duration;
use sim7000_at::at_command::at::Rep;
use sim7000_at::at_command::cedrxs::{AcTType, ConfigureEDRX, EDRXSetting, EdrxCycleLength};
use sim7000_at::at_command::cgnsmod::{GnssWorkModeSet, SetGnssWorkModeSet, WorkMode};
use sim7000_at::at_command::clbs::BaseStationLocation;
use sim7000_at::at_command::cmgs::{SendSms, SendSmsMessage};
use sim7000_at::at_command::cnact::{CNActPDP, CnactMode, SetAppNetworkPDP};
use sim7000_at::at_command::cncfg::PdpConfigure;
use sim7000_at::at_command::cnsmod::{CNSMod, SetAutoSystemMode, SystemMode};
use sim7000_at::at_command::cntp::{EnableLocalTimestamp, SynchronizeNetworkTime};
use sim7000_at::at_command::gsn::GetImei;
use sim7000_at::at_command::ipr::{BaudRate, SetBaudRate};
use sim7000_at::at_command::sgns::{
    Accuracy, AdssMode, ConfigureGnss, GnssCommand, NmeaOutputPort, NmeaType, PowerLevel,
    UartBaudRate,
};
use sim7000_at::at_command::{AtRequest, CommandGroup, RequestType};

#[test]
fn configure_edrx_sends_four_binary_digits() {
    let c = ConfigureEDRX {
        n: EDRXSetting::Enable,
        act_type: AcTType::CatM,
        requested_edrx_value: EdrxCycleLength::_20,
    };
    assert_eq!(c.encode(), "AT+CEDRXS=1,4,\"0010\"\r");
    let c = ConfigureEDRX {
        n: EDRXSetting::EnableWithAutoReport,
        act_type: AcTType::NbIot,
        requested_edrx_value: EdrxCycleLength::_10485,
    };
    assert_eq!(c.encode(), "AT+CEDRXS=2,5,\"1111\"\r");
}

#[test]
fn edrx_cycle_length_from_number() {
    assert_eq!(EdrxCycleLength::try_from(0u8), Ok(EdrxCycleLength::_5));
    assert_eq!(EdrxCycleLength::try_from(9u8), Ok(EdrxCycleLength::_163));
    assert_eq!(EdrxCycleLength::try_from(15u8), Ok(EdrxCycleLength::_10485));
    assert_eq!(EdrxCycleLength::try_from(16u8), Err("Not a EdrxCycleLength"));
}

#[test]
fn gnss_timeout_is_clamped() {
    assert_eq!(
        ConfigureGnss::Timeout(Duration::from_millis(5_000)).encode(),
        "AT+SGNSCFG=\"TIMEOUT\",10000\r"
    );
    assert_eq!(
        ConfigureGnss::Timeout(Duration::from_secs(60)).encode(),
        "AT+SGNSCFG=\"TIMEOUT\",60000\r"
    );
    assert_eq!(
        ConfigureGnss::Timeout(Duration::from_secs(600)).encode(),
        "AT+SGNSCFG=\"TIMEOUT\",180000\r"
    );
}

#[test]
fn configure_gnss_variants() {
    assert_eq!(
        ConfigureGnss::NmeaOutPort(NmeaOutputPort::Uart(UartBaudRate::_115200)).encode(),
        "AT+SGNSCFG=\"NMEAOUTPORT\",2,115200\r"
    );
    assert_eq!(
        ConfigureGnss::NmeaOutPort(NmeaOutputPort::Usb).encode(),
        "AT+SGNSCFG=\"NMEAOUTPORT\",1\r"
    );
    let t = NmeaType::from_bits_retain(NmeaType::GGA | NmeaType::RMC);
    assert_eq!(ConfigureGnss::NmeaType(t).encode(), "AT+SGNSCFG=\"NMEATYPE\",192\r");
    assert_eq!(ConfigureGnss::UrcOutputOn(true).encode(), "AT+SGNSCFG=\"OUTURC\",1\r");
    assert_eq!(
        ConfigureGnss::AssistanceData(AdssMode::ForceColdStart).encode(),
        "AT+SGNSCFG=\"ADSS\",3\r"
    );
    assert_eq!(ConfigureGnss::Threshold(25).encode(), "AT+SGNSCFG=\"THRESHOLD\",25\r");
    assert_eq!(ConfigureGnss::GetExtraInfo(false).encode(), "AT+SGNSCFG=\"EXTRAINFO\",0\r");
}

#[test]
fn nmea_type_flags() {
    let t = NmeaType::from_bits_retain(NmeaType::GPGSV).union(NmeaType::from_bits_retain(NmeaType::GSA));
    assert_eq!(t.bits(), 0b0001_0001);
    assert!(t.contains(NmeaType::from_bits_retain(NmeaType::GSA)));
    assert!(!t.contains(NmeaType::from_bits_retain(NmeaType::VTG)));
}

#[test]
fn gnss_command_limits() {
    assert_eq!(GnssCommand::Off.encode(), "AT+SGNSCMD=0\r");
    assert_eq!(GnssCommand::Once(PowerLevel::default()).encode(), "AT+SGNSCMD=1,0\r");
    let auto = GnssCommand::Auto {
        min_interval: Duration::from_millis(500),
        min_distance_meters: 5_000,
        accuracy: Accuracy::High,
    };
    assert_eq!(auto.encode(), "AT+SGNSCMD=2,1000,1000,3\r");
    let auto = GnssCommand::Auto {
        min_interval: Duration::from_secs(5),
        min_distance_meters: 20,
        accuracy: Accuracy::default(),
    };
    assert_eq!(auto.encode(), "AT+SGNSCMD=2,5000,20,0\r");
}

#[test]
fn work_mode_set_encoding() {
    let set = GnssWorkModeSet {
        glonass: WorkMode::Start,
        beidou: WorkMode::Stop,
        galilean: WorkMode::StartOutsideUs,
        qzss: Some(WorkMode::Start),
    };
    assert_eq!(SetGnssWorkModeSet(Some(set)).encode(), "AT+CGNSMOD=1,1,0,2,1\r");
    let set = GnssWorkModeSet { qzss: None, ..set };
    assert_eq!(SetGnssWorkModeSet(Some(set)).encode(), "AT+CGNSMOD=1,1,0,2\r");
    assert_eq!(SetGnssWorkModeSet(None).encode(), "AT+CGNSMOD=0,0,0,0,0\r");
}

#[test]
fn extended_commands_and_timeouts() {
    assert_eq!(BaseStationLocation::CellInfo { cid: 1 }.encode(), "+CLBS=1,1");
    assert_eq!(BaseStationLocation::RetrieveAll { cid: 3 }.encode(), "+CLBS=4,3");
    assert!(matches!(
        BaseStationLocation::request_type(),
        RequestType::Command(CommandGroup::Extended)
    ));
    assert_eq!(SetBaudRate(BaudRate::Hz115200).encode(), "+IPR=115200");
    assert_eq!(SetBaudRate::default_timeout(), Some(Duration::from_secs(30)));
    assert_eq!(Rep.timeout(), Some(Duration::from_millis(120_000)));
    assert_eq!(GetImei.encode(), "AT+GSN\r");
    assert_eq!(GetImei::default_timeout(), None);
}

#[test]
fn baud_rate_values() {
    assert!(BaudRate::Hz0.is_auto());
    assert_eq!(BaudRate::Hz0.hz(), 0);
    assert!(!BaudRate::Hz9600.is_auto());
    assert_eq!(BaudRate::Hz3686400.hz(), 3_686_400);
}

#[test]
fn sms_requests() {
    let sms = SendSms { destination: String::from("+46701234567") };
    assert_eq!(sms.encode(), "+CMGS=\"+46701234567\"");
    assert_eq!(SendSmsMessage(String::from("hello")).encode(), "hello\x1A");
    assert!(matches!(SendSmsMessage::request_type(), RequestType::NonCommand));
}

#[test]
fn network_requests() {
    let pdp = CNActPDP { pdp_index: 0, mode: CnactMode::Active, address: Some(String::from("iot.1nce.net")) };
    assert_eq!(SetAppNetworkPDP(pdp).encode(), "AT+CNACT=0,1,\"iot.1nce.net\"\r");
    let pdp = CNActPDP { pdp_index: 1, mode: CnactMode::Deactive, address: None };
    assert_eq!(SetAppNetworkPDP(pdp).encode(), "AT+CNACT=1,0\r");
    let cfg = PdpConfigure { apn: String::from("apn"), username: String::new(), password: String::new() };
    assert_eq!(cfg.encode(), "+CNCFG=0,0,\"apn\"");
    let cfg = PdpConfigure {
        apn: String::from("apn"),
        username: String::from("user"),
        password: String::new(),
    };
    assert_eq!(cfg.encode(), "+CNCFG=0,0,\"apn\",\"user\",\"\",3");
    let ntp = SynchronizeNetworkTime { ntp_server: String::from("pool.ntp.org"), timezone: 32, cid: 1 };
    assert_eq!(ntp.encode(), "AT+CNTP=\"pool.ntp.org\",32,1\r");
    assert_eq!(EnableLocalTimestamp(true).encode(), "AT+CLTS=1\r");
}

#[test]
fn system_mode_requests_send_positions() {
    let set = SetAutoSystemMode(CNSMod { enabled: true, system_mode: SystemMode::LteCatM1 });
    assert_eq!(set.encode(), "AT+CNSMOD=1,3\r");
    let set = SetAutoSystemMode(CNSMod { enabled: false, system_mode: SystemMode::LteNbIot });
    assert_eq!(set.encode(), "AT+CNSMOD=0,4\r");
}

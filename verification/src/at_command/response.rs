//! The response codes of the modem, and reading a line as the first that
//! matches.
use vstd::prelude::*;
use embassy_time::{Duration, Instant};
use super::{view_result, AtParseErr, AtParseLine};
use super::generic_response::{CloseOk, GenericOk, SimError, WritePrompt};
use super::cifsrex::IpExt;
use super::csq::SignalQuality;
use super::cpsi::SystemInfo;
use super::cops::{OperatorInfo, OperatorInfoView};
use super::ati::{ApRev, Csub, ProductInfoImei, QualityControlNumber};
use super::cedrxs::ConfigureEDRX;
use super::cnsmod::CNSMod;
use super::cgact::CGact;
use super::cnact::{CNActPDP, CNActPDPView};
use super::cntp::NetworkTime;
use super::clbs::{LocationInfoResult, LocationInfoResultView};
use super::cgnsxtra::GnssXtraInfo;
use super::cgnsmod::GnssWorkModeSet;
use super::cgnsinf::{GnssReport, GnssReportView};
use super::cclk::CclkTime;
use super::gsn::Imei;
use super::cmgf::SmsMessageFormat;
use super::cmgs::MessageReference;
use super::cmgr::{SmsMessage, SmsMessageView};

verus! {

/// Sim7000 AT-command response code
#[derive(Debug)]
pub enum ResponseCode {
    GenericOk(GenericOk),
    Error(SimError),
    WritePrompt(WritePrompt),
    CloseOk(CloseOk),
    IpExt(IpExt),
    SignalQuality(SignalQuality),
    SystemInfo(SystemInfo),
    OperatorInfo(OperatorInfo),
    Csub(Csub),
    ApRev(ApRev),
    QualityControlNumber(QualityControlNumber),
    ProductInfoImei(ProductInfoImei),
    ConfigureEDRX(ConfigureEDRX),
    CNSMod(CNSMod),
    PdpContextActivation(CGact),
    PdpNetworkActive(CNActPDP),
    NetworkTime(NetworkTime),
    BaseStationLocation(LocationInfoResult),
    XtraInfo(GnssXtraInfo),
    GnssWorkModeSet(Option<GnssWorkModeSet>),
    GnssReport(GnssReport),
    CclkTime(CclkTime),
    Imei(Imei),
    SmsMessageFormat(SmsMessageFormat),
    MessageReference(MessageReference),
    SmsMessage(SmsMessage),
}

/// A [ResponseCode] with its value read through its view.
pub enum ResponseCodeView {
    GenericOk(GenericOk),
    Error(SimError),
    WritePrompt(WritePrompt),
    CloseOk(CloseOk),
    IpExt(Seq<u8>),
    SignalQuality(SignalQuality),
    SystemInfo(SystemInfo),
    OperatorInfo(OperatorInfoView),
    Csub(Seq<char>),
    ApRev(ApRev),
    QualityControlNumber(Seq<char>),
    ProductInfoImei(Seq<char>),
    ConfigureEDRX(ConfigureEDRX),
    CNSMod(CNSMod),
    PdpContextActivation(CGact),
    PdpNetworkActive(CNActPDPView),
    NetworkTime(NetworkTime),
    BaseStationLocation(LocationInfoResultView),
    XtraInfo(GnssXtraInfo),
    GnssWorkModeSet(Option<GnssWorkModeSet>),
    GnssReport(GnssReportView),
    CclkTime(CclkTime),
    Imei(Seq<char>),
    SmsMessageFormat(SmsMessageFormat),
    MessageReference(MessageReference),
    SmsMessage(SmsMessageView),
}

impl View for ResponseCode {
    type V = ResponseCodeView;

    open spec fn view(&self) -> ResponseCodeView {
        match self {
            ResponseCode::GenericOk(x) => ResponseCodeView::GenericOk(x@),
            ResponseCode::Error(x) => ResponseCodeView::Error(x@),
            ResponseCode::WritePrompt(x) => ResponseCodeView::WritePrompt(x@),
            ResponseCode::CloseOk(x) => ResponseCodeView::CloseOk(x@),
            ResponseCode::IpExt(x) => ResponseCodeView::IpExt(x@),
            ResponseCode::SignalQuality(x) => ResponseCodeView::SignalQuality(x@),
            ResponseCode::SystemInfo(x) => ResponseCodeView::SystemInfo(x@),
            ResponseCode::OperatorInfo(x) => ResponseCodeView::OperatorInfo(x@),
            ResponseCode::Csub(x) => ResponseCodeView::Csub(x@),
            ResponseCode::ApRev(x) => ResponseCodeView::ApRev(x@),
            ResponseCode::QualityControlNumber(x) => ResponseCodeView::QualityControlNumber(x@),
            ResponseCode::ProductInfoImei(x) => ResponseCodeView::ProductInfoImei(x@),
            ResponseCode::ConfigureEDRX(x) => ResponseCodeView::ConfigureEDRX(x@),
            ResponseCode::CNSMod(x) => ResponseCodeView::CNSMod(x@),
            ResponseCode::PdpContextActivation(x) => ResponseCodeView::PdpContextActivation(x@),
            ResponseCode::PdpNetworkActive(x) => ResponseCodeView::PdpNetworkActive(x@),
            ResponseCode::NetworkTime(x) => ResponseCodeView::NetworkTime(x@),
            ResponseCode::BaseStationLocation(x) => ResponseCodeView::BaseStationLocation(x@),
            ResponseCode::XtraInfo(x) => ResponseCodeView::XtraInfo(x@),
            ResponseCode::GnssWorkModeSet(x) => ResponseCodeView::GnssWorkModeSet(x@),
            ResponseCode::GnssReport(x) => ResponseCodeView::GnssReport(x@),
            ResponseCode::CclkTime(x) => ResponseCodeView::CclkTime(x@),
            ResponseCode::Imei(x) => ResponseCodeView::Imei(x@),
            ResponseCode::SmsMessageFormat(x) => ResponseCodeView::SmsMessageFormat(x@),
            ResponseCode::MessageReference(x) => ResponseCodeView::MessageReference(x@),
            ResponseCode::SmsMessage(x) => ResponseCodeView::SmsMessage(x@),
        }
    }
}

/// One parser's turn: its value where it reads the line, its error where
/// the line is its type but does not read, and otherwise the turns after
/// it.
pub open spec fn turn<V>(
    r: Result<V, AtParseErr>,
    wrap: spec_fn(V) -> ResponseCodeView,
    next: Result<ResponseCodeView, AtParseErr>,
) -> Result<ResponseCodeView, AtParseErr> {
    match r {
        Ok(v) => Ok(wrap(v)),
        Err(AtParseErr::Mismatch) => next,
        Err(e) => Err(e),
    }
}

/// The turns of GenericOk, Error, WritePrompt, CloseOk, IpExt, SignalQuality, SystemInfo.
pub open spec fn spec_dispatch_1(line: Seq<char>, instant: Instant) -> Result<ResponseCodeView, AtParseErr> {
    turn(GenericOk::spec_from_line(line, instant), |x: GenericOk| ResponseCodeView::GenericOk(x), turn(SimError::spec_from_line(line, instant), |x: SimError| ResponseCodeView::Error(x), turn(WritePrompt::spec_from_line(line, instant), |x: WritePrompt| ResponseCodeView::WritePrompt(x), turn(CloseOk::spec_from_line(line, instant), |x: CloseOk| ResponseCodeView::CloseOk(x), turn(IpExt::spec_from_line(line, instant), |x: Seq<u8>| ResponseCodeView::IpExt(x), turn(SignalQuality::spec_from_line(line, instant), |x: SignalQuality| ResponseCodeView::SignalQuality(x), turn(SystemInfo::spec_from_line(line, instant), |x: SystemInfo| ResponseCodeView::SystemInfo(x), spec_dispatch_2(line, instant))))))))
}

/// The turns of OperatorInfo, Csub, ApRev, QualityControlNumber, ProductInfoImei, ConfigureEDRX, CNSMod.
pub open spec fn spec_dispatch_2(line: Seq<char>, instant: Instant) -> Result<ResponseCodeView, AtParseErr> {
    turn(OperatorInfo::spec_from_line(line, instant), |x: OperatorInfoView| ResponseCodeView::OperatorInfo(x), turn(Csub::spec_from_line(line, instant), |x: Seq<char>| ResponseCodeView::Csub(x), turn(ApRev::spec_from_line(line, instant), |x: ApRev| ResponseCodeView::ApRev(x), turn(QualityControlNumber::spec_from_line(line, instant), |x: Seq<char>| ResponseCodeView::QualityControlNumber(x), turn(ProductInfoImei::spec_from_line(line, instant), |x: Seq<char>| ResponseCodeView::ProductInfoImei(x), turn(ConfigureEDRX::spec_from_line(line, instant), |x: ConfigureEDRX| ResponseCodeView::ConfigureEDRX(x), turn(CNSMod::spec_from_line(line, instant), |x: CNSMod| ResponseCodeView::CNSMod(x), spec_dispatch_3(line, instant))))))))
}

/// The turns of PdpContextActivation, PdpNetworkActive, NetworkTime, BaseStationLocation, XtraInfo, GnssWorkModeSet.
pub open spec fn spec_dispatch_3(line: Seq<char>, instant: Instant) -> Result<ResponseCodeView, AtParseErr> {
    turn(CGact::spec_from_line(line, instant), |x: CGact| ResponseCodeView::PdpContextActivation(x), turn(CNActPDP::spec_from_line(line, instant), |x: CNActPDPView| ResponseCodeView::PdpNetworkActive(x), turn(NetworkTime::spec_from_line(line, instant), |x: NetworkTime| ResponseCodeView::NetworkTime(x), turn(LocationInfoResult::spec_from_line(line, instant), |x: LocationInfoResultView| ResponseCodeView::BaseStationLocation(x), turn(GnssXtraInfo::spec_from_line(line, instant), |x: GnssXtraInfo| ResponseCodeView::XtraInfo(x), turn(<Option<GnssWorkModeSet> as AtParseLine>::spec_from_line(line, instant), |x: Option<GnssWorkModeSet>| ResponseCodeView::GnssWorkModeSet(x), spec_dispatch_4(line, instant)))))))
}

/// The turns of GnssReport, CclkTime, Imei, SmsMessageFormat, MessageReference, SmsMessage.
pub open spec fn spec_dispatch_4(line: Seq<char>, instant: Instant) -> Result<ResponseCodeView, AtParseErr> {
    turn(GnssReport::spec_from_line(line, instant), |x: GnssReportView| ResponseCodeView::GnssReport(x), turn(CclkTime::spec_from_line(line, instant), |x: CclkTime| ResponseCodeView::CclkTime(x), turn(Imei::spec_from_line(line, instant), |x: Seq<char>| ResponseCodeView::Imei(x), turn(SmsMessageFormat::spec_from_line(line, instant), |x: SmsMessageFormat| ResponseCodeView::SmsMessageFormat(x), turn(MessageReference::spec_from_line(line, instant), |x: MessageReference| ResponseCodeView::MessageReference(x), turn(SmsMessage::spec_from_line(line, instant), |x: SmsMessageView| ResponseCodeView::SmsMessage(x), Err(AtParseErr::Mismatch)))))))
}

fn dispatch_1(line: &str, instant: &Instant) -> (r: Result<ResponseCode, AtParseErr>)
    ensures
        view_result(r) == spec_dispatch_1(line@, *instant),
{
    match GenericOk::from_line(line, instant) {
        Ok(x) => return Ok(ResponseCode::GenericOk(x)),
        Err(AtParseErr::Mismatch) => {},
        Err(e) => return Err(e),
    }
    match SimError::from_line(line, instant) {
        Ok(x) => return Ok(ResponseCode::Error(x)),
        Err(AtParseErr::Mismatch) => {},
        Err(e) => return Err(e),
    }
    match WritePrompt::from_line(line, instant) {
        Ok(x) => return Ok(ResponseCode::WritePrompt(x)),
        Err(AtParseErr::Mismatch) => {},
        Err(e) => return Err(e),
    }
    match CloseOk::from_line(line, instant) {
        Ok(x) => return Ok(ResponseCode::CloseOk(x)),
        Err(AtParseErr::Mismatch) => {},
        Err(e) => return Err(e),
    }
    match IpExt::from_line(line, instant) {
        Ok(x) => return Ok(ResponseCode::IpExt(x)),
        Err(AtParseErr::Mismatch) => {},
        Err(e) => return Err(e),
    }
    match SignalQuality::from_line(line, instant) {
        Ok(x) => return Ok(ResponseCode::SignalQuality(x)),
        Err(AtParseErr::Mismatch) => {},
        Err(e) => return Err(e),
    }
    match SystemInfo::from_line(line, instant) {
        Ok(x) => return Ok(ResponseCode::SystemInfo(x)),
        Err(AtParseErr::Mismatch) => {},
        Err(e) => return Err(e),
    }
    dispatch_2(line, instant)
}

fn dispatch_2(line: &str, instant: &Instant) -> (r: Result<ResponseCode, AtParseErr>)
    ensures
        view_result(r) == spec_dispatch_2(line@, *instant),
{
    match OperatorInfo::from_line(line, instant) {
        Ok(x) => return Ok(ResponseCode::OperatorInfo(x)),
        Err(AtParseErr::Mismatch) => {},
        Err(e) => return Err(e),
    }
    match Csub::from_line(line, instant) {
        Ok(x) => return Ok(ResponseCode::Csub(x)),
        Err(AtParseErr::Mismatch) => {},
        Err(e) => return Err(e),
    }
    match ApRev::from_line(line, instant) {
        Ok(x) => return Ok(ResponseCode::ApRev(x)),
        Err(AtParseErr::Mismatch) => {},
        Err(e) => return Err(e),
    }
    match QualityControlNumber::from_line(line, instant) {
        Ok(x) => return Ok(ResponseCode::QualityControlNumber(x)),
        Err(AtParseErr::Mismatch) => {},
        Err(e) => return Err(e),
    }
    match ProductInfoImei::from_line(line, instant) {
        Ok(x) => return Ok(ResponseCode::ProductInfoImei(x)),
        Err(AtParseErr::Mismatch) => {},
        Err(e) => return Err(e),
    }
    match ConfigureEDRX::from_line(line, instant) {
        Ok(x) => return Ok(ResponseCode::ConfigureEDRX(x)),
        Err(AtParseErr::Mismatch) => {},
        Err(e) => return Err(e),
    }
    match CNSMod::from_line(line, instant) {
        Ok(x) => return Ok(ResponseCode::CNSMod(x)),
        Err(AtParseErr::Mismatch) => {},
        Err(e) => return Err(e),
    }
    dispatch_3(line, instant)
}

fn dispatch_3(line: &str, instant: &Instant) -> (r: Result<ResponseCode, AtParseErr>)
    ensures
        view_result(r) == spec_dispatch_3(line@, *instant),
{
    match CGact::from_line(line, instant) {
        Ok(x) => return Ok(ResponseCode::PdpContextActivation(x)),
        Err(AtParseErr::Mismatch) => {},
        Err(e) => return Err(e),
    }
    match CNActPDP::from_line(line, instant) {
        Ok(x) => return Ok(ResponseCode::PdpNetworkActive(x)),
        Err(AtParseErr::Mismatch) => {},
        Err(e) => return Err(e),
    }
    match NetworkTime::from_line(line, instant) {
        Ok(x) => return Ok(ResponseCode::NetworkTime(x)),
        Err(AtParseErr::Mismatch) => {},
        Err(e) => return Err(e),
    }
    match LocationInfoResult::from_line(line, instant) {
        Ok(x) => return Ok(ResponseCode::BaseStationLocation(x)),
        Err(AtParseErr::Mismatch) => {},
        Err(e) => return Err(e),
    }
    match GnssXtraInfo::from_line(line, instant) {
        Ok(x) => return Ok(ResponseCode::XtraInfo(x)),
        Err(AtParseErr::Mismatch) => {},
        Err(e) => return Err(e),
    }
    match <Option<GnssWorkModeSet> as AtParseLine>::from_line(line, instant) {
        Ok(x) => return Ok(ResponseCode::GnssWorkModeSet(x)),
        Err(AtParseErr::Mismatch) => {},
        Err(e) => return Err(e),
    }
    dispatch_4(line, instant)
}

fn dispatch_4(line: &str, instant: &Instant) -> (r: Result<ResponseCode, AtParseErr>)
    ensures
        view_result(r) == spec_dispatch_4(line@, *instant),
{
    match GnssReport::from_line(line, instant) {
        Ok(x) => return Ok(ResponseCode::GnssReport(x)),
        Err(AtParseErr::Mismatch) => {},
        Err(e) => return Err(e),
    }
    match CclkTime::from_line(line, instant) {
        Ok(x) => return Ok(ResponseCode::CclkTime(x)),
        Err(AtParseErr::Mismatch) => {},
        Err(e) => return Err(e),
    }
    match Imei::from_line(line, instant) {
        Ok(x) => return Ok(ResponseCode::Imei(x)),
        Err(AtParseErr::Mismatch) => {},
        Err(e) => return Err(e),
    }
    match SmsMessageFormat::from_line(line, instant) {
        Ok(x) => return Ok(ResponseCode::SmsMessageFormat(x)),
        Err(AtParseErr::Mismatch) => {},
        Err(e) => return Err(e),
    }
    match MessageReference::from_line(line, instant) {
        Ok(x) => return Ok(ResponseCode::MessageReference(x)),
        Err(AtParseErr::Mismatch) => {},
        Err(e) => return Err(e),
    }
    match SmsMessage::from_line(line, instant) {
        Ok(x) => return Ok(ResponseCode::SmsMessage(x)),
        Err(AtParseErr::Mismatch) => {},
        Err(e) => return Err(e),
    }
    Err(AtParseErr::Mismatch)
}

/// A parser's result with its value wrapped in its variant.
pub open spec fn wrap_result<V>(r: Result<V, AtParseErr>, wrap: spec_fn(V) -> ResponseCodeView) -> Result<
    ResponseCodeView,
    AtParseErr,
> {
    match r {
        Ok(v) => Ok(wrap(v)),
        Err(e) => Err(e),
    }
}

/// The number of parsers that the dispatcher tries.
pub open spec fn parser_count() -> int {
    26
}

/// What the `k`-th parser, in the order of the variants of [ResponseCode],
/// reads of the line, its value wrapped in its variant.
pub open spec fn parser_outcome(k: int, line: Seq<char>, instant: Instant) -> Result<
    ResponseCodeView,
    AtParseErr,
> {
    if k == 0 {
        wrap_result(GenericOk::spec_from_line(line, instant), |x: GenericOk| ResponseCodeView::GenericOk(x))
    } else if k == 1 {
        wrap_result(SimError::spec_from_line(line, instant), |x: SimError| ResponseCodeView::Error(x))
    } else if k == 2 {
        wrap_result(WritePrompt::spec_from_line(line, instant), |x: WritePrompt| ResponseCodeView::WritePrompt(x))
    } else if k == 3 {
        wrap_result(CloseOk::spec_from_line(line, instant), |x: CloseOk| ResponseCodeView::CloseOk(x))
    } else if k == 4 {
        wrap_result(IpExt::spec_from_line(line, instant), |x: Seq<u8>| ResponseCodeView::IpExt(x))
    } else if k == 5 {
        wrap_result(SignalQuality::spec_from_line(line, instant), |x: SignalQuality| ResponseCodeView::SignalQuality(x))
    } else if k == 6 {
        wrap_result(SystemInfo::spec_from_line(line, instant), |x: SystemInfo| ResponseCodeView::SystemInfo(x))
    } else if k == 7 {
        wrap_result(OperatorInfo::spec_from_line(line, instant), |x: OperatorInfoView| ResponseCodeView::OperatorInfo(x))
    } else if k == 8 {
        wrap_result(Csub::spec_from_line(line, instant), |x: Seq<char>| ResponseCodeView::Csub(x))
    } else if k == 9 {
        wrap_result(ApRev::spec_from_line(line, instant), |x: ApRev| ResponseCodeView::ApRev(x))
    } else if k == 10 {
        wrap_result(QualityControlNumber::spec_from_line(line, instant), |x: Seq<char>| ResponseCodeView::QualityControlNumber(x))
    } else if k == 11 {
        wrap_result(ProductInfoImei::spec_from_line(line, instant), |x: Seq<char>| ResponseCodeView::ProductInfoImei(x))
    } else if k == 12 {
        wrap_result(ConfigureEDRX::spec_from_line(line, instant), |x: ConfigureEDRX| ResponseCodeView::ConfigureEDRX(x))
    } else if k == 13 {
        wrap_result(CNSMod::spec_from_line(line, instant), |x: CNSMod| ResponseCodeView::CNSMod(x))
    } else if k == 14 {
        wrap_result(CGact::spec_from_line(line, instant), |x: CGact| ResponseCodeView::PdpContextActivation(x))
    } else if k == 15 {
        wrap_result(CNActPDP::spec_from_line(line, instant), |x: CNActPDPView| ResponseCodeView::PdpNetworkActive(x))
    } else if k == 16 {
        wrap_result(NetworkTime::spec_from_line(line, instant), |x: NetworkTime| ResponseCodeView::NetworkTime(x))
    } else if k == 17 {
        wrap_result(LocationInfoResult::spec_from_line(line, instant), |x: LocationInfoResultView| ResponseCodeView::BaseStationLocation(x))
    } else if k == 18 {
        wrap_result(GnssXtraInfo::spec_from_line(line, instant), |x: GnssXtraInfo| ResponseCodeView::XtraInfo(x))
    } else if k == 19 {
        wrap_result(<Option<GnssWorkModeSet> as AtParseLine>::spec_from_line(line, instant), |x: Option<GnssWorkModeSet>| ResponseCodeView::GnssWorkModeSet(x))
    } else if k == 20 {
        wrap_result(GnssReport::spec_from_line(line, instant), |x: GnssReportView| ResponseCodeView::GnssReport(x))
    } else if k == 21 {
        wrap_result(CclkTime::spec_from_line(line, instant), |x: CclkTime| ResponseCodeView::CclkTime(x))
    } else if k == 22 {
        wrap_result(Imei::spec_from_line(line, instant), |x: Seq<char>| ResponseCodeView::Imei(x))
    } else if k == 23 {
        wrap_result(SmsMessageFormat::spec_from_line(line, instant), |x: SmsMessageFormat| ResponseCodeView::SmsMessageFormat(x))
    } else if k == 24 {
        wrap_result(MessageReference::spec_from_line(line, instant), |x: MessageReference| ResponseCodeView::MessageReference(x))
    } else if k == 25 {
        wrap_result(SmsMessage::spec_from_line(line, instant), |x: SmsMessageView| ResponseCodeView::SmsMessage(x))
    } else {
        Err(AtParseErr::Mismatch)
    }
}

/// The outcome of the first parser, from the `k`-th on, that does not
/// report the line as of another type; a mismatch where there is none.
pub open spec fn first_claim(k: int, line: Seq<char>, instant: Instant) -> Result<
    ResponseCodeView,
    AtParseErr,
>
    decreases parser_count() - k,
{
    if k < 0 || k >= parser_count() {
        Err(AtParseErr::Mismatch)
    } else {
        match parser_outcome(k, line, instant) {
            Err(AtParseErr::Mismatch) => first_claim(k + 1, line, instant),
            r => r,
        }
    }
}

proof fn lemma_turn<V>(r: Result<V, AtParseErr>, wrap: spec_fn(V) -> ResponseCodeView, next: Result<ResponseCodeView, AtParseErr>)
    ensures
        turn(r, wrap, next) == match wrap_result(r, wrap) {
            Err(AtParseErr::Mismatch) => next,
            x => x,
        },
{
}

proof fn lemma_stage_4(line: Seq<char>, instant: Instant)
    ensures
        spec_dispatch_4(line, instant) == first_claim(20, line, instant),
{
    assert(first_claim(26, line, instant) == Err::<ResponseCodeView, AtParseErr>(AtParseErr::Mismatch));
    lemma_turn(SmsMessage::spec_from_line(line, instant), |x: SmsMessageView| ResponseCodeView::SmsMessage(x), first_claim(26, line, instant));
    assert(first_claim(25, line, instant) == match parser_outcome(25, line, instant) { Err(AtParseErr::Mismatch) => first_claim(26, line, instant), r => r });
    lemma_turn(MessageReference::spec_from_line(line, instant), |x: MessageReference| ResponseCodeView::MessageReference(x), first_claim(25, line, instant));
    assert(first_claim(24, line, instant) == match parser_outcome(24, line, instant) { Err(AtParseErr::Mismatch) => first_claim(25, line, instant), r => r });
    lemma_turn(SmsMessageFormat::spec_from_line(line, instant), |x: SmsMessageFormat| ResponseCodeView::SmsMessageFormat(x), first_claim(24, line, instant));
    assert(first_claim(23, line, instant) == match parser_outcome(23, line, instant) { Err(AtParseErr::Mismatch) => first_claim(24, line, instant), r => r });
    lemma_turn(Imei::spec_from_line(line, instant), |x: Seq<char>| ResponseCodeView::Imei(x), first_claim(23, line, instant));
    assert(first_claim(22, line, instant) == match parser_outcome(22, line, instant) { Err(AtParseErr::Mismatch) => first_claim(23, line, instant), r => r });
    lemma_turn(CclkTime::spec_from_line(line, instant), |x: CclkTime| ResponseCodeView::CclkTime(x), first_claim(22, line, instant));
    assert(first_claim(21, line, instant) == match parser_outcome(21, line, instant) { Err(AtParseErr::Mismatch) => first_claim(22, line, instant), r => r });
    lemma_turn(GnssReport::spec_from_line(line, instant), |x: GnssReportView| ResponseCodeView::GnssReport(x), first_claim(21, line, instant));
    assert(first_claim(20, line, instant) == match parser_outcome(20, line, instant) { Err(AtParseErr::Mismatch) => first_claim(21, line, instant), r => r });
}

proof fn lemma_stage_3(line: Seq<char>, instant: Instant)
    ensures
        spec_dispatch_3(line, instant) == first_claim(14, line, instant),
{
    lemma_stage_4(line, instant);
    lemma_turn(<Option<GnssWorkModeSet> as AtParseLine>::spec_from_line(line, instant), |x: Option<GnssWorkModeSet>| ResponseCodeView::GnssWorkModeSet(x), first_claim(20, line, instant));
    assert(first_claim(19, line, instant) == match parser_outcome(19, line, instant) { Err(AtParseErr::Mismatch) => first_claim(20, line, instant), r => r });
    lemma_turn(GnssXtraInfo::spec_from_line(line, instant), |x: GnssXtraInfo| ResponseCodeView::XtraInfo(x), first_claim(19, line, instant));
    assert(first_claim(18, line, instant) == match parser_outcome(18, line, instant) { Err(AtParseErr::Mismatch) => first_claim(19, line, instant), r => r });
    lemma_turn(LocationInfoResult::spec_from_line(line, instant), |x: LocationInfoResultView| ResponseCodeView::BaseStationLocation(x), first_claim(18, line, instant));
    assert(first_claim(17, line, instant) == match parser_outcome(17, line, instant) { Err(AtParseErr::Mismatch) => first_claim(18, line, instant), r => r });
    lemma_turn(NetworkTime::spec_from_line(line, instant), |x: NetworkTime| ResponseCodeView::NetworkTime(x), first_claim(17, line, instant));
    assert(first_claim(16, line, instant) == match parser_outcome(16, line, instant) { Err(AtParseErr::Mismatch) => first_claim(17, line, instant), r => r });
    lemma_turn(CNActPDP::spec_from_line(line, instant), |x: CNActPDPView| ResponseCodeView::PdpNetworkActive(x), first_claim(16, line, instant));
    assert(first_claim(15, line, instant) == match parser_outcome(15, line, instant) { Err(AtParseErr::Mismatch) => first_claim(16, line, instant), r => r });
    lemma_turn(CGact::spec_from_line(line, instant), |x: CGact| ResponseCodeView::PdpContextActivation(x), first_claim(15, line, instant));
    assert(first_claim(14, line, instant) == match parser_outcome(14, line, instant) { Err(AtParseErr::Mismatch) => first_claim(15, line, instant), r => r });
}

proof fn lemma_stage_2(line: Seq<char>, instant: Instant)
    ensures
        spec_dispatch_2(line, instant) == first_claim(7, line, instant),
{
    lemma_stage_3(line, instant);
    lemma_turn(CNSMod::spec_from_line(line, instant), |x: CNSMod| ResponseCodeView::CNSMod(x), first_claim(14, line, instant));
    assert(first_claim(13, line, instant) == match parser_outcome(13, line, instant) { Err(AtParseErr::Mismatch) => first_claim(14, line, instant), r => r });
    lemma_turn(ConfigureEDRX::spec_from_line(line, instant), |x: ConfigureEDRX| ResponseCodeView::ConfigureEDRX(x), first_claim(13, line, instant));
    assert(first_claim(12, line, instant) == match parser_outcome(12, line, instant) { Err(AtParseErr::Mismatch) => first_claim(13, line, instant), r => r });
    lemma_turn(ProductInfoImei::spec_from_line(line, instant), |x: Seq<char>| ResponseCodeView::ProductInfoImei(x), first_claim(12, line, instant));
    assert(first_claim(11, line, instant) == match parser_outcome(11, line, instant) { Err(AtParseErr::Mismatch) => first_claim(12, line, instant), r => r });
    lemma_turn(QualityControlNumber::spec_from_line(line, instant), |x: Seq<char>| ResponseCodeView::QualityControlNumber(x), first_claim(11, line, instant));
    assert(first_claim(10, line, instant) == match parser_outcome(10, line, instant) { Err(AtParseErr::Mismatch) => first_claim(11, line, instant), r => r });
    lemma_turn(ApRev::spec_from_line(line, instant), |x: ApRev| ResponseCodeView::ApRev(x), first_claim(10, line, instant));
    assert(first_claim(9, line, instant) == match parser_outcome(9, line, instant) { Err(AtParseErr::Mismatch) => first_claim(10, line, instant), r => r });
    lemma_turn(Csub::spec_from_line(line, instant), |x: Seq<char>| ResponseCodeView::Csub(x), first_claim(9, line, instant));
    assert(first_claim(8, line, instant) == match parser_outcome(8, line, instant) { Err(AtParseErr::Mismatch) => first_claim(9, line, instant), r => r });
    lemma_turn(OperatorInfo::spec_from_line(line, instant), |x: OperatorInfoView| ResponseCodeView::OperatorInfo(x), first_claim(8, line, instant));
    assert(first_claim(7, line, instant) == match parser_outcome(7, line, instant) { Err(AtParseErr::Mismatch) => first_claim(8, line, instant), r => r });
}

proof fn lemma_stage_1(line: Seq<char>, instant: Instant)
    ensures
        spec_dispatch_1(line, instant) == first_claim(0, line, instant),
{
    lemma_stage_2(line, instant);
    lemma_turn(SystemInfo::spec_from_line(line, instant), |x: SystemInfo| ResponseCodeView::SystemInfo(x), first_claim(7, line, instant));
    assert(first_claim(6, line, instant) == match parser_outcome(6, line, instant) { Err(AtParseErr::Mismatch) => first_claim(7, line, instant), r => r });
    lemma_turn(SignalQuality::spec_from_line(line, instant), |x: SignalQuality| ResponseCodeView::SignalQuality(x), first_claim(6, line, instant));
    assert(first_claim(5, line, instant) == match parser_outcome(5, line, instant) { Err(AtParseErr::Mismatch) => first_claim(6, line, instant), r => r });
    lemma_turn(IpExt::spec_from_line(line, instant), |x: Seq<u8>| ResponseCodeView::IpExt(x), first_claim(5, line, instant));
    assert(first_claim(4, line, instant) == match parser_outcome(4, line, instant) { Err(AtParseErr::Mismatch) => first_claim(5, line, instant), r => r });
    lemma_turn(CloseOk::spec_from_line(line, instant), |x: CloseOk| ResponseCodeView::CloseOk(x), first_claim(4, line, instant));
    assert(first_claim(3, line, instant) == match parser_outcome(3, line, instant) { Err(AtParseErr::Mismatch) => first_claim(4, line, instant), r => r });
    lemma_turn(WritePrompt::spec_from_line(line, instant), |x: WritePrompt| ResponseCodeView::WritePrompt(x), first_claim(3, line, instant));
    assert(first_claim(2, line, instant) == match parser_outcome(2, line, instant) { Err(AtParseErr::Mismatch) => first_claim(3, line, instant), r => r });
    lemma_turn(SimError::spec_from_line(line, instant), |x: SimError| ResponseCodeView::Error(x), first_claim(2, line, instant));
    assert(first_claim(1, line, instant) == match parser_outcome(1, line, instant) { Err(AtParseErr::Mismatch) => first_claim(2, line, instant), r => r });
    lemma_turn(GenericOk::spec_from_line(line, instant), |x: GenericOk| ResponseCodeView::GenericOk(x), first_claim(1, line, instant));
    assert(first_claim(0, line, instant) == match parser_outcome(0, line, instant) { Err(AtParseErr::Mismatch) => first_claim(1, line, instant), r => r });
}

proof fn lemma_skip_mismatches(k: int, line: Seq<char>, instant: Instant)
    requires
        0 <= k <= parser_count(),
        forall|j: int| 0 <= j < k ==> parser_outcome(j, line, instant) == Err::<ResponseCodeView, AtParseErr>(AtParseErr::Mismatch),
    ensures
        first_claim(0, line, instant) == first_claim(k, line, instant),
    decreases k,
{
    if k > 0 {
        lemma_skip_mismatches(k - 1, line, instant);
    }
}

/// The dispatcher answers with the first parser, in the order of the
/// variants, that does not report the line as of another type: its value
/// in its variant, or its error.
pub proof fn law_dispatch_first_claim(line: Seq<char>, instant: Instant, k: int)
    requires
        0 <= k < parser_count(),
        forall|j: int| 0 <= j < k ==> parser_outcome(j, line, instant) == Err::<ResponseCodeView, AtParseErr>(AtParseErr::Mismatch),
        parser_outcome(k, line, instant) != Err::<ResponseCodeView, AtParseErr>(AtParseErr::Mismatch),
    ensures
        ResponseCode::spec_from_line(line, instant) == parser_outcome(k, line, instant),
{
    lemma_stage_1(line, instant);
    lemma_skip_mismatches(k, line, instant);
}

/// A line that every parser reports as of another type is reported so.
pub proof fn law_dispatch_unclaimed(line: Seq<char>, instant: Instant)
    requires
        forall|j: int| 0 <= j < parser_count() ==> parser_outcome(j, line, instant) == Err::<ResponseCodeView, AtParseErr>(AtParseErr::Mismatch),
    ensures
        ResponseCode::spec_from_line(line, instant) == Err::<ResponseCodeView, AtParseErr>(AtParseErr::Mismatch),
{
    lemma_stage_1(line, instant);
    lemma_skip_mismatches(parser_count(), line, instant);
}

impl AtParseLine for ResponseCode {
    /// The value of the first parser, in the order of the variants, that
    /// does not report the line as of another type.
    open spec fn spec_from_line(line: Seq<char>, instant: Instant) -> Result<ResponseCodeView, AtParseErr> {
        spec_dispatch_1(line, instant)
    }

    fn from_line(line: &str, instant: &Instant) -> (r: Result<Self, AtParseErr>) {
        dispatch_1(line, instant)
    }
}

} // verus!

verus! {

/// A response type that a [ResponseCode] can hold.
pub trait AtResponse: Sized {
    /// The response of this type that `code` holds, if it holds one.
    spec fn spec_payload(code: ResponseCode) -> Option<Self>;

    /// The code that holds `v`.
    spec fn spec_wrap(v: Self) -> ResponseCode;

    /// The response of this type in `code`, to read or to change in place.
    fn from_generic(code: &mut ResponseCode) -> (r: Option<&mut Self>)
        ensures
            match r {
                Some(v) => Self::spec_payload(*old(code)) == Some(*v) && *final(code) == Self::spec_wrap(
                    *final(v),
                ),
                None => Self::spec_payload(*old(code)) is None && *final(code) == *old(code),
            },
    ;

    /// The timeout for responses of this type.
    fn default_timeout() -> (t: Option<Duration>)
        ensures
            t is None,
    {
        None
    }
}

impl AtResponse for Csub {
    open spec fn spec_payload(code: ResponseCode) -> Option<Self> {
        match code {
            ResponseCode::Csub(v) => Some(v),
            _ => None,
        }
    }

    open spec fn spec_wrap(v: Self) -> ResponseCode {
        ResponseCode::Csub(v)
    }

    fn from_generic(code: &mut ResponseCode) -> (r: Option<&mut Self>) {
        match code {
            ResponseCode::Csub(v) => Some(v),
            _ => None,
        }
    }
}

impl AtResponse for ApRev {
    open spec fn spec_payload(code: ResponseCode) -> Option<Self> {
        match code {
            ResponseCode::ApRev(v) => Some(v),
            _ => None,
        }
    }

    open spec fn spec_wrap(v: Self) -> ResponseCode {
        ResponseCode::ApRev(v)
    }

    fn from_generic(code: &mut ResponseCode) -> (r: Option<&mut Self>) {
        match code {
            ResponseCode::ApRev(v) => Some(v),
            _ => None,
        }
    }
}

impl AtResponse for QualityControlNumber {
    open spec fn spec_payload(code: ResponseCode) -> Option<Self> {
        match code {
            ResponseCode::QualityControlNumber(v) => Some(v),
            _ => None,
        }
    }

    open spec fn spec_wrap(v: Self) -> ResponseCode {
        ResponseCode::QualityControlNumber(v)
    }

    fn from_generic(code: &mut ResponseCode) -> (r: Option<&mut Self>) {
        match code {
            ResponseCode::QualityControlNumber(v) => Some(v),
            _ => None,
        }
    }
}

impl AtResponse for ProductInfoImei {
    open spec fn spec_payload(code: ResponseCode) -> Option<Self> {
        match code {
            ResponseCode::ProductInfoImei(v) => Some(v),
            _ => None,
        }
    }

    open spec fn spec_wrap(v: Self) -> ResponseCode {
        ResponseCode::ProductInfoImei(v)
    }

    fn from_generic(code: &mut ResponseCode) -> (r: Option<&mut Self>) {
        match code {
            ResponseCode::ProductInfoImei(v) => Some(v),
            _ => None,
        }
    }
}

impl AtResponse for CclkTime {
    open spec fn spec_payload(code: ResponseCode) -> Option<Self> {
        match code {
            ResponseCode::CclkTime(v) => Some(v),
            _ => None,
        }
    }

    open spec fn spec_wrap(v: Self) -> ResponseCode {
        ResponseCode::CclkTime(v)
    }

    fn from_generic(code: &mut ResponseCode) -> (r: Option<&mut Self>) {
        match code {
            ResponseCode::CclkTime(v) => Some(v),
            _ => None,
        }
    }
}

impl AtResponse for ConfigureEDRX {
    open spec fn spec_payload(code: ResponseCode) -> Option<Self> {
        match code {
            ResponseCode::ConfigureEDRX(v) => Some(v),
            _ => None,
        }
    }

    open spec fn spec_wrap(v: Self) -> ResponseCode {
        ResponseCode::ConfigureEDRX(v)
    }

    fn from_generic(code: &mut ResponseCode) -> (r: Option<&mut Self>) {
        match code {
            ResponseCode::ConfigureEDRX(v) => Some(v),
            _ => None,
        }
    }
}

impl AtResponse for CGact {
    open spec fn spec_payload(code: ResponseCode) -> Option<Self> {
        match code {
            ResponseCode::PdpContextActivation(v) => Some(v),
            _ => None,
        }
    }

    open spec fn spec_wrap(v: Self) -> ResponseCode {
        ResponseCode::PdpContextActivation(v)
    }

    fn from_generic(code: &mut ResponseCode) -> (r: Option<&mut Self>) {
        match code {
            ResponseCode::PdpContextActivation(v) => Some(v),
            _ => None,
        }
    }
}

impl AtResponse for GnssReport {
    open spec fn spec_payload(code: ResponseCode) -> Option<Self> {
        match code {
            ResponseCode::GnssReport(v) => Some(v),
            _ => None,
        }
    }

    open spec fn spec_wrap(v: Self) -> ResponseCode {
        ResponseCode::GnssReport(v)
    }

    fn from_generic(code: &mut ResponseCode) -> (r: Option<&mut Self>) {
        match code {
            ResponseCode::GnssReport(v) => Some(v),
            _ => None,
        }
    }
}

impl AtResponse for GnssXtraInfo {
    open spec fn spec_payload(code: ResponseCode) -> Option<Self> {
        match code {
            ResponseCode::XtraInfo(v) => Some(v),
            _ => None,
        }
    }

    open spec fn spec_wrap(v: Self) -> ResponseCode {
        ResponseCode::XtraInfo(v)
    }

    fn from_generic(code: &mut ResponseCode) -> (r: Option<&mut Self>) {
        match code {
            ResponseCode::XtraInfo(v) => Some(v),
            _ => None,
        }
    }
}

impl AtResponse for IpExt {
    open spec fn spec_payload(code: ResponseCode) -> Option<Self> {
        match code {
            ResponseCode::IpExt(v) => Some(v),
            _ => None,
        }
    }

    open spec fn spec_wrap(v: Self) -> ResponseCode {
        ResponseCode::IpExt(v)
    }

    fn from_generic(code: &mut ResponseCode) -> (r: Option<&mut Self>) {
        match code {
            ResponseCode::IpExt(v) => Some(v),
            _ => None,
        }
    }
}

impl AtResponse for LocationInfoResult {
    open spec fn spec_payload(code: ResponseCode) -> Option<Self> {
        match code {
            ResponseCode::BaseStationLocation(v) => Some(v),
            _ => None,
        }
    }

    open spec fn spec_wrap(v: Self) -> ResponseCode {
        ResponseCode::BaseStationLocation(v)
    }

    fn from_generic(code: &mut ResponseCode) -> (r: Option<&mut Self>) {
        match code {
            ResponseCode::BaseStationLocation(v) => Some(v),
            _ => None,
        }
    }
}

impl AtResponse for SmsMessageFormat {
    open spec fn spec_payload(code: ResponseCode) -> Option<Self> {
        match code {
            ResponseCode::SmsMessageFormat(v) => Some(v),
            _ => None,
        }
    }

    open spec fn spec_wrap(v: Self) -> ResponseCode {
        ResponseCode::SmsMessageFormat(v)
    }

    fn from_generic(code: &mut ResponseCode) -> (r: Option<&mut Self>) {
        match code {
            ResponseCode::SmsMessageFormat(v) => Some(v),
            _ => None,
        }
    }
}

impl AtResponse for SmsMessage {
    open spec fn spec_payload(code: ResponseCode) -> Option<Self> {
        match code {
            ResponseCode::SmsMessage(v) => Some(v),
            _ => None,
        }
    }

    open spec fn spec_wrap(v: Self) -> ResponseCode {
        ResponseCode::SmsMessage(v)
    }

    fn from_generic(code: &mut ResponseCode) -> (r: Option<&mut Self>) {
        match code {
            ResponseCode::SmsMessage(v) => Some(v),
            _ => None,
        }
    }
}

impl AtResponse for MessageReference {
    open spec fn spec_payload(code: ResponseCode) -> Option<Self> {
        match code {
            ResponseCode::MessageReference(v) => Some(v),
            _ => None,
        }
    }

    open spec fn spec_wrap(v: Self) -> ResponseCode {
        ResponseCode::MessageReference(v)
    }

    fn from_generic(code: &mut ResponseCode) -> (r: Option<&mut Self>) {
        match code {
            ResponseCode::MessageReference(v) => Some(v),
            _ => None,
        }
    }
}

impl AtResponse for CNActPDP {
    open spec fn spec_payload(code: ResponseCode) -> Option<Self> {
        match code {
            ResponseCode::PdpNetworkActive(v) => Some(v),
            _ => None,
        }
    }

    open spec fn spec_wrap(v: Self) -> ResponseCode {
        ResponseCode::PdpNetworkActive(v)
    }

    fn from_generic(code: &mut ResponseCode) -> (r: Option<&mut Self>) {
        match code {
            ResponseCode::PdpNetworkActive(v) => Some(v),
            _ => None,
        }
    }
}

impl AtResponse for CNSMod {
    open spec fn spec_payload(code: ResponseCode) -> Option<Self> {
        match code {
            ResponseCode::CNSMod(v) => Some(v),
            _ => None,
        }
    }

    open spec fn spec_wrap(v: Self) -> ResponseCode {
        ResponseCode::CNSMod(v)
    }

    fn from_generic(code: &mut ResponseCode) -> (r: Option<&mut Self>) {
        match code {
            ResponseCode::CNSMod(v) => Some(v),
            _ => None,
        }
    }
}

impl AtResponse for NetworkTime {
    open spec fn spec_payload(code: ResponseCode) -> Option<Self> {
        match code {
            ResponseCode::NetworkTime(v) => Some(v),
            _ => None,
        }
    }

    open spec fn spec_wrap(v: Self) -> ResponseCode {
        ResponseCode::NetworkTime(v)
    }

    fn from_generic(code: &mut ResponseCode) -> (r: Option<&mut Self>) {
        match code {
            ResponseCode::NetworkTime(v) => Some(v),
            _ => None,
        }
    }
}

impl AtResponse for OperatorInfo {
    open spec fn spec_payload(code: ResponseCode) -> Option<Self> {
        match code {
            ResponseCode::OperatorInfo(v) => Some(v),
            _ => None,
        }
    }

    open spec fn spec_wrap(v: Self) -> ResponseCode {
        ResponseCode::OperatorInfo(v)
    }

    fn from_generic(code: &mut ResponseCode) -> (r: Option<&mut Self>) {
        match code {
            ResponseCode::OperatorInfo(v) => Some(v),
            _ => None,
        }
    }
}

impl AtResponse for SystemInfo {
    open spec fn spec_payload(code: ResponseCode) -> Option<Self> {
        match code {
            ResponseCode::SystemInfo(v) => Some(v),
            _ => None,
        }
    }

    open spec fn spec_wrap(v: Self) -> ResponseCode {
        ResponseCode::SystemInfo(v)
    }

    fn from_generic(code: &mut ResponseCode) -> (r: Option<&mut Self>) {
        match code {
            ResponseCode::SystemInfo(v) => Some(v),
            _ => None,
        }
    }
}

impl AtResponse for SignalQuality {
    open spec fn spec_payload(code: ResponseCode) -> Option<Self> {
        match code {
            ResponseCode::SignalQuality(v) => Some(v),
            _ => None,
        }
    }

    open spec fn spec_wrap(v: Self) -> ResponseCode {
        ResponseCode::SignalQuality(v)
    }

    fn from_generic(code: &mut ResponseCode) -> (r: Option<&mut Self>) {
        match code {
            ResponseCode::SignalQuality(v) => Some(v),
            _ => None,
        }
    }
}

impl AtResponse for GenericOk {
    open spec fn spec_payload(code: ResponseCode) -> Option<Self> {
        match code {
            ResponseCode::GenericOk(v) => Some(v),
            _ => None,
        }
    }

    open spec fn spec_wrap(v: Self) -> ResponseCode {
        ResponseCode::GenericOk(v)
    }

    fn from_generic(code: &mut ResponseCode) -> (r: Option<&mut Self>) {
        match code {
            ResponseCode::GenericOk(v) => Some(v),
            _ => None,
        }
    }
}

impl AtResponse for WritePrompt {
    open spec fn spec_payload(code: ResponseCode) -> Option<Self> {
        match code {
            ResponseCode::WritePrompt(v) => Some(v),
            _ => None,
        }
    }

    open spec fn spec_wrap(v: Self) -> ResponseCode {
        ResponseCode::WritePrompt(v)
    }

    fn from_generic(code: &mut ResponseCode) -> (r: Option<&mut Self>) {
        match code {
            ResponseCode::WritePrompt(v) => Some(v),
            _ => None,
        }
    }
}

impl AtResponse for CloseOk {
    open spec fn spec_payload(code: ResponseCode) -> Option<Self> {
        match code {
            ResponseCode::CloseOk(v) => Some(v),
            _ => None,
        }
    }

    open spec fn spec_wrap(v: Self) -> ResponseCode {
        ResponseCode::CloseOk(v)
    }

    fn from_generic(code: &mut ResponseCode) -> (r: Option<&mut Self>) {
        match code {
            ResponseCode::CloseOk(v) => Some(v),
            _ => None,
        }
    }
}

impl AtResponse for Imei {
    open spec fn spec_payload(code: ResponseCode) -> Option<Self> {
        match code {
            ResponseCode::Imei(v) => Some(v),
            _ => None,
        }
    }

    open spec fn spec_wrap(v: Self) -> ResponseCode {
        ResponseCode::Imei(v)
    }

    fn from_generic(code: &mut ResponseCode) -> (r: Option<&mut Self>) {
        match code {
            ResponseCode::Imei(v) => Some(v),
            _ => None,
        }
    }
}

impl AtResponse for GnssWorkModeSet {
    open spec fn spec_payload(code: ResponseCode) -> Option<Self> {
        match code {
            ResponseCode::GnssWorkModeSet(Some(v)) => Some(v),
            _ => None,
        }
    }

    open spec fn spec_wrap(v: Self) -> ResponseCode {
        ResponseCode::GnssWorkModeSet(Some(v))
    }

    fn from_generic(code: &mut ResponseCode) -> (r: Option<&mut Self>) {
        match code {
            ResponseCode::GnssWorkModeSet(Some(v)) => Some(v),
            _ => None,
        }
    }
}

} // verus!

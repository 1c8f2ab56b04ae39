use vstd::prelude::*;
use embassy_time::Instant;
use super::{AtParseErr, AtParseLine, int_err, int_err_exec};
use crate::out::{decimal, lemma_decimal_padded_reads_back, lemma_decimal_reads_back, push_decimal};
use crate::text::{
    chars_of, eq_str, has_prefix, is_whitespace, parse_unsigned, parse_u32, parse_usize, starts_with,
    strip_prefix, strip_prefix_exec, strip_suffix, strip_suffix_exec, trim_start, trim_start_exec,
};

verus! {

#[derive(Clone, Copy, Debug, PartialEq, Eq)]
pub struct GenericOk;

impl View for GenericOk {
    type V = GenericOk;

    open spec fn view(&self) -> GenericOk {
        *self
    }
}

#[derive(Clone, Copy, Debug, PartialEq, Eq)]
pub enum SimError {
    /// Generic error
    Generic,
    /// Error relating to mobile equipment or to the network.
    CmeErr { code: u32 },
    /// Error relating to message service or to the network.
    CmsErr { code: u32 },
}

impl View for SimError {
    type V = SimError;

    open spec fn view(&self) -> SimError {
        *self
    }
}

#[derive(Clone, Copy, Debug, PartialEq, Eq)]
pub struct WritePrompt;

impl View for WritePrompt {
    type V = WritePrompt;

    open spec fn view(&self) -> WritePrompt {
        *self
    }
}

#[derive(Clone, Copy, Debug, PartialEq, Eq)]
pub struct CloseOk {
    pub connection: usize,
}

impl View for CloseOk {
    type V = CloseOk;

    open spec fn view(&self) -> CloseOk {
        *self
    }
}

impl AtParseLine for GenericOk {
    /// `OK` or `SHUT OK`
    open spec fn spec_from_line(line: Seq<char>, instant: Instant) -> Result<GenericOk, AtParseErr> {
        if line == "OK"@ || line == "SHUT OK"@ {
            Ok(GenericOk)
        } else {
            Err(AtParseErr::Mismatch)
        }
    }

    fn from_line(line: &str, instant: &Instant) -> (r: Result<Self, AtParseErr>) {
        let v = chars_of(line);
        if eq_str(v.as_slice(), "OK") || eq_str(v.as_slice(), "SHUT OK") {
            Ok(GenericOk)
        } else {
            Err(AtParseErr::Mismatch)
        }
    }
}

/// An error code after its prefix (leading whitespace allowed).
pub open spec fn spec_error_code(s: Seq<char>) -> Result<u32, AtParseErr> {
    match parse_unsigned(trim_start(s), 10, u32::MAX as nat) {
        Some(c) => Ok(c as u32),
        None => Err(int_err()),
    }
}

fn error_code(s: &[char]) -> (r: Result<u32, AtParseErr>)
    ensures
        r == spec_error_code(s@),
{
    match parse_u32(trim_start_exec(s)) {
        Some(c) => Ok(c),
        None => Err(int_err_exec()),
    }
}

impl AtParseLine for SimError {
    /// `+CME ERROR: <code>`, `+CMS ERROR: <code>` or `ERROR`
    open spec fn spec_from_line(line: Seq<char>, instant: Instant) -> Result<SimError, AtParseErr> {
        match strip_prefix(line, "+CME ERROR:"@) {
            Some(code) => match spec_error_code(code) {
                Ok(code) => Ok(SimError::CmeErr { code }),
                Err(e) => Err(e),
            },
            None => match strip_prefix(line, "+CMS ERROR:"@) {
                Some(code) => match spec_error_code(code) {
                    Ok(code) => Ok(SimError::CmsErr { code }),
                    Err(e) => Err(e),
                },
                None => if line == "ERROR"@ {
                    Ok(SimError::Generic)
                } else {
                    Err(AtParseErr::Mismatch)
                },
            },
        }
    }

    fn from_line(line: &str, instant: &Instant) -> (r: Result<Self, AtParseErr>) {
        let v = chars_of(line);
        let s = v.as_slice();
        if let Some(code) = strip_prefix_exec(s, "+CME ERROR:") {
            Ok(SimError::CmeErr { code: error_code(code)? })
        } else if let Some(code) = strip_prefix_exec(s, "+CMS ERROR:") {
            Ok(SimError::CmsErr { code: error_code(code)? })
        } else if eq_str(s, "ERROR") {
            Ok(SimError::Generic)
        } else {
            Err(AtParseErr::Mismatch)
        }
    }
}

impl AtParseLine for WritePrompt {
    /// A line starting with `>`
    open spec fn spec_from_line(line: Seq<char>, instant: Instant) -> Result<WritePrompt, AtParseErr> {
        if has_prefix(line, ">"@) {
            Ok(WritePrompt)
        } else {
            Err(AtParseErr::Mismatch)
        }
    }

    fn from_line(line: &str, instant: &Instant) -> (r: Result<Self, AtParseErr>) {
        let v = chars_of(line);
        if starts_with(v.as_slice(), ">") {
            Ok(WritePrompt)
        } else {
            Err(AtParseErr::Mismatch)
        }
    }
}

impl AtParseLine for CloseOk {
    /// `<connection>, CLOSE OK`
    open spec fn spec_from_line(line: Seq<char>, instant: Instant) -> Result<CloseOk, AtParseErr> {
        match strip_suffix(line, ", CLOSE OK"@) {
            None => Err(AtParseErr::Mismatch),
            Some(n) => match parse_unsigned(n, 10, usize::MAX as nat) {
                Some(connection) => Ok(CloseOk { connection: connection as usize }),
                None => Err(int_err()),
            },
        }
    }

    fn from_line(line: &str, instant: &Instant) -> (r: Result<Self, AtParseErr>) {
        let v = chars_of(line);
        match strip_suffix_exec(v.as_slice(), ", CLOSE OK") {
            None => Err(AtParseErr::Mismatch),
            Some(n) => match parse_usize(n) {
                Some(connection) => Ok(CloseOk { connection }),
                None => Err(int_err_exec()),
            },
        }
    }
}

/// The description of each known +CME ERROR code.
pub open spec fn spec_cme_text(code: u32) -> Option<&'static str> {
    match code {
        0 => Some("0: phone failure"),
        1 => Some("1: no connection to phone"),
        2 => Some("2: phone-adaptor link reserved"),
        3 => Some("3: operation not allowed"),
        4 => Some("4: operation not supported"),
        5 => Some("5: PH-SIM PIN required"),
        6 => Some("6: PH-FSIM PIN required"),
        7 => Some("7: PH-FSIM PUK required"),
        10 => Some("10: SIM not inserted"),
        11 => Some("11: SIM PIN required"),
        12 => Some("12: SIM PUK required"),
        13 => Some("13: SIM failure"),
        14 => Some("14: SIM busy"),
        15 => Some("15: SIM wrong"),
        16 => Some("16: incorrect password"),
        17 => Some("17: SIM PIN2 required"),
        18 => Some("18: SIM PUK2 required"),
        20 => Some("20: memory full"),
        21 => Some("21: invalid index"),
        22 => Some("22: not found"),
        23 => Some("23: memory failure"),
        24 => Some("24: text string too long"),
        25 => Some("25: invalid characters in text string"),
        26 => Some("26: dial string too long"),
        27 => Some("27: invalid characters in dial string"),
        30 => Some("30: no network service"),
        31 => Some("31: network timeout"),
        32 => Some("32: network not allowed - emergency call only"),
        40 => Some("40: network personalisation PIN required"),
        41 => Some("41: network personalisation PUK required"),
        42 => Some("42: network subset personalisation PIN required"),
        43 => Some("43: network subset personalisation PUK required"),
        44 => Some("44: service provider personalisation PIN required"),
        45 => Some("45: service provider personalisation PUK required"),
        46 => Some("46: corporate personalisation PIN required"),
        47 => Some("47: corporate personalisation PUK required"),
        99 => Some("99: resource limitation"),
        100 => Some("100: unknown"),
        103 => Some("103: Illegal MS"),
        106 => Some("106: Illegal ME"),
        107 => Some("107: GPRS services not allowed"),
        111 => Some("111: PLMN not allowed"),
        112 => Some("112: Location area not allowed"),
        113 => Some("113: Roaming not allowed in this location area"),
        132 => Some("132: service option not supported"),
        133 => Some("133: requested service option not subscribed"),
        134 => Some("134: service option temporarily out of order"),
        148 => Some("148: unspecified GPRS error"),
        149 => Some("149: PDP authentication failure"),
        150 => Some("150: invalid mobile class"),
        160 => Some("160: DNS resolve failed"),
        161 => Some("161: Socket open failed"),
        171 => Some("171: MMS task is busy now"),
        172 => Some("172: The MMS data is oversize"),
        173 => Some("173: The operation is overtime"),
        174 => Some("174: There is no MMS receiver"),
        175 => Some("175: The storage for address is full"),
        176 => Some("176: Not find the address"),
        177 => Some("177: The connection to network is failed"),
        178 => Some("178: Failed to read push message"),
        179 => Some("179: This is not a push message"),
        180 => Some("180: gprs is not attached"),
        181 => Some("181: tcpip stack is busy"),
        182 => Some("182: The MMS storage is full"),
        183 => Some("183: The box is empty"),
        184 => Some("184: failed to save MMS"),
        185 => Some("185: It is in edit mode"),
        186 => Some("186: It is not in edit mode"),
        187 => Some("187: No content in the buffer"),
        188 => Some("188: Not find the file"),
        189 => Some("189: Failed to receive MMS"),
        190 => Some("190: Failed to read MMS"),
        191 => Some("191: Not M-Notification.ind"),
        192 => Some("192: The MMS inclosure is full"),
        193 => Some("193: Unknown"),
        600 => Some("600: No Error"),
        601 => Some("601: Unrecognized Command"),
        602 => Some("602: Return Value Error"),
        603 => Some("603: Syntax Error"),
        604 => Some("604: Unspecified Error"),
        605 => Some("605: Data Transfer Already"),
        606 => Some("606: Action Already"),
        607 => Some("607: Not At Cmd"),
        608 => Some("608: Multi Cmd too long"),
        609 => Some("609: Abort Cops"),
        610 => Some("610: No Call Disc"),
        611 => Some("611: BT SAP Undefined"),
        612 => Some("612: BT SAP Not Accessible"),
        613 => Some("613: BT SAP Card Removed"),
        614 => Some("614: AT Not Allowed By Customer"),
        753 => Some("753: missing required cmd parameter"),
        754 => Some("754: invalid SIM command"),
        755 => Some("755: invalid File Id"),
        756 => Some("756: missing required P1/2/3 parameter"),
        757 => Some("757: invalid P1/2/3 parameter"),
        758 => Some("758: missing required command data"),
        759 => Some("759: invalid characters in command data"),
        765 => Some("765: Invalid input value"),
        766 => Some("766: Unsupported mode"),
        767 => Some("767: Operation failed"),
        768 => Some("768: Mux already running"),
        769 => Some("769: Unable to get control"),
        770 => Some("770: SIM network reject"),
        771 => Some("771: Call setup in progress"),
        772 => Some("772: SIM powered down"),
        773 => Some("773: SIM file not present"),
        791 => Some("791: Param count not enough"),
        792 => Some("792: Param count beyond"),
        793 => Some("793: Param value range beyond"),
        794 => Some("794: Param type not match"),
        795 => Some("795: Param format invalid"),
        796 => Some("796: Get a null param"),
        797 => Some("797: CFUN state is 0 or 4"),
        _ => None,
    }
}

fn cme_text(code: u32) -> (r: Option<&'static str>)
    ensures
        r == spec_cme_text(code),
{
    match code {
        0 => Some("0: phone failure"),
        1 => Some("1: no connection to phone"),
        2 => Some("2: phone-adaptor link reserved"),
        3 => Some("3: operation not allowed"),
        4 => Some("4: operation not supported"),
        5 => Some("5: PH-SIM PIN required"),
        6 => Some("6: PH-FSIM PIN required"),
        7 => Some("7: PH-FSIM PUK required"),
        10 => Some("10: SIM not inserted"),
        11 => Some("11: SIM PIN required"),
        12 => Some("12: SIM PUK required"),
        13 => Some("13: SIM failure"),
        14 => Some("14: SIM busy"),
        15 => Some("15: SIM wrong"),
        16 => Some("16: incorrect password"),
        17 => Some("17: SIM PIN2 required"),
        18 => Some("18: SIM PUK2 required"),
        20 => Some("20: memory full"),
        21 => Some("21: invalid index"),
        22 => Some("22: not found"),
        23 => Some("23: memory failure"),
        24 => Some("24: text string too long"),
        25 => Some("25: invalid characters in text string"),
        26 => Some("26: dial string too long"),
        27 => Some("27: invalid characters in dial string"),
        30 => Some("30: no network service"),
        31 => Some("31: network timeout"),
        32 => Some("32: network not allowed - emergency call only"),
        40 => Some("40: network personalisation PIN required"),
        41 => Some("41: network personalisation PUK required"),
        42 => Some("42: network subset personalisation PIN required"),
        43 => Some("43: network subset personalisation PUK required"),
        44 => Some("44: service provider personalisation PIN required"),
        45 => Some("45: service provider personalisation PUK required"),
        46 => Some("46: corporate personalisation PIN required"),
        47 => Some("47: corporate personalisation PUK required"),
        99 => Some("99: resource limitation"),
        100 => Some("100: unknown"),
        103 => Some("103: Illegal MS"),
        106 => Some("106: Illegal ME"),
        107 => Some("107: GPRS services not allowed"),
        111 => Some("111: PLMN not allowed"),
        112 => Some("112: Location area not allowed"),
        113 => Some("113: Roaming not allowed in this location area"),
        132 => Some("132: service option not supported"),
        133 => Some("133: requested service option not subscribed"),
        134 => Some("134: service option temporarily out of order"),
        148 => Some("148: unspecified GPRS error"),
        149 => Some("149: PDP authentication failure"),
        150 => Some("150: invalid mobile class"),
        160 => Some("160: DNS resolve failed"),
        161 => Some("161: Socket open failed"),
        171 => Some("171: MMS task is busy now"),
        172 => Some("172: The MMS data is oversize"),
        173 => Some("173: The operation is overtime"),
        174 => Some("174: There is no MMS receiver"),
        175 => Some("175: The storage for address is full"),
        176 => Some("176: Not find the address"),
        177 => Some("177: The connection to network is failed"),
        178 => Some("178: Failed to read push message"),
        179 => Some("179: This is not a push message"),
        180 => Some("180: gprs is not attached"),
        181 => Some("181: tcpip stack is busy"),
        182 => Some("182: The MMS storage is full"),
        183 => Some("183: The box is empty"),
        184 => Some("184: failed to save MMS"),
        185 => Some("185: It is in edit mode"),
        186 => Some("186: It is not in edit mode"),
        187 => Some("187: No content in the buffer"),
        188 => Some("188: Not find the file"),
        189 => Some("189: Failed to receive MMS"),
        190 => Some("190: Failed to read MMS"),
        191 => Some("191: Not M-Notification.ind"),
        192 => Some("192: The MMS inclosure is full"),
        193 => Some("193: Unknown"),
        600 => Some("600: No Error"),
        601 => Some("601: Unrecognized Command"),
        602 => Some("602: Return Value Error"),
        603 => Some("603: Syntax Error"),
        604 => Some("604: Unspecified Error"),
        605 => Some("605: Data Transfer Already"),
        606 => Some("606: Action Already"),
        607 => Some("607: Not At Cmd"),
        608 => Some("608: Multi Cmd too long"),
        609 => Some("609: Abort Cops"),
        610 => Some("610: No Call Disc"),
        611 => Some("611: BT SAP Undefined"),
        612 => Some("612: BT SAP Not Accessible"),
        613 => Some("613: BT SAP Card Removed"),
        614 => Some("614: AT Not Allowed By Customer"),
        753 => Some("753: missing required cmd parameter"),
        754 => Some("754: invalid SIM command"),
        755 => Some("755: invalid File Id"),
        756 => Some("756: missing required P1/2/3 parameter"),
        757 => Some("757: invalid P1/2/3 parameter"),
        758 => Some("758: missing required command data"),
        759 => Some("759: invalid characters in command data"),
        765 => Some("765: Invalid input value"),
        766 => Some("766: Unsupported mode"),
        767 => Some("767: Operation failed"),
        768 => Some("768: Mux already running"),
        769 => Some("769: Unable to get control"),
        770 => Some("770: SIM network reject"),
        771 => Some("771: Call setup in progress"),
        772 => Some("772: SIM powered down"),
        773 => Some("773: SIM file not present"),
        791 => Some("791: Param count not enough"),
        792 => Some("792: Param count beyond"),
        793 => Some("793: Param value range beyond"),
        794 => Some("794: Param type not match"),
        795 => Some("795: Param format invalid"),
        796 => Some("796: Get a null param"),
        797 => Some("797: CFUN state is 0 or 4"),
        _ => None,
    }
}

/// The description of each known +CMS ERROR code.
pub open spec fn spec_cms_text(code: u32) -> Option<&'static str> {
    match code {
        1 => Some("1: Unassigned(unallocated) number"),
        3 => Some("3: No route to destination"),
        6 => Some("6: Channel unacceptable"),
        8 => Some("8: Operator determined barring"),
        10 => Some("10: Call barred"),
        11 => Some("11: Reserved"),
        16 => Some("16: Normal call clearing"),
        17 => Some("17: User busy"),
        18 => Some("18: No user responding"),
        19 => Some("19: User alerting, no answer"),
        21 => Some("21: Short message transfer rejected"),
        22 => Some("22: Number changed"),
        25 => Some("25: Pre-emption"),
        26 => Some("26: Non-selected user clearing"),
        27 => Some("27: Destination out of service"),
        28 => Some("28: Invalid number format (incomplete number)"),
        29 => Some("29: Facility rejected"),
        30 => Some("30: Response to STATUS ENQUIRY"),
        32 => Some("32: Normal, unspecified"),
        34 => Some("34: No circuit/channel available"),
        38 => Some("38: Network out of order"),
        41 => Some("41: Temporary failure"),
        42 => Some("42: Switching equipment Congestion"),
        43 => Some("43: Access information discarded"),
        44 => Some("44: Requested circuit/channel not available"),
        47 => Some("47: Resources unavailable, unspecified"),
        49 => Some("49: Quality of service unavailable"),
        50 => Some("50: Requested facility not subscribed"),
        55 => Some("55: Requested facility not subscribed"),
        57 => Some("57: Bearer capability not authorized"),
        58 => Some("58: Bearer capability not presently available"),
        63 => Some("63: Service or option not available, unspecified"),
        65 => Some("65: Bearer service not implemented"),
        68 => Some("68: ACM equal or greater than ACM maximum"),
        69 => Some("69: Requested facility not implemented"),
        70 => Some("70: Only restricted digital information bearer capability is available"),
        79 => Some("79: Service or option not implemented, unspecified"),
        81 => Some("81: Invalid transaction identifier value"),
        87 => Some("87: User not member of CUG"),
        88 => Some("88: Incompatible destination"),
        91 => Some("91: Invalid transit network selection"),
        95 => Some("95: Semantically incorrect message"),
        96 => Some("96: Invalid mandatory information"),
        97 => Some("97: Message type non-existent or not implemented"),
        98 => Some("98: Message type not compatible with protocol state"),
        99 => Some("99: Information element non-existent or not implemented"),
        100 => Some("100: Conditional information element error"),
        101 => Some("101: Message not compatible with protocol"),
        102 => Some("102: Recovery on timer expiry"),
        111 => Some("111: Protocol error, unspecified"),
        127 => Some("127: Interworking, unspecified"),
        128 => Some("128: Telematic interworking not supported"),
        129 => Some("129: Short message Type 0 not supported"),
        130 => Some("130: Cannot replace short message"),
        143 => Some("143: Unspecified TP-PID error"),
        144 => Some("144: Data coding scheme (alphabet) not supported"),
        145 => Some("145: Message class not supported"),
        159 => Some("159: Unspecified TP-DCS error"),
        160 => Some("160: Command cannot be acted"),
        161 => Some("161: Command unsupported"),
        175 => Some("175: Unspecified TP-Command error"),
        176 => Some("176: TPDU not supported"),
        192 => Some("192: SC busy"),
        193 => Some("193: No SC subscription"),
        194 => Some("194: SC system failure"),
        195 => Some("195: Invalid SME address"),
        196 => Some("196: Destination SME barred"),
        197 => Some("197: SM Rejected-Duplicate SM"),
        198 => Some("198: TP-VPF not supported"),
        199 => Some("199: TP-VP not supported"),
        208 => Some("208: SIM SMS storage full"),
        209 => Some("209: No SMS storage capability in SIM"),
        210 => Some("210: Error in MS"),
        211 => Some("211: Memory Capacity Exceeded"),
        212 => Some("212: SIM Application Toolkit Busy"),
        213 => Some("213: SIM data download error"),
        224 => Some("224: CP retry exceed"),
        225 => Some("225: RP trim timeout"),
        226 => Some("226: SMS connection broken"),
        255 => Some("255: Unspecified error cause"),
        300 => Some("300: ME failure"),
        301 => Some("301: SMS reserved"),
        302 => Some("302: operation not allowed"),
        303 => Some("303: operation not supported"),
        304 => Some("304: invalid PDU mode"),
        305 => Some("305: invalid text mode"),
        310 => Some("310: SIM not inserted"),
        311 => Some("311: SIM pin necessary"),
        312 => Some("312: PH SIM pin necessary"),
        313 => Some("313: SIM failure"),
        314 => Some("314: SIM busy"),
        315 => Some("315: SIM wrong"),
        316 => Some("316: SIM PUK required"),
        317 => Some("317: SIM PIN2 required"),
        318 => Some("318: SIM PUK2 required"),
        320 => Some("320: memory failure"),
        321 => Some("321: invalid memory index"),
        322 => Some("322: memory full"),
        323 => Some("323: invalid input parameter"),
        324 => Some("324: invalid input format"),
        325 => Some("325: invalid input value"),
        330 => Some("330: SMSC address unknown"),
        331 => Some("331: no network"),
        332 => Some("332: network timeout"),
        340 => Some("340: no cnma ack"),
        500 => Some("500: Unknown"),
        512 => Some("512: SMS no error"),
        513 => Some("513: Message length exceeds maximum length"),
        514 => Some("514: Invalid request parameters"),
        515 => Some("515: ME storage failure"),
        516 => Some("516: Invalid bearer service"),
        517 => Some("517: Invalid service mode"),
        518 => Some("518: Invalid storage type"),
        519 => Some("519: Invalid message format"),
        520 => Some("520: Too many MO concatenated messages"),
        521 => Some("521: SMSAL not ready"),
        522 => Some("522: SMSAL no more service"),
        523 => Some("523: Not support TP-Status-Report & TP-Command in storage"),
        524 => Some("524: Reserved MTI"),
        525 => Some("525: No free entity in RL layer"),
        526 => Some("526: The port number is already registered"),
        527 => Some("527: There is no free entity for port number"),
        528 => Some("528: More Message to Send state error"),
        529 => Some("529: MO SMS is not allow"),
        530 => Some("530: GPRS is suspended"),
        531 => Some("531: ME storage full"),
        532 => Some("532: Doing SIM refresh"),
        _ => None,
    }
}

fn cms_text(code: u32) -> (r: Option<&'static str>)
    ensures
        r == spec_cms_text(code),
{
    match code {
        1 => Some("1: Unassigned(unallocated) number"),
        3 => Some("3: No route to destination"),
        6 => Some("6: Channel unacceptable"),
        8 => Some("8: Operator determined barring"),
        10 => Some("10: Call barred"),
        11 => Some("11: Reserved"),
        16 => Some("16: Normal call clearing"),
        17 => Some("17: User busy"),
        18 => Some("18: No user responding"),
        19 => Some("19: User alerting, no answer"),
        21 => Some("21: Short message transfer rejected"),
        22 => Some("22: Number changed"),
        25 => Some("25: Pre-emption"),
        26 => Some("26: Non-selected user clearing"),
        27 => Some("27: Destination out of service"),
        28 => Some("28: Invalid number format (incomplete number)"),
        29 => Some("29: Facility rejected"),
        30 => Some("30: Response to STATUS ENQUIRY"),
        32 => Some("32: Normal, unspecified"),
        34 => Some("34: No circuit/channel available"),
        38 => Some("38: Network out of order"),
        41 => Some("41: Temporary failure"),
        42 => Some("42: Switching equipment Congestion"),
        43 => Some("43: Access information discarded"),
        44 => Some("44: Requested circuit/channel not available"),
        47 => Some("47: Resources unavailable, unspecified"),
        49 => Some("49: Quality of service unavailable"),
        50 => Some("50: Requested facility not subscribed"),
        55 => Some("55: Requested facility not subscribed"),
        57 => Some("57: Bearer capability not authorized"),
        58 => Some("58: Bearer capability not presently available"),
        63 => Some("63: Service or option not available, unspecified"),
        65 => Some("65: Bearer service not implemented"),
        68 => Some("68: ACM equal or greater than ACM maximum"),
        69 => Some("69: Requested facility not implemented"),
        70 => Some("70: Only restricted digital information bearer capability is available"),
        79 => Some("79: Service or option not implemented, unspecified"),
        81 => Some("81: Invalid transaction identifier value"),
        87 => Some("87: User not member of CUG"),
        88 => Some("88: Incompatible destination"),
        91 => Some("91: Invalid transit network selection"),
        95 => Some("95: Semantically incorrect message"),
        96 => Some("96: Invalid mandatory information"),
        97 => Some("97: Message type non-existent or not implemented"),
        98 => Some("98: Message type not compatible with protocol state"),
        99 => Some("99: Information element non-existent or not implemented"),
        100 => Some("100: Conditional information element error"),
        101 => Some("101: Message not compatible with protocol"),
        102 => Some("102: Recovery on timer expiry"),
        111 => Some("111: Protocol error, unspecified"),
        127 => Some("127: Interworking, unspecified"),
        128 => Some("128: Telematic interworking not supported"),
        129 => Some("129: Short message Type 0 not supported"),
        130 => Some("130: Cannot replace short message"),
        143 => Some("143: Unspecified TP-PID error"),
        144 => Some("144: Data coding scheme (alphabet) not supported"),
        145 => Some("145: Message class not supported"),
        159 => Some("159: Unspecified TP-DCS error"),
        160 => Some("160: Command cannot be acted"),
        161 => Some("161: Command unsupported"),
        175 => Some("175: Unspecified TP-Command error"),
        176 => Some("176: TPDU not supported"),
        192 => Some("192: SC busy"),
        193 => Some("193: No SC subscription"),
        194 => Some("194: SC system failure"),
        195 => Some("195: Invalid SME address"),
        196 => Some("196: Destination SME barred"),
        197 => Some("197: SM Rejected-Duplicate SM"),
        198 => Some("198: TP-VPF not supported"),
        199 => Some("199: TP-VP not supported"),
        208 => Some("208: SIM SMS storage full"),
        209 => Some("209: No SMS storage capability in SIM"),
        210 => Some("210: Error in MS"),
        211 => Some("211: Memory Capacity Exceeded"),
        212 => Some("212: SIM Application Toolkit Busy"),
        213 => Some("213: SIM data download error"),
        224 => Some("224: CP retry exceed"),
        225 => Some("225: RP trim timeout"),
        226 => Some("226: SMS connection broken"),
        255 => Some("255: Unspecified error cause"),
        300 => Some("300: ME failure"),
        301 => Some("301: SMS reserved"),
        302 => Some("302: operation not allowed"),
        303 => Some("303: operation not supported"),
        304 => Some("304: invalid PDU mode"),
        305 => Some("305: invalid text mode"),
        310 => Some("310: SIM not inserted"),
        311 => Some("311: SIM pin necessary"),
        312 => Some("312: PH SIM pin necessary"),
        313 => Some("313: SIM failure"),
        314 => Some("314: SIM busy"),
        315 => Some("315: SIM wrong"),
        316 => Some("316: SIM PUK required"),
        317 => Some("317: SIM PIN2 required"),
        318 => Some("318: SIM PUK2 required"),
        320 => Some("320: memory failure"),
        321 => Some("321: invalid memory index"),
        322 => Some("322: memory full"),
        323 => Some("323: invalid input parameter"),
        324 => Some("324: invalid input format"),
        325 => Some("325: invalid input value"),
        330 => Some("330: SMSC address unknown"),
        331 => Some("331: no network"),
        332 => Some("332: network timeout"),
        340 => Some("340: no cnma ack"),
        500 => Some("500: Unknown"),
        512 => Some("512: SMS no error"),
        513 => Some("513: Message length exceeds maximum length"),
        514 => Some("514: Invalid request parameters"),
        515 => Some("515: ME storage failure"),
        516 => Some("516: Invalid bearer service"),
        517 => Some("517: Invalid service mode"),
        518 => Some("518: Invalid storage type"),
        519 => Some("519: Invalid message format"),
        520 => Some("520: Too many MO concatenated messages"),
        521 => Some("521: SMSAL not ready"),
        522 => Some("522: SMSAL no more service"),
        523 => Some("523: Not support TP-Status-Report & TP-Command in storage"),
        524 => Some("524: Reserved MTI"),
        525 => Some("525: No free entity in RL layer"),
        526 => Some("526: The port number is already registered"),
        527 => Some("527: There is no free entity for port number"),
        528 => Some("528: More Message to Send state error"),
        529 => Some("529: MO SMS is not allow"),
        530 => Some("530: GPRS is suspended"),
        531 => Some("531: ME storage full"),
        532 => Some("532: Doing SIM refresh"),
        _ => None,
    }
}

/// What each error is: its code and description, or the code with
/// `<unknown error>` for codes without a description.
pub open spec fn spec_sim_error_message(e: SimError) -> Seq<char> {
    match e {
        SimError::Generic => "'ERROR'"@,
        SimError::CmeErr { code } => match spec_cme_text(code) {
            Some(t) => t@,
            None => "CME("@ + decimal(code as nat) + ") <unknown error>"@,
        },
        SimError::CmsErr { code } => match spec_cms_text(code) {
            Some(t) => t@,
            None => "CMS("@ + decimal(code as nat) + ") <unknown error>"@,
        },
    }
}

impl SimError {
    /// A description of the error.
    pub fn message(&self) -> (s: String)
        ensures
            s@ == spec_sim_error_message(*self),
    {
        let mut s = String::new();
        match self {
            SimError::Generic => s.append("'ERROR'"),
            SimError::CmeErr { code } => match cme_text(*code) {
                Some(t) => s.append(t),
                None => {
                    s.append("CME(");
                    push_decimal(&mut s, *code as u64);
                    s.append(") <unknown error>");
                },
            },
            SimError::CmsErr { code } => match cms_text(*code) {
                Some(t) => s.append(t),
                None => {
                    s.append("CMS(");
                    push_decimal(&mut s, *code as u64);
                    s.append(") <unknown error>");
                },
            },
        }
        s
    }
}

/// An error line reads back the code it carries: `+CME ERROR: <code>` is an equipment
/// error and `+CMS ERROR: <code>` a message service error, for every code, and a bare
/// `ERROR` is the generic error.
pub proof fn law_sim_error_codes(code: u32, instant: Instant)
    ensures
        SimError::spec_from_line("+CME ERROR: "@ + decimal(code as nat), instant) == Ok::<
            SimError,
            AtParseErr,
        >(SimError::CmeErr { code }),
        SimError::spec_from_line("+CMS ERROR: "@ + decimal(code as nat), instant) == Ok::<
            SimError,
            AtParseErr,
        >(SimError::CmsErr { code }),
        SimError::spec_from_line("ERROR"@, instant) == Ok::<SimError, AtParseErr>(SimError::Generic),
{
    reveal_strlit("+CME ERROR: ");
    reveal_strlit("+CMS ERROR: ");
    reveal_strlit("+CME ERROR:");
    reveal_strlit("+CMS ERROR:");
    reveal_strlit("ERROR");
    let d = decimal(code as nat);
    lemma_decimal_reads_back(code as nat);
    lemma_decimal_padded_reads_back(code as nat, 0, u32::MAX as nat);
    assert(parse_unsigned(d, 10, u32::MAX as nat) == Some(code as nat));
    assert(!is_whitespace(d[0]));
    assert(trim_start(d) == d);
    assert(trim_start(seq![' '] + d) == d) by {
        let sd = seq![' '] + d;
        assert(sd[0] == ' ');
        assert(is_whitespace(sd[0]));
        assert(sd.drop_first() =~= d);
        assert(trim_start(sd) == trim_start(sd.drop_first()));
    }
    let cme = "+CME ERROR: "@ + d;
    assert(cme.subrange(0, 11) =~= "+CME ERROR:"@);
    assert(cme.subrange(11, cme.len() as int) =~= seq![' '] + d);
    let cms = "+CMS ERROR: "@ + d;
    assert(cms.subrange(0, 11) =~= "+CMS ERROR:"@);
    assert(cms.subrange(11, cms.len() as int) =~= seq![' '] + d);
    assert(cms.subrange(0, 11)[3] != "+CME ERROR:"@[3]);
}

} // verus!

//! Signal quality.
use vstd::prelude::*;
use embassy_time::{Duration, Instant};
use super::{int_err, int_err_exec, AtParseErr, AtParseLine, AtRequest, GenericOk, RequestType};
use crate::text::{chars_of, parse_u8, parse_unsigned, split_once, split_once_exec, strip_prefix, strip_prefix_exec, trim, trim_exec};

verus! {

/// AT+CSQ
#[derive(Debug)]
pub struct GetSignalQuality;

impl AtRequest for GetSignalQuality {
    type Response = (SignalQuality, GenericOk);

    open spec fn spec_encode(&self) -> Seq<char> {
        "AT+CSQ\r"@
    }

    open spec fn spec_request_type() -> RequestType {
        RequestType::NonCommand
    }

    fn request_type() -> (t: RequestType) {
        RequestType::NonCommand
    }

    fn encode(&self) -> (s: String) {
        let mut s = String::new();
        s.append("AT+CSQ\r");
        s
    }

    fn default_timeout() -> (t: Option<Duration>) {
        None
    }
}

/// The received signal strength, in dBm, and the bit error rate class
/// (RXQUAL 0 to 7; the rate it stands for is in [ber_percent]). Either is
/// absent where the modem reports it as unknown.
#[derive(Clone, Copy, Debug, PartialEq, Eq)]
pub struct SignalQuality {
    pub rssi: Option<i32>,
    pub ber_class: Option<u8>,
}

impl View for SignalQuality {
    type V = SignalQuality;

    open spec fn view(&self) -> SignalQuality {
        *self
    }
}

/// The bit error rate, in percent, that each RXQUAL class stands for.
pub open spec fn ber_percent(class: u8) -> Seq<char> {
    if class == 0 {
        "0.14"@
    } else if class == 1 {
        "0.28"@
    } else if class == 2 {
        "0.57"@
    } else if class == 3 {
        "1.13"@
    } else if class == 4 {
        "2.26"@
    } else if class == 5 {
        "4.53"@
    } else if class == 6 {
        "9.05"@
    } else {
        "18.10"@
    }
}

/// The signal strength in dBm of a reported RSSI code: `Some(None)` for
/// "unknown" (99), `None` for a code that is not in the table.
pub open spec fn spec_rssi(code: nat) -> Option<Option<i32>> {
    if code == 0 {
        Some(Some(-115i32))
    } else if code == 1 {
        Some(Some(-111i32))
    } else if 2 <= code <= 31 {
        Some(Some((-110 + (code - 2) * 2) as i32))
    } else if code == 99 {
        Some(None)
    } else {
        None
    }
}

/// The bit error rate class of a reported code, as [spec_rssi].
pub open spec fn spec_ber(code: nat) -> Option<Option<u8>> {
    if code <= 7 {
        Some(Some(code as u8))
    } else if code == 99 {
        Some(None)
    } else {
        None
    }
}

/// `+CSQ: <rssi>,<ber>`
pub open spec fn spec_signal_quality(line: Seq<char>) -> Result<SignalQuality, AtParseErr> {
    match strip_prefix(line, "+CSQ:"@) {
        None => Err(AtParseErr::Mismatch),
        Some(l) => match split_once(trim(l), ',') {
            None => Err(AtParseErr::Parsing("Missing ','")),
            Some((rssi, ber)) => match parse_unsigned(rssi, 10, u8::MAX as nat) {
                None => Err(int_err()),
                Some(rssi) => match parse_unsigned(ber, 10, u8::MAX as nat) {
                    None => Err(int_err()),
                    Some(ber) => match spec_rssi(rssi) {
                        None => Err(AtParseErr::Parsing("Invalid RSSI value")),
                        Some(rssi) => match spec_ber(ber) {
                            None => Err(AtParseErr::Parsing("Invalid BER value")),
                            Some(ber_class) => Ok(SignalQuality { rssi, ber_class }),
                        },
                    },
                },
            },
        },
    }
}

impl SignalQuality {
    pub fn from_chars(line: &[char]) -> (r: Result<Self, AtParseErr>)
        ensures
            r == spec_signal_quality(line@),
    {
        let l = match strip_prefix_exec(line, "+CSQ:") {
            Some(l) => l,
            None => return Err(AtParseErr::Mismatch),
        };
        let (rssi, ber) = match split_once_exec(trim_exec(l), ',') {
            Some(x) => x,
            None => return Err(AtParseErr::Parsing("Missing ','")),
        };
        let rssi = match parse_u8(rssi) {
            Some(v) => v,
            None => return Err(int_err_exec()),
        };
        let ber = match parse_u8(ber) {
            Some(v) => v,
            None => return Err(int_err_exec()),
        };
        let rssi: Option<i32> = if rssi == 0 {
            Some(-115)
        } else if rssi == 1 {
            Some(-111)
        } else if 2 <= rssi && rssi <= 31 {
            Some(-110 + (rssi as i32 - 2) * 2)
        } else if rssi == 99 {
            None
        } else {
            return Err(AtParseErr::Parsing("Invalid RSSI value"));
        };
        let ber_class: Option<u8> = if ber <= 7 {
            Some(ber)
        } else if ber == 99 {
            None
        } else {
            return Err(AtParseErr::Parsing("Invalid BER value"));
        };
        Ok(SignalQuality { rssi, ber_class })
    }
}

impl AtParseLine for SignalQuality {
    open spec fn spec_from_line(line: Seq<char>, instant: Instant) -> Result<SignalQuality, AtParseErr> {
        spec_signal_quality(line)
    }

    fn from_line(line: &str, instant: &Instant) -> (r: Result<Self, AtParseErr>) {
        let v = chars_of(line);
        Self::from_chars(v.as_slice())
    }
}

/// The two arguments of a `+CSQ:` line, the signal strength code and the bit error
/// rate code.
pub open spec fn quality_codes(line: Seq<char>) -> (Option<nat>, Option<nat>) {
    match strip_prefix(line, "+CSQ:"@) {
        Some(l) => match split_once(trim(l), ',') {
            Some((a, b)) => (parse_unsigned(a, 10, u8::MAX as nat), parse_unsigned(b, 10, u8::MAX as nat)),
            None => (None, None),
        },
        None => (None, None),
    }
}

/// A `+CSQ:` line reports the signal strength first and the bit error rate second.
/// Strength code `0` is -115 dBm, `1` is -111 dBm, and `2` to `31` run from -110 dBm
/// in steps of 2 dBm up to -52 dBm; `99` is unknown. Bit error rate codes `0` to `7`
/// are the RXQUAL class itself, `99` unknown. A line with any other code is refused.
pub proof fn law_signal_quality_codes(line: Seq<char>)
    ensures
        ({
            let (a, b) = quality_codes(line);
            let strength_ok = a matches Some(c) && (c <= 31 || c == 99);
            let rate_ok = b matches Some(c) && (c <= 7 || c == 99);
            match spec_signal_quality(line) {
                Ok(q) => {
                    &&& strength_ok && rate_ok
                    &&& q.rssi == if a.unwrap() == 99 {
                        None
                    } else if a.unwrap() == 0 {
                        Some(-115i32)
                    } else if a.unwrap() == 1 {
                        Some(-111i32)
                    } else {
                        Some((-110 + 2 * (a.unwrap() - 2)) as i32)
                    }
                    &&& q.ber_class == if b.unwrap() == 99 {
                        None
                    } else {
                        Some(b.unwrap() as u8)
                    }
                },
                Err(_) => !(strength_ok && rate_ok),
            }
        }),
{
}

} // verus!

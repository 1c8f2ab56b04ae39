//! SMS message format.
use vstd::prelude::*;
use embassy_time::{Duration, Instant};
use super::{AtParseErr, AtParseLine, AtRequest, GenericOk, RequestType};
use crate::out::{decimal, push_decimal};
use crate::text::{chars_of, eq_str, strip_prefix, strip_prefix_exec, trim, trim_exec, trim_start};

verus! {

/// AT+CMGF=...
#[derive(Debug)]
pub struct SetSmsMessageFormat(pub SmsMessageFormat);

impl AtRequest for SetSmsMessageFormat {
    type Response = GenericOk;

    open spec fn spec_encode(&self) -> Seq<char> {
        "AT+CMGF="@ + decimal(self.0.value() as nat) + "\r"@
    }

    open spec fn spec_request_type() -> RequestType {
        RequestType::NonCommand
    }

    fn request_type() -> (t: RequestType) {
        RequestType::NonCommand
    }

    fn encode(&self) -> (s: String) {
        let mut s = String::new();
        s.append("AT+CMGF=");
        push_decimal(&mut s, self.0.value() as u64);
        s.append("\r");
        s
    }

    fn default_timeout() -> (t: Option<Duration>) {
        None
    }
}

/// AT+CMGF?
#[derive(Debug)]
pub struct GetSmsMessageFormat;

impl AtRequest for GetSmsMessageFormat {
    type Response = (SmsMessageFormat, GenericOk);

    open spec fn spec_encode(&self) -> Seq<char> {
        "AT+CMGF?\r"@
    }

    open spec fn spec_request_type() -> RequestType {
        RequestType::NonCommand
    }

    fn request_type() -> (t: RequestType) {
        RequestType::NonCommand
    }

    fn encode(&self) -> (s: String) {
        let mut s = String::new();
        s.append("AT+CMGF?\r");
        s
    }

    fn default_timeout() -> (t: Option<Duration>) {
        None
    }
}

#[derive(Debug, Clone, Copy, PartialEq, Eq)]
pub enum SmsMessageFormat {
    Pdu,
    Text,
}

impl SmsMessageFormat {
    /// The number that stands for this value in commands.
    #[verifier::allow_in_spec]
    pub fn value(&self) -> u8
        returns
            (match self {
                SmsMessageFormat::Pdu => 0u8,
                SmsMessageFormat::Text => 1u8,
            }),
    {
        match self {
            SmsMessageFormat::Pdu => 0,
            SmsMessageFormat::Text => 1,
        }
    }
}

impl View for SmsMessageFormat {
    type V = SmsMessageFormat;

    open spec fn view(&self) -> SmsMessageFormat {
        *self
    }
}

/// `+CMGF: <0 or 1>`
pub open spec fn spec_sms_message_format(line: Seq<char>) -> Result<SmsMessageFormat, AtParseErr> {
    match strip_prefix(line, "+CMGF:"@) {
        None => Err(AtParseErr::Mismatch),
        Some(rest) => if trim(rest) == "0"@ {
            Ok(SmsMessageFormat::Pdu)
        } else if trim(rest) == "1"@ {
            Ok(SmsMessageFormat::Text)
        } else {
            Err(AtParseErr::Parsing("Invalid SMS message format"))
        },
    }
}

impl AtParseLine for SmsMessageFormat {
    open spec fn spec_from_line(line: Seq<char>, instant: Instant) -> Result<SmsMessageFormat, AtParseErr> {
        spec_sms_message_format(line)
    }

    fn from_line(line: &str, instant: &Instant) -> (r: Result<Self, AtParseErr>) {
        let v = chars_of(line);
        let rest = match strip_prefix_exec(v.as_slice(), "+CMGF:") {
            Some(r) => trim_exec(r),
            None => return Err(AtParseErr::Mismatch),
        };
        if eq_str(rest, "0") {
            Ok(SmsMessageFormat::Pdu)
        } else if eq_str(rest, "1") {
            Ok(SmsMessageFormat::Text)
        } else {
            Err(AtParseErr::Parsing("Invalid SMS message format"))
        }
    }
}


/// The number that [SetSmsMessageFormat] sends for a format, reported back
/// after `+CMGF: `, reads as that format.
pub proof fn law_sms_format_round_trip(f: SmsMessageFormat)
    ensures
        spec_sms_message_format("+CMGF: "@ + decimal(f.value() as nat)) == Ok::<
            SmsMessageFormat,
            AtParseErr,
        >(f),
{
    reveal_strlit("+CMGF: ");
    reveal_strlit("+CMGF:");
    reveal_strlit("0");
    reveal_strlit("1");
    let d = decimal(f.value() as nat);
    let line = "+CMGF: "@ + d;
    assert(d =~= seq![if f.value() == 0 { '0' } else { '1' }]);
    assert(line.subrange(0, 6) =~= "+CMGF:"@);
    let rest = line.subrange(6, line.len() as int);
    assert(rest =~= seq![' '] + d);
    assert(rest.drop_first() =~= d);
    assert(trim_start(d) == d);
    assert(rest[0] == ' ');
    assert(trim_start(rest) == trim_start(rest.drop_first()));
    assert(trim_start(rest) == d);
    assert(trim(rest) == d);
    assert(decimal(0) =~= "0"@);
    assert(decimal(1) =~= "1"@);
    assert("0"@[0] != "1"@[0]);
}

} // verus!

//! Reading an SMS.
use vstd::prelude::*;
use embassy_time::{Duration, Instant};
use super::{view_result, AtParseErr, AtParseLine, AtRequest, GenericOk, RequestType};
use super::cops::{bounded_name, spec_bounded_name};
use crate::out::{decimal, push_decimal};
use crate::text::{chars_of, split_once, split_once_exec, splitn, strip_prefix, strip_prefix_exec, trim, trim_exec};

verus! {

/// AT+CMGR=...
#[derive(Debug)]
pub struct ReadSms {
    pub index: u8,
}

impl AtRequest for ReadSms {
    type Response = (SmsMessage, GenericOk);

    open spec fn spec_encode(&self) -> Seq<char> {
        "AT+CMGR="@ + decimal(self.index as nat) + "\r"@
    }

    open spec fn spec_request_type() -> RequestType {
        RequestType::NonCommand
    }

    fn request_type() -> (t: RequestType) {
        RequestType::NonCommand
    }

    fn encode(&self) -> (s: String) {
        let mut s = String::new();
        s.append("AT+CMGR=");
        push_decimal(&mut s, self.index as u64);
        s.append("\r");
        s
    }

    fn default_timeout() -> (t: Option<Duration>) {
        None
    }
}

/// The sender is at most 20 bytes (a longer one reads as empty), the
/// message at most 160; the header line carries no message text.
#[derive(Clone, Debug)]
pub struct SmsMessage {
    pub sender: String,
    pub message: String,
}

pub struct SmsMessageView {
    pub sender: Seq<char>,
    pub message: Seq<char>,
}

impl View for SmsMessage {
    type V = SmsMessageView;

    open spec fn view(&self) -> SmsMessageView {
        SmsMessageView { sender: self.sender@, message: self.message@ }
    }
}

/// `+CMGR: <status>,"<sender>",...`
pub open spec fn spec_sms_message(line: Seq<char>) -> Result<SmsMessageView, AtParseErr> {
    match strip_prefix(line, "+CMGR:"@) {
        None => Err(AtParseErr::Mismatch),
        Some(rest) => match split_once(trim(rest), ',') {
            None => Err(AtParseErr::Parsing("Missing ','")),
            Some((_status, rest)) => match split_once(rest, ',') {
                None => Err(AtParseErr::Parsing("Missing ','")),
                Some((sender, _)) => Ok(
                    SmsMessageView { sender: spec_bounded_name(sender, 20), message: seq![] },
                ),
            },
        },
    }
}

impl SmsMessage {
    pub fn from_chars(line: &[char]) -> (r: Result<Self, AtParseErr>)
        ensures
            view_result(r) == spec_sms_message(line@),
    {
        let rest = match strip_prefix_exec(line, "+CMGR:") {
            Some(r) => trim_exec(r),
            None => return Err(AtParseErr::Mismatch),
        };
        let (_status, rest) = match split_once_exec(rest, ',') {
            Some(x) => x,
            None => return Err(AtParseErr::Parsing("Missing ','")),
        };
        let (sender, _) = match split_once_exec(rest, ',') {
            Some(x) => x,
            None => return Err(AtParseErr::Parsing("Missing ','")),
        };
        Ok(SmsMessage { sender: bounded_name(sender, 20), message: String::new() })
    }
}

impl AtParseLine for SmsMessage {
    open spec fn spec_from_line(line: Seq<char>, instant: Instant) -> Result<SmsMessageView, AtParseErr> {
        spec_sms_message(line)
    }

    fn from_line(line: &str, instant: &Instant) -> (r: Result<Self, AtParseErr>) {
        let v = chars_of(line);
        Self::from_chars(v.as_slice())
    }
}

/// The sender of a `+CMGR:` header is its second argument, without quotes (empty where
/// it is longer than 20 bytes); the header carries no message text.
pub proof fn law_sender_is_second_argument(line: Seq<char>)
    requires
        strip_prefix(line, "+CMGR:"@) is Some,
    ensures
        ({
            let p = splitn(trim(strip_prefix(line, "+CMGR:"@).unwrap()), 3, ',');
            match spec_sms_message(line) {
                Ok(m) => {
                    &&& p.len() == 3
                    &&& m.sender == spec_bounded_name(p[1], 20)
                    &&& m.message.len() == 0
                },
                Err(_) => p.len() < 3,
            }
        }),
{
    reveal_with_fuel(splitn, 3);
}

} // verus!

//! Sending an SMS.
use vstd::prelude::*;
use embassy_time::{Duration, Instant};
use super::{AtParseErr, AtParseLine, AtRequest, CommandGroup, GenericOk, RequestType, WritePrompt};
use crate::text::{chars_of, parse_u32, parse_unsigned, strip_prefix, strip_prefix_exec, trim, trim_exec};

verus! {

/// AT+CMGS=...
///
/// This has to be sent before sending the message [SendSmsMessage].
/// Likewise, the [SendSmsMessage] has to be sent directly after this. The
/// destination is at most 20 bytes.
#[derive(Clone, Debug)]
pub struct SendSms {
    pub destination: String,
}

/// *IMPORTANT*: This has to be sent directly after [SendSms]. The message
/// is at most 160 bytes.
#[derive(Debug)]
pub struct SendSmsMessage(pub String);

impl AtRequest for SendSms {
    type Response = WritePrompt;

    open spec fn spec_encode(&self) -> Seq<char> {
        "+CMGS=\""@ + self.destination@ + "\""@
    }

    open spec fn spec_request_type() -> RequestType {
        RequestType::Command(CommandGroup::Extended)
    }

    fn request_type() -> (t: RequestType) {
        RequestType::Command(CommandGroup::Extended)
    }

    fn encode(&self) -> (s: String) {
        let mut s = String::new();
        s.append("+CMGS=\"");
        s.append(self.destination.as_str());
        s.append("\"");
        s
    }

    fn default_timeout() -> (t: Option<Duration>) {
        None
    }
}

impl AtRequest for SendSmsMessage {
    type Response = (MessageReference, GenericOk);

    open spec fn spec_encode(&self) -> Seq<char> {
        self.0@ + "\x1A"@
    }

    open spec fn spec_request_type() -> RequestType {
        RequestType::NonCommand
    }

    fn request_type() -> (t: RequestType) {
        RequestType::NonCommand
    }

    fn encode(&self) -> (s: String) {
        let mut s = String::new();
        s.append(self.0.as_str());
        s.append("\x1A");
        s
    }

    fn default_timeout() -> (t: Option<Duration>) {
        None
    }
}

#[derive(Debug, Clone, Copy, PartialEq, Eq)]
pub struct MessageReference {
    pub value: u32,
}

impl View for MessageReference {
    type V = MessageReference;

    open spec fn view(&self) -> MessageReference {
        *self
    }
}

/// `+CMGS: <message reference>`
pub open spec fn spec_message_reference(line: Seq<char>) -> Result<MessageReference, AtParseErr> {
    match strip_prefix(line, "+CMGS:"@) {
        None => Err(AtParseErr::Mismatch),
        Some(rest) => match parse_unsigned(trim(rest), 10, u32::MAX as nat) {
            None => Err(AtParseErr::Parsing("Invalid message reference")),
            Some(v) => Ok(MessageReference { value: v as u32 }),
        },
    }
}

impl AtParseLine for MessageReference {
    open spec fn spec_from_line(line: Seq<char>, instant: Instant) -> Result<MessageReference, AtParseErr> {
        spec_message_reference(line)
    }

    fn from_line(line: &str, instant: &Instant) -> (r: Result<Self, AtParseErr>) {
        let v = chars_of(line);
        let rest = match strip_prefix_exec(v.as_slice(), "+CMGS:") {
            Some(r) => trim_exec(r),
            None => return Err(AtParseErr::Mismatch),
        };
        match parse_u32(rest) {
            None => Err(AtParseErr::Parsing("Invalid message reference")),
            Some(value) => Ok(MessageReference { value }),
        }
    }
}

/// The message reference of a `+CMGS:` line is the number it carries, whitespace
/// around it allowed; a line whose argument is not a `u32` is refused.
pub proof fn law_message_reference_number(line: Seq<char>)
    requires
        strip_prefix(line, "+CMGS:"@) is Some,
    ensures
        ({
            let n = parse_unsigned(trim(strip_prefix(line, "+CMGS:"@).unwrap()), 10, u32::MAX as nat);
            match spec_message_reference(line) {
                Ok(r) => n == Some(r.value as nat),
                Err(_) => n is None,
            }
        }),
{
}

} // verus!

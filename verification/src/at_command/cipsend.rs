use vstd::prelude::*;
use embassy_time::Duration;
use super::{AtRequest, CommandGroup, RequestType, WritePrompt};
use crate::out::{decimal, push_decimal};

verus! {

/// AT+CIPSEND
#[derive(Debug)]
pub struct IpSend {
    pub connection: usize,
    pub data_length: usize,
}

impl AtRequest for IpSend {
    type Response = WritePrompt;

    open spec fn spec_encode(&self) -> Seq<char> {
        "+CIPSEND="@ + decimal(self.connection as nat) + ","@ + decimal(self.data_length as nat)
    }

    open spec fn spec_request_type() -> RequestType {
        RequestType::Command(CommandGroup::Extended)
    }

    fn request_type() -> (t: RequestType) {
        RequestType::Command(CommandGroup::Extended)
    }

    fn encode(&self) -> (s: String) {
        let mut s = String::new();
        s.append("+CIPSEND=");
        push_decimal(&mut s, self.connection as u64);
        s.append(",");
        push_decimal(&mut s, self.data_length as u64);
        s
    }

    fn default_timeout() -> (t: Option<Duration>) {
        None
    }
}

} // verus!

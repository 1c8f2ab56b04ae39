use vstd::prelude::*;
use embassy_time::Duration;
use super::{AtRequest, GenericOk, RequestType};
use crate::out::{decimal, push_decimal};

verus! {

/// AT+CGNSURC=...
#[derive(Debug)]
pub struct ConfigureGnssUrc {
    /// Send URC report every `n` GNSS fix.
    /// Set to 0 to disable.
    pub period: u8,
}

impl AtRequest for ConfigureGnssUrc {
    type Response = GenericOk;

    open spec fn spec_encode(&self) -> Seq<char> {
        "AT+CGNSURC="@ + decimal(self.period as nat) + "\r"@
    }

    open spec fn spec_request_type() -> RequestType {
        RequestType::NonCommand
    }

    fn request_type() -> (t: RequestType) {
        RequestType::NonCommand
    }

    fn encode(&self) -> (s: String) {
        let mut s = String::new();
        s.append("AT+CGNSURC=");
        push_decimal(&mut s, self.period as u64);
        s.append("\r");
        s
    }

    fn default_timeout() -> (t: Option<Duration>) {
        None
    }
}

} // verus!

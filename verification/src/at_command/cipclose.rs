use vstd::prelude::*;
use embassy_time::Duration;
use super::{AtRequest, CloseOk, CommandGroup, RequestType};
use crate::out::{decimal, push_decimal};

verus! {

/// AT+CIPCLOSE=...
#[derive(Debug)]
pub struct CloseConnection {
    pub connection: usize,
}

impl AtRequest for CloseConnection {
    type Response = CloseOk;

    open spec fn spec_encode(&self) -> Seq<char> {
        "+CIPCLOSE="@ + decimal(self.connection as nat)
    }

    open spec fn spec_request_type() -> RequestType {
        RequestType::Command(CommandGroup::Extended)
    }

    fn request_type() -> (t: RequestType) {
        RequestType::Command(CommandGroup::Extended)
    }

    fn encode(&self) -> (s: String) {
        let mut s = String::new();
        s.append("+CIPCLOSE=");
        push_decimal(&mut s, self.connection as u64);
        s
    }

    fn default_timeout() -> (t: Option<Duration>) {
        None
    }
}

} // verus!

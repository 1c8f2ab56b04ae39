use vstd::prelude::*;
use embassy_time::Duration;
use super::{AtRequest, CommandGroup, GenericOk, RequestType};
use crate::out::{decimal, push_decimal};

verus! {

/// AT+CNTPCID=...
#[derive(Debug)]
pub struct SetGprsBearerProfileId(pub u8);

impl AtRequest for SetGprsBearerProfileId {
    type Response = GenericOk;

    open spec fn spec_encode(&self) -> Seq<char> {
        "+CNTPCID="@ + decimal(self.0 as nat)
    }

    open spec fn spec_request_type() -> RequestType {
        RequestType::Command(CommandGroup::Extended)
    }

    fn request_type() -> (t: RequestType) {
        RequestType::Command(CommandGroup::Extended)
    }

    fn encode(&self) -> (s: String) {
        let mut s = String::new();
        s.append("+CNTPCID=");
        push_decimal(&mut s, self.0 as u64);
        s
    }

    fn default_timeout() -> (t: Option<Duration>) {
        None
    }
}

} // verus!

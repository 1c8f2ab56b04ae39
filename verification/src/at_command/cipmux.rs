use vstd::prelude::*;
use embassy_time::Duration;
use super::{AtRequest, CommandGroup, GenericOk, RequestType};

verus! {

/// AT+CIPMUX=...
#[derive(Debug)]
pub struct EnableMultiIpConnection(pub bool);

impl AtRequest for EnableMultiIpConnection {
    type Response = GenericOk;

    open spec fn spec_encode(&self) -> Seq<char> {
        if self.0 {
            "+CIPMUX=1"@
        } else {
            "+CIPMUX=0"@
        }
    }

    open spec fn spec_request_type() -> RequestType {
        RequestType::Command(CommandGroup::Extended)
    }

    fn request_type() -> (t: RequestType) {
        RequestType::Command(CommandGroup::Extended)
    }

    fn encode(&self) -> (s: String) {
        let mut s = String::new();
        if self.0 {
            s.append("+CIPMUX=1");
        } else {
            s.append("+CIPMUX=0");
        }
        s
    }

    fn default_timeout() -> (t: Option<Duration>) {
        None
    }
}

} // verus!

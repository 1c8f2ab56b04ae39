use vstd::prelude::*;
use embassy_time::Duration;
use super::{AtRequest, CommandGroup, GenericOk, RequestType};

verus! {

/// AT+CBATCHK=...
#[derive(Debug)]
pub struct EnableVBatCheck(pub bool);

impl AtRequest for EnableVBatCheck {
    type Response = GenericOk;

    open spec fn spec_encode(&self) -> Seq<char> {
        if self.0 {
            "+CBATCHK=1"@
        } else {
            "+CBATCHK=0"@
        }
    }

    open spec fn spec_request_type() -> RequestType {
        RequestType::Command(CommandGroup::Extended)
    }

    fn request_type() -> (t: RequestType) {
        RequestType::Command(CommandGroup::Extended)
    }

    fn encode(&self) -> (s: String) {
        let mut s = String::new();
        if self.0 {
            s.append("+CBATCHK=1");
        } else {
            s.append("+CBATCHK=0");
        }
        s
    }

    fn default_timeout() -> (t: Option<Duration>) {
        None
    }
}

} // verus!

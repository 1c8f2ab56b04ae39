use vstd::prelude::*;
use embassy_time::Duration;
use super::{AtRequest, CommandGroup, GenericOk, RequestType};

verus! {

/// ATE1 / ATE0
#[derive(Debug)]
pub struct SetEcho(pub bool);

impl AtRequest for SetEcho {
    type Response = GenericOk;

    open spec fn spec_encode(&self) -> Seq<char> {
        if self.0 {
            "E1"@
        } else {
            "E0"@
        }
    }

    open spec fn spec_request_type() -> RequestType {
        RequestType::Command(CommandGroup::Basic)
    }

    fn request_type() -> (t: RequestType) {
        RequestType::Command(CommandGroup::Basic)
    }

    fn encode(&self) -> (s: String) {
        let mut s = String::new();
        if self.0 {
            s.append("E1");
        } else {
            s.append("E0");
        }
        s
    }

    fn default_timeout() -> (t: Option<Duration>) {
        None
    }
}

} // verus!

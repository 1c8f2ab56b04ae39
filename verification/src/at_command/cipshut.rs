use vstd::prelude::*;
use embassy_time::Duration;
use super::{AtRequest, CommandGroup, GenericOk, RequestType};

verus! {

/// AT+CIPSHUT
#[derive(Debug)]
pub struct ShutConnections;

impl AtRequest for ShutConnections {
    type Response = GenericOk;

    open spec fn spec_encode(&self) -> Seq<char> {
        "+CIPSHUT"@
    }

    open spec fn spec_request_type() -> RequestType {
        RequestType::Command(CommandGroup::Extended)
    }

    fn request_type() -> (t: RequestType) {
        RequestType::Command(CommandGroup::Extended)
    }

    fn encode(&self) -> (s: String) {
        let mut s = String::new();
        s.append("+CIPSHUT");
        s
    }

    fn default_timeout() -> (t: Option<Duration>) {
        None
    }
}

} // verus!

use vstd::prelude::*;
use embassy_time::Duration;
use super::{AtRequest, CommandGroup, GenericOk, RequestType};

verus! {

/// ATZ
#[derive(Debug)]
pub struct ResetConfigurationToDefaults;

impl AtRequest for ResetConfigurationToDefaults {
    type Response = GenericOk;

    open spec fn spec_encode(&self) -> Seq<char> {
        "Z"@
    }

    open spec fn spec_request_type() -> RequestType {
        RequestType::Command(CommandGroup::Basic)
    }

    fn request_type() -> (t: RequestType) {
        RequestType::Command(CommandGroup::Basic)
    }

    fn encode(&self) -> (s: String) {
        let mut s = String::new();
        s.append("Z");
        s
    }

    fn default_timeout() -> (t: Option<Duration>) {
        None
    }
}

} // verus!

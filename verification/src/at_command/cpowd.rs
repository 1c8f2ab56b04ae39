use vstd::prelude::*;
use embassy_time::Duration;
use super::{AtRequest, CommandGroup, GenericOk, RequestType};
use crate::time;

verus! {

/// AT+CPOWD=0
///
/// A separate type to [NormalPowerDown] because the "urgent" mode has no response.
#[derive(Debug)]
pub struct UrgentPowerDown;

/// AT+CPOWD=1
#[derive(Debug)]
pub struct NormalPowerDown;

impl AtRequest for UrgentPowerDown {
    type Response = ();

    open spec fn spec_encode(&self) -> Seq<char> {
        "+CPOWD=0"@
    }

    open spec fn spec_request_type() -> RequestType {
        RequestType::Command(CommandGroup::Extended)
    }

    fn request_type() -> (t: RequestType) {
        RequestType::Command(CommandGroup::Extended)
    }

    fn encode(&self) -> (s: String) {
        let mut s = String::new();
        s.append("+CPOWD=0");
        s
    }

    fn default_timeout() -> (t: Option<Duration>) {
        None
    }
}

impl AtRequest for NormalPowerDown {
    type Response = GenericOk;

    open spec fn spec_encode(&self) -> Seq<char> {
        "+CPOWD=1"@
    }

    open spec fn spec_request_type() -> RequestType {
        RequestType::Command(CommandGroup::Extended)
    }

    open spec fn spec_default_timeout() -> Option<Duration> {
        Some(time::duration_from_secs(60))
    }

    fn request_type() -> (t: RequestType) {
        RequestType::Command(CommandGroup::Extended)
    }

    fn encode(&self) -> (s: String) {
        let mut s = String::new();
        s.append("+CPOWD=1");
        s
    }

    fn default_timeout() -> (t: Option<Duration>) {
        Some(time::secs(60))
    }
}

} // verus!

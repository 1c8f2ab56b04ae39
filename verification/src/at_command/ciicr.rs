use vstd::prelude::*;
use embassy_time::Duration;
use super::{AtRequest, GenericOk, RequestType};
use crate::time;

verus! {

/// AT+CIICR
#[derive(Debug)]
pub struct StartGprs;

impl AtRequest for StartGprs {
    type Response = GenericOk;

    open spec fn spec_encode(&self) -> Seq<char> {
        "AT+CIICR\r"@
    }

    open spec fn spec_request_type() -> RequestType {
        RequestType::NonCommand
    }

    open spec fn spec_default_timeout() -> Option<Duration> {
        Some(time::duration_from_secs(86))
    }

    fn request_type() -> (t: RequestType) {
        RequestType::NonCommand
    }

    fn encode(&self) -> (s: String) {
        let mut s = String::new();
        s.append("AT+CIICR\r");
        s
    }

    fn default_timeout() -> (t: Option<Duration>) {
        Some(time::secs(86))
    }
}

} // verus!

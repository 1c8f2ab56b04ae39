use vstd::prelude::*;
use embassy_time::Duration;
use super::{AtRequest, CommandGroup, GenericOk, RequestType};
use crate::out::{decimal, push_decimal};
use crate::time;

verus! {

/// AT
#[derive(Debug)]
pub struct At;

impl AtRequest for At {
    type Response = GenericOk;

    open spec fn spec_encode(&self) -> Seq<char> {
        ""@
    }

    open spec fn spec_request_type() -> RequestType {
        RequestType::Command(CommandGroup::Basic)
    }

    fn request_type() -> (t: RequestType) {
        RequestType::Command(CommandGroup::Basic)
    }

    fn encode(&self) -> (s: String) {
        let mut s = String::new();
        s.append("");
        s
    }

    fn default_timeout() -> (t: Option<Duration>) {
        None
    }
}

/// A/ -- Repeat last command
#[derive(Debug)]
pub struct Rep;

impl AtRequest for Rep {
    type Response = GenericOk;

    open spec fn spec_encode(&self) -> Seq<char> {
        "A/"@
    }

    open spec fn spec_request_type() -> RequestType {
        RequestType::Command(CommandGroup::Context)
    }

    open spec fn spec_default_timeout() -> Option<Duration> {
        Some(time::duration_from_millis(120000))
    }

    fn request_type() -> (t: RequestType) {
        RequestType::Command(CommandGroup::Context)
    }

    fn encode(&self) -> (s: String) {
        let mut s = String::new();
        s.append("A/");
        s
    }

    fn default_timeout() -> (t: Option<Duration>) {
        Some(time::millis(120000))
    }
}

/// +++ Pause a data mode and switch back to command mode
#[derive(Debug)]
pub struct PauseDataMode;

impl AtRequest for PauseDataMode {
    type Response = GenericOk;

    open spec fn spec_encode(&self) -> Seq<char> {
        "+++"@
    }

    open spec fn spec_request_type() -> RequestType {
        RequestType::Command(CommandGroup::Context)
    }

    open spec fn spec_default_timeout() -> Option<Duration> {
        Some(time::duration_from_secs(1))
    }

    fn request_type() -> (t: RequestType) {
        RequestType::Command(CommandGroup::Context)
    }

    fn encode(&self) -> (s: String) {
        let mut s = String::new();
        s.append("+++");
        s
    }

    fn default_timeout() -> (t: Option<Duration>) {
        Some(time::secs(1))
    }
}

/// ATO[n] Switch back to a paused data mode from command mode
#[derive(Debug)]
pub struct SwitchToDataMode(pub Option<u8>);

impl AtRequest for SwitchToDataMode {
    type Response = GenericOk;

    open spec fn spec_encode(&self) -> Seq<char> {
        match self.0 {
            Some(n) => "O"@ + decimal(n as nat),
            None => "O"@,
        }
    }

    open spec fn spec_request_type() -> RequestType {
        RequestType::Command(CommandGroup::Context)
    }

    open spec fn spec_default_timeout() -> Option<Duration> {
        Some(time::duration_from_secs(1))
    }

    fn request_type() -> (t: RequestType) {
        RequestType::Command(CommandGroup::Context)
    }

    fn encode(&self) -> (s: String) {
        let mut s = String::new();
        s.append("O");
        if let Some(n) = self.0 {
            push_decimal(&mut s, n as u64);
        }
        s
    }

    fn default_timeout() -> (t: Option<Duration>) {
        Some(time::secs(1))
    }
}

} // verus!

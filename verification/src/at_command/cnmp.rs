use vstd::prelude::*;
use embassy_time::Duration;
use super::{AtRequest, CommandGroup, GenericOk, RequestType};
use crate::out::{decimal, push_decimal};

verus! {

#[derive(Clone, Copy, Debug, PartialEq, Eq)]
pub enum NetworkMode {
    Automatic,
    Gsm,
    Lte,
    GsmAndLts,
}

impl NetworkMode {
    /// The number that stands for this value in commands.
    #[verifier::allow_in_spec]
    pub fn value(&self) -> u8
        returns
            (match self {
                NetworkMode::Automatic => 2u8,
                NetworkMode::Gsm => 13u8,
                NetworkMode::Lte => 38u8,
                NetworkMode::GsmAndLts => 51u8,
            }),
    {
        match self {
            NetworkMode::Automatic => 2,
            NetworkMode::Gsm => 13,
            NetworkMode::Lte => 38,
            NetworkMode::GsmAndLts => 51,
        }
    }
}

/// AT+CNMP=...
#[derive(Debug)]
pub struct SetNetworkMode(pub NetworkMode);

impl AtRequest for SetNetworkMode {
    type Response = GenericOk;

    open spec fn spec_encode(&self) -> Seq<char> {
        "+CNMP="@ + decimal(self.0.value() as nat)
    }

    open spec fn spec_request_type() -> RequestType {
        RequestType::Command(CommandGroup::Extended)
    }

    fn request_type() -> (t: RequestType) {
        RequestType::Command(CommandGroup::Extended)
    }

    fn encode(&self) -> (s: String) {
        let mut s = String::new();
        s.append("+CNMP=");
        push_decimal(&mut s, self.0.value() as u64);
        s
    }

    fn default_timeout() -> (t: Option<Duration>) {
        None
    }
}

} // verus!

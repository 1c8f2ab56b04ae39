use vstd::prelude::*;
use embassy_time::Duration;
use super::{AtRequest, CommandGroup, GenericOk, RequestType};
use crate::out::{decimal, push_decimal};

verus! {

#[derive(Clone, Copy, Debug, PartialEq, Eq)]
pub enum NbMode {
    CatM,
    NbIot,
    Both,
}

impl NbMode {
    /// The number that stands for this value in commands.
    #[verifier::allow_in_spec]
    pub fn value(&self) -> u8
        returns
            (match self {
                NbMode::CatM => 1u8,
                NbMode::NbIot => 2u8,
                NbMode::Both => 3u8,
            }),
    {
        match self {
            NbMode::CatM => 1,
            NbMode::NbIot => 2,
            NbMode::Both => 3,
        }
    }
}

/// AT+CMNB=...
#[derive(Debug)]
pub struct SetNbMode(pub NbMode);

impl AtRequest for SetNbMode {
    type Response = GenericOk;

    open spec fn spec_encode(&self) -> Seq<char> {
        "+CMNB="@ + decimal(self.0.value() as nat)
    }

    open spec fn spec_request_type() -> RequestType {
        RequestType::Command(CommandGroup::Extended)
    }

    fn request_type() -> (t: RequestType) {
        RequestType::Command(CommandGroup::Extended)
    }

    fn encode(&self) -> (s: String) {
        let mut s = String::new();
        s.append("+CMNB=");
        push_decimal(&mut s, self.0.value() as u64);
        s
    }

    fn default_timeout() -> (t: Option<Duration>) {
        None
    }
}

} // verus!

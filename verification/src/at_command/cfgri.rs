use vstd::prelude::*;
use embassy_time::Duration;
use super::{AtRequest, CommandGroup, GenericOk, RequestType};
use crate::out::{decimal, push_decimal};

verus! {

#[derive(Clone, Copy, Debug, PartialEq, Eq)]
pub enum RiPinMode {
    Off,
    On,
    OnTcpIp,
}

impl RiPinMode {
    /// The number that stands for this value in commands.
    #[verifier::allow_in_spec]
    pub fn value(&self) -> u8
        returns
            (match self {
                RiPinMode::Off => 0u8,
                RiPinMode::On => 1u8,
                RiPinMode::OnTcpIp => 2u8,
            }),
    {
        match self {
            RiPinMode::Off => 0,
            RiPinMode::On => 1,
            RiPinMode::OnTcpIp => 2,
        }
    }
}

/// AT+CFGRI=...
#[derive(Debug)]
pub struct ConfigureRiPin(pub RiPinMode);

impl AtRequest for ConfigureRiPin {
    type Response = GenericOk;

    open spec fn spec_encode(&self) -> Seq<char> {
        "+CFGRI="@ + decimal(self.0.value() as nat)
    }

    open spec fn spec_request_type() -> RequestType {
        RequestType::Command(CommandGroup::Extended)
    }

    fn request_type() -> (t: RequestType) {
        RequestType::Command(CommandGroup::Extended)
    }

    fn encode(&self) -> (s: String) {
        let mut s = String::new();
        s.append("+CFGRI=");
        push_decimal(&mut s, self.0.value() as u64);
        s
    }

    fn default_timeout() -> (t: Option<Duration>) {
        None
    }
}

} // verus!

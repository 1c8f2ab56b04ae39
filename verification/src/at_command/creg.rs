use vstd::prelude::*;
use embassy_time::Duration;
use super::{AtRequest, GenericOk, RequestType};
use crate::out::{decimal, push_decimal};

verus! {

/// AT+CREG=...
/// 
/// Configure network registration URC
#[derive(Debug, Clone, Copy, PartialEq, Eq)]
pub enum ConfigureRegistrationUrc {
    /// Disable URC
    Disable,
    /// Network registration URC
    EnableReg,
    /// Network registration and location information URC
    EnableRegLocation,
}

impl ConfigureRegistrationUrc {
    /// The number that stands for this value in commands.
    #[verifier::allow_in_spec]
    pub fn value(&self) -> u8
        returns
            (match self {
                ConfigureRegistrationUrc::Disable => 0u8,
                ConfigureRegistrationUrc::EnableReg => 1u8,
                ConfigureRegistrationUrc::EnableRegLocation => 2u8,
            }),
    {
        match self {
            ConfigureRegistrationUrc::Disable => 0,
            ConfigureRegistrationUrc::EnableReg => 1,
            ConfigureRegistrationUrc::EnableRegLocation => 2,
        }
    }
}

/// AT+CREG?
#[derive(Debug)]
pub struct GetRegistrationStatus;

impl AtRequest for ConfigureRegistrationUrc {
    type Response = GenericOk;

    open spec fn spec_encode(&self) -> Seq<char> {
        "AT+CREG="@ + decimal(self.value() as nat) + "\r"@
    }

    open spec fn spec_request_type() -> RequestType {
        RequestType::NonCommand
    }

    fn request_type() -> (t: RequestType) {
        RequestType::NonCommand
    }

    fn encode(&self) -> (s: String) {
        let mut s = String::new();
        s.append("AT+CREG=");
        push_decimal(&mut s, self.value() as u64);
        s.append("\r");
        s
    }

    fn default_timeout() -> (t: Option<Duration>) {
        None
    }
}

impl AtRequest for GetRegistrationStatus {
    type Response = GenericOk;

    open spec fn spec_encode(&self) -> Seq<char> {
        "AT+CREG?\r"@
    }

    open spec fn spec_request_type() -> RequestType {
        RequestType::NonCommand
    }

    fn request_type() -> (t: RequestType) {
        RequestType::NonCommand
    }

    fn encode(&self) -> (s: String) {
        let mut s = String::new();
        s.append("AT+CREG?\r");
        s
    }

    fn default_timeout() -> (t: Option<Duration>) {
        None
    }
}

} // verus!

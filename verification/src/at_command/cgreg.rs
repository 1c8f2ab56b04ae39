use vstd::prelude::*;
use embassy_time::Duration;
use super::{AtRequest, GenericOk, RequestType};
use crate::out::{decimal, push_decimal};

verus! {

/// AT+CGREG=...
/// 
/// Configure network registration URC
#[derive(Debug, Clone, Copy, PartialEq, Eq)]
pub enum ConfigureRegistrationUrc {
    /// Disable URC
    Disable,
    /// Network registration URC
    EnableReg,
    /// Network registration and location information URC
    EnableRegLocation,
}

impl ConfigureRegistrationUrc {
    /// The number that stands for this value in commands.
    #[verifier::allow_in_spec]
    pub fn value(&self) -> u8
        returns
            (match self {
                ConfigureRegistrationUrc::Disable => 0u8,
                ConfigureRegistrationUrc::EnableReg => 1u8,
                ConfigureRegistrationUrc::EnableRegLocation => 2u8,
            }),
    {
        match self {
            ConfigureRegistrationUrc::Disable => 0,
            ConfigureRegistrationUrc::EnableReg => 1,
            ConfigureRegistrationUrc::EnableRegLocation => 2,
        }
    }
}

/// AT+CGREG?
#[derive(Debug)]
pub struct GetRegistrationStatus;

impl AtRequest for ConfigureRegistrationUrc {
    type Response = GenericOk;

    open spec fn spec_encode(&self) -> Seq<char> {
        "AT+CGREG="@ + decimal(self.value() as nat) + "\r"@
    }

    open spec fn spec_request_type() -> RequestType {
        RequestType::NonCommand
    }

    fn request_type() -> (t: RequestType) {
        RequestType::NonCommand
    }

    fn encode(&self) -> (s: String) {
        let mut s = String::new();
        s.append("AT+CGREG=");
        push_decimal(&mut s, self.value() as u64);
        s.append("\r");
        s
    }

    fn default_timeout() -> (t: Option<Duration>) {
        None
    }
}

impl AtRequest for GetRegistrationStatus {
    type Response = GenericOk;

    open spec fn spec_encode(&self) -> Seq<char> {
        "AT+CGREG?\r"@
    }

    open spec fn spec_request_type() -> RequestType {
        RequestType::NonCommand
    }

    fn request_type() -> (t: RequestType) {
        RequestType::NonCommand
    }

    fn encode(&self) -> (s: String) {
        let mut s = String::new();
        s.append("AT+CGREG?\r");
        s
    }

    fn default_timeout() -> (t: Option<Duration>) {
        None
    }
}

#[derive(Debug, Clone, Copy, PartialEq, Eq)]
pub enum Functionality {
    Minimal,
    Full,
}

impl Functionality {
    /// The number that stands for this value in commands.
    #[verifier::allow_in_spec]
    pub fn value(&self) -> u8
        returns
            (match self {
                Functionality::Minimal => 0u8,
                Functionality::Full => 1u8,
            }),
    {
        match self {
            Functionality::Minimal => 0,
            Functionality::Full => 1,
        }
    }
}

#[derive(Debug, Clone, Copy, PartialEq, Eq)]
pub enum SetFunctionalityOption {
    NoReset,
    Reset,
}

impl SetFunctionalityOption {
    /// The number that stands for this value in commands.
    #[verifier::allow_in_spec]
    pub fn value(&self) -> u8
        returns
            (match self {
                SetFunctionalityOption::NoReset => 0u8,
                SetFunctionalityOption::Reset => 1u8,
            }),
    {
        match self {
            SetFunctionalityOption::NoReset => 0,
            SetFunctionalityOption::Reset => 1,
        }
    }
}

/// AT+CFUN?
#[derive(Debug)]
pub struct SetFunctionality(pub Functionality, pub Option<SetFunctionalityOption>);

impl AtRequest for SetFunctionality {
    type Response = GenericOk;

    open spec fn spec_encode(&self) -> Seq<char> {
        match self.1 {
            Some(rst) => "AT+CFUN="@ + decimal(self.0.value() as nat) + ","@ + decimal(rst.value() as nat) + "\r"@,
            None => "AT+CFUN="@ + decimal(self.0.value() as nat) + "\r"@,
        }
    }

    open spec fn spec_request_type() -> RequestType {
        RequestType::NonCommand
    }

    fn request_type() -> (t: RequestType) {
        RequestType::NonCommand
    }

    fn encode(&self) -> (s: String) {
        let mut s = String::new();
        s.append("AT+CFUN=");
        push_decimal(&mut s, self.0.value() as u64);
        if let Some(rst) = self.1 {
            s.append(",");
            push_decimal(&mut s, rst.value() as u64);
        }
        s.append("\r");
        s
    }

    fn default_timeout() -> (t: Option<Duration>) {
        None
    }
}

} // verus!

use vstd::prelude::*;
use embassy_time::Duration;
use super::{AtRequest, CommandGroup, GenericOk, RequestType};
use crate::out::{decimal, push_decimal};
use crate::time;

verus! {

#[derive(Clone, Copy, PartialEq, Eq, PartialOrd, Ord, Debug)]
pub enum BaudRate {
    Hz0,
    Hz300,
    Hz600,
    Hz1200,
    Hz2400,
    Hz4800,
    Hz9600,
    Hz19200,
    Hz38400,
    Hz57600,
    Hz115200,
    Hz230400,
    Hz921600,
    Hz2000000,
    Hz2900000,
    Hz3000000,
    Hz3200000,
    Hz3686400,
    Hz4000000,
}

impl BaudRate {
    /// The number that stands for this value in commands.
    #[verifier::allow_in_spec]
    pub fn value(&self) -> u32
        returns
            (match self {
                BaudRate::Hz0 => 0u32,
                BaudRate::Hz300 => 300u32,
                BaudRate::Hz600 => 600u32,
                BaudRate::Hz1200 => 1200u32,
                BaudRate::Hz2400 => 2400u32,
                BaudRate::Hz4800 => 4800u32,
                BaudRate::Hz9600 => 9600u32,
                BaudRate::Hz19200 => 19200u32,
                BaudRate::Hz38400 => 38400u32,
                BaudRate::Hz57600 => 57600u32,
                BaudRate::Hz115200 => 115200u32,
                BaudRate::Hz230400 => 230400u32,
                BaudRate::Hz921600 => 921600u32,
                BaudRate::Hz2000000 => 2000000u32,
                BaudRate::Hz2900000 => 2900000u32,
                BaudRate::Hz3000000 => 3000000u32,
                BaudRate::Hz3200000 => 3200000u32,
                BaudRate::Hz3686400 => 3686400u32,
                BaudRate::Hz4000000 => 4000000u32,
            }),
    {
        match self {
            BaudRate::Hz0 => 0,
            BaudRate::Hz300 => 300,
            BaudRate::Hz600 => 600,
            BaudRate::Hz1200 => 1200,
            BaudRate::Hz2400 => 2400,
            BaudRate::Hz4800 => 4800,
            BaudRate::Hz9600 => 9600,
            BaudRate::Hz19200 => 19200,
            BaudRate::Hz38400 => 38400,
            BaudRate::Hz57600 => 57600,
            BaudRate::Hz115200 => 115200,
            BaudRate::Hz230400 => 230400,
            BaudRate::Hz921600 => 921600,
            BaudRate::Hz2000000 => 2000000,
            BaudRate::Hz2900000 => 2900000,
            BaudRate::Hz3000000 => 3000000,
            BaudRate::Hz3200000 => 3200000,
            BaudRate::Hz3686400 => 3686400,
            BaudRate::Hz4000000 => 4000000,
        }
    }
}

impl BaudRate {
    /// Whether the rate is detected automatically (0 Hz).
    #[must_use]
    pub fn is_auto(&self) -> (b: bool)
        ensures
            b == (*self == BaudRate::Hz0),
    {
        match self {
            Self::Hz0 => true,
            _ => false,
        }
    }

    /// The rate in Hz.
    pub fn hz(&self) -> (n: u32)
        ensures
            n == self.value(),
    {
        self.value()
    }
}

/// AT+IPR=...
#[derive(Debug)]
pub struct SetBaudRate(pub BaudRate);

impl AtRequest for SetBaudRate {
    type Response = GenericOk;

    open spec fn spec_encode(&self) -> Seq<char> {
        "+IPR="@ + decimal(self.0.value() as nat)
    }

    open spec fn spec_request_type() -> RequestType {
        RequestType::Command(CommandGroup::Extended)
    }

    open spec fn spec_default_timeout() -> Option<Duration> {
        Some(time::duration_from_secs(30))
    }

    fn request_type() -> (t: RequestType) {
        RequestType::Command(CommandGroup::Extended)
    }

    fn encode(&self) -> (s: String) {
        let mut s = String::new();
        s.append("+IPR=");
        push_decimal(&mut s, self.0.value() as u64);
        s
    }

    fn default_timeout() -> (t: Option<Duration>) {
        Some(time::secs(30))
    }
}

} // verus!

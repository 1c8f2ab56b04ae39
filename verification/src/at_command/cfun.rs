use vstd::prelude::*;
use embassy_time::Duration;
use super::{AtParseErr, AtRequest, GenericOk, RequestType};
use crate::out::{decimal, push_decimal};
use crate::text::{chars_of, eq_str};

verus! {

#[derive(Debug, Clone, Copy, PartialEq, Eq)]
pub enum Functionality {
    Minimal,
    Full,
}

impl Functionality {
    /// The number that stands for this value in commands.
    #[verifier::allow_in_spec]
    pub fn value(&self) -> u8
        returns
            (match self {
                Functionality::Minimal => 0u8,
                Functionality::Full => 1u8,
            }),
    {
        match self {
            Functionality::Minimal => 0,
            Functionality::Full => 1,
        }
    }
}

#[derive(Debug, Clone, Copy, PartialEq, Eq)]
pub enum SetFunctionalityOption {
    NoReset,
    Reset,
}

impl SetFunctionalityOption {
    /// The number that stands for this value in commands.
    #[verifier::allow_in_spec]
    pub fn value(&self) -> u8
        returns
            (match self {
                SetFunctionalityOption::NoReset => 0u8,
                SetFunctionalityOption::Reset => 1u8,
            }),
    {
        match self {
            SetFunctionalityOption::NoReset => 0,
            SetFunctionalityOption::Reset => 1,
        }
    }
}

/// AT+CFUN=
#[derive(Debug)]
pub struct SetFunctionality(pub Functionality, pub Option<SetFunctionalityOption>);

impl AtRequest for SetFunctionality {
    type Response = GenericOk;

    open spec fn spec_encode(&self) -> Seq<char> {
        match self.1 {
            Some(rst) => "AT+CFUN="@ + decimal(self.0.value() as nat) + ","@ + decimal(rst.value() as nat) + "\r"@,
            None => "AT+CFUN="@ + decimal(self.0.value() as nat) + "\r"@,
        }
    }

    open spec fn spec_request_type() -> RequestType {
        RequestType::NonCommand
    }

    fn request_type() -> (t: RequestType) {
        RequestType::NonCommand
    }

    fn encode(&self) -> (s: String) {
        let mut s = String::new();
        s.append("AT+CFUN=");
        push_decimal(&mut s, self.0.value() as u64);
        if let Some(rst) = self.1 {
            s.append(",");
            push_decimal(&mut s, rst.value() as u64);
        }
        s.append("\r");
        s
    }

    fn default_timeout() -> (t: Option<Duration>) {
        None
    }
}

impl Functionality {
    /// `0` or `1`
    pub open spec fn spec_from_str(s: Seq<char>) -> Result<Functionality, AtParseErr> {
        if s == "0"@ {
            Ok(Functionality::Minimal)
        } else if s == "1"@ {
            Ok(Functionality::Full)
        } else {
            Err(AtParseErr::Parsing("invalid data"))
        }
    }

    pub fn from_str(s: &str) -> (r: Result<Functionality, AtParseErr>)
        ensures
            r == Self::spec_from_str(s@),
    {
        let v = chars_of(s);
        if eq_str(v.as_slice(), "0") {
            Ok(Functionality::Minimal)
        } else if eq_str(v.as_slice(), "1") {
            Ok(Functionality::Full)
        } else {
            Err(AtParseErr::Parsing("invalid data"))
        }
    }
}


/// The number that a request sends for a functionality level reads back
/// as that level.
pub proof fn law_functionality_round_trip(f: Functionality)
    ensures
        Functionality::spec_from_str(decimal(f.value() as nat)) == Ok::<Functionality, AtParseErr>(f),
{
    reveal_strlit("0");
    reveal_strlit("1");
    assert(decimal(0) =~= "0"@);
    assert(decimal(1) =~= "1"@);
    assert("0"@[0] != "1"@[0]);
}

} // verus!

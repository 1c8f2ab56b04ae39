use vstd::prelude::*;
use embassy_time::Duration;
use super::{AtRequest, GenericOk, RequestType};

verus! {

#[derive(Debug, Clone, Copy, PartialEq, Eq)]
pub enum CharacterSet {
    GSM,
    UCS2,
    IRA,
}

/// The name the command uses for a character set (UCS2 is sent as `USC2`).
pub open spec fn spec_character_set_name(c: CharacterSet) -> Seq<char> {
    match c {
        CharacterSet::GSM => "GSM"@,
        CharacterSet::UCS2 => "USC2"@,
        CharacterSet::IRA => "IRA"@,
    }
}

/// AT+CSCS=...
#[derive(Debug)]
pub struct SetTeCharacterSet(pub CharacterSet);

impl AtRequest for SetTeCharacterSet {
    type Response = GenericOk;

    open spec fn spec_encode(&self) -> Seq<char> {
        "AT+CSCS=\""@ + spec_character_set_name(self.0) + "\"\r"@
    }

    open spec fn spec_request_type() -> RequestType {
        RequestType::NonCommand
    }

    fn request_type() -> (t: RequestType) {
        RequestType::NonCommand
    }

    fn encode(&self) -> (s: String) {
        let mut s = String::new();
        s.append("AT+CSCS=\"");
        match self.0 {
            CharacterSet::GSM => s.append("GSM"),
            CharacterSet::UCS2 => s.append("USC2"),
            CharacterSet::IRA => s.append("IRA"),
        }
        s.append("\"\r");
        s
    }

    fn default_timeout() -> (t: Option<Duration>) {
        None
    }
}

/// The request names the character set it selects, quoted: `GSM`, `IRA`, and `USC2`
/// for UCS2 (the spelling the modem expects).
pub proof fn law_character_set_request(c: CharacterSet)
    ensures
        SetTeCharacterSet(c).spec_encode() == "AT+CSCS=\""@ + (match c {
            CharacterSet::GSM => "GSM"@,
            CharacterSet::UCS2 => "USC2"@,
            CharacterSet::IRA => "IRA"@,
        }) + "\"\r"@,
{
}

} // verus!

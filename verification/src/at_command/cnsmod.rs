//! Network system mode.
use vstd::prelude::*;
use embassy_time::{Duration, Instant};
use super::{AtParseErr, AtParseLine, AtRequest, GenericOk, RequestType};
use crate::out::{decimal, push_decimal};
use crate::text::{chars_of, eq_str, split_once, split_once_exec, strip_prefix, strip_prefix_exec, trim, trim_exec, trim_start, trim_start_exec};

verus! {

/// The system mode. Requests send a variant's position in this list; the
/// modem reports the codes 0, 1, 3, 7 and 9.
#[derive(Debug, Clone, Copy, PartialEq, Eq)]
pub enum SystemMode {
    NoService,
    Gsm,
    Gprs,
    LteCatM1,
    LteNbIot,
}

impl SystemMode {
    /// The position of the variant, which requests send.
    #[verifier::allow_in_spec]
    pub fn value(&self) -> u8
        returns
            (match self {
                SystemMode::NoService => 0u8,
                SystemMode::Gsm => 1u8,
                SystemMode::Gprs => 2u8,
                SystemMode::LteCatM1 => 3u8,
                SystemMode::LteNbIot => 4u8,
            }),
    {
        match self {
            SystemMode::NoService => 0,
            SystemMode::Gsm => 1,
            SystemMode::Gprs => 2,
            SystemMode::LteCatM1 => 3,
            SystemMode::LteNbIot => 4,
        }
    }
}

/// AT+CNSMOD?
#[derive(Clone, Copy, Debug, PartialEq, Eq)]
pub struct CNSMod {
    pub enabled: bool,
    pub system_mode: SystemMode,
}

impl View for CNSMod {
    type V = CNSMod;

    open spec fn view(&self) -> CNSMod {
        *self
    }
}

#[derive(Debug)]
pub struct ShowSystemMode;

#[derive(Debug)]
pub struct SetAutoSystemMode(pub CNSMod);

impl AtRequest for ShowSystemMode {
    type Response = (CNSMod, GenericOk);

    open spec fn spec_encode(&self) -> Seq<char> {
        "AT+CNSMOD?\r"@
    }

    open spec fn spec_request_type() -> RequestType {
        RequestType::NonCommand
    }

    fn request_type() -> (t: RequestType) {
        RequestType::NonCommand
    }

    fn encode(&self) -> (s: String) {
        String::from_str("AT+CNSMOD?\r")
    }

    fn default_timeout() -> (t: Option<Duration>) {
        None
    }
}

impl AtRequest for SetAutoSystemMode {
    type Response = GenericOk;

    open spec fn spec_encode(&self) -> Seq<char> {
        "AT+CNSMOD="@ + (if self.0.enabled {
            "1"@
        } else {
            "0"@
        }) + ","@ + decimal(self.0.system_mode.value() as nat) + "\r"@
    }

    open spec fn spec_request_type() -> RequestType {
        RequestType::NonCommand
    }

    fn request_type() -> (t: RequestType) {
        RequestType::NonCommand
    }

    fn encode(&self) -> (s: String) {
        let mut s = String::new();
        s.append("AT+CNSMOD=");
        s.append(if self.0.enabled { "1" } else { "0" });
        s.append(",");
        push_decimal(&mut s, self.0.system_mode.value() as u64);
        s.append("\r");
        s
    }

    fn default_timeout() -> (t: Option<Duration>) {
        None
    }
}

/// `0` or `1`.
pub open spec fn spec_flag(s: Seq<char>) -> Option<bool> {
    if s == "0"@ {
        Some(false)
    } else if s == "1"@ {
        Some(true)
    } else {
        None
    }
}

pub open spec fn spec_reported_mode(s: Seq<char>) -> Option<SystemMode> {
    if s == "0"@ {
        Some(SystemMode::NoService)
    } else if s == "1"@ {
        Some(SystemMode::Gsm)
    } else if s == "3"@ {
        Some(SystemMode::Gprs)
    } else if s == "7"@ {
        Some(SystemMode::LteCatM1)
    } else if s == "9"@ {
        Some(SystemMode::LteNbIot)
    } else {
        None
    }
}

/// `+CNSMOD: <enabled>,<system mode>`
pub open spec fn spec_cnsmod(line: Seq<char>) -> Result<CNSMod, AtParseErr> {
    match strip_prefix(line, "+CNSMOD:"@) {
        None => Err(AtParseErr::Mismatch),
        Some(rest) => match split_once(trim_start(rest), ',') {
            None => Err(AtParseErr::Parsing("Missing delimiter")),
            Some((enabled, mode)) => match spec_flag(enabled) {
                None => Err(AtParseErr::Parsing("Failed to parse enabled")),
                Some(enabled) => match spec_reported_mode(trim(mode)) {
                    None => Err(AtParseErr::Parsing("Failed to parse System Mode")),
                    Some(system_mode) => Ok(CNSMod { enabled, system_mode }),
                },
            },
        },
    }
}

fn reported_mode(s: &[char]) -> (r: Option<SystemMode>)
    ensures
        r == spec_reported_mode(s@),
{
    if eq_str(s, "0") {
        Some(SystemMode::NoService)
    } else if eq_str(s, "1") {
        Some(SystemMode::Gsm)
    } else if eq_str(s, "3") {
        Some(SystemMode::Gprs)
    } else if eq_str(s, "7") {
        Some(SystemMode::LteCatM1)
    } else if eq_str(s, "9") {
        Some(SystemMode::LteNbIot)
    } else {
        None
    }
}

impl AtParseLine for CNSMod {
    open spec fn spec_from_line(line: Seq<char>, instant: Instant) -> Result<CNSMod, AtParseErr> {
        spec_cnsmod(line)
    }

    fn from_line(line: &str, instant: &Instant) -> (r: Result<Self, AtParseErr>) {
        let v = chars_of(line);
        CNSMod::from_chars(v.as_slice())
    }
}

impl CNSMod {
    pub fn from_chars(line: &[char]) -> (r: Result<Self, AtParseErr>)
        ensures
            r == spec_cnsmod(line@),
    {
        let rest = match strip_prefix_exec(line, "+CNSMOD:") {
            Some(r) => r,
            None => return Err(AtParseErr::Mismatch),
        };
        let (enabled, mode) = match split_once_exec(trim_start_exec(rest), ',') {
            Some(x) => x,
            None => return Err(AtParseErr::Parsing("Missing delimiter")),
        };
        let on = if eq_str(enabled, "0") {
            false
        } else if eq_str(enabled, "1") {
            true
        } else {
            return Err(AtParseErr::Parsing("Failed to parse enabled"));
        };
        match reported_mode(trim_exec(mode)) {
            None => Err(AtParseErr::Parsing("Failed to parse System Mode")),
            Some(system_mode) => Ok(CNSMod { enabled: on, system_mode }),
        }
    }
}

/// The modem reports each system mode by its own code, and no other text reads as
/// one: `0` no service, `1` GSM, `3` GPRS, `7` LTE CAT-M1, `9` LTE NB-IoT. The
/// enabled flag reads `1` as on and `0` as off.
pub proof fn law_reported_mode_codes(s: Seq<char>, enabled: bool)
    ensures
        spec_reported_mode(s) == Some(SystemMode::NoService) <==> s == "0"@,
        spec_reported_mode(s) == Some(SystemMode::Gsm) <==> s == "1"@,
        spec_reported_mode(s) == Some(SystemMode::Gprs) <==> s == "3"@,
        spec_reported_mode(s) == Some(SystemMode::LteCatM1) <==> s == "7"@,
        spec_reported_mode(s) == Some(SystemMode::LteNbIot) <==> s == "9"@,
        spec_flag(s) == Some(enabled) <==> s == (if enabled {
            "1"@
        } else {
            "0"@
        }),
{
    reveal_strlit("0");
    reveal_strlit("1");
    reveal_strlit("3");
    reveal_strlit("7");
    reveal_strlit("9");
    assert("0"@ != "1"@) by {
        assert("0"@[0] != "1"@[0]);
    }
    assert("0"@ != "3"@) by {
        assert("0"@[0] != "3"@[0]);
    }
    assert("0"@ != "7"@) by {
        assert("0"@[0] != "7"@[0]);
    }
    assert("0"@ != "9"@) by {
        assert("0"@[0] != "9"@[0]);
    }
    assert("1"@ != "3"@) by {
        assert("1"@[0] != "3"@[0]);
    }
    assert("1"@ != "7"@) by {
        assert("1"@[0] != "7"@[0]);
    }
    assert("1"@ != "9"@) by {
        assert("1"@[0] != "9"@[0]);
    }
    assert("3"@ != "7"@) by {
        assert("3"@[0] != "7"@[0]);
    }
    assert("3"@ != "9"@) by {
        assert("3"@[0] != "9"@[0]);
    }
    assert("7"@ != "9"@) by {
        assert("7"@[0] != "9"@[0]);
    }
}

} // verus!

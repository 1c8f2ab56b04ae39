//! Operator selection.
use vstd::prelude::*;
use embassy_time::{Duration, Instant};
use super::{view_result, AtParseErr, AtParseLine, AtRequest, GenericOk, RequestType};
use crate::out::decimal;
use crate::text::{chars_of, eq_str, fits_in_bytes, lemma_splitn_len, splitn, splitn_exec, string_from_chars, strip_prefix, strip_prefix_exec, trim_matches, trim_matches_exec, utf8_len, views};

verus! {

/// AT+COPS?
#[derive(Debug)]
pub struct GetOperatorInfo;

/// The operator name is at most 256 bytes; a longer one reads as empty.
#[derive(Clone, Debug)]
pub struct OperatorInfo {
    pub mode: OperatorMode,
    pub format: OperatorFormat,
    pub operator_name: String,
}

pub struct OperatorInfoView {
    pub mode: OperatorMode,
    pub format: OperatorFormat,
    pub operator_name: Seq<char>,
}

impl View for OperatorInfo {
    type V = OperatorInfoView;

    open spec fn view(&self) -> OperatorInfoView {
        OperatorInfoView { mode: self.mode, format: self.format, operator_name: self.operator_name@ }
    }
}

#[derive(Clone, Copy, Debug, PartialEq, Eq)]
pub enum OperatorMode {
    Automatic,
    Manual,
    ManualDeregister,
    ManualAutomatic,
}

impl OperatorMode {
    /// The number that stands for this value in commands.
    #[verifier::allow_in_spec]
    pub fn value(&self) -> u8
        returns
            (match self {
                OperatorMode::Automatic => 0u8,
                OperatorMode::Manual => 1u8,
                OperatorMode::ManualDeregister => 2u8,
                OperatorMode::ManualAutomatic => 4u8,
            }),
    {
        match self {
            OperatorMode::Automatic => 0,
            OperatorMode::Manual => 1,
            OperatorMode::ManualDeregister => 2,
            OperatorMode::ManualAutomatic => 4,
        }
    }
}

#[derive(Clone, Copy, Debug, PartialEq, Eq)]
pub enum OperatorFormat {
    Long,
    Short,
    Numeric,
}

impl OperatorFormat {
    /// The number that stands for this value in commands.
    #[verifier::allow_in_spec]
    pub fn value(&self) -> u8
        returns
            (match self {
                OperatorFormat::Long => 0u8,
                OperatorFormat::Short => 1u8,
                OperatorFormat::Numeric => 2u8,
            }),
    {
        match self {
            OperatorFormat::Long => 0,
            OperatorFormat::Short => 1,
            OperatorFormat::Numeric => 2,
        }
    }
}

impl AtRequest for GetOperatorInfo {
    type Response = (OperatorInfo, GenericOk);

    open spec fn spec_encode(&self) -> Seq<char> {
        "AT+COPS?\r"@
    }

    open spec fn spec_request_type() -> RequestType {
        RequestType::NonCommand
    }

    fn request_type() -> (t: RequestType) {
        RequestType::NonCommand
    }

    fn encode(&self) -> (s: String) {
        let mut s = String::new();
        s.append("AT+COPS?\r");
        s
    }

    fn default_timeout() -> (t: Option<Duration>) {
        None
    }
}

pub open spec fn spec_operator_mode(s: Seq<char>) -> Option<OperatorMode> {
    if s == "0"@ {
        Some(OperatorMode::Automatic)
    } else if s == "1"@ {
        Some(OperatorMode::Manual)
    } else if s == "2"@ {
        Some(OperatorMode::ManualDeregister)
    } else if s == "4"@ {
        Some(OperatorMode::ManualAutomatic)
    } else {
        None
    }
}

pub open spec fn spec_operator_format(s: Seq<char>) -> Option<OperatorFormat> {
    if s == "0"@ {
        Some(OperatorFormat::Long)
    } else if s == "1"@ {
        Some(OperatorFormat::Short)
    } else if s == "2"@ {
        Some(OperatorFormat::Numeric)
    } else {
        None
    }
}

/// The name without its quotes, or empty where it is too long.
pub open spec fn spec_bounded_name(name: Seq<char>, capacity: nat) -> Seq<char> {
    let n = trim_matches(name, '"');
    if utf8_len(n) <= capacity {
        n
    } else {
        seq![]
    }
}

/// `+COPS: <mode>,<format>,"<operator name>",<access technology>`
pub open spec fn spec_operator_info(line: Seq<char>) -> Result<OperatorInfoView, AtParseErr> {
    match strip_prefix(line, "+COPS: "@) {
        None => Err(AtParseErr::Mismatch),
        Some(rest) => {
            let p = splitn(rest, 4, ',');
            if p.len() < 4 {
                Err(AtParseErr::Parsing("Missing ','"))
            } else {
                match spec_operator_mode(p[0]) {
                    None => Err(AtParseErr::Parsing("Failed to parse mode")),
                    Some(mode) => match spec_operator_format(p[1]) {
                        None => Err(AtParseErr::Parsing("Failed to parse format")),
                        Some(format) => Ok(
                            OperatorInfoView {
                                mode,
                                format,
                                operator_name: spec_bounded_name(p[2], 256),
                            },
                        ),
                    },
                }
            }
        },
    }
}

fn operator_mode(s: &[char]) -> (r: Option<OperatorMode>)
    ensures
        r == spec_operator_mode(s@),
{
    if eq_str(s, "0") {
        Some(OperatorMode::Automatic)
    } else if eq_str(s, "1") {
        Some(OperatorMode::Manual)
    } else if eq_str(s, "2") {
        Some(OperatorMode::ManualDeregister)
    } else if eq_str(s, "4") {
        Some(OperatorMode::ManualAutomatic)
    } else {
        None
    }
}

fn operator_format(s: &[char]) -> (r: Option<OperatorFormat>)
    ensures
        r == spec_operator_format(s@),
{
    if eq_str(s, "0") {
        Some(OperatorFormat::Long)
    } else if eq_str(s, "1") {
        Some(OperatorFormat::Short)
    } else if eq_str(s, "2") {
        Some(OperatorFormat::Numeric)
    } else {
        None
    }
}

pub fn bounded_name(name: &[char], capacity: usize) -> (r: String)
    ensures
        r@ == spec_bounded_name(name@, capacity as nat),
{
    let n = trim_matches_exec(name, '"');
    if fits_in_bytes(n, capacity) {
        string_from_chars(n)
    } else {
        String::new()
    }
}

impl OperatorInfo {
    pub fn from_chars(line: &[char]) -> (r: Result<Self, AtParseErr>)
        ensures
            view_result(r) == spec_operator_info(line@),
    {
        let rest = match strip_prefix_exec(line, "+COPS: ") {
            Some(r) => r,
            None => return Err(AtParseErr::Mismatch),
        };
        let p = splitn_exec(rest, 4, ',');
        let ghost v = views(p@);
        if p.len() < 4 {
            return Err(AtParseErr::Parsing("Missing ','"));
        }
        assert(forall|i: int| 0 <= i < p@.len() ==> v[i] == (#[trigger] p@[i])@);
        let mode = match operator_mode(p[0]) {
            Some(m) => m,
            None => return Err(AtParseErr::Parsing("Failed to parse mode")),
        };
        let format = match operator_format(p[1]) {
            Some(f) => f,
            None => return Err(AtParseErr::Parsing("Failed to parse format")),
        };
        Ok(OperatorInfo { mode, format, operator_name: bounded_name(p[2], 256) })
    }
}

impl AtParseLine for OperatorInfo {
    open spec fn spec_from_line(line: Seq<char>, instant: Instant) -> Result<OperatorInfoView, AtParseErr> {
        spec_operator_info(line)
    }

    fn from_line(line: &str, instant: &Instant) -> (r: Result<Self, AtParseErr>) {
        let v = chars_of(line);
        Self::from_chars(v.as_slice())
    }
}

/// The arguments of a `+COPS: ` line, split at its first three commas.
pub open spec fn operator_arguments(line: Seq<char>) -> Seq<Seq<char>> {
    match strip_prefix(line, "+COPS: "@) {
        Some(rest) => splitn(rest, 4, ','),
        None => Seq::empty(),
    }
}

/// Reading a mode or a format inverts its number: the decimal text of every value's
/// number reads back as that value.
pub proof fn law_operator_numbers_read_back(mode: OperatorMode, format: OperatorFormat)
    ensures
        spec_operator_mode(decimal(mode.value() as nat)) == Some(mode),
        spec_operator_format(decimal(format.value() as nat)) == Some(format),
{
    reveal_strlit("0");
    reveal_strlit("1");
    reveal_strlit("2");
    reveal_strlit("4");
    assert(decimal(0) =~= "0"@);
    assert(decimal(1) =~= "1"@);
    assert(decimal(2) =~= "2"@);
    assert(decimal(4) =~= "4"@);
    assert("0"@[0] != "1"@[0]);
    assert("0"@[0] != "2"@[0]);
    assert("0"@[0] != "4"@[0]);
    assert("1"@[0] != "2"@[0]);
    assert("1"@[0] != "4"@[0]);
    assert("2"@[0] != "4"@[0]);
}

/// A `+COPS:` line that parses names its mode by its first argument (`0` automatic,
/// `1` manual, `2` manual deregister, `4` manual then automatic) and its format by its
/// second (`0` long, `1` short, `2` numeric); the operator name is the third argument
/// without its quotes.
pub proof fn law_operator_info_arguments(line: Seq<char>)
    ensures
        ({
            let p = operator_arguments(line);
            match spec_operator_info(line) {
                Ok(info) => {
                    &&& p.len() == 4
                    &&& (info.mode == OperatorMode::Automatic <==> p[0] == "0"@)
                    &&& (info.mode == OperatorMode::Manual <==> p[0] == "1"@)
                    &&& (info.mode == OperatorMode::ManualDeregister <==> p[0] == "2"@)
                    &&& (info.mode == OperatorMode::ManualAutomatic <==> p[0] == "4"@)
                    &&& (info.format == OperatorFormat::Long <==> p[1] == "0"@)
                    &&& (info.format == OperatorFormat::Short <==> p[1] == "1"@)
                    &&& (info.format == OperatorFormat::Numeric <==> p[1] == "2"@)
                    &&& info.operator_name == spec_bounded_name(p[2], 256)
                },
                Err(_) => true,
            }
        }),
{
    reveal_strlit("0");
    reveal_strlit("1");
    reveal_strlit("2");
    reveal_strlit("4");
    assert("0"@ != "1"@) by {
        assert("0"@[0] != "1"@[0]);
    }
    assert("0"@ != "2"@) by {
        assert("0"@[0] != "2"@[0]);
    }
    assert("0"@ != "4"@) by {
        assert("0"@[0] != "4"@[0]);
    }
    assert("1"@ != "2"@) by {
        assert("1"@[0] != "2"@[0]);
    }
    assert("1"@ != "4"@) by {
        assert("1"@[0] != "4"@[0]);
    }
    assert("2"@ != "4"@) by {
        assert("2"@[0] != "4"@[0]);
    }
    if let Some(rest) = strip_prefix(line, "+COPS: "@) {
        lemma_splitn_len(rest, 4, ',');
    }
}

} // verus!

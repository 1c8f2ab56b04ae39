//! Extended discontinuous reception (eDRX) settings.
use vstd::prelude::*;
use embassy_time::{Duration, Instant};
use super::{AtParseErr, AtParseLine, AtRequest, GenericOk, RequestType};
use crate::numeral::is_ascii_digit;
use crate::out::{binary_padded, digit_char, decimal, lemma_binary_reads_back, push_binary_padded, push_decimal};
use crate::text::{
    chars_of, eq_str, lemma_split_first_piece, lemma_split_single_piece, lemma_trim_plain,
    parse_unsigned, parse_unsigned_exec, split, split_terminator,
    split_terminator_exec, strip_prefix, strip_prefix_exec, trim, trim_exec, views,
};

verus! {



#[derive(Clone, Copy, Debug, PartialEq, Eq)]
pub enum EDRXSetting {
    Disable,
    Enable,
    EnableWithAutoReport,
}

impl EDRXSetting {
    /// The number that stands for this value in commands.
    #[verifier::allow_in_spec]
    pub fn value(&self) -> u8
        returns
            (match self {
                EDRXSetting::Disable => 0u8,
                EDRXSetting::Enable => 1u8,
                EDRXSetting::EnableWithAutoReport => 2u8,
            }),
    {
        match self {
            EDRXSetting::Disable => 0,
            EDRXSetting::Enable => 1,
            EDRXSetting::EnableWithAutoReport => 2,
        }
    }
}

#[derive(Clone, Copy, Debug, PartialEq, Eq)]
pub enum AcTType {
    CatM,
    NbIot,
}

impl AcTType {
    /// The number that stands for this value in commands.
    #[verifier::allow_in_spec]
    pub fn value(&self) -> u8
        returns
            (match self {
                AcTType::CatM => 4u8,
                AcTType::NbIot => 5u8,
            }),
    {
        match self {
            AcTType::CatM => 4,
            AcTType::NbIot => 5,
        }
    }
}

/// AT+CEDRX=...
#[derive(Clone, Copy, PartialEq, Eq, Debug)]
pub struct ConfigureEDRX {
    pub n: EDRXSetting,
    pub act_type: AcTType,
    pub requested_edrx_value: EdrxCycleLength,
}

/// The EDRX cycle length, in seconds.
#[derive(Clone, Copy, Debug, PartialEq, Eq)]
pub enum EdrxCycleLength {
    _5,
    _10,
    _20,
    _40,
    _61,
    _81,
    _102,
    _122,
    _143,
    _163,
    _327,
    _655,
    _1310,
    _2621,
    _5242,
    _10485,
}

impl EdrxCycleLength {
    /// The number that stands for this value in commands.
    #[verifier::allow_in_spec]
    pub fn value(&self) -> u8
        returns
            (match self {
                EdrxCycleLength::_5 => 0u8,
                EdrxCycleLength::_10 => 1u8,
                EdrxCycleLength::_20 => 2u8,
                EdrxCycleLength::_40 => 3u8,
                EdrxCycleLength::_61 => 4u8,
                EdrxCycleLength::_81 => 5u8,
                EdrxCycleLength::_102 => 6u8,
                EdrxCycleLength::_122 => 7u8,
                EdrxCycleLength::_143 => 8u8,
                EdrxCycleLength::_163 => 9u8,
                EdrxCycleLength::_327 => 10u8,
                EdrxCycleLength::_655 => 11u8,
                EdrxCycleLength::_1310 => 12u8,
                EdrxCycleLength::_2621 => 13u8,
                EdrxCycleLength::_5242 => 14u8,
                EdrxCycleLength::_10485 => 15u8,
            }),
    {
        match self {
            EdrxCycleLength::_5 => 0,
            EdrxCycleLength::_10 => 1,
            EdrxCycleLength::_20 => 2,
            EdrxCycleLength::_40 => 3,
            EdrxCycleLength::_61 => 4,
            EdrxCycleLength::_81 => 5,
            EdrxCycleLength::_102 => 6,
            EdrxCycleLength::_122 => 7,
            EdrxCycleLength::_143 => 8,
            EdrxCycleLength::_163 => 9,
            EdrxCycleLength::_327 => 10,
            EdrxCycleLength::_655 => 11,
            EdrxCycleLength::_1310 => 12,
            EdrxCycleLength::_2621 => 13,
            EdrxCycleLength::_5242 => 14,
            EdrxCycleLength::_10485 => 15,
        }
    }
}

/// The cycle length whose number is `value`.
pub open spec fn spec_cycle_length(value: u8) -> Result<EdrxCycleLength, &'static str> {
    if value == 0 {
        Ok(EdrxCycleLength::_5)
    } else if value == 1 {
        Ok(EdrxCycleLength::_10)
    } else if value == 2 {
        Ok(EdrxCycleLength::_20)
    } else if value == 3 {
        Ok(EdrxCycleLength::_40)
    } else if value == 4 {
        Ok(EdrxCycleLength::_61)
    } else if value == 5 {
        Ok(EdrxCycleLength::_81)
    } else if value == 6 {
        Ok(EdrxCycleLength::_102)
    } else if value == 7 {
        Ok(EdrxCycleLength::_122)
    } else if value == 8 {
        Ok(EdrxCycleLength::_143)
    } else if value == 9 {
        Ok(EdrxCycleLength::_163)
    } else if value == 10 {
        Ok(EdrxCycleLength::_327)
    } else if value == 11 {
        Ok(EdrxCycleLength::_655)
    } else if value == 12 {
        Ok(EdrxCycleLength::_1310)
    } else if value == 13 {
        Ok(EdrxCycleLength::_2621)
    } else if value == 14 {
        Ok(EdrxCycleLength::_5242)
    } else if value == 15 {
        Ok(EdrxCycleLength::_10485)
    } else {
        Err("Not a EdrxCycleLength")
    }
}

impl TryFrom<u8> for EdrxCycleLength {
    type Error = &'static str;

    fn try_from(value: u8) -> (r: Result<Self, Self::Error>) {
        match value {
            0 => Ok(EdrxCycleLength::_5),
            1 => Ok(EdrxCycleLength::_10),
            2 => Ok(EdrxCycleLength::_20),
            3 => Ok(EdrxCycleLength::_40),
            4 => Ok(EdrxCycleLength::_61),
            5 => Ok(EdrxCycleLength::_81),
            6 => Ok(EdrxCycleLength::_102),
            7 => Ok(EdrxCycleLength::_122),
            8 => Ok(EdrxCycleLength::_143),
            9 => Ok(EdrxCycleLength::_163),
            10 => Ok(EdrxCycleLength::_327),
            11 => Ok(EdrxCycleLength::_655),
            12 => Ok(EdrxCycleLength::_1310),
            13 => Ok(EdrxCycleLength::_2621),
            14 => Ok(EdrxCycleLength::_5242),
            15 => Ok(EdrxCycleLength::_10485),
            _ => Err("Not a EdrxCycleLength"),
        }
    }
}

impl vstd::std_specs::convert::TryFromSpecImpl<u8> for EdrxCycleLength {
    open spec fn obeys_try_from_spec() -> bool {
        true
    }

    open spec fn try_from_spec(value: u8) -> Result<Self, &'static str> {
        spec_cycle_length(value)
    }
}

impl AtRequest for ConfigureEDRX {
    type Response = GenericOk;

    open spec fn spec_encode(&self) -> Seq<char> {
        "AT+CEDRXS="@ + decimal(self.n.value() as nat) + ","@ + decimal(self.act_type.value() as nat)
            + ",\""@ + binary_padded(self.requested_edrx_value.value() as nat, 4) + "\"\r"@
    }

    open spec fn spec_request_type() -> RequestType {
        RequestType::NonCommand
    }

    fn request_type() -> (t: RequestType) {
        RequestType::NonCommand
    }

    fn encode(&self) -> (s: String) {
        let mut s = String::new();
        s.append("AT+CEDRXS=");
        push_decimal(&mut s, self.n.value() as u64);
        s.append(",");
        push_decimal(&mut s, self.act_type.value() as u64);
        s.append(",\"");
        push_binary_padded(&mut s, self.requested_edrx_value.value() as u64, 4);
        s.append("\"\r");
        s
    }

    fn default_timeout() -> (t: Option<Duration>) {
        None
    }
}

/// AT+CEDRX?
#[derive(Clone, Copy, Debug)]
pub struct GetEDRXSetting;

impl AtRequest for GetEDRXSetting {
    type Response = (ConfigureEDRX, GenericOk);

    open spec fn spec_encode(&self) -> Seq<char> {
        "AT+CEDRXS?\r"@
    }

    open spec fn spec_request_type() -> RequestType {
        RequestType::NonCommand
    }

    fn request_type() -> (t: RequestType) {
        RequestType::NonCommand
    }

    fn encode(&self) -> (s: String) {
        let mut s = String::new();
        s.append("AT+CEDRXS?\r");
        s
    }

    fn default_timeout() -> (t: Option<Duration>) {
        None
    }
}

/// AT+CEDRX=?
#[derive(Clone, Copy, Debug)]
pub struct TestEDRX;

impl AtRequest for TestEDRX {
    type Response = GenericOk;

    open spec fn spec_encode(&self) -> Seq<char> {
        "AT+CEDRXS=?\r"@
    }

    open spec fn spec_request_type() -> RequestType {
        RequestType::NonCommand
    }

    fn request_type() -> (t: RequestType) {
        RequestType::NonCommand
    }

    fn encode(&self) -> (s: String) {
        let mut s = String::new();
        s.append("AT+CEDRXS=?\r");
        s
    }

    fn default_timeout() -> (t: Option<Duration>) {
        None
    }
}

impl View for ConfigureEDRX {
    type V = ConfigureEDRX;

    open spec fn view(&self) -> ConfigureEDRX {
        *self
    }
}

pub open spec fn spec_edrx_setting(s: Seq<char>) -> Option<EDRXSetting> {
    if s == "0"@ {
        Some(EDRXSetting::Disable)
    } else if s == "1"@ {
        Some(EDRXSetting::Enable)
    } else if s == "2"@ {
        Some(EDRXSetting::EnableWithAutoReport)
    } else {
        None
    }
}

pub open spec fn spec_act_type(s: Seq<char>) -> Option<AcTType> {
    if s == "4"@ {
        Some(AcTType::CatM)
    } else if s == "5"@ {
        Some(AcTType::NbIot)
    } else {
        None
    }
}

/// The requested cycle length, written as binary digits.
pub open spec fn spec_edrx_value(s: Seq<char>) -> Result<EdrxCycleLength, AtParseErr> {
    match parse_unsigned(s, 2, u8::MAX as nat) {
        None => Err(AtParseErr::Parsing("not a edrx value")),
        Some(v) => match spec_cycle_length(v as u8) {
            Ok(c) => Ok(c),
            Err(m) => Err(AtParseErr::Parsing(m)),
        },
    }
}

/// `+CEDRXS: [<n>[,<act type>[,<requested value>]]]`: the arguments are
/// read in order, the first that does not read ends the parse, and a
/// missing one keeps its default (disabled, Cat-M, 5 s).
pub open spec fn spec_configure_edrx(line: Seq<char>) -> Result<ConfigureEDRX, AtParseErr> {
    match strip_prefix(line, "+CEDRXS:"@) {
        None => Err(AtParseErr::Mismatch),
        Some(rest) => {
            let q = split_terminator(rest, ',');
            let n = if q.len() >= 1 {
                spec_edrx_setting(trim(q[0]))
            } else {
                Some(EDRXSetting::Disable)
            };
            let act = if q.len() >= 2 {
                spec_act_type(trim(q[1]))
            } else {
                Some(AcTType::CatM)
            };
            let value = if q.len() >= 3 {
                spec_edrx_value(trim(q[2]))
            } else {
                Ok(EdrxCycleLength::_5)
            };
            match n {
                None => Err(AtParseErr::Parsing("Not a valid EDRXSetting")),
                Some(n) => match act {
                    None => Err(AtParseErr::Parsing("Not a valid EDRXSetting")),
                    Some(act_type) => match value {
                        Err(e) => Err(e),
                        Ok(requested_edrx_value) => if q.len() > 3 {
                            Err(AtParseErr::Parsing("Not a valid EDRXSetting"))
                        } else {
                            Ok(ConfigureEDRX { n, act_type, requested_edrx_value })
                        },
                    },
                },
            }
        },
    }
}

fn edrx_setting(s: &[char]) -> (r: Option<EDRXSetting>)
    ensures
        r == spec_edrx_setting(s@),
{
    if eq_str(s, "0") {
        Some(EDRXSetting::Disable)
    } else if eq_str(s, "1") {
        Some(EDRXSetting::Enable)
    } else if eq_str(s, "2") {
        Some(EDRXSetting::EnableWithAutoReport)
    } else {
        None
    }
}

fn act_type(s: &[char]) -> (r: Option<AcTType>)
    ensures
        r == spec_act_type(s@),
{
    if eq_str(s, "4") {
        Some(AcTType::CatM)
    } else if eq_str(s, "5") {
        Some(AcTType::NbIot)
    } else {
        None
    }
}

fn edrx_value(s: &[char]) -> (r: Result<EdrxCycleLength, AtParseErr>)
    ensures
        r == spec_edrx_value(s@),
{
    match parse_unsigned_exec(s, 2, u8::MAX as u64) {
        None => Err(AtParseErr::Parsing("not a edrx value")),
        Some(v) => match EdrxCycleLength::try_from(v as u8) {
            Ok(c) => Ok(c),
            Err(m) => Err(AtParseErr::Parsing(m)),
        },
    }
}

impl ConfigureEDRX {
    pub fn from_chars(line: &[char]) -> (r: Result<Self, AtParseErr>)
        ensures
            r == spec_configure_edrx(line@),
    {
        let rest = match strip_prefix_exec(line, "+CEDRXS:") {
            Some(r) => r,
            None => return Err(AtParseErr::Mismatch),
        };
        let q = split_terminator_exec(rest, ',');
        let ghost v = views(q@);
        assert(forall|i: int| 0 <= i < q@.len() ==> v[i] == (#[trigger] q@[i])@);
        let mut config = ConfigureEDRX {
            n: EDRXSetting::Disable,
            act_type: AcTType::CatM,
            requested_edrx_value: EdrxCycleLength::_5,
        };
        if q.len() >= 1 {
            config.n = match edrx_setting(trim_exec(q[0])) {
                Some(n) => n,
                None => return Err(AtParseErr::Parsing("Not a valid EDRXSetting")),
            };
        }
        if q.len() >= 2 {
            config.act_type = match act_type(trim_exec(q[1])) {
                Some(a) => a,
                None => return Err(AtParseErr::Parsing("Not a valid EDRXSetting")),
            };
        }
        if q.len() >= 3 {
            config.requested_edrx_value = edrx_value(trim_exec(q[2]))?;
        }
        if q.len() > 3 {
            return Err(AtParseErr::Parsing("Not a valid EDRXSetting"));
        }
        Ok(config)
    }
}

impl AtParseLine for ConfigureEDRX {
    open spec fn spec_from_line(line: Seq<char>, instant: Instant) -> Result<ConfigureEDRX, AtParseErr> {
        spec_configure_edrx(line)
    }

    fn from_line(line: &str, instant: &Instant) -> (r: Result<Self, AtParseErr>) {
        let v = chars_of(line);
        Self::from_chars(v.as_slice())
    }
}

/// Every cycle length is read back from its number, and exactly the
/// numbers below 16 are cycle lengths.
pub proof fn law_cycle_length_numbers(c: EdrxCycleLength, v: u8)
    ensures
        spec_cycle_length(c.value()) == Ok::<EdrxCycleLength, &'static str>(c),
        spec_cycle_length(v) is Ok <==> v < 16,
{
}

/// The four binary digits that [ConfigureEDRX] sends for a cycle length
/// read back as that cycle length.
pub proof fn law_edrx_value_round_trip(c: EdrxCycleLength)
    ensures
        spec_edrx_value(binary_padded(c.value() as nat, 4)) == Ok::<EdrxCycleLength, AtParseErr>(c),
{
    let s = binary_padded(c.value() as nat, 4);
    lemma_binary_reads_back(c.value() as nat, 4);
    assert(s[0] != '+');
}

/// A `+CEDRXS:` line that lists the three arguments of a configuration as
/// [ConfigureEDRX] sends them, the cycle length without its quotes.
pub open spec fn spec_edrx_report(c: ConfigureEDRX) -> Seq<char> {
    "+CEDRXS:"@ + decimal(c.n.value() as nat) + ","@ + decimal(c.act_type.value() as nat) + ","@
        + binary_padded(c.requested_edrx_value.value() as nat, 4)
}

/// A one-digit argument: no separator, no whitespace.
proof fn lemma_digit_piece(d: nat)
    requires
        d < 10,
    ensures
        decimal(d) == seq![digit_char(d)],
        trim(decimal(d)) == decimal(d),
        forall|i: int| 0 <= i < decimal(d).len() ==> decimal(d)[i] != ',',
{
    lemma_trim_plain(decimal(d));
}

/// Reading the arguments that a configuration is sent with gives the same
/// configuration.
pub proof fn law_configure_edrx_round_trip(c: ConfigureEDRX)
    ensures
        spec_configure_edrx(spec_edrx_report(c)) == Ok::<ConfigureEDRX, AtParseErr>(c),
{
    reveal_strlit("+CEDRXS:");
    reveal_strlit(",");
    reveal_strlit("0");
    reveal_strlit("1");
    reveal_strlit("2");
    reveal_strlit("4");
    reveal_strlit("5");
    let a = decimal(c.n.value() as nat);
    let b = decimal(c.act_type.value() as nat);
    let v = binary_padded(c.requested_edrx_value.value() as nat, 4);
    lemma_digit_piece(c.n.value() as nat);
    lemma_digit_piece(c.act_type.value() as nat);
    lemma_binary_reads_back(c.requested_edrx_value.value() as nat, 4);
    assert forall|i: int| 0 <= i < v.len() implies v[i] != ',' by {
        assert(is_ascii_digit(v[i]));
    }
    assert(is_ascii_digit(v[0]));
    assert(is_ascii_digit(v.last()));
    lemma_trim_plain(v);
    let line = spec_edrx_report(c);
    let rest = a + seq![','] + (b + seq![','] + v);
    assert(line =~= "+CEDRXS:"@ + rest);
    assert(strip_prefix(line, "+CEDRXS:"@) == Some(rest)) by {
        assert(line.subrange(0, 8) =~= "+CEDRXS:"@);
        assert(line.subrange(8, line.len() as int) =~= rest);
    }
    lemma_split_first_piece(a, b + seq![','] + v, ',');
    lemma_split_first_piece(b, v, ',');
    lemma_split_single_piece(v, ',');
    let q = split_terminator(rest, ',');
    assert(split(rest, ',') =~= seq![a, b, v]);
    assert(q =~= seq![a, b, v]);
    law_edrx_value_round_trip(c.requested_edrx_value);
    match c.n {
        EDRXSetting::Disable => assert(a =~= "0"@),
        EDRXSetting::Enable => assert(a =~= "1"@),
        EDRXSetting::EnableWithAutoReport => assert(a =~= "2"@),
    }
    match c.act_type {
        AcTType::CatM => assert(b =~= "4"@),
        AcTType::NbIot => assert(b =~= "5"@),
    }
    assert(spec_edrx_setting(trim(q[0])) == Some(c.n));
    assert(spec_act_type(trim(q[1])) == Some(c.act_type));
}

} // verus!

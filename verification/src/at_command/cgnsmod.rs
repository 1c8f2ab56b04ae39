//! GNSS constellation work modes.
use vstd::prelude::*;
use embassy_time::{Duration, Instant};
use super::{AtParseErr, AtParseLine, AtRequest, GenericOk, RequestType};
use crate::out::{decimal, digit_char, push_decimal};
use crate::text::{chars_of, eq_str, is_whitespace, lemma_splitn_first_piece, lemma_splitn_single_piece, splitn, splitn_exec, strip_prefix, strip_prefix_exec, trim_start, trim_start_exec, views};

verus! {

#[derive(Clone, Copy, Debug, PartialEq, Eq)]
pub enum WorkMode {
    Stop,
    Start,
    StartOutsideUs,
}

impl WorkMode {
    /// The number that stands for this value in commands.
    #[verifier::allow_in_spec]
    pub fn value(&self) -> u8
        returns
            (match self {
                WorkMode::Stop => 0u8,
                WorkMode::Start => 1u8,
                WorkMode::StartOutsideUs => 2u8,
            }),
    {
        match self {
            WorkMode::Stop => 0,
            WorkMode::Start => 1,
            WorkMode::StartOutsideUs => 2,
        }
    }
}

impl WorkMode {
    /// `0`, `1` or `2`.
    pub open spec fn spec_from_str(s: Seq<char>) -> Result<WorkMode, AtParseErr> {
        if s == "0"@ {
            Ok(WorkMode::Stop)
        } else if s == "1"@ {
            Ok(WorkMode::Start)
        } else if s == "2"@ {
            Ok(WorkMode::StartOutsideUs)
        } else {
            Err(AtParseErr::Parsing("Unknown value"))
        }
    }

    pub fn from_chars(s: &[char]) -> (r: Result<WorkMode, AtParseErr>)
        ensures
            r == Self::spec_from_str(s@),
    {
        if eq_str(s, "0") {
            Ok(WorkMode::Stop)
        } else if eq_str(s, "1") {
            Ok(WorkMode::Start)
        } else if eq_str(s, "2") {
            Ok(WorkMode::StartOutsideUs)
        } else {
            Err(AtParseErr::Parsing("Unknown value"))
        }
    }

    pub fn from_str(s: &str) -> (r: Result<WorkMode, AtParseErr>)
        ensures
            r == Self::spec_from_str(s@),
    {
        let v = chars_of(s);
        Self::from_chars(v.as_slice())
    }
}

/// AT+CGNSMOD=GLONASS, BEIDOU, GALILIEAN, [qzss] (if supported)
#[derive(Clone, Copy, Debug, PartialEq, Eq)]
pub struct GnssWorkModeSet {
    pub glonass: WorkMode,
    pub beidou: WorkMode,
    pub galilean: WorkMode,
    /// Only on supported devices
    pub qzss: Option<WorkMode>,
}

impl View for GnssWorkModeSet {
    type V = GnssWorkModeSet;

    open spec fn view(&self) -> GnssWorkModeSet {
        *self
    }
}

#[derive(Debug)]
pub struct SetGnssWorkModeSet(pub Option<GnssWorkModeSet>);

/// AT+CGNSMOD?
#[derive(Debug)]
pub struct GetGnssWorkModeSet;

impl AtRequest for SetGnssWorkModeSet {
    type Response = GenericOk;

    open spec fn spec_encode(&self) -> Seq<char> {
        match self.0 {
            Some(set) => "AT+CGNSMOD=1,"@ + decimal(set.glonass.value() as nat) + ","@ + decimal(
                set.beidou.value() as nat,
            ) + ","@ + decimal(set.galilean.value() as nat) + match set.qzss {
                Some(q) => ","@ + decimal(q.value() as nat),
                None => ""@,
            } + "\r"@,
            None => "AT+CGNSMOD=0,0,0,0,0\r"@,
        }
    }

    open spec fn spec_request_type() -> RequestType {
        RequestType::NonCommand
    }

    fn request_type() -> (t: RequestType) {
        RequestType::NonCommand
    }

    fn encode(&self) -> (s: String) {
        let mut s = String::new();
        match self.0 {
            Some(set) => {
                s.append("AT+CGNSMOD=1,");
                push_decimal(&mut s, set.glonass.value() as u64);
                s.append(",");
                push_decimal(&mut s, set.beidou.value() as u64);
                s.append(",");
                push_decimal(&mut s, set.galilean.value() as u64);
                match set.qzss {
                    Some(q) => {
                        s.append(",");
                        push_decimal(&mut s, q.value() as u64);
                    },
                    None => {
                        proof {
                            reveal_strlit("");
                            assert(s@ + ""@ =~= s@);
                        }
                    },
                }
                s.append("\r");
            },
            None => {
                s.append("AT+CGNSMOD=0,0,0,0,0\r");
            },
        }
        s
    }

    fn default_timeout() -> (t: Option<Duration>) {
        None
    }
}

impl AtRequest for GetGnssWorkModeSet {
    type Response = (GnssWorkModeSet, GenericOk);

    open spec fn spec_encode(&self) -> Seq<char> {
        "AT+CGNSMOD?\r"@
    }

    open spec fn spec_request_type() -> RequestType {
        RequestType::NonCommand
    }

    fn request_type() -> (t: RequestType) {
        RequestType::NonCommand
    }

    fn encode(&self) -> (s: String) {
        let mut s = String::new();
        s.append("AT+CGNSMOD?\r");
        s
    }

    fn default_timeout() -> (t: Option<Duration>) {
        None
    }
}

/// `+CGNSMOD: <gps>,<glonass>,<beidou>,<galilean>,<qzss>`: the work modes
/// where GPS is on (`1`), and nothing where it is off. A QZSS mode that
/// does not read is left out.
pub open spec fn spec_work_mode_set(line: Seq<char>) -> Result<Option<GnssWorkModeSet>, AtParseErr> {
    match strip_prefix(line, "+CGNSMOD:"@) {
        None => Err(AtParseErr::Mismatch),
        Some(rest) => {
            let p = splitn(trim_start(rest), 5, ',');
            if p.len() < 5 {
                Err(AtParseErr::Parsing("missing arguments"))
            } else {
                match WorkMode::spec_from_str(p[1]) {
                    Err(e) => Err(e),
                    Ok(glonass) => match WorkMode::spec_from_str(p[2]) {
                        Err(e) => Err(e),
                        Ok(beidou) => match WorkMode::spec_from_str(p[3]) {
                            Err(e) => Err(e),
                            Ok(galilean) => if p[0] == "1"@ {
                                Ok(
                                    Some(
                                        GnssWorkModeSet {
                                            glonass,
                                            beidou,
                                            galilean,
                                            qzss: match WorkMode::spec_from_str(p[4]) {
                                                Ok(q) => Some(q),
                                                Err(_) => None,
                                            },
                                        },
                                    ),
                                )
                            } else {
                                Ok(None)
                            },
                        },
                    },
                }
            }
        },
    }
}

/// The set itself; a line with GPS off is an error.
pub open spec fn spec_enabled_work_mode_set(line: Seq<char>) -> Result<GnssWorkModeSet, AtParseErr> {
    match spec_work_mode_set(line) {
        Err(e) => Err(e),
        Ok(Some(set)) => Ok(set),
        Ok(None) => Err(
            AtParseErr::Parsing(
                "GPS disabled: match against Option<GnssWorkModeSet> instead to collect this result",
            ),
        ),
    }
}

fn work_mode_set(line: &[char]) -> (r: Result<Option<GnssWorkModeSet>, AtParseErr>)
    ensures
        r == spec_work_mode_set(line@),
{
    let rest = match strip_prefix_exec(line, "+CGNSMOD:") {
        Some(r) => r,
        None => return Err(AtParseErr::Mismatch),
    };
    let p = splitn_exec(trim_start_exec(rest), 5, ',');
    let ghost v = views(p@);
    if p.len() < 5 {
        return Err(AtParseErr::Parsing("missing arguments"));
    }
    assert(forall|i: int| 0 <= i < p@.len() ==> v[i] == (#[trigger] p@[i])@);
    let glonass = WorkMode::from_chars(p[1])?;
    let beidou = WorkMode::from_chars(p[2])?;
    let galilean = WorkMode::from_chars(p[3])?;
    let qzss = match WorkMode::from_chars(p[4]) {
        Ok(q) => Some(q),
        Err(_) => None,
    };
    if eq_str(p[0], "1") {
        Ok(Some(GnssWorkModeSet { glonass, beidou, galilean, qzss }))
    } else {
        Ok(None)
    }
}

impl AtParseLine for Option<GnssWorkModeSet> {
    open spec fn spec_from_line(line: Seq<char>, instant: Instant) -> Result<Option<GnssWorkModeSet>, AtParseErr> {
        spec_work_mode_set(line)
    }

    fn from_line(line: &str, instant: &Instant) -> (r: Result<Self, AtParseErr>) {
        let v = chars_of(line);
        work_mode_set(v.as_slice())
    }
}

impl AtParseLine for GnssWorkModeSet {
    open spec fn spec_from_line(line: Seq<char>, instant: Instant) -> Result<GnssWorkModeSet, AtParseErr> {
        spec_enabled_work_mode_set(line)
    }

    fn from_line(line: &str, instant: &Instant) -> (r: Result<Self, AtParseErr>) {
        let v = chars_of(line);
        match work_mode_set(v.as_slice()) {
            Err(e) => Err(e),
            Ok(Some(set)) => Ok(set),
            Ok(None) => Err(
                AtParseErr::Parsing(
                    "GPS disabled: match against Option<GnssWorkModeSet> instead to collect this result",
                ),
            ),
        }
    }
}


/// The number that a request sends for a work mode reads back as that
/// mode.
pub proof fn law_work_mode_round_trip(m: WorkMode)
    ensures
        WorkMode::spec_from_str(decimal(m.value() as nat)) == Ok::<WorkMode, AtParseErr>(m),
{
    reveal_strlit("0");
    reveal_strlit("1");
    reveal_strlit("2");
    assert(decimal(0) =~= "0"@);
    assert(decimal(1) =~= "1"@);
    assert(decimal(2) =~= "2"@);
    assert("0"@[0] != "1"@[0] && "0"@[0] != "2"@[0] && "1"@[0] != "2"@[0]);
}

/// A `+CGNSMOD:` line with GPS on that lists the modes of a set in the
/// order that [SetGnssWorkModeSet] sends them.
pub open spec fn spec_work_mode_report(set: GnssWorkModeSet, qzss: WorkMode) -> Seq<char> {
    "+CGNSMOD:"@ + seq!['1', ','] + decimal(set.glonass.value() as nat) + seq![','] + decimal(
        set.beidou.value() as nat,
    ) + seq![','] + decimal(set.galilean.value() as nat) + seq![','] + decimal(qzss.value() as nat)
}

proof fn lemma_mode_piece(m: WorkMode)
    ensures
        decimal(m.value() as nat) == seq![digit_char(m.value() as nat)],
        forall|i: int|
            0 <= i < decimal(m.value() as nat).len() ==> decimal(m.value() as nat)[i] != ',',
        WorkMode::spec_from_str(decimal(m.value() as nat)) == Ok::<WorkMode, AtParseErr>(m),
{
    law_work_mode_round_trip(m);
}

/// Reading the modes of a set, reported with GPS on and with a QZSS mode,
/// gives the same set.
pub proof fn law_work_mode_set_round_trip(set: GnssWorkModeSet)
    requires
        set.qzss is Some,
    ensures
        spec_work_mode_set(spec_work_mode_report(set, set.qzss->0)) == Ok::<
            Option<GnssWorkModeSet>,
            AtParseErr,
        >(Some(set)),
{
    reveal_strlit("+CGNSMOD:");
    reveal_strlit("1");
    let q = set.qzss->0;
    let g = decimal(set.glonass.value() as nat);
    let b = decimal(set.beidou.value() as nat);
    let ga = decimal(set.galilean.value() as nat);
    let qz = decimal(q.value() as nat);
    lemma_mode_piece(set.glonass);
    lemma_mode_piece(set.beidou);
    lemma_mode_piece(set.galilean);
    lemma_mode_piece(q);
    let one = seq!['1'];
    let rest = one + seq![','] + (g + seq![','] + (b + seq![','] + (ga + seq![','] + qz)));
    let line = spec_work_mode_report(set, q);
    assert(line =~= "+CGNSMOD:"@ + rest);
    assert(strip_prefix(line, "+CGNSMOD:"@) == Some(rest)) by {
        assert(line.subrange(0, 9) =~= "+CGNSMOD:"@);
        assert(line.subrange(9, line.len() as int) =~= rest);
    }
    assert(!is_whitespace(rest[0]));
    assert(trim_start(rest) == rest);
    lemma_splitn_first_piece(one, g + seq![','] + (b + seq![','] + (ga + seq![','] + qz)), 5, ',');
    lemma_splitn_first_piece(g, b + seq![','] + (ga + seq![','] + qz), 4, ',');
    lemma_splitn_first_piece(b, ga + seq![','] + qz, 3, ',');
    lemma_splitn_first_piece(ga, qz, 2, ',');
    lemma_splitn_single_piece(qz, 1, ',');
    let p = splitn(rest, 5, ',');
    assert(p =~= seq![one, g, b, ga, qz]);
    assert(one =~= "1"@);
}

} // verus!

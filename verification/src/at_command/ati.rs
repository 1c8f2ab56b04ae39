//! Product information.
use vstd::prelude::*;
use embassy_time::{Duration, Instant};
use super::{stub_parser_prefix, spec_stub_parser_prefix, AtParseErr, AtParseLine, AtRequest, GenericOk, RequestType};
use super::gsn::{spec_imei, Imei};
use crate::text::{chars_of, fits_in_bytes, string_from_chars, strip_prefix, strip_prefix_exec, utf8_len};

verus! {

/// ATI
#[derive(Debug)]
pub struct GetProductInformation;

impl AtRequest for GetProductInformation {
    type Response = (Csub, ApRev, QualityControlNumber, ProductInfoImei, GenericOk);

    open spec fn spec_encode(&self) -> Seq<char> {
        "AT+SIMCOMATI\r"@
    }

    open spec fn spec_request_type() -> RequestType {
        RequestType::NonCommand
    }

    fn request_type() -> (t: RequestType) {
        RequestType::NonCommand
    }

    fn encode(&self) -> (s: String) {
        String::from_str("AT+SIMCOMATI\r")
    }

    fn default_timeout() -> (t: Option<Duration>) {
        None
    }
}

/// I'm not sure what csub is but it seems to be part of the revision
/// number. At most 7 bytes.
#[derive(Clone, Debug)]
pub struct Csub(pub String);

impl View for Csub {
    type V = Seq<char>;

    open spec fn view(&self) -> Seq<char> {
        self.0@
    }
}

/// Ignored response--the value is just 'FwVersion,Csub'
#[derive(Clone, Debug)]
pub struct ApRev;

impl View for ApRev {
    type V = ApRev;

    open spec fn view(&self) -> ApRev {
        ApRev
    }
}

/// At most 24 bytes.
#[derive(Clone, Debug)]
pub struct QualityControlNumber(pub String);

impl View for QualityControlNumber {
    type V = Seq<char>;

    open spec fn view(&self) -> Seq<char> {
        self.0@
    }
}

#[derive(Clone, Debug)]
pub struct ProductInfoImei(pub Imei);

impl View for ProductInfoImei {
    type V = Seq<char>;

    open spec fn view(&self) -> Seq<char> {
        self.0@
    }
}

/// The text after `prefix`, where it fits in `capacity` bytes; a line
/// without the prefix is of another type.
pub open spec fn spec_bounded_text(
    line: Seq<char>,
    prefix: Seq<char>,
    capacity: nat,
    too_long: &'static str,
) -> Result<Seq<char>, AtParseErr> {
    match strip_prefix(line, prefix) {
        None => Err(AtParseErr::Mismatch),
        Some(rest) => if utf8_len(rest) <= capacity {
            Ok(rest)
        } else {
            Err(AtParseErr::Parsing(too_long))
        },
    }
}

fn bounded_text(
    line: &str,
    prefix: &str,
    capacity: usize,
    too_long: &'static str,
) -> (r: Result<String, AtParseErr>)
    ensures
        match r {
            Ok(s) => spec_bounded_text(line@, prefix@, capacity as nat, too_long) == Ok::<
                Seq<char>,
                AtParseErr,
            >(s@),
            Err(e) => spec_bounded_text(line@, prefix@, capacity as nat, too_long) == Err::<
                Seq<char>,
                AtParseErr,
            >(e),
        },
{
    let v = chars_of(line);
    match strip_prefix_exec(v.as_slice(), prefix) {
        None => Err(AtParseErr::Mismatch),
        Some(rest) => if fits_in_bytes(rest, capacity) {
            Ok(string_from_chars(rest))
        } else {
            Err(AtParseErr::Parsing(too_long))
        },
    }
}

impl AtParseLine for Csub {
    open spec fn spec_from_line(line: Seq<char>, instant: Instant) -> Result<Seq<char>, AtParseErr> {
        spec_bounded_text(line, "CSUB:"@, 7, "Modem csub string is too long")
    }

    fn from_line(line: &str, instant: &Instant) -> (r: Result<Self, AtParseErr>) {
        match bounded_text(line, "CSUB:", 7, "Modem csub string is too long") {
            Ok(s) => Ok(Csub(s)),
            Err(e) => Err(e),
        }
    }
}

impl AtParseLine for ApRev {
    open spec fn spec_from_line(line: Seq<char>, instant: Instant) -> Result<ApRev, AtParseErr> {
        spec_stub_parser_prefix(line, "APRev:"@, ApRev)
    }

    fn from_line(line: &str, instant: &Instant) -> (r: Result<Self, AtParseErr>) {
        stub_parser_prefix(line, "APRev:", ApRev)
    }
}

impl AtParseLine for QualityControlNumber {
    open spec fn spec_from_line(line: Seq<char>, instant: Instant) -> Result<Seq<char>, AtParseErr> {
        spec_bounded_text(line, "QCN:"@, 24, "Modem qcn string is too long")
    }

    fn from_line(line: &str, instant: &Instant) -> (r: Result<Self, AtParseErr>) {
        match bounded_text(line, "QCN:", 24, "Modem qcn string is too long") {
            Ok(s) => Ok(QualityControlNumber(s)),
            Err(e) => Err(e),
        }
    }
}

/// `IMEI:<imei>`: after the prefix, text that is not a run of digits is an
/// error of this response.
pub open spec fn spec_product_info_imei(line: Seq<char>) -> Result<Seq<char>, AtParseErr> {
    match strip_prefix(line, "IMEI:"@) {
        None => Err(AtParseErr::Mismatch),
        Some(rest) => match spec_imei(rest) {
            Err(AtParseErr::Mismatch) => Err(AtParseErr::Parsing("Contains non-digit character")),
            r => r,
        },
    }
}

impl AtParseLine for ProductInfoImei {
    open spec fn spec_from_line(line: Seq<char>, instant: Instant) -> Result<Seq<char>, AtParseErr> {
        spec_product_info_imei(line)
    }

    fn from_line(line: &str, instant: &Instant) -> (r: Result<Self, AtParseErr>) {
        let v = chars_of(line);
        match strip_prefix_exec(v.as_slice(), "IMEI:") {
            None => Err(AtParseErr::Mismatch),
            Some(rest) => match Imei::from_chars(rest) {
                Ok(imei) => Ok(ProductInfoImei(imei)),
                Err(AtParseErr::Mismatch) => Err(
                    AtParseErr::Parsing("Contains non-digit character"),
                ),
                Err(e) => Err(e),
            },
        }
    }
}

/// A text response gives back exactly the text written after its prefix, where that
/// text fits in the capacity, and is refused otherwise.
pub proof fn law_bounded_text_read_back(
    prefix: Seq<char>,
    text: Seq<char>,
    capacity: nat,
    too_long: &'static str,
)
    ensures
        spec_bounded_text(prefix + text, prefix, capacity, too_long) == if utf8_len(text)
            <= capacity {
            Ok::<Seq<char>, AtParseErr>(text)
        } else {
            Err(AtParseErr::Parsing(too_long))
        },
{
    let line = prefix + text;
    assert(line.subrange(0, prefix.len() as int) =~= prefix);
    assert(line.subrange(prefix.len() as int, line.len() as int) =~= text);
}

} // verus!

//! Requests that can be sent to the modem and the response lines it sends back.
use vstd::prelude::*;
use core::marker::PhantomData;
use embassy_time::{Duration, Instant};
use crate::text::{chars_of, has_prefix, starts_with};

pub mod at;
pub mod ate;
pub mod atz;
pub mod cbatchk;
pub mod cfgri;
pub mod cfun;
pub mod cgnspwr;
pub mod cgnsurc;
pub mod cgreg;
pub mod ciicr;
pub mod cipclose;
pub mod cipmux;
pub mod cipsend;
pub mod cipshut;
pub mod cipstart;
pub mod cmnb;
pub mod cnmp;
pub mod cntpcid;
pub mod cpin;
pub mod cpowd;
pub mod creg;
pub mod csclk;
pub mod cscs;
pub mod csms;
pub mod ipr;
pub mod plmn;
pub mod cpsi;
pub mod cclk;
pub mod cgnsinf;
pub mod sgns;
pub mod clbs;
pub mod cedrxs;
pub mod gsn;
pub mod ati;
pub mod cnact;
pub mod cgact;
pub mod cncfg;
pub mod cnsmod;
pub mod cntp;
pub mod cops;
pub mod csq;
pub mod cmgf;
pub mod cmgr;
pub mod cmgs;
pub mod cgnsmod;
pub mod cgnsxtra;
pub mod cifsrex;
pub mod response;
pub mod generic_response;

pub use generic_response::{CloseOk, GenericOk, SimError, WritePrompt};
pub use response::{AtResponse, ResponseCode};

verus! {

/// Reported by the line parsers when no value is produced.
#[derive(Clone, Copy, Debug, PartialEq, Eq)]
pub enum AtParseErr {
    /// The line appears to be of another type than the parser's.
    Mismatch,
    /// The line matched the parser's type, but could not be read.
    Parsing(&'static str),
}

impl Default for AtParseErr {
    fn default() -> (e: Self)
        ensures
            e == AtParseErr::Parsing(""),
    {
        AtParseErr::Parsing("")
    }
}

impl From<&'static str> for AtParseErr {
    fn from(message: &'static str) -> (e: Self) {
        AtParseErr::Parsing(message)
    }
}

impl vstd::std_specs::convert::FromSpecImpl<&'static str> for AtParseErr {
    open spec fn obeys_from_spec() -> bool {
        true
    }

    open spec fn from_spec(message: &'static str) -> AtParseErr {
        AtParseErr::Parsing(message)
    }
}

#[verifier::external_type_specification]
#[verifier::external_body]
pub struct ExParseIntError(core::num::ParseIntError);

#[verifier::external_type_specification]
#[verifier::external_body]
pub struct ExParseFloatError(core::num::ParseFloatError);

impl From<core::num::ParseIntError> for AtParseErr {
    fn from(_e: core::num::ParseIntError) -> (e: Self) {
        AtParseErr::Parsing("Failed to parse integer")
    }
}

impl vstd::std_specs::convert::FromSpecImpl<core::num::ParseIntError> for AtParseErr {
    open spec fn obeys_from_spec() -> bool {
        true
    }

    open spec fn from_spec(_e: core::num::ParseIntError) -> AtParseErr {
        AtParseErr::Parsing("Failed to parse integer")
    }
}

impl From<core::num::ParseFloatError> for AtParseErr {
    fn from(_e: core::num::ParseFloatError) -> (e: Self) {
        AtParseErr::Parsing("Failed to parse float")
    }
}

impl vstd::std_specs::convert::FromSpecImpl<core::num::ParseFloatError> for AtParseErr {
    open spec fn obeys_from_spec() -> bool {
        true
    }

    open spec fn from_spec(_e: core::num::ParseFloatError) -> AtParseErr {
        AtParseErr::Parsing("Failed to parse float")
    }
}

/// The command group of a request: the prefix and end of line that the
/// command encoder surrounds the request with.
#[derive(Clone, Copy, Debug, PartialEq, Eq)]
pub enum CommandGroup {
    /// Prefixed with "AT", appended without separator on multi-command lines.
    Basic,
    /// Prefixed with "AT", `+`-named, delimited with ';' on multi-command lines.
    Extended,
    /// No prefix, but still ended with an end of line character.
    Context,
    /// No extra formatting, not even the end of line.
    NonCommand,
}

/// How a request is encoded.
#[derive(Clone, Copy, Debug, PartialEq, Eq)]
pub enum RequestType {
    Command(CommandGroup),
    /// No extra formatting.
    NonCommand,
    /// Several commands encoded to a single line.
    Combined { first: CommandGroup, last: CommandGroup },
}

pub open spec fn spec_first_command(t: RequestType) -> CommandGroup {
    match t {
        RequestType::Command(g) => g,
        RequestType::NonCommand => CommandGroup::NonCommand,
        RequestType::Combined { first, last: _ } => first,
    }
}

pub open spec fn spec_last_command(t: RequestType) -> CommandGroup {
    match t {
        RequestType::Command(g) => g,
        RequestType::NonCommand => CommandGroup::NonCommand,
        RequestType::Combined { first: _, last } => last,
    }
}

/// A combined request starts with the group of its first command and ends with that of
/// its last; a single command is both its own first and last; a non-command request
/// has neither prefix nor end of line.
pub proof fn law_request_type_ends(first: CommandGroup, last: CommandGroup, g: CommandGroup)
    ensures
        spec_first_command(RequestType::Combined { first, last }) == first,
        spec_last_command(RequestType::Combined { first, last }) == last,
        spec_first_command(RequestType::Command(g)) == g,
        spec_last_command(RequestType::Command(g)) == g,
        spec_first_command(RequestType::NonCommand) == CommandGroup::NonCommand,
        spec_last_command(RequestType::NonCommand) == CommandGroup::NonCommand,
{
}

impl RequestType {
    pub fn first_command(&self) -> (g: &CommandGroup)
        ensures
            *g == spec_first_command(*self),
    {
        match self {
            Self::Command(command_group) => command_group,
            Self::NonCommand => &CommandGroup::NonCommand,
            Self::Combined { first, last: _ } => first,
        }
    }

    pub fn last_command(&self) -> (g: &CommandGroup)
        ensures
            *g == spec_last_command(*self),
    {
        match self {
            Self::Command(command_group) => command_group,
            Self::NonCommand => &CommandGroup::NonCommand,
            Self::Combined { first: _, last } => last,
        }
    }
}

/// A request that can be encoded and sent to the modem, with the type of
/// the response it expects.
pub trait AtRequest {
    /// The expected response.
    type Response;

    /// The text of the request.
    spec fn spec_encode(&self) -> Seq<char>;

    /// How the encoder surrounds the text.
    spec fn spec_request_type() -> RequestType;

    /// The timeout for all requests of this type.
    open spec fn spec_default_timeout() -> Option<Duration> {
        None
    }

    /// The request type: the prefix and end of line that the command
    /// encoder surrounds the request with.
    fn request_type() -> (t: RequestType)
        ensures
            t == Self::spec_request_type(),
    ;

    /// Encodes the request as the modem expects it, without what the
    /// request type adds.
    fn encode(&self) -> (s: String)
        ensures
            s@ == self.spec_encode(),
    ;

    /// The timeout for all requests of this type.
    fn default_timeout() -> (t: Option<Duration>)
        ensures
            t == Self::spec_default_timeout(),
    ;

    /// The timeout for this request.
    fn timeout(&self) -> (t: Option<Duration>)
        ensures
            t == Self::spec_default_timeout(),
    {
        Self::default_timeout()
    }
}

/// The error for an integer field that does not parse.
pub open spec fn int_err() -> AtParseErr {
    AtParseErr::Parsing("Failed to parse integer")
}

/// The error for an integer field that does not parse.
pub fn int_err_exec() -> (e: AtParseErr)
    ensures
        e == int_err(),
{
    AtParseErr::Parsing("Failed to parse integer")
}

/// A result, read through the view of its value.
pub open spec fn view_result<T: View>(r: Result<T, AtParseErr>) -> Result<T::V, AtParseErr> {
    match r {
        Ok(v) => Ok(v@),
        Err(e) => Err(e),
    }
}

/// A response type that can be read from one line of modem output.
pub trait AtParseLine: Sized + View {
    /// What reading `line` gives, `instant` being when it was received.
    spec fn spec_from_line(line: Seq<char>, instant: Instant) -> Result<Self::V, AtParseErr>;

    /// Reads one line of modem output, received at `instant`.
    fn from_line(line: &str, instant: &Instant) -> (r: Result<Self, AtParseErr>)
        ensures
            view_result(r) == Self::spec_from_line(line@, *instant),
    ;
}

/// One of two responses.
#[derive(Clone, Copy, Debug)]
pub enum Either<T1, T2> {
    T1(T1),
    T2(T2),
}

impl<T1, T2> From<Result<T1, T2>> for Either<T1, T2> {
    fn from(value: Result<T1, T2>) -> (e: Self) {
        match value {
            Ok(val) => Either::T1(val),
            Err(err) => Either::T2(err),
        }
    }
}

impl<T1, T2> vstd::std_specs::convert::FromSpecImpl<Result<T1, T2>> for Either<T1, T2> {
    open spec fn obeys_from_spec() -> bool {
        true
    }

    open spec fn from_spec(value: Result<T1, T2>) -> Either<T1, T2> {
        match value {
            Ok(val) => Either::T1(val),
            Err(err) => Either::T2(err),
        }
    }
}

impl<T, E> From<Either<T, E>> for Result<T, E> {
    fn from(value: Either<T, E>) -> (r: Self) {
        match value {
            Either::T1(val) => Ok(val),
            Either::T2(err) => Err(err),
        }
    }
}

impl<T, E> vstd::std_specs::convert::FromSpecImpl<Either<T, E>> for Result<T, E> {
    open spec fn obeys_from_spec() -> bool {
        true
    }

    open spec fn from_spec(value: Either<T, E>) -> Result<T, E> {
        match value {
            Either::T1(val) => Ok(val),
            Either::T2(err) => Err(err),
        }
    }
}

/// Turning a result into an [Either] and back gives the result again, and
/// turning an [Either] into a result and back gives the [Either] again.
pub proof fn law_either_result_round_trip<T, E>(r: Result<T, E>, e: Either<T, E>)
    ensures
        <Result<T, E> as vstd::std_specs::convert::FromSpec<Either<T, E>>>::from_spec(
            <Either<T, E> as vstd::std_specs::convert::FromSpec<Result<T, E>>>::from_spec(r),
        ) == r,
        <Either<T, E> as vstd::std_specs::convert::FromSpec<Result<T, E>>>::from_spec(
            <Result<T, E> as vstd::std_specs::convert::FromSpec<Either<T, E>>>::from_spec(e),
        ) == e,
{
}

/// A sequence of up to `N` responses of one type, ended by a response of
/// another.
#[derive(Clone, Debug)]
pub struct ResponseSeq<T, const N: usize, DoneT>(pub Vec<T>, pub DoneT);

impl<T, const N: usize, DoneT> ResponseSeq<T, N, DoneT> {
    /// The sequence holds no more than its capacity.
    pub open spec fn well_formed(&self) -> bool {
        self.0.len() <= N
    }

    /// The responses of the sequence, in order.
    pub fn into_vec(self) -> (v: Vec<T>)
        ensures
            v@ == self.0@,
    {
        self.0
    }
}

/// A response with the time at which it was received.
#[derive(Clone, Copy, PartialEq, Debug)]
pub struct Timestamped<R> {
    pub response: R,
    pub instant: Instant,
}

impl<R> Timestamped<R> {
    /// The response, stamped with the time of the call.
    pub fn new_now(response: R) -> (t: Self)
        ensures
            t.response == response,
    {
        Self { response, instant: crate::time::now() }
    }

    pub fn new(response: R, instant: Instant) -> (t: Self)
        ensures
            t.response == response,
            t.instant == instant,
    {
        Self { response, instant }
    }

    pub fn into_response(self) -> (r: R)
        ensures
            r == self.response,
    {
        self.response
    }

    pub fn as_ref(&self) -> (r: &R)
        ensures
            *r == self.response,
    {
        &self.response
    }

    pub fn as_mut(&mut self) -> (r: &mut R)
        ensures
            *r == old(self).response,
            final(self).response == *final(r),
            final(self).instant == old(self).instant,
    {
        &mut self.response
    }
}

/// A response, borrowed for change, with the time at which it was received.
pub struct TimestampedRef<'r, R> {
    pub response: &'r mut R,
    pub instant: Instant,
}

impl<'r, R> TimestampedRef<'r, R> {
    /// The borrowed response, stamped with the time of the call.
    pub fn new_now(response: &'r mut R) -> (t: Self)
        ensures
            *t.response == *old(response),
            *final(response) == *final(t.response),
    {
        Self { response, instant: crate::time::now() }
    }

    pub fn new(response: &'r mut R, instant: Instant) -> (t: Self)
        ensures
            *t.response == *old(response),
            t.instant == instant,
            *final(response) == *final(t.response),
    {
        Self { response, instant }
    }

    pub fn as_response(&self) -> (r: &R)
        ensures
            *r == *old(self.response),
    {
        self.response
    }

    pub fn as_mut_response(&mut self) -> (r: &mut R)
        ensures
            *r == *old(self).response,
            *final(self).response == *final(r),
            final(self).instant == old(self).instant,
    {
        self.response
    }
}

impl<R: Clone> Timestamped<R> {
    /// A copy of a borrowed response, with its time.
    pub fn from(value: TimestampedRef<'_, R>) -> (t: Self)
        ensures
            cloned::<R>(*old(value.response), t.response),
            t.instant == value.instant,
    {
        Self { response: value.response.clone(), instant: value.instant }
    }
}

/// What [stub_parser_prefix] gives: `t` where the line starts with `prefix`.
pub open spec fn spec_stub_parser_prefix<T>(line: Seq<char>, prefix: Seq<char>, t: T) -> Result<
    T,
    AtParseErr,
> {
    if has_prefix(line, prefix) {
        Ok(t)
    } else {
        Err(AtParseErr::Mismatch)
    }
}

/// Stub response parser that only checks whether the line starts with
/// `prefix`.
pub fn stub_parser_prefix<T>(line: &str, prefix: &'static str, t: T) -> (r: Result<T, AtParseErr>)
    ensures
        r == spec_stub_parser_prefix(line@, prefix@, t),
{
    let v = chars_of(line);
    if starts_with(v.as_slice(), prefix) {
        Ok(t)
    } else {
        Err(AtParseErr::Mismatch)
    }
}

/// A response marked with the type `T` it is meant for.
pub struct MetaResponse<T, U>(U, PhantomData<T>);

impl<T, U> MetaResponse<T, U> {
    pub closed spec fn value(&self) -> U {
        self.0
    }

    pub fn new(u: U) -> (r: Self)
        ensures
            r.value() == u,
    {
        Self(u, PhantomData)
    }

    pub fn inner(self) -> (u: U)
        ensures
            u == self.value(),
    {
        self.0
    }

    pub fn as_ref(&self) -> (u: &U)
        ensures
            *u == self.value(),
    {
        &self.0
    }
}

} // verus!

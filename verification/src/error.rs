//! The result codec: the plugin's typed outcomes and the broker's integer status codes.
//!
//! The broker speaks in signed 32-bit status codes. Hooks speak in `Result<Success, Error>`.
//! This module holds the table between the two, in both directions, and the laws that
//! tie the directions together.

use vstd::prelude::*;

verus! {

/// The outcome of a hook that went well. The broker sees it as status `0`.
#[derive(Debug, Copy, Clone, PartialEq, Eq, Structural)]
pub struct Success;

/// The ways in which a hook, or a call into the broker, can fail.
///
/// `AuthContinue` is the one kind that carries data: the bytes that the broker is to send
/// to the client in the next round of an extended authentication.
#[derive(Debug, Clone, PartialEq, Eq)]
pub enum Error {
    AuthContinue(Vec<u8>),
    NoSubscriber,
    SubExists,
    ConnPending,
    NoMem,
    Protocol,
    Inval,
    NoConn,
    ConnRefused,
    NotFound,
    ConnLost,
    Tls,
    PayloadSize,
    NotSupported,
    Auth,
    AclDenied,
    Unknown,
    Errno,
    Eai,
    Proxy,
    PluginDefer,
    MalformedUtf8,
    Keepalive,
    Lookup,
    MalformedPacket,
    DuplicateProperty,
    TlsHandshake,
    QosNotSupported,
    OversizePacket,
    OCSP,
    Timeout,
    RetainNotSupported,
    TopicAliasInvalid,
    AdministrativeAction,
    AlreadyExists,
}

/// What an error is to the broker: a status code, and the bytes that travel beside it.
pub struct ErrorView {
    pub code: int,
    pub payload: Seq<u8>,
}

impl Error {
    /// The broker's status code for this kind of error.
    pub open spec fn code(&self) -> int {
        match self {
            Error::AuthContinue(_) => -4,
            Error::NoSubscriber => -3,
            Error::SubExists => -2,
            Error::ConnPending => -1,
            Error::NoMem => 1,
            Error::Protocol => 2,
            Error::Inval => 3,
            Error::NoConn => 4,
            Error::ConnRefused => 5,
            Error::NotFound => 6,
            Error::ConnLost => 7,
            Error::Tls => 8,
            Error::PayloadSize => 9,
            Error::NotSupported => 10,
            Error::Auth => 11,
            Error::AclDenied => 12,
            Error::Unknown => 13,
            Error::Errno => 14,
            Error::Eai => 15,
            Error::Proxy => 16,
            Error::PluginDefer => 17,
            Error::MalformedUtf8 => 18,
            Error::Keepalive => 19,
            Error::Lookup => 20,
            Error::MalformedPacket => 21,
            Error::DuplicateProperty => 22,
            Error::TlsHandshake => 23,
            Error::QosNotSupported => 24,
            Error::OversizePacket => 25,
            Error::OCSP => 26,
            Error::Timeout => 27,
            Error::RetainNotSupported => 28,
            Error::TopicAliasInvalid => 29,
            Error::AdministrativeAction => 30,
            Error::AlreadyExists => 31,
        }
    }

    /// The bytes that the error carries: those of `AuthContinue`, and none for every other kind.
    pub open spec fn payload(&self) -> Seq<u8> {
        match self {
            Error::AuthContinue(data) => data@,
            _ => Seq::empty(),
        }
    }
}

impl View for Error {
    type V = ErrorView;

    open spec fn view(&self) -> ErrorView {
        ErrorView { code: self.code(), payload: self.payload() }
    }
}

/// The status code of success.
pub open spec fn success_code() -> int {
    0
}

/// The status code of `AuthContinue`, whatever bytes it carries.
pub open spec fn auth_continue_code() -> int {
    -4
}

/// Whether `code` is the status code of some kind of error.
pub open spec fn is_error_code(code: int) -> bool {
    -4 <= code <= -1 || 1 <= code <= 31
}

/// The error that a status code stands for. A code that names no kind of error, `0`
/// among them, stands for `Unknown`. No code brings a payload with it.
pub open spec fn decoded(code: int) -> ErrorView {
    ErrorView {
        code: if is_error_code(code) {
            code
        } else {
            Error::Unknown.code()
        },
        payload: Seq::empty(),
    }
}

/// The status code that the broker gets for the outcome of a hook.
pub open spec fn status_of(outcome: Result<Success, Error>) -> int {
    match outcome {
        Ok(_) => success_code(),
        Err(e) => e.code(),
    }
}

impl vstd::std_specs::convert::FromSpecImpl<Success> for i32 {
    open spec fn obeys_from_spec() -> bool {
        true
    }

    open spec fn from_spec(s: Success) -> i32 {
        0
    }
}

impl From<Success> for i32 {
    fn from(s: Success) -> (code: i32)
        ensures
            code == success_code(),
    {
        0
    }
}

impl vstd::std_specs::convert::FromSpecImpl<Error> for i32 {
    open spec fn obeys_from_spec() -> bool {
        true
    }

    open spec fn from_spec(e: Error) -> i32 {
        e.code() as i32
    }
}

impl From<Error> for i32 {
    /// Encodes an error as the broker's status code. The payload of `AuthContinue` does
    /// not fit into the code: see `encode_auth_outcome` for the way it takes.
    fn from(e: Error) -> (code: i32)
        ensures
            code == e.code(),
    {
        match e {
            Error::AuthContinue(_) => -4,
            Error::NoSubscriber => -3,
            Error::SubExists => -2,
            Error::ConnPending => -1,
            Error::NoMem => 1,
            Error::Protocol => 2,
            Error::Inval => 3,
            Error::NoConn => 4,
            Error::ConnRefused => 5,
            Error::NotFound => 6,
            Error::ConnLost => 7,
            Error::Tls => 8,
            Error::PayloadSize => 9,
            Error::NotSupported => 10,
            Error::Auth => 11,
            Error::AclDenied => 12,
            Error::Unknown => 13,
            Error::Errno => 14,
            Error::Eai => 15,
            Error::Proxy => 16,
            Error::PluginDefer => 17,
            Error::MalformedUtf8 => 18,
            Error::Keepalive => 19,
            Error::Lookup => 20,
            Error::MalformedPacket => 21,
            Error::DuplicateProperty => 22,
            Error::TlsHandshake => 23,
            Error::QosNotSupported => 24,
            Error::OversizePacket => 25,
            Error::OCSP => 26,
            Error::Timeout => 27,
            Error::RetainNotSupported => 28,
            Error::TopicAliasInvalid => 29,
            Error::AdministrativeAction => 30,
            Error::AlreadyExists => 31,
        }
    }
}

impl vstd::std_specs::convert::FromSpecImpl<i32> for Error {
    /// Two vectors that hold the same bytes are not thereby one value, so `from` is
    /// described through the view of what it returns, not through `from_spec`.
    open spec fn obeys_from_spec() -> bool {
        false
    }

    open spec fn from_spec(code: i32) -> Error {
        arbitrary()
    }
}

impl From<i32> for Error {
    /// Decodes a status code. Every code decodes: one that names no kind of error gives
    /// `Unknown`, and the code of `AuthContinue` gives an `AuthContinue` without bytes.
    fn from(code: i32) -> (e: Error)
        ensures
            e@ == decoded(code as int),
    {
        match code {
            -4 => Error::AuthContinue(Vec::with_capacity(0)),
            -3 => Error::NoSubscriber,
            -2 => Error::SubExists,
            -1 => Error::ConnPending,
            1 => Error::NoMem,
            2 => Error::Protocol,
            3 => Error::Inval,
            4 => Error::NoConn,
            5 => Error::ConnRefused,
            6 => Error::NotFound,
            7 => Error::ConnLost,
            8 => Error::Tls,
            9 => Error::PayloadSize,
            10 => Error::NotSupported,
            11 => Error::Auth,
            12 => Error::AclDenied,
            13 => Error::Unknown,
            14 => Error::Errno,
            15 => Error::Eai,
            16 => Error::Proxy,
            17 => Error::PluginDefer,
            18 => Error::MalformedUtf8,
            19 => Error::Keepalive,
            20 => Error::Lookup,
            21 => Error::MalformedPacket,
            22 => Error::DuplicateProperty,
            23 => Error::TlsHandshake,
            24 => Error::QosNotSupported,
            25 => Error::OversizePacket,
            26 => Error::OCSP,
            27 => Error::Timeout,
            28 => Error::RetainNotSupported,
            29 => Error::TopicAliasInvalid,
            30 => Error::AdministrativeAction,
            31 => Error::AlreadyExists,
            _ => Error::Unknown,
        }
    }
}

/// The status that a call into the broker comes down to where the broker answers it
/// with success, `NoMem` or `Inval` and nothing else: any other status counts as `Unknown`.
pub open spec fn narrow_status(status: int) -> int {
    if status == success_code() || status == Error::NoMem.code() || status == Error::Inval.code() {
        status
    } else {
        Error::Unknown.code()
    }
}

/// Reads the status with which the broker answered a call: `0` is success, and every
/// other status is the error that it decodes to.
pub fn decode_outcome(status: i32) -> (outcome: Result<Success, Error>)
    ensures
        outcome is Ok <==> status == 0,
        outcome matches Err(e) ==> e@ == decoded(status as int),
{
    match status {
        0 => Ok(Success),
        error => Err(Error::from(error)),
    }
}

/// Reads the status with which the broker answered a call that it answers with
/// success, `NoMem` or `Inval` and nothing else. Any other status is read as `Unknown`.
pub fn decode_narrow_outcome(status: i32) -> (outcome: Result<Success, Error>)
    ensures
        status_of(outcome) == narrow_status(status as int),
{
    match status {
        0 => Ok(Success),
        1 => Err(Error::NoMem),
        3 => Err(Error::Inval),
        _ => Err(Error::Unknown),
    }
}

/// Encodes the outcome of a hook as the status code that the broker gets.
///
/// An error reaches the broker as the code of its own kind, never as another.
pub fn encode_outcome(outcome: Result<Success, Error>) -> (code: i32)
    ensures
        code == status_of(outcome),
{
    match outcome {
        Ok(s) => i32::from(s),
        Err(e) => i32::from(e),
    }
}

/// Encodes the outcome of an authentication hook, and hands the payload of an
/// `AuthContinue` to the broker through `slot`.
///
/// The status code has no room for the payload: it leaves through the slot, and the
/// slot is written in that one case only.
pub fn encode_auth_outcome(outcome: Result<Success, Error>, slot: &mut Option<Vec<u8>>) -> (code:
    i32)
    ensures
        code == status_of(outcome),
        match outcome {
            Err(Error::AuthContinue(data)) => *final(slot) == Some(data),
            _ => *final(slot) == *old(slot),
        },
{
    match outcome {
        Ok(s) => i32::from(s),
        Err(Error::AuthContinue(data)) => {
            *slot = Some(data);
            i32::from(Error::AuthContinue(Vec::with_capacity(0)))
        },
        Err(e) => i32::from(e),
    }
}

/// Every error has the status code of an error, and only `AuthContinue` has a payload.
pub proof fn lemma_error_view(e: Error)
    ensures
        is_error_code(e.code()),
        e.code() != success_code(),
        !(e is AuthContinue) ==> e.payload() == Seq::<u8>::empty(),
        (e is AuthContinue) <==> e.code() == auth_continue_code(),
{
}

/// Two errors with the same status code are of the same kind; with the same payload
/// besides, they have the same view.
pub proof fn lemma_code_names_kind(a: Error, b: Error)
    requires
        a.code() == b.code(),
    ensures
        (a is AuthContinue) == (b is AuthContinue),
        !(a is AuthContinue) ==> a == b,
        a.payload() == b.payload() ==> a@ == b@,
{
}

/// Decoding what was encoded gives the error back. The one exception is the payload of
/// `AuthContinue`, which the code does not carry: that kind comes back without bytes.
pub proof fn lemma_decode_encode(e: Error)
    ensures
        decoded(e.code()).code == e.code(),
        decoded(e.code()).payload == Seq::<u8>::empty(),
        !(e is AuthContinue) ==> decoded(e.code()) == e@,
{
}

/// Encoding what was decoded gives the code back, for every code of an error.
pub proof fn lemma_encode_decode(code: int)
    requires
        is_error_code(code),
    ensures
        decoded(code).code == code,
{
}

/// A code that names no kind of error decodes to `Unknown`.
pub proof fn lemma_unrecognized_is_unknown(code: int)
    requires
        !is_error_code(code),
    ensures
        decoded(code) == Error::Unknown@,
{
}

/// The status code of an outcome is `0` exactly for success, and lies in the range of
/// the table in every case.
pub proof fn lemma_status_range(outcome: Result<Success, Error>)
    ensures
        -4 <= status_of(outcome) <= 31,
        status_of(outcome) == success_code() <==> outcome is Ok,
{
}

} // verus!

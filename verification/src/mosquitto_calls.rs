//! The calls that a plugin can make into the broker: publishing, disconnecting
//! clients, and logging.
//!
//! A function here does not reach the broker itself. It checks what is to be sent and
//! describes the call; whoever holds the broker's entry points makes the call and
//! brings the status back, which `BrokerCall::outcome` then reads.

use crate::error::{decode_narrow_outcome, decode_outcome, decoded, narrow_status, status_of, Error, Success};
use crate::message::QOS;
use crate::text::{contains_nul, has_nul};
use vstd::prelude::*;
use vstd::string::StringSliceAdditionalSpecFns;

verus! {

/// The levels of the broker's log.
#[derive(Debug, Copy, Clone, PartialEq, Eq, Structural)]
pub enum LogLevel {
    /// Useful information.
    Info,
    /// Information of medium priority.
    Notice,
    /// A hazardous situation.
    Warning,
    /// A very serious error.
    Error,
    /// Information of lower priority.
    Debug,
}

impl LogLevel {
    /// The bit by which the broker knows this level.
    pub open spec fn mask(self) -> int {
        match self {
            LogLevel::Info => 1,
            LogLevel::Notice => 2,
            LogLevel::Warning => 4,
            LogLevel::Error => 8,
            LogLevel::Debug => 16,
        }
    }
}

impl vstd::std_specs::convert::FromSpecImpl<LogLevel> for i32 {
    open spec fn obeys_from_spec() -> bool {
        true
    }

    open spec fn from_spec(level: LogLevel) -> i32 {
        level.mask() as i32
    }
}

impl From<LogLevel> for i32 {
    fn from(level: LogLevel) -> (mask: i32)
        ensures
            mask == level.mask(),
    {
        match level {
            LogLevel::Info => 1,
            LogLevel::Notice => 2,
            LogLevel::Warning => 4,
            LogLevel::Error => 8,
            LogLevel::Debug => 16,
        }
    }
}

/// A call into the broker, with all that the broker needs to know for it.
#[derive(Debug, Copy, Clone)]
pub enum BrokerCall<'a> {
    /// Publish a message: to the client named, or to every client where none is named.
    /// On success the broker takes over a copy of the payload.
    Publish { client_id: Option<&'a str>, topic: &'a str, payload: &'a [u8], qos: i32, retain: bool },
    /// Disconnect the client with this identifier, or every client where none is named.
    KickByClientId { client_id: Option<&'a str>, with_will: bool },
    /// Disconnect the clients that are logged in under this name.
    KickByUsername { username: &'a str, with_will: bool },
    /// Write a line to the broker's log.
    Log { level: i32, message: &'a str },
}

impl<'a> BrokerCall<'a> {
    /// Whether every text of the call can cross to the broker: none holds a NUL byte.
    pub open spec fn can_cross(self) -> bool {
        match self {
            BrokerCall::Publish { client_id, topic, .. } => !has_nul(topic.spec_bytes()) && (
            client_id matches Some(id) ==> !has_nul(id.spec_bytes())),
            BrokerCall::KickByClientId { client_id, .. } => client_id matches Some(id) ==> !has_nul(
                id.spec_bytes(),
            ),
            BrokerCall::KickByUsername { username, .. } => !has_nul(username.spec_bytes()),
            BrokerCall::Log { message, .. } => !has_nul(message.spec_bytes()),
        }
    }

    /// Reads the status with which the broker answered the call.
    ///
    /// To publishing the broker answers with success, `NoMem` or `Inval`, and any
    /// other status is read as `Unknown`. To disconnecting it answers with any status
    /// of the table. Logging has no answer, and counts as done.
    pub fn outcome(&self, status: i32) -> (outcome: Result<Success, Error>)
        ensures
            match *self {
                BrokerCall::Publish { .. } => status_of(outcome) == narrow_status(status as int),
                BrokerCall::KickByClientId { .. } | BrokerCall::KickByUsername { .. } => {
                    &&& outcome is Ok <==> status == 0
                    &&& outcome matches Err(e) ==> e@ == decoded(status as int)
                },
                BrokerCall::Log { .. } => outcome is Ok,
            },
    {
        match self {
            BrokerCall::Publish { .. } => decode_narrow_outcome(status),
            BrokerCall::KickByClientId { .. } => decode_outcome(status),
            BrokerCall::KickByUsername { .. } => decode_outcome(status),
            BrokerCall::Log { .. } => Ok(Success),
        }
    }
}

/// Publishes a message to every client.
///
/// A client that is in the middle of logging in does not get the message: pair this
/// with `publish_to_client` to reach it too.
pub fn publish_broadcast<'a>(topic: &'a str, payload: &'a [u8], qos: QOS, retain: bool) -> (call:
    BrokerCall<'a>)
    requires
        !has_nul(topic.spec_bytes()),
    ensures
        call == (BrokerCall::Publish {
            client_id: None,
            topic,
            payload,
            qos: qos.level() as i32,
            retain,
        }),
        call.can_cross(),
{
    BrokerCall::Publish { client_id: None, topic, payload, qos: qos.to_i32(), retain }
}

/// Publishes a message to one client.
pub fn publish_to_client<'a>(
    client_id: &'a str,
    topic: &'a str,
    payload: &'a [u8],
    qos: QOS,
    retain: bool,
) -> (call: BrokerCall<'a>)
    requires
        !has_nul(client_id.spec_bytes()),
        !has_nul(topic.spec_bytes()),
    ensures
        call == (BrokerCall::Publish {
            client_id: Some(client_id),
            topic,
            payload,
            qos: qos.level() as i32,
            retain,
        }),
        call.can_cross(),
{
    BrokerCall::Publish { client_id: Some(client_id), topic, payload, qos: qos.to_i32(), retain }
}

/// Disconnects every client from the broker.
///
/// With `with_will`, a client's last will is sent if it has one.
pub fn kick_all_clients<'a>(with_will: bool) -> (call: BrokerCall<'a>)
    ensures
        call == (BrokerCall::KickByClientId { client_id: None, with_will }),
        call.can_cross(),
{
    BrokerCall::KickByClientId { client_id: None, with_will }
}

/// Disconnects the client with the identifier `client_id` from the broker.
///
/// With `with_will`, the client's last will is sent if it has one. An identifier with
/// a NUL byte in it names no client: the error is `Inval`, and there is no call to make.
pub fn kick_client_by_clientid<'a>(client_id: &'a str, with_will: bool) -> (call: Result<
    BrokerCall<'a>,
    Error,
>)
    ensures
        call is Err <==> has_nul(client_id.spec_bytes()),
        match call {
            Ok(call) => call == (BrokerCall::KickByClientId {
                client_id: Some(client_id),
                with_will,
            }) && call.can_cross(),
            Err(e) => e == Error::Inval,
        },
{
    if contains_nul(client_id) {
        return Err(Error::Inval);
    }
    Ok(BrokerCall::KickByClientId { client_id: Some(client_id), with_will })
}

/// Disconnects the clients that are logged in under the name `username`.
///
/// With `with_will`, a client's last will is sent if it has one. A name with a NUL
/// byte in it names no client: the error is `Inval`, and there is no call to make.
pub fn kick_client_by_username<'a>(username: &'a str, with_will: bool) -> (call: Result<
    BrokerCall<'a>,
    Error,
>)
    ensures
        call is Err <==> has_nul(username.spec_bytes()),
        match call {
            Ok(call) => call == (BrokerCall::KickByUsername { username, with_will })
                && call.can_cross(),
            Err(e) => e == Error::Inval,
        },
{
    if contains_nul(username) {
        return Err(Error::Inval);
    }
    Ok(BrokerCall::KickByUsername { username, with_will })
}

/// Writes `message` to the broker's log, at `level`.
pub fn mosquitto_log<'a>(level: LogLevel, message: &'a str) -> (call: BrokerCall<'a>)
    requires
        !has_nul(message.spec_bytes()),
    ensures
        call == (BrokerCall::Log { level: level.mask() as i32, message }),
        call.can_cross(),
{
    BrokerCall::Log { level: i32::from(level), message }
}

} // verus!

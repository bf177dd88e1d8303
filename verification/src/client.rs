//! What a plugin can ask about the client that an event concerns.
//!
//! The broker answers each question on demand, with numbers and strings of its own.
//! This module holds the questions, and the reading of the broker's numbers.

use crate::error::{Error, Success};
use vstd::prelude::*;

verus! {

/// The protocol that a client speaks to the broker.
#[derive(Debug, Copy, Clone, PartialEq, Eq, Structural)]
pub enum MosquittoClientProtocol {
    Mqtt,
    MqttSn,
    Websockets,
}

/// The version of MQTT that a client speaks.
#[derive(Debug, Copy, Clone, PartialEq, Eq, Structural)]
pub enum MosquittoClientProtocolVersion {
    V3,
    V4,
    V5,
}

/// The network address of a client, as its bytes in network order.
#[derive(Debug, Copy, Clone, PartialEq, Eq)]
pub enum ClientAddress {
    V4([u8; 4]),
    V6([u8; 16]),
}

/// The questions that a hook can ask about a client.
///
/// An answer that the broker may lack is an `Option`: a session that the broker
/// restored from disk has no address, and a client need not have a name.
pub trait MosquittoClientContext {
    /// The address that the client connected from.
    fn get_address(&self) -> Option<ClientAddress>;

    /// Whether the client asked for a clean session.
    fn is_clean_session(&self) -> bool;

    /// The client's identifier.
    fn get_id(&self) -> Option<String>;

    /// The keepalive interval that the client asked for, in seconds.
    fn get_keepalive(&self) -> i32;

    /// The certificate that the client presented.
    fn get_certificate(&self) -> Option<&[u8]>;

    /// The protocol that the client speaks.
    fn get_protocol(&self) -> MosquittoClientProtocol;

    /// The version of MQTT that the client speaks.
    fn get_protocol_version(&self) -> MosquittoClientProtocolVersion;

    /// The number of subscriptions that the client holds.
    fn get_sub_count(&self) -> i32;

    /// The name that the client logged in with.
    fn get_username(&self) -> Option<String>;

    /// Gives the client another name. The broker may refuse with `NoMem` or `Inval`;
    /// `decode_narrow_outcome` reads its answer.
    fn set_username(&self, username: String) -> Result<Success, Error>;
}

impl MosquittoClientProtocol {
    /// The protocol that the broker's number `code` names, if it names one.
    pub open spec fn of_code(code: int) -> Option<MosquittoClientProtocol> {
        if code == 0 {
            Some(MosquittoClientProtocol::Mqtt)
        } else if code == 1 {
            Some(MosquittoClientProtocol::MqttSn)
        } else if code == 2 {
            Some(MosquittoClientProtocol::Websockets)
        } else {
            None
        }
    }

    /// Reads the broker's number for a protocol. A number that names none has no
    /// reading: the broker broke its word, and nothing can stand in for the answer.
    pub fn from_code(code: u32) -> (protocol: Option<MosquittoClientProtocol>)
        ensures
            protocol == MosquittoClientProtocol::of_code(code as int),
    {
        if code == 0 {
            Some(MosquittoClientProtocol::Mqtt)
        } else if code == 1 {
            Some(MosquittoClientProtocol::MqttSn)
        } else if code == 2 {
            Some(MosquittoClientProtocol::Websockets)
        } else {
            None
        }
    }
}

impl MosquittoClientProtocolVersion {
    /// The version that the broker's number `code` names, if it names one.
    pub open spec fn of_code(code: int) -> Option<MosquittoClientProtocolVersion> {
        if code == 3 {
            Some(MosquittoClientProtocolVersion::V3)
        } else if code == 4 {
            Some(MosquittoClientProtocolVersion::V4)
        } else if code == 5 {
            Some(MosquittoClientProtocolVersion::V5)
        } else {
            None
        }
    }

    /// Reads the broker's number for a version of MQTT. A number that names none has
    /// no reading.
    pub fn from_code(code: i32) -> (version: Option<MosquittoClientProtocolVersion>)
        ensures
            version == MosquittoClientProtocolVersion::of_code(code as int),
    {
        match code {
            3 => Some(MosquittoClientProtocolVersion::V3),
            4 => Some(MosquittoClientProtocolVersion::V4),
            5 => Some(MosquittoClientProtocolVersion::V5),
            _ => None,
        }
    }
}

} // verus!

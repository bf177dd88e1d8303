//! The events that the broker reports to a plugin, and what comes with each.
//!
//! Each event type here holds what the broker's record for that event holds, read out
//! into borrowed values. A field that the broker may leave out is an `Option`.

use vstd::prelude::*;

verus! {

/// The kinds of event, as the broker numbers them.
#[derive(Debug, Copy, Clone, PartialEq, Eq, Structural)]
pub enum MosquittoPluginEvent {
    MosqEvtReload,
    MosqEvtAclCheck,
    MosqEvtBasicAuth,
    MosqEvtExtAuthStart,
    MosqEvtExtAuthContinue,
    MosqEvtControl,
    MosqEvtMessage,
    MosqEvtPskKey,
    MosqEvtTick,
    MosqEvtDisconnect,
    Unknown,
}

impl MosquittoPluginEvent {
    /// The broker's number for this kind of event.
    pub open spec fn code(self) -> int {
        match self {
            MosquittoPluginEvent::MosqEvtReload => 1,
            MosquittoPluginEvent::MosqEvtAclCheck => 2,
            MosquittoPluginEvent::MosqEvtBasicAuth => 3,
            MosquittoPluginEvent::MosqEvtExtAuthStart => 4,
            MosquittoPluginEvent::MosqEvtExtAuthContinue => 5,
            MosquittoPluginEvent::MosqEvtControl => 6,
            MosquittoPluginEvent::MosqEvtMessage => 7,
            MosquittoPluginEvent::MosqEvtPskKey => 8,
            MosquittoPluginEvent::MosqEvtTick => 9,
            MosquittoPluginEvent::MosqEvtDisconnect => 10,
            MosquittoPluginEvent::Unknown => -1,
        }
    }
}

impl vstd::std_specs::convert::FromSpecImpl<MosquittoPluginEvent> for i32 {
    open spec fn obeys_from_spec() -> bool {
        true
    }

    open spec fn from_spec(it: MosquittoPluginEvent) -> i32 {
        it.code() as i32
    }
}

impl From<MosquittoPluginEvent> for i32 {
    fn from(it: MosquittoPluginEvent) -> (code: i32)
        ensures
            code == it.code(),
    {
        match it {
            MosquittoPluginEvent::MosqEvtReload => 1,
            MosquittoPluginEvent::MosqEvtAclCheck => 2,
            MosquittoPluginEvent::MosqEvtBasicAuth => 3,
            MosquittoPluginEvent::MosqEvtExtAuthStart => 4,
            MosquittoPluginEvent::MosqEvtExtAuthContinue => 5,
            MosquittoPluginEvent::MosqEvtControl => 6,
            MosquittoPluginEvent::MosqEvtMessage => 7,
            MosquittoPluginEvent::MosqEvtPskKey => 8,
            MosquittoPluginEvent::MosqEvtTick => 9,
            MosquittoPluginEvent::MosqEvtDisconnect => 10,
            MosquittoPluginEvent::Unknown => -1,
        }
    }
}

/// No two kinds of event share a number.
pub proof fn lemma_event_codes_differ(a: MosquittoPluginEvent, b: MosquittoPluginEvent)
    ensures
        a.code() == b.code() <==> a == b,
{
}

/// What comes with a reload: the options as the broker now has them.
#[derive(Debug, Clone, Copy)]
pub struct ReloadEvent<'a> {
    /// The broker's array of key/value pairs, `None` where it gave none.
    pub options: Option<&'a [(&'a str, &'a str)]>,
    /// The number of pairs that the broker announced.
    pub option_count: usize,
}

/// What comes with a message: on an access check, on the control channel, and on
/// delivery.
#[derive(Debug, Clone, Copy)]
pub struct MessageEvent<'a> {
    pub topic: &'a str,
    /// The bytes of the message, `None` where the broker gave no buffer.
    pub payload: Option<&'a [u8]>,
    pub qos: u8,
    pub retain: bool,
}

/// What comes with an access check: the access asked for, as the broker's number, and
/// the message that it is asked for.
#[derive(Debug, Clone, Copy)]
pub struct AclCheckEvent<'a> {
    pub access: i32,
    pub message: MessageEvent<'a>,
}

/// What comes with a login by name and password. Either may be missing.
#[derive(Debug, Clone, Copy)]
pub struct BasicAuthEvent<'a> {
    pub username: Option<&'a str>,
    pub password: Option<&'a str>,
}

/// What comes with a round of extended authentication, and the slot for what goes
/// back to the client.
#[derive(Debug)]
pub struct ExtendedAuthEvent<'a> {
    pub auth_method: Option<&'a str>,
    /// The bytes that the client sent, `None` where the broker gave no buffer.
    pub data_in: Option<&'a [u8]>,
    /// The bytes for the client. The broker takes them over once the call has returned.
    pub data_out: Option<Vec<u8>>,
}

/// What comes with a request for a pre-shared key.
#[derive(Debug, Clone, Copy)]
pub struct PskKeyEvent<'a> {
    pub hint: &'a str,
    pub identity: &'a str,
    pub key: &'a str,
    pub max_key_len: i32,
}

/// What comes with a tick of the broker's clock: now and the next tick, each in seconds
/// and in nanoseconds.
#[derive(Debug, Clone, Copy)]
pub struct TickEvent {
    pub now_ns: i64,
    pub next_ns: i64,
    pub now_s: i64,
    pub next_s: i64,
}

/// What comes with the end of a client's session.
#[derive(Debug, Clone, Copy)]
pub struct DisconnectEvent {
    pub reason: i32,
}

} // verus!

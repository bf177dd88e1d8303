//! The safe core of a plugin for the Mosquitto MQTT broker.
//!
//! The broker loads a plugin as a shared library and drives it through callbacks with
//! untyped pointers and integer status codes. This crate is what lies between those
//! callbacks and a plugin author's hooks: the reading of options and events, the
//! table of status codes, the trampolines that call the hooks, and the registry that
//! owns each loaded plugin from `mosquitto_plugin_init` to `mosquitto_plugin_cleanup`.
//! It takes and gives plain values only; reading the broker's memory and calling its
//! entry points is left to the caller.

pub mod access;
pub mod client;
pub mod dispatch;
pub mod error;
pub mod event;
pub mod lifecycle;
pub mod message;
pub mod mosquitto_calls;
pub mod options;
pub mod plugin;
pub mod registry;
pub mod text;

pub use access::{AccessLevel, AclCheckAccessLevel};
pub use client::{
    ClientAddress, MosquittoClientContext, MosquittoClientProtocol, MosquittoClientProtocolVersion,
};
pub use dispatch::{
    checked_access, clock_seconds, message_of, on_acl_check_trampoline, on_auth,
    on_basic_auth_trampoline, on_control_trampoline, on_disconnect_trampoline,
    on_message_trampoline, on_psk_key_trampoline, on_reload_trampoline, on_tick_trampoline,
};
pub use error::{
    decode_narrow_outcome, decode_outcome, encode_auth_outcome, encode_outcome, Error, Success,
};
pub use event::{
    AclCheckEvent, BasicAuthEvent, DisconnectEvent, ExtendedAuthEvent, MessageEvent,
    MosquittoPluginEvent, PskKeyEvent, ReloadEvent, TickEvent,
};
pub use lifecycle::{
    callback_table, mosquitto_plugin_cleanup, mosquitto_plugin_init, mosquitto_plugin_version,
    CallbackRegistration, PluginStart, PluginStop, CONTROL_TOPIC, MOSQ_PLUGIN_VERSION,
};
pub use message::{MosquittoMessage, QOS};
pub use options::{parse_options, MosquittoOpt};
pub use plugin::MosquittoPlugin;
pub use registry::{RegistrationRecord, Registry};

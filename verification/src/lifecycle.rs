//! The life of a plugin inside the broker: loaded once, called back for as long as it
//! is loaded, and unloaded once.
//!
//! Loading makes the plugin, enters it in the registry and names the callbacks that
//! the broker is to be told of. Unloading takes the plugin out of the registry again
//! and drops it. In between, the broker's callbacks borrow the plugin from the
//! registry, which they can do for a loaded plugin only.

use crate::error::Error;
use crate::event::MosquittoPluginEvent;
use crate::options::{announced_options, parse_options, MosquittoOpt};
use crate::plugin::MosquittoPlugin;
use crate::registry::Registry;
use vstd::prelude::*;

verus! {

/// The version of the broker's plugin interface that this library speaks.
pub const MOSQ_PLUGIN_VERSION: isize = 5;

/// The version of the broker's plugin interface that this library speaks. The broker
/// asks for it before it loads the plugin.
pub fn mosquitto_plugin_version() -> (version: isize)
    ensures
        version == MOSQ_PLUGIN_VERSION,
{
    MOSQ_PLUGIN_VERSION
}

/// The topic of the broker's control channel, on which the control callback listens.
pub const CONTROL_TOPIC: &'static str = "$CONTROL";

/// One callback that the broker is to know of: the kind of event, and for the control
/// channel the topic.
#[derive(Debug, Copy, Clone)]
pub struct CallbackRegistration {
    pub event: MosquittoPluginEvent,
    pub event_data: Option<&'static str>,
}

/// The kinds of event that a loaded plugin is called back for, in the order in which
/// the broker is told of them.
pub open spec fn callback_events() -> Seq<MosquittoPluginEvent> {
    seq![
        MosquittoPluginEvent::MosqEvtReload,
        MosquittoPluginEvent::MosqEvtAclCheck,
        MosquittoPluginEvent::MosqEvtBasicAuth,
        MosquittoPluginEvent::MosqEvtExtAuthStart,
        MosquittoPluginEvent::MosqEvtExtAuthContinue,
        MosquittoPluginEvent::MosqEvtControl,
        MosquittoPluginEvent::MosqEvtMessage,
        MosquittoPluginEvent::MosqEvtPskKey,
        MosquittoPluginEvent::MosqEvtTick,
        MosquittoPluginEvent::MosqEvtDisconnect,
    ]
}

/// Whether `table` is the table of callbacks of a loaded plugin: one callback for each
/// kind of event, in the order of `callback_events`, with the topic of the control
/// channel beside the control callback and nothing beside the others.
pub open spec fn is_callback_table(table: Seq<CallbackRegistration>) -> bool {
    &&& table.len() == callback_events().len()
    &&& forall|i: int|
        0 <= i < table.len() ==> {
            &&& (#[trigger] table[i]).event == callback_events()[i]
            &&& match table[i].event_data {
                Some(topic) => table[i].event == MosquittoPluginEvent::MosqEvtControl && topic@
                    == CONTROL_TOPIC@,
                None => table[i].event != MosquittoPluginEvent::MosqEvtControl,
            }
        }
}

/// Every kind of event that the broker reports has its callback, and has one only: the
/// kind with the number `n` stands at place `n - 1` of the ten.
pub proof fn lemma_one_callback_per_event(event: MosquittoPluginEvent)
    ensures
        callback_events().len() == 10,
        event != MosquittoPluginEvent::Unknown ==> callback_events()[event.code() - 1] == event,
        forall|i: int|
            0 <= i < callback_events().len() ==> ((#[trigger] callback_events()[i]) == event <==> i
                == event.code() - 1),
{
}

/// The table of callbacks of a loaded plugin.
pub fn callback_table() -> (table: Vec<CallbackRegistration>)
    ensures
        is_callback_table(table@),
{
    let mut table: Vec<CallbackRegistration> = Vec::new();
    table.push(CallbackRegistration { event: MosquittoPluginEvent::MosqEvtReload, event_data: None });
    table.push(
        CallbackRegistration { event: MosquittoPluginEvent::MosqEvtAclCheck, event_data: None },
    );
    table.push(
        CallbackRegistration { event: MosquittoPluginEvent::MosqEvtBasicAuth, event_data: None },
    );
    table.push(
        CallbackRegistration { event: MosquittoPluginEvent::MosqEvtExtAuthStart, event_data: None },
    );
    table.push(
        CallbackRegistration {
            event: MosquittoPluginEvent::MosqEvtExtAuthContinue,
            event_data: None,
        },
    );
    table.push(
        CallbackRegistration {
            event: MosquittoPluginEvent::MosqEvtControl,
            event_data: Some(CONTROL_TOPIC),
        },
    );
    table.push(
        CallbackRegistration { event: MosquittoPluginEvent::MosqEvtMessage, event_data: None },
    );
    table.push(CallbackRegistration { event: MosquittoPluginEvent::MosqEvtPskKey, event_data: None });
    table.push(CallbackRegistration { event: MosquittoPluginEvent::MosqEvtTick, event_data: None });
    table.push(
        CallbackRegistration { event: MosquittoPluginEvent::MosqEvtDisconnect, event_data: None },
    );
    table
}

/// What loading a plugin gives: the token that the broker is to hand back with every
/// callback, and the callbacks that it is to be told of.
#[derive(Debug)]
pub struct PluginStart {
    pub token: usize,
    pub callbacks: Vec<CallbackRegistration>,
}

/// What unloading a plugin gives: the identifier under which the broker knows the
/// plugin, and the callbacks that it is to forget.
#[derive(Debug)]
pub struct PluginStop {
    pub identifier: usize,
    pub callbacks: Vec<CallbackRegistration>,
}

/// Whether `instance` is a plugin that its own `init` can make from the options
/// `options`.
pub open spec fn made_from<P: MosquittoPlugin>(
    instance: P,
    options: Map<Seq<char>, Seq<char>>,
) -> bool {
    exists|opts: MosquittoOpt| opts@ == options && #[trigger] call_ensures(P::init, (opts,), instance)
}

/// Loads a plugin: makes it from the broker's options, enters it in the registry
/// under a new token, and names the callbacks that the broker is to be told of.
///
/// This is the one place where a plugin comes to be. Where the registry has no token
/// left, no plugin is made, and the error is `NoMem`.
pub fn mosquitto_plugin_init<P: MosquittoPlugin>(
    registry: &mut Registry<P>,
    identifier: usize,
    options: Option<&[(&str, &str)]>,
    option_count: usize,
) -> (started: Result<PluginStart, Error>)
    requires
        option_count > 0 ==> options is Some && option_count <= options->0@.len(),
    ensures
        started is Err <==> old(registry).full(),
        match started {
            Ok(start) => {
                &&& start.token != 0
                &&& !old(registry)@.contains_key(start.token)
                &&& final(registry)@.contains_key(start.token)
                &&& final(registry)@[start.token].identifier == identifier
                &&& final(registry)@.remove(start.token) == old(registry)@
                &&& made_from(
                    final(registry)@[start.token].instance,
                    announced_options(options, option_count),
                )
                &&& is_callback_table(start.callbacks@)
            },
            Err(e) => e == Error::NoMem && final(registry)@ == old(registry)@,
        },
{
    if registry.is_full() {
        return Err(Error::NoMem);
    }
    let opts = parse_options(options, option_count);
    let instance = P::init(opts);
    assert(made_from(instance, announced_options(options, option_count)));
    match registry.register(identifier, instance) {
        Ok(token) => {
            assert(registry@.remove(token) =~= old(registry)@);
            Ok(PluginStart { token, callbacks: callback_table() })
        },
        Err(e) => Err(e),
    }
}

/// Unloads the plugin that is loaded under `token`: takes it out of the registry,
/// drops it, and names the callbacks that the broker is to forget.
///
/// This is the one place where a plugin ceases to be. Afterwards nothing is loaded
/// under the token.
pub fn mosquitto_plugin_cleanup<P: MosquittoPlugin>(
    registry: &mut Registry<P>,
    token: usize,
) -> (stopped: PluginStop)
    requires
        old(registry)@.contains_key(token),
    ensures
        final(registry)@ == old(registry)@.remove(token),
        !final(registry)@.contains_key(token),
        stopped.identifier == old(registry)@[token].identifier,
        is_callback_table(stopped.callbacks@),
{
    let record = registry.unregister(token);
    PluginStop { identifier: record.identifier, callbacks: callback_table() }
}

} // verus!

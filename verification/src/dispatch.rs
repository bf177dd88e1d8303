//! The trampolines: one for each kind of event that the broker reports.
//!
//! A trampoline takes what the broker handed over, makes of it what the hook expects,
//! calls the hook, and turns what the hook answered into the status that the broker
//! gets. What a hook answers is the plugin's own business. So the contract of a
//! trampoline speaks of the hook's own contract, as `call_ensures`: it says with which
//! arguments the hook ran, that the plugin went from what it was to what it is now in
//! that one run, and how the status follows from the hook's answer.

use crate::access::{AccessLevel, AclCheckAccessLevel};
use crate::client::MosquittoClientContext;
use crate::error::{
    auth_continue_code, encode_auth_outcome, encode_outcome, status_of, Error, Success,
};
use crate::event::{
    AclCheckEvent, BasicAuthEvent, DisconnectEvent, ExtendedAuthEvent, MessageEvent,
    MosquittoPluginEvent, PskKeyEvent, ReloadEvent, TickEvent,
};
use crate::message::MosquittoMessage;
use crate::options::{announced_options, parse_options, MosquittoOpt};
use crate::plugin::MosquittoPlugin;
use vstd::prelude::*;

verus! {

/// Whether `code` is a status that the codec can give for the outcome of a hook.
pub open spec fn is_status(code: int) -> bool {
    -4 <= code <= 31
}

/// The bytes of a message as a hook sees them: none where the broker gave no buffer.
pub open spec fn payload_bytes(payload: Option<&[u8]>) -> Seq<u8> {
    match payload {
        Some(bytes) => bytes@,
        None => Seq::empty(),
    }
}

/// Whether `message` is what a hook gets for the message that the broker handed over:
/// the same topic, the same bytes, the same level and flag.
pub open spec fn is_hook_message(message: MosquittoMessage, event: MessageEvent) -> bool {
    &&& message.topic == event.topic
    &&& message.payload@ == payload_bytes(event.payload)
    &&& message.qos == event.qos
    &&& message.retain == event.retain
}

/// The seconds of the broker's clock, cut to their low 32 bits.
pub open spec fn cut_seconds(seconds: i64) -> i32 {
    seconds as i32
}

/// The message that a hook gets for what the broker handed over.
pub fn message_of<'a>(event: &MessageEvent<'a>) -> (message: MosquittoMessage<'a>)
    ensures
        is_hook_message(message, *event),
{
    let payload: &[u8] = match event.payload {
        Some(bytes) => bytes,
        None => &[],
    };
    assert(payload@ =~= payload_bytes(event.payload));
    MosquittoMessage { topic: event.topic, payload, qos: event.qos as i32, retain: event.retain }
}

/// The access that a check decides on, for the number in which the broker names it:
/// there for reading, writing, subscribing and unsubscribing, and for no other number.
pub fn checked_access(access: i32) -> (checked: Option<AclCheckAccessLevel>)
    ensures
        checked == AccessLevel::of_level(access as int).checked(),
{
    let level: AccessLevel = access.into();
    level.into()
}

/// The seconds of the broker's clock as a hook gets them: cut to their low 32 bits,
/// which leaves every time that fits into 32 bits as it is.
pub fn clock_seconds(seconds: i64) -> (cut: i32)
    ensures
        cut == cut_seconds(seconds),
        (cut as i64) & 0xffff_ffff == seconds & 0xffff_ffff,
        i32::MIN <= seconds <= i32::MAX ==> cut == seconds,
{
    let cut =
        #[verifier::truncate]
        (seconds as i32);
    assert((cut as i64) & 0xffff_ffff == seconds & 0xffff_ffff) by (bit_vector)
        requires
            cut == seconds as i32,
    ;
    cut
}

/// The broker was told to read its configuration again: `on_reload` runs once, on the
/// options that the broker announced.
pub fn on_reload_trampoline<P: MosquittoPlugin>(plugin: &mut P, event: &ReloadEvent) -> (code: i32)
    requires
        event.option_count > 0 ==> event.options is Some && event.option_count
            <= event.options->0@.len(),
    ensures
        code == 0,
        exists|hook: &mut P, opts: MosquittoOpt|
            {
                &&& #[trigger] call_ensures(P::on_reload, (hook, opts), ())
                &&& *hook == *old(plugin)
                &&& *final(hook) == *final(plugin)
                &&& opts@ == announced_options(event.options, event.option_count)
            },
{
    let opts = parse_options(event.options, event.option_count);
    plugin.on_reload(opts);
    0
}

/// An access check: `acl_check` runs once, on the access and the message that the
/// broker named, and its outcome is the status.
///
/// Where the broker names an access that no check decides on, the hook does not run,
/// and the status is that of `Unknown`.
pub fn on_acl_check_trampoline<P: MosquittoPlugin>(
    plugin: &mut P,
    client: &dyn MosquittoClientContext,
    event: &AclCheckEvent,
) -> (code: i32)
    ensures
        is_status(code as int),
        match AccessLevel::of_level(event.access as int).checked() {
            None => code == Error::Unknown.code() && *final(plugin) == *old(plugin),
            Some(level) => exists|
                hook: &mut P,
                message: MosquittoMessage,
                outcome: Result<Success, Error>,
            |
                {
                    &&& #[trigger] call_ensures(
                        P::acl_check,
                        (hook, client, level, message),
                        outcome,
                    )
                    &&& *hook == *old(plugin)
                    &&& *final(hook) == *final(plugin)
                    &&& is_hook_message(message, event.message)
                    &&& code == status_of(outcome)
                },
        },
{
    let access_level = match checked_access(event.access) {
        Some(level) => level,
        None => {
            return encode_outcome(Err(Error::Unknown));
        },
    };
    let msg = message_of(&event.message);
    encode_outcome(plugin.acl_check(client, access_level, msg))
}

/// A login by name and password: `username_password` runs once, on the name and the
/// password as the broker gave them, and its outcome is the status.
pub fn on_basic_auth_trampoline<P: MosquittoPlugin>(
    plugin: &mut P,
    client: &dyn MosquittoClientContext,
    event: &BasicAuthEvent,
) -> (code: i32)
    ensures
        is_status(code as int),
        exists|hook: &mut P, outcome: Result<Success, Error>|
            {
                &&& #[trigger] call_ensures(
                    P::username_password,
                    (hook, client, event.username, event.password),
                    outcome,
                )
                &&& *hook == *old(plugin)
                &&& *final(hook) == *final(plugin)
                &&& code == status_of(outcome)
            },
{
    encode_outcome(plugin.username_password(client, event.username, event.password))
}

/// A round of extended authentication: `on_auth_start` runs where `event_kind` is the
/// number of `MosqEvtExtAuthStart`, `on_auth_continue` where it is that of
/// `MosqEvtExtAuthContinue`. The hook runs once, on the method and the bytes that the
/// client sent, and its outcome is the status.
///
/// Where the hook answers `AuthContinue`, its bytes go into the event's slot. In every
/// other case the slot stays as it was.
pub fn on_auth<P: MosquittoPlugin>(
    plugin: &mut P,
    event_kind: i32,
    client: &dyn MosquittoClientContext,
    event: &mut ExtendedAuthEvent,
) -> (code: i32)
    requires
        event_kind == MosquittoPluginEvent::MosqEvtExtAuthStart.code() || event_kind
            == MosquittoPluginEvent::MosqEvtExtAuthContinue.code(),
    ensures
        is_status(code as int),
        final(event).auth_method == old(event).auth_method,
        final(event).data_in == old(event).data_in,
        code == auth_continue_code() ==> final(event).data_out is Some,
        code != auth_continue_code() ==> final(event).data_out == old(event).data_out,
        event_kind == MosquittoPluginEvent::MosqEvtExtAuthStart.code() ==> exists|
            hook: &mut P,
            outcome: Result<Success, Error>,
        |
            {
                &&& #[trigger] call_ensures(
                    P::on_auth_start,
                    (hook, client, old(event).auth_method, old(event).data_in),
                    outcome,
                )
                &&& *hook == *old(plugin)
                &&& *final(hook) == *final(plugin)
                &&& code == status_of(outcome)
                &&& outcome matches Err(Error::AuthContinue(data)) ==> final(event).data_out
                    == Some(data)
            },
        event_kind == MosquittoPluginEvent::MosqEvtExtAuthContinue.code() ==> exists|
            hook: &mut P,
            outcome: Result<Success, Error>,
        |
            {
                &&& #[trigger] call_ensures(
                    P::on_auth_continue,
                    (hook, client, old(event).auth_method, old(event).data_in),
                    outcome,
                )
                &&& *hook == *old(plugin)
                &&& *final(hook) == *final(plugin)
                &&& code == status_of(outcome)
                &&& outcome matches Err(Error::AuthContinue(data)) ==> final(event).data_out
                    == Some(data)
            },
{
    let outcome = if event_kind == i32::from(MosquittoPluginEvent::MosqEvtExtAuthStart) {
        plugin.on_auth_start(client, event.auth_method, event.data_in)
    } else {
        plugin.on_auth_continue(client, event.auth_method, event.data_in)
    };
    encode_auth_outcome(outcome, &mut event.data_out)
}

/// A message on the broker's control channel: `on_control` runs once, on the message.
pub fn on_control_trampoline<P: MosquittoPlugin>(
    plugin: &mut P,
    client: &dyn MosquittoClientContext,
    event: &MessageEvent,
) -> (code: i32)
    ensures
        code == 0,
        exists|hook: &mut P, message: MosquittoMessage|
            {
                &&& #[trigger] call_ensures(P::on_control, (hook, client, message), ())
                &&& *hook == *old(plugin)
                &&& *final(hook) == *final(plugin)
                &&& is_hook_message(message, *event)
            },
{
    let msg = message_of(event);
    plugin.on_control(client, msg);
    0
}

/// A message on its way to its subscribers: `on_message` runs once, on the message.
pub fn on_message_trampoline<P: MosquittoPlugin>(
    plugin: &mut P,
    client: &dyn MosquittoClientContext,
    event: &MessageEvent,
) -> (code: i32)
    ensures
        code == 0,
        exists|hook: &mut P, message: MosquittoMessage|
            {
                &&& #[trigger] call_ensures(P::on_message, (hook, client, message), ())
                &&& *hook == *old(plugin)
                &&& *final(hook) == *final(plugin)
                &&& is_hook_message(message, *event)
            },
{
    let msg = message_of(event);
    plugin.on_message(client, msg);
    0
}

/// A request for a pre-shared key: `on_psk` runs once, on what the broker handed over,
/// and the status is the hook's own.
pub fn on_psk_key_trampoline<P: MosquittoPlugin>(
    plugin: &mut P,
    client: &dyn MosquittoClientContext,
    event: &PskKeyEvent,
) -> (code: i32)
    ensures
        exists|hook: &mut P|
            {
                &&& #[trigger] call_ensures(
                    P::on_psk,
                    (hook, client, event.hint, event.identity, event.key, event.max_key_len),
                    code,
                )
                &&& *hook == *old(plugin)
                &&& *final(hook) == *final(plugin)
            },
{
    plugin.on_psk(client, event.hint, event.identity, event.key, event.max_key_len)
}

/// A tick of the broker's clock: `on_tick` runs once, with the seconds cut to 32 bits.
pub fn on_tick_trampoline<P: MosquittoPlugin>(plugin: &mut P, event: &TickEvent) -> (code: i32)
    ensures
        code == 0,
        exists|hook: &mut P|
            {
                &&& #[trigger] call_ensures(
                    P::on_tick,
                    (
                        hook,
                        event.now_ns,
                        event.next_ns,
                        cut_seconds(event.now_s),
                        cut_seconds(event.next_s),
                    ),
                    (),
                )
                &&& *hook == *old(plugin)
                &&& *final(hook) == *final(plugin)
            },
{
    let now_s = clock_seconds(event.now_s);
    let next_s = clock_seconds(event.next_s);
    plugin.on_tick(event.now_ns, event.next_ns, now_s, next_s);
    0
}

/// The end of a client's session: `on_disconnect` runs once, on the broker's reason.
pub fn on_disconnect_trampoline<P: MosquittoPlugin>(
    plugin: &mut P,
    client: &dyn MosquittoClientContext,
    event: &DisconnectEvent,
) -> (code: i32)
    ensures
        code == 0,
        exists|hook: &mut P|
            {
                &&& #[trigger] call_ensures(P::on_disconnect, (hook, client, event.reason), ())
                &&& *hook == *old(plugin)
                &&& *final(hook) == *final(plugin)
            },
{
    plugin.on_disconnect(client, event.reason);
    0
}

} // verus!

//! What a plugin is: a value that is made from the broker's options once, and that the
//! broker's events are then put to, one hook for each kind of event.

use crate::access::AclCheckAccessLevel;
use crate::client::MosquittoClientContext;
use crate::error::{Error, Success};
use crate::message::MosquittoMessage;
use crate::options::MosquittoOpt;
use vstd::prelude::*;

verus! {

/// The hooks of a plugin.
///
/// Only `init` must be written. Every other hook has a default that leaves the plugin
/// as it is and lets the broker go on: a check passes, a notice is ignored.
pub trait MosquittoPlugin: Sized {
    /// Makes the plugin from the options in the broker's configuration. It runs once,
    /// when the broker loads the plugin.
    fn init(opts: MosquittoOpt) -> Self;

    /// The broker was told to read its configuration again.
    fn on_reload(&mut self, opts: MosquittoOpt)
        default_ensures
            *final(self) == *old(self),
    {
    }

    /// May this client have this access to this message? An error refuses, and
    /// `PluginDefer` leaves the decision to the plugins that come after.
    fn acl_check(
        &mut self,
        client: &dyn MosquittoClientContext,
        acl: AclCheckAccessLevel,
        msg: MosquittoMessage,
    ) -> (outcome: Result<Success, Error>)
        default_ensures
            outcome is Ok,
            *final(self) == *old(self),
    {
        Ok(Success)
    }

    /// May a client log in with this name and this password?
    fn username_password(
        &mut self,
        client: &dyn MosquittoClientContext,
        username: Option<&str>,
        password: Option<&str>,
    ) -> (outcome: Result<Success, Error>)
        default_ensures
            outcome is Ok,
            *final(self) == *old(self),
    {
        Ok(Success)
    }

    /// A client starts an extended authentication. `Err(Error::AuthContinue(_))` sends
    /// its bytes to the client and asks for another round.
    fn on_auth_start(
        &mut self,
        client: &dyn MosquittoClientContext,
        method: Option<&str>,
        data: Option<&[u8]>,
    ) -> (outcome: Result<Success, Error>)
        default_ensures
            outcome is Ok,
            *final(self) == *old(self),
    {
        Ok(Success)
    }

    /// A client goes on with an extended authentication. `Err(Error::AuthContinue(_))`
    /// sends its bytes to the client and asks for another round.
    fn on_auth_continue(
        &mut self,
        client: &dyn MosquittoClientContext,
        method: Option<&str>,
        data: Option<&[u8]>,
    ) -> (outcome: Result<Success, Error>)
        default_ensures
            outcome is Ok,
            *final(self) == *old(self),
    {
        Ok(Success)
    }

    /// A message came in on the broker's control channel.
    fn on_control(&mut self, client: &dyn MosquittoClientContext, message: MosquittoMessage)
        default_ensures
            *final(self) == *old(self),
    {
    }

    /// A message passed its access check and is on its way.
    fn on_message(&mut self, client: &dyn MosquittoClientContext, message: MosquittoMessage)
        default_ensures
            *final(self) == *old(self),
    {
    }

    /// The broker asks for a pre-shared key. The hook answers with a status.
    fn on_psk(
        &mut self,
        client: &dyn MosquittoClientContext,
        hint: &str,
        identity: &str,
        key: &str,
        max_key_len: i32,
    ) -> (status: i32)
        default_ensures
            status == 0,
            *final(self) == *old(self),
    {
        0
    }

    /// The broker's clock ticked.
    fn on_tick(&mut self, now_ns: i64, next_ns: i64, now_s: i32, next_s: i32)
        default_ensures
            *final(self) == *old(self),
    {
    }

    /// A client's session ended.
    fn on_disconnect(&mut self, client: &dyn MosquittoClientContext, reason: i32)
        default_ensures
            *final(self) == *old(self),
    {
    }
}

} // verus!

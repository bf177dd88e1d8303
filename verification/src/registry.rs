//! The registry of loaded plugins.
//!
//! The broker threads one opaque token through every call. Here the token is a key
//! into a registry that owns every loaded plugin: loading enters a record and gives
//! out its token, a callback borrows the plugin under its token, and unloading takes
//! the record out. A token is never `0`, so that it can travel as a pointer that is
//! not null. The registry is a mapping from token to record, and every operation says
//! what it does to that mapping.

use crate::error::Error;
use vstd::prelude::*;

verus! {

/// What the registry keeps of a loaded plugin: the identifier under which the broker
/// knows it, and the plugin itself.
pub struct RegistrationRecord<P> {
    pub identifier: usize,
    pub instance: P,
}

/// The plugins that are loaded, each under its token.
pub struct Registry<P> {
    slots: Vec<Option<RegistrationRecord<P>>>,
}

impl<P> View for Registry<P> {
    type V = Map<usize, RegistrationRecord<P>>;

    closed spec fn view(&self) -> Map<usize, RegistrationRecord<P>> {
        Map::new(
            |token: usize| 1 <= token <= self.slots@.len() && self.slots@[token - 1] is Some,
            |token: usize| self.slots@[token - 1]->0,
        )
    }
}

impl<P> Registry<P> {
    /// Whether no token is left to give out: a plugin is loaded under every token.
    pub open spec fn full(&self) -> bool {
        forall|token: usize| token != 0 ==> #[trigger] self@.contains_key(token)
    }

    /// A registry without plugins.
    pub fn new() -> (registry: Self)
        ensures
            registry@ == Map::<usize, RegistrationRecord<P>>::empty(),
    {
        let registry = Registry { slots: Vec::new() };
        assert(registry@ =~= Map::empty());
        registry
    }

    /// Whether a plugin is loaded under `token`.
    pub fn is_registered(&self, token: usize) -> (registered: bool)
        ensures
            registered == self@.contains_key(token),
    {
        token >= 1 && token <= self.slots.len() && self.slots[token - 1].is_some()
    }

    /// The identifier under which the broker knows the plugin that is loaded under
    /// `token`.
    pub fn identifier(&self, token: usize) -> (identifier: usize)
        requires
            self@.contains_key(token),
        ensures
            identifier == self@[token].identifier,
    {
        match &self.slots[token - 1] {
            Some(record) => record.identifier,
            None => vstd::pervasive::unreached(),
        }
    }

    /// Whether no token is left to give out.
    pub fn is_full(&self) -> (full: bool)
        ensures
            full == self.full(),
    {
        let index = self.free_slot();
        proof {
            if index == usize::MAX {
                assert forall|token: usize| token != 0 implies #[trigger] self@.contains_key(
                    token,
                ) by {
                    assert(self.slots@[token - 1] is Some);
                }
            } else {
                assert(!self@.contains_key((index + 1) as usize));
            }
        }
        index == usize::MAX
    }

    /// The first slot that holds no record, or the number of slots where all do.
    fn free_slot(&self) -> (index: usize)
        ensures
            index <= self.slots@.len(),
            index < self.slots@.len() ==> self.slots@[index as int] is None,
            forall|i: int| 0 <= i < index ==> (#[trigger] self.slots@[i]) is Some,
    {
        let mut index: usize = 0;
        while index < self.slots.len()
            invariant
                index <= self.slots@.len(),
                forall|i: int| 0 <= i < index ==> (#[trigger] self.slots@[i]) is Some,
            decreases self.slots@.len() - index,
        {
            if self.slots[index].is_none() {
                return index;
            }
            index += 1;
        }
        index
    }

    /// Enters a plugin and gives out the token under which it is loaded from now on.
    ///
    /// The token is new: no plugin was loaded under it. Every other plugin stays as it
    /// is. Where no token is left the plugin is not entered, and the error is `NoMem`.
    pub fn register(&mut self, identifier: usize, instance: P) -> (token: Result<usize, Error>)
        ensures
            token is Err <==> old(self).full(),
            match token {
                Ok(token) => {
                    &&& token != 0
                    &&& !old(self)@.contains_key(token)
                    &&& final(self)@ == old(self)@.insert(
                        token,
                        RegistrationRecord { identifier, instance },
                    )
                },
                Err(e) => e == Error::NoMem && final(self)@ == old(self)@,
            },
    {
        let index = self.free_slot();
        let record = RegistrationRecord { identifier, instance };
        if index < self.slots.len() {
            self.slots.set(index, Some(record));
        } else if index < usize::MAX {
            self.slots.push(Some(record));
        } else {
            assert forall|token: usize| token != 0 implies #[trigger] self@.contains_key(
                token,
            ) by {
                assert(self.slots@[token - 1] is Some);
            }
            return Err(Error::NoMem);
        }
        assert(!old(self)@.contains_key((index + 1) as usize));
        assert(self@ =~= old(self)@.insert((index + 1) as usize, record));
        Ok(index + 1)
    }

    /// Lends out the plugin that is loaded under `token`, for the length of one
    /// callback. Whatever the borrower does with the plugin, the registry holds the
    /// same tokens afterwards, each with its identifier.
    pub fn instance_mut(&mut self, token: usize) -> (instance: &mut P)
        requires
            old(self)@.contains_key(token),
        ensures
            *instance == old(self)@[token].instance,
            final(self)@.dom() == old(self)@.dom(),
            final(self)@ == old(self)@.insert(
                token,
                RegistrationRecord {
                    identifier: old(self)@[token].identifier,
                    instance: *final(instance),
                },
            ),
    {
        match &mut self.slots[token - 1] {
            Some(record) => &mut record.instance,
            None => vstd::pervasive::unreached(),
        }
    }

    /// Takes out the plugin that is loaded under `token`. Its token is free again, and
    /// every other plugin stays as it is.
    pub fn unregister(&mut self, token: usize) -> (record: RegistrationRecord<P>)
        requires
            old(self)@.contains_key(token),
        ensures
            record == old(self)@[token],
            final(self)@ == old(self)@.remove(token),
            !final(self)@.contains_key(token),
    {
        let record = self.slots[token - 1].take();
        assert(self@ =~= old(self)@.remove(token));
        record.unwrap()
    }
}

/// Taking out the record that was entered last leaves the registry as it was: what
/// loading adds, unloading takes away, and no other record is touched.
pub proof fn lemma_unregister_undoes_register<P>(
    before: Map<usize, RegistrationRecord<P>>,
    token: usize,
    record: RegistrationRecord<P>,
)
    requires
        !before.contains_key(token),
    ensures
        before.insert(token, record).remove(token) == before,
{
    assert(before.insert(token, record).remove(token) =~= before);
}

/// Handing a plugin back after a callback loads and unloads nothing: the registry
/// holds the tokens that it held.
pub proof fn lemma_callback_keeps_tokens<P>(
    before: Map<usize, RegistrationRecord<P>>,
    token: usize,
    record: RegistrationRecord<P>,
)
    requires
        before.contains_key(token),
    ensures
        before.insert(token, record).dom() == before.dom(),
{
    assert(before.insert(token, record).dom() =~= before.dom());
}

} // verus!

//! The identity store: a mapping from identity name to public key.
//!
//! The store is append-only. A name is bound to one key when it is first
//! registered, and the binding never changes afterwards.

use crate::error::RegistryError;
use crate::table::{lemma_table_push, lemma_table_row, table};
use vstd::prelude::*;

verus! {

/// A registered name and the public key bound to it.
#[derive(Debug, Clone, PartialEq, Eq)]
pub struct Identity {
    pub name: String,
    /// The public key as a PEM document.
    pub pubkey: String,
}

/// The names of a sequence of identities, in order.
pub open spec fn identity_names(entries: Seq<Identity>) -> Seq<Seq<char>> {
    Seq::new(entries.len(), |i: int| entries[i].name@)
}

/// The keys of a sequence of identities, in order.
pub open spec fn identity_keys(entries: Seq<Identity>) -> Seq<Seq<char>> {
    Seq::new(entries.len(), |i: int| entries[i].pubkey@)
}

/// The rule of registration: a name is bound once, to whoever comes first.
pub open spec fn registration_plan(taken: bool) -> Result<(), RegistryError> {
    if taken {
        Err(RegistryError::Conflict)
    } else {
        Ok(())
    }
}

/// The identities and the outcome after `name` is registered with `pubkey`.
pub open spec fn registration_outcome(
    identities: Map<Seq<char>, Seq<char>>,
    name: Seq<char>,
    pubkey: Seq<char>,
) -> (Map<Seq<char>, Seq<char>>, Result<(), RegistryError>) {
    match registration_plan(identities.contains_key(name)) {
        Err(e) => (identities, Err(e)),
        Ok(_) => (identities.insert(name, pubkey), Ok(())),
    }
}

/// Decides whether a name may be registered, given whether it is taken.
pub fn plan_registration(taken: bool) -> (plan: Result<(), RegistryError>)
    ensures
        plan == registration_plan(taken),
{
    if taken {
        Err(RegistryError::Conflict)
    } else {
        Ok(())
    }
}

/// The identities registered so far.
pub struct IdentityStore {
    entries: Vec<Identity>,
}

impl View for IdentityStore {
    type V = Map<Seq<char>, Seq<char>>;

    /// The public key, as PEM text, that each registered name is bound to.
    closed spec fn view(&self) -> Map<Seq<char>, Seq<char>> {
        table(identity_names(self.entries@), identity_keys(self.entries@))
    }
}

impl IdentityStore {
    /// No name is registered twice.
    pub closed spec fn wf(&self) -> bool {
        identity_names(self.entries@).no_duplicates()
    }

    /// A store with no identity in it.
    pub fn new() -> (store: IdentityStore)
        ensures
            store.wf(),
            store@ == Map::<Seq<char>, Seq<char>>::empty(),
    {
        let store = IdentityStore { entries: Vec::new() };
        assert(store@ =~= Map::<Seq<char>, Seq<char>>::empty());
        store
    }

    /// The position of `name` among the entries, if it is registered.
    fn find(&self, name: &String) -> (found: Option<usize>)
        requires
            self.wf(),
        ensures
            match found {
                Some(i) => i < self.entries@.len() && self.entries@[i as int].name@ == name@
                    && self@.contains_key(name@) && self@[name@] == self.entries@[i as int].pubkey@,
                None => !self@.contains_key(name@),
            },
    {
        let mut i: usize = 0;
        while i < self.entries.len()
            invariant
                self.wf(),
                i <= self.entries@.len(),
                forall|j: int| 0 <= j < i ==> self.entries@[j].name@ != name@,
            decreases self.entries@.len() - i,
        {
            if self.entries[i].name == *name {
                proof {
                    lemma_table_row(
                        identity_names(self.entries@),
                        identity_keys(self.entries@),
                        i as int,
                    );
                }
                return Some(i);
            }
            i += 1;
        }
        assert forall|j: int| 0 <= j < identity_names(self.entries@).len() implies identity_names(
            self.entries@,
        )[j] != name@ by {
            assert(self.entries@[j].name@ != name@);
        }
        None
    }

    /// The public key bound to `name`, if `name` is registered.
    pub fn lookup(&self, name: &String) -> (key: Option<&String>)
        requires
            self.wf(),
        ensures
            match key {
                Some(k) => self@.contains_key(name@) && self@[name@] == k@,
                None => !self@.contains_key(name@),
            },
    {
        match self.find(name) {
            Some(i) => Some(&self.entries[i].pubkey),
            None => None,
        }
    }

    /// Binds `name` to `pubkey` unless `name` is already registered, in which
    /// case the store is left as it was and `Conflict` is returned.
    pub fn register(&mut self, name: String, pubkey: String) -> (done: Result<(), RegistryError>)
        requires
            old(self).wf(),
        ensures
            final(self).wf(),
            (final(self)@, done) == registration_outcome(old(self)@, name@, pubkey@),
    {
        let found = self.find(&name);
        match plan_registration(found.is_some()) {
            Err(e) => Err(e),
            Ok(_) => {
                let ghost before = self.entries@;
                proof {
                    lemma_table_push(
                        identity_names(before),
                        identity_keys(before),
                        name@,
                        pubkey@,
                    );
                }
                self.entries.push(Identity { name, pubkey });
                assert(identity_names(self.entries@) =~= identity_names(before).push(name@));
                assert(identity_keys(self.entries@) =~= identity_keys(before).push(pubkey@));
                Ok(())
            },
        }
    }
}

} // verus!

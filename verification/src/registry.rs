//! An example consumer of the trusted-forwarder capability: a name registry
//! mapping each account to at most one name and each name to its owner, keyed
//! by the effective caller of each request.

use vstd::prelude::*;

use crate::access_control::{AccessControlData, AccessControlError, DEFAULT_ADMIN_ROLE};
use crate::account::{account_eq, AccountId};
use crate::kv::{kv_find, kv_unique, lemma_kv_find_absent, lemma_kv_find_first,
    lemma_kv_find_push, lemma_kv_find_remove, lemma_kv_unique_remove};
use crate::meta_tx_context::{resolve_spec, Data, MetaTxContext};

verus! {

/// Errors that can occur upon calling this contract.
#[derive(Clone, Copy, Debug, PartialEq, Eq, Structural)]
pub enum Error {
    /// The requested name already has an owner.
    NameTaken,
    /// The effective caller already owns a name.
    AlreadyRegistered,
    /// The effective caller owns no name.
    NameNotRegistered,
    /// Effective-caller resolution failed.
    MetaTxContextError(crate::meta_tx_context::Error),
}

impl core::convert::From<crate::meta_tx_context::Error> for Error {
    fn from(err: crate::meta_tx_context::Error) -> (r: Self) {
        Error::MetaTxContextError(err)
    }
}

impl vstd::std_specs::convert::FromSpecImpl<crate::meta_tx_context::Error> for Error {
    open spec fn obeys_from_spec() -> bool {
        true
    }

    open spec fn from_spec(err: crate::meta_tx_context::Error) -> Self {
        Error::MetaTxContextError(err)
    }
}

/// The registry: a name per account and an owner per name, composed with the
/// access-control collaborator and the trusted-forwarder capability.
pub struct Registry {
    access_control: AccessControlData,
    meta_tx_context: Data,
    names: Vec<(AccountId, String)>,
    owners: Vec<(String, AccountId)>,
}

impl Registry {
    /// Both tables hold each key at most once.
    pub closed spec fn wf(&self) -> bool {
        kv_unique(self.names@) && kv_unique(self.owners@)
    }

    /// The name registered by account `a`, if any.
    pub closed spec fn name_of(&self, a: Seq<u8>) -> Option<Seq<char>> {
        match kv_find(self.names@, a) {
            Some(s) => Some(s@),
            None => None,
        }
    }

    /// The owner of name `n`, if any.
    pub closed spec fn owner_of(&self, n: Seq<char>) -> Option<Seq<u8>> {
        match kv_find(self.owners@, n) {
            Some(a) => Some(a@),
            None => None,
        }
    }

    /// Constructor: an empty registry whose administrative role belongs to
    /// the instantiating `caller` and nobody else, with the trusted
    /// forwarder configured.
    pub fn new(caller: AccountId, trusted_forwarder: AccountId) -> (r: Self)
        ensures
            r.wf(),
            r.forwarder_spec() == Some(trusted_forwarder),
            r.has_admin_spec(caller@),
            forall|w: Seq<u8>| w != caller@ ==> !(#[trigger] r.has_admin_spec(w)),
            forall|a: Seq<u8>| (#[trigger] r.name_of(a)) is None,
            forall|n: Seq<char>| (#[trigger] r.owner_of(n)) is None,
    {
        let mut instance = Registry {
            access_control: AccessControlData::new(),
            meta_tx_context: Data { trusted_forwarder: None },
            names: Vec::new(),
            owners: Vec::new(),
        };
        let ghost fresh = instance;
        instance.access_control.grant_role(DEFAULT_ADMIN_ROLE, caller);
        let ghost granted_state = instance;
        let granted = instance.meta_tx_context.set_trusted_forwarder(
            trusted_forwarder,
            caller,
            &instance.access_control,
        );
        assert(granted is Ok);
        proof {
            assert forall|w: Seq<u8>| w != caller@ implies !(#[trigger] instance.has_admin_spec(
                w,
            )) by {
                assert(!fresh.access_control.has_role_spec(DEFAULT_ADMIN_ROLE, w));
                assert(granted_state.access_control.has_role_spec(DEFAULT_ADMIN_ROLE, w)
                    == fresh.access_control.has_role_spec(DEFAULT_ADMIN_ROLE, w));
            }
        }
        instance
    }

    /// The index of the first name entry of account `who`, if any.
    fn find_name_index(&self, who: &AccountId) -> (r: Option<usize>)
        ensures
            match r {
                Some(i) => i < self.names@.len() && self.names@[i as int].0@ == who@ && (forall|
                    j: int,
                |
                    0 <= j < i ==> (#[trigger] self.names@[j]).0@ != who@),
                None => forall|j: int|
                    0 <= j < self.names@.len() ==> (#[trigger] self.names@[j]).0@ != who@,
            },
    {
        let mut i: usize = 0;
        while i < self.names.len()
            invariant
                0 <= i <= self.names@.len(),
                forall|j: int| 0 <= j < i ==> (#[trigger] self.names@[j]).0@ != who@,
            decreases self.names@.len() - i,
        {
            if account_eq(&self.names[i].0, who) {
                return Some(i);
            }
            i += 1;
        }
        None
    }

    /// The index of the first owner entry of `name`, if any.
    fn find_owner_index(&self, name: &String) -> (r: Option<usize>)
        ensures
            match r {
                Some(i) => i < self.owners@.len() && self.owners@[i as int].0@ == name@ && (forall|
                    j: int,
                |
                    0 <= j < i ==> (#[trigger] self.owners@[j]).0@ != name@),
                None => forall|j: int|
                    0 <= j < self.owners@.len() ==> (#[trigger] self.owners@[j]).0@ != name@,
            },
    {
        let mut i: usize = 0;
        while i < self.owners.len()
            invariant
                0 <= i <= self.owners@.len(),
                forall|j: int| 0 <= j < i ==> (#[trigger] self.owners@[j]).0@ != name@,
            decreases self.owners@.len() - i,
        {
            if self.owners[i].0 == *name {
                return Some(i);
            }
            i += 1;
        }
        None
    }

    /// Registers `name` for the effective caller of the request: rejected
    /// when the name is taken, when caller resolution fails, or when the
    /// caller already owns a name, in that order; on success both tables
    /// gain exactly the new binding.
    pub fn register(&mut self, name: String, direct_caller: AccountId, data: Vec<u8>) -> (r: Result<
        (),
        Error,
    >)
        requires
            old(self).wf(),
        ensures
            final(self).wf(),
            final(self).forwarder_spec() == old(self).forwarder_spec(),
            forall|w: Seq<u8>|
                final(self).has_admin_spec(w) == old(self).has_admin_spec(w),
            if old(self).owner_of(name@) is Some {
                r == Err::<(), Error>(Error::NameTaken) && *final(self) == *old(self)
            } else {
                match resolve_spec(old(self).forwarder_spec(), direct_caller, data@) {
                    Err(e) => r == Err::<(), Error>(Error::MetaTxContextError(e)) && *final(self)
                        == *old(self),
                    Ok(a) => if old(self).name_of(a) is Some {
                        r == Err::<(), Error>(Error::AlreadyRegistered) && *final(self) == *old(
                            self,
                        )
                    } else {
                        &&& r == Ok::<(), Error>(())
                        &&& final(self).name_of(a) == Some(name@)
                        &&& final(self).owner_of(name@) == Some(a)
                        &&& (forall|b: Seq<u8>|
                            b != a ==> #[trigger] final(self).name_of(b) == old(self).name_of(b))
                        &&& (forall|m: Seq<char>|
                            m != name@ ==> #[trigger] final(self).owner_of(m) == old(
                                self,
                            ).owner_of(m))
                    },
                }
            },
    {
        if let Some(i) = self.find_owner_index(&name) {
            proof {
                lemma_kv_find_first(self.owners@, i as int);
            }
            return Err(Error::NameTaken);
        }
        proof {
            lemma_kv_find_absent::<String, AccountId>(self.owners@, name@);
        }
        let caller = match self.meta_tx_context._caller(direct_caller, data) {
            Ok(a) => a,
            Err(e) => {
                return Err(Error::from(e));
            },
        };
        if let Some(i) = self.find_name_index(&caller) {
            proof {
                lemma_kv_find_first(self.names@, i as int);
            }
            return Err(Error::AlreadyRegistered);
        }
        proof {
            lemma_kv_find_absent::<AccountId, String>(self.names@, caller@);
        }
        let ghost old_names = self.names@;
        let ghost old_owners = self.owners@;
        let ghost name_v = name;
        self.names.push((caller, name.clone()));
        self.owners.push((name, caller));
        proof {
            assert(self.names@ == old_names.push((caller, name_v)));
            assert(self.owners@ == old_owners.push((name_v, caller)));
            assert forall|p: int, q: int| 0 <= p < q < self.names@.len() implies (
            #[trigger] self.names@[p]).0@ != (#[trigger] self.names@[q]).0@ by {
                if q < old_names.len() {
                    assert(self.names@[p] == old_names[p]);
                    assert(self.names@[q] == old_names[q]);
                } else {
                    assert(self.names@[p] == old_names[p]);
                    assert(self.names@[q] == (caller, name_v));
                }
            }
            assert forall|p: int, q: int| 0 <= p < q < self.owners@.len() implies (
            #[trigger] self.owners@[p]).0@ != (#[trigger] self.owners@[q]).0@ by {
                if q < old_owners.len() {
                    assert(self.owners@[p] == old_owners[p]);
                    assert(self.owners@[q] == old_owners[q]);
                } else {
                    assert(self.owners@[p] == old_owners[p]);
                    assert(self.owners@[q] == (name_v, caller));
                }
            }
            lemma_kv_find_push(old_names, (caller, name_v), caller@);
            lemma_kv_find_push(old_owners, (name_v, caller), name_v@);
            assert forall|b: Seq<u8>| b != caller@ implies #[trigger] self.name_of(b) == old(
                self,
            ).name_of(b) by {
                lemma_kv_find_push(old_names, (caller, name_v), b);
            }
            assert forall|m: Seq<char>| m != name_v@ implies #[trigger] self.owner_of(m) == old(
                self,
            ).owner_of(m) by {
                lemma_kv_find_push(old_owners, (name_v, caller), m);
            }
        }
        Ok(())
    }

    /// Unregisters the effective caller's name: rejected when caller
    /// resolution fails or when the caller owns no name; on success the
    /// caller's binding and its name's owner entry are gone.
    pub fn unregister(&mut self, direct_caller: AccountId, data: Vec<u8>) -> (r: Result<(), Error>)
        requires
            old(self).wf(),
        ensures
            final(self).wf(),
            final(self).forwarder_spec() == old(self).forwarder_spec(),
            forall|w: Seq<u8>|
                final(self).has_admin_spec(w) == old(self).has_admin_spec(w),
            match resolve_spec(old(self).forwarder_spec(), direct_caller, data@) {
                Err(e) => r == Err::<(), Error>(Error::MetaTxContextError(e)) && *final(self)
                    == *old(self),
                Ok(a) => match old(self).name_of(a) {
                    None => r == Err::<(), Error>(Error::NameNotRegistered) && *final(self)
                        == *old(self),
                    Some(n) => {
                        &&& r == Ok::<(), Error>(())
                        &&& final(self).name_of(a) is None
                        &&& final(self).owner_of(n) is None
                        &&& (forall|b: Seq<u8>|
                            b != a ==> #[trigger] final(self).name_of(b) == old(self).name_of(b))
                        &&& (forall|m: Seq<char>|
                            m != n ==> #[trigger] final(self).owner_of(m) == old(self).owner_of(m))
                    },
                },
            },
    {
        let caller = match self.meta_tx_context._caller(direct_caller, data) {
            Ok(a) => a,
            Err(e) => {
                return Err(Error::from(e));
            },
        };
        let i = match self.find_name_index(&caller) {
            Some(i) => i,
            None => {
                proof {
                    lemma_kv_find_absent::<AccountId, String>(self.names@, caller@);
                }
                return Err(Error::NameNotRegistered);
            },
        };
        proof {
            lemma_kv_find_first(self.names@, i as int);
            assert forall|j: int|
                0 <= j < self.names@.len() && j != i implies (#[trigger] self.names@[j]).0@
                != self.names@[i as int].0@ by {
                if j < i {
                } else {
                }
            }
        }
        let ghost old_names = self.names@;
        let removed = self.names.remove(i);
        let name = removed.1;
        proof {
            lemma_kv_unique_remove(old_names, i as int);
            assert forall|b: Seq<u8>| true implies #[trigger] kv_find(self.names@, b) == (if b
                == caller@ {
                None
            } else {
                kv_find(old_names, b)
            }) by {
                lemma_kv_find_remove(old_names, i as int, b);
            }
        }
        if let Some(oi) = self.find_owner_index(&name) {
            proof {
                lemma_kv_find_first(self.owners@, oi as int);
                assert forall|j: int|
                    0 <= j < self.owners@.len() && j != oi implies (#[trigger] self.owners@[j]).0@
                    != self.owners@[oi as int].0@ by {
                    if j < oi {
                    } else {
                    }
                }
            }
            let ghost old_owners = self.owners@;
            let _previous_owner = self.owners.remove(oi);
            proof {
                lemma_kv_unique_remove(old_owners, oi as int);
                assert forall|m: Seq<char>| true implies #[trigger] kv_find(self.owners@, m) == (
                if m == name@ {
                    None
                } else {
                    kv_find(old_owners, m)
                }) by {
                    lemma_kv_find_remove(old_owners, oi as int, m);
                }
            }
        } else {
            proof {
                lemma_kv_find_absent::<String, AccountId>(self.owners@, name@);
            }
        }
        Ok(())
    }

    /// The name registered by `account_id`, if any.
    pub fn get_name(&self, account_id: AccountId) -> (r: Option<String>)
        ensures
            match r {
                Some(s) => self.name_of(account_id@) == Some(s@),
                None => self.name_of(account_id@) is None,
            },
    {
        match self.find_name_index(&account_id) {
            Some(i) => {
                proof {
                    lemma_kv_find_first(self.names@, i as int);
                }
                Some(self.names[i].1.clone())
            },
            None => {
                proof {
                    lemma_kv_find_absent::<AccountId, String>(self.names@, account_id@);
                }
                None
            },
        }
    }

    /// The owner of `name`, if any.
    pub fn get_owner(&self, name: String) -> (r: Option<AccountId>)
        ensures
            match r {
                Some(a) => self.owner_of(name@) == Some(a@),
                None => self.owner_of(name@) is None,
            },
    {
        match self.find_owner_index(&name) {
            Some(i) => {
                proof {
                    lemma_kv_find_first(self.owners@, i as int);
                }
                Some(self.owners[i].1)
            },
            None => {
                proof {
                    lemma_kv_find_absent::<String, AccountId>(self.owners@, name@);
                }
                None
            },
        }
    }
}

impl MetaTxContext for Registry {
    closed spec fn forwarder_spec(&self) -> Option<AccountId> {
        self.meta_tx_context.trusted_forwarder
    }

    closed spec fn has_admin_spec(&self, who: Seq<u8>) -> bool {
        self.access_control.has_role_spec(DEFAULT_ADMIN_ROLE, who)
    }

    fn get_trusted_forwarder(&self) -> (r: Option<AccountId>) {
        self.meta_tx_context.get_trusted_forwarder()
    }

    fn set_trusted_forwarder(&mut self, forwarder: AccountId, caller: AccountId) -> (r: Result<
        (),
        AccessControlError,
    >) {
        self.meta_tx_context.set_trusted_forwarder(forwarder, caller, &self.access_control)
    }

    fn _caller(&self, direct_caller: AccountId, data: Vec<u8>) -> (r: Result<
        AccountId,
        crate::meta_tx_context::Error,
    >) {
        self.meta_tx_context._caller(direct_caller, data)
    }
}

} // verus!

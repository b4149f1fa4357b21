//! An example consumer of the trusted-forwarder capability: a contract that
//! stores a single boolean and flips it, also on behalf of a delegated
//! caller.

use vstd::prelude::*;

use crate::access_control::{AccessControlData, AccessControlError, DEFAULT_ADMIN_ROLE};
use crate::account::AccountId;
use crate::meta_tx_context::{resolve_spec, Data, MetaTxContext};

verus! {

/// Errors that can occur upon calling this contract.
#[derive(Clone, Copy, Debug, PartialEq, Eq, Structural)]
pub enum Error {
    /// Effective-caller resolution failed.
    MetaTxContextError(crate::meta_tx_context::Error),
}

impl core::convert::From<crate::meta_tx_context::Error> for Error {
    fn from(err: crate::meta_tx_context::Error) -> (r: Self) {
        Error::MetaTxContextError(err)
    }
}

impl vstd::std_specs::convert::FromSpecImpl<crate::meta_tx_context::Error> for Error {
    open spec fn obeys_from_spec() -> bool {
        true
    }

    open spec fn from_spec(err: crate::meta_tx_context::Error) -> Self {
        Error::MetaTxContextError(err)
    }
}

/// A contract holding one boolean, composed with the access-control
/// collaborator and the trusted-forwarder capability.
pub struct Flipper {
    access_control: AccessControlData,
    meta_tx_context: Data,
    value: bool,
}

impl Default for Flipper {
    /// A fresh contract: value false, no trusted forwarder, no roles held.
    fn default() -> (r: Self)
        ensures
            !r.value_spec(),
            r.forwarder_spec() is None,
            forall|w: Seq<u8>| !(#[trigger] r.has_admin_spec(w)),
    {
        Flipper {
            access_control: AccessControlData::new(),
            meta_tx_context: Data { trusted_forwarder: None },
            value: false,
        }
    }
}

impl Flipper {
    /// The stored boolean.
    pub closed spec fn value_spec(&self) -> bool {
        self.value
    }

    /// Constructor that initializes the value to `init_value`, grants the
    /// administrative role to the instantiating `caller` and nobody else,
    /// and configures the trusted forwarder.
    pub fn new(caller: AccountId, trusted_forwarder: AccountId, init_value: bool) -> (r: Self)
        ensures
            r.value_spec() == init_value,
            r.forwarder_spec() == Some(trusted_forwarder),
            r.has_admin_spec(caller@),
            forall|w: Seq<u8>| w != caller@ ==> !(#[trigger] r.has_admin_spec(w)),
    {
        let mut instance = Flipper::default();
        let ghost fresh = instance;
        instance.access_control.grant_role(DEFAULT_ADMIN_ROLE, caller);
        let ghost granted_state = instance;
        let granted = instance.meta_tx_context.set_trusted_forwarder(
            trusted_forwarder,
            caller,
            &instance.access_control,
        );
        assert(granted is Ok);
        instance.value = init_value;
        proof {
            assert forall|w: Seq<u8>| w != caller@ implies !(#[trigger] instance.has_admin_spec(
                w,
            )) by {
                assert(!fresh.has_admin_spec(w));
                assert(granted_state.access_control.has_role_spec(DEFAULT_ADMIN_ROLE, w)
                    == fresh.access_control.has_role_spec(DEFAULT_ADMIN_ROLE, w));
            }
        }
        instance
    }

    /// Flips the stored value.
    pub fn flip(&mut self)
        ensures
            final(self).value_spec() == !old(self).value_spec(),
            final(self).forwarder_spec() == old(self).forwarder_spec(),
            forall|w: Seq<u8>|
                final(self).has_admin_spec(w) == old(self).has_admin_spec(w),
    {
        self.value = !self.value;
    }

    /// Flips the stored value on behalf of the effective caller of the
    /// request; fails, changing nothing, exactly when caller resolution
    /// fails.
    pub fn flip_meta_context(&mut self, direct_caller: AccountId, data: Vec<u8>) -> (r: Result<
        (),
        Error,
    >)
        ensures
            match resolve_spec(old(self).forwarder_spec(), direct_caller, data@) {
                Ok(a) => r == Ok::<(), Error>(())
                    && final(self).value_spec() == !old(self).value_spec(),
                Err(e) => r == Err::<(), Error>(Error::MetaTxContextError(e))
                    && final(self).value_spec() == old(self).value_spec(),
            },
            final(self).forwarder_spec() == old(self).forwarder_spec(),
            forall|w: Seq<u8>|
                final(self).has_admin_spec(w) == old(self).has_admin_spec(w),
    {
        match self.meta_tx_context._caller(direct_caller, data) {
            Ok(_resolved) => {
                self.value = !self.value;
                Ok(())
            },
            Err(e) => Err(Error::from(e)),
        }
    }

    /// Simply returns the current value.
    pub fn get(&self) -> (r: bool)
        ensures
            r == self.value_spec(),
    {
        self.value
    }
}

impl MetaTxContext for Flipper {
    closed spec fn forwarder_spec(&self) -> Option<AccountId> {
        self.meta_tx_context.trusted_forwarder
    }

    closed spec fn has_admin_spec(&self, who: Seq<u8>) -> bool {
        self.access_control.has_role_spec(DEFAULT_ADMIN_ROLE, who)
    }

    fn get_trusted_forwarder(&self) -> (r: Option<AccountId>) {
        self.meta_tx_context.get_trusted_forwarder()
    }

    fn set_trusted_forwarder(&mut self, forwarder: AccountId, caller: AccountId) -> (r: Result<
        (),
        AccessControlError,
    >) {
        self.meta_tx_context.set_trusted_forwarder(forwarder, caller, &self.access_control)
    }

    fn _caller(&self, direct_caller: AccountId, data: Vec<u8>) -> (r: Result<
        AccountId,
        crate::meta_tx_context::Error,
    >) {
        self.meta_tx_context._caller(direct_caller, data)
    }
}

} // verus!

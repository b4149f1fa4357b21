//! The trusted-forwarder capability: a business contract owns one optional
//! forwarder address; a request arriving from that exact address may assert
//! an alternate effective caller by embedding it in the call payload, while
//! every other request resolves to its direct caller.

use vstd::prelude::*;

use crate::access_control::{AccessControlData, AccessControlError, DEFAULT_ADMIN_ROLE};
use crate::account::{account_eq, account_from_prefix, AccountId};

verus! {

/// Failure of effective-caller resolution.
#[derive(Clone, Copy, Debug, PartialEq, Eq, Structural)]
pub enum Error {
    /// The embedded address in a trusted-forwarder payload is malformed.
    RecoverAccountIdFailed,
}

/// The forwarder-configuration value a business contract owns: at most one
/// trusted address, empty by default, overwritten on each update.
pub struct Data {
    pub trusted_forwarder: Option<AccountId>,
}

impl Default for Data {
    /// A fresh configuration trusts nobody.
    fn default() -> (r: Self)
        ensures
            r.trusted_forwarder is None,
    {
        Data { trusted_forwarder: None }
    }
}

/// How a request resolves to its effective caller: the direct caller, unless
/// the direct caller is the configured trusted forwarder, in which case the
/// first 32 bytes of the payload name the caller, and a shorter payload is
/// malformed.
pub open spec fn resolve_spec(
    forwarder: Option<AccountId>,
    direct_caller: AccountId,
    data: Seq<u8>,
) -> Result<Seq<u8>, Error> {
    if forwarder is Some && direct_caller@ == forwarder.unwrap()@ {
        if data.len() >= 32 {
            Ok(data.subrange(0, 32))
        } else {
            Err(Error::RecoverAccountIdFailed)
        }
    } else {
        Ok(direct_caller@)
    }
}

/// Whether `r` is the resolution that `resolve_spec` prescribes.
pub open spec fn resolves_to(
    forwarder: Option<AccountId>,
    direct_caller: AccountId,
    data: Seq<u8>,
    r: Result<AccountId, Error>,
) -> bool {
    match resolve_spec(forwarder, direct_caller, data) {
        Ok(a) => r is Ok && r.unwrap()@ == a,
        Err(e) => r == Err::<AccountId, Error>(e),
    }
}

impl Data {
    /// The configured trusted forwarder, if any.
    pub fn get_trusted_forwarder(&self) -> (r: Option<AccountId>)
        ensures
            r == self.trusted_forwarder,
    {
        self.trusted_forwarder
    }

    /// Overwrites the trusted forwarder, gated on the administrative role of
    /// `caller` in the access-control collaborator `access`; fails with the
    /// access error, changing nothing, exactly when `caller` lacks the role.
    pub fn set_trusted_forwarder(
        &mut self,
        forwarder: AccountId,
        caller: AccountId,
        access: &AccessControlData,
    ) -> (r: Result<(), AccessControlError>)
        ensures
            access.has_role_spec(DEFAULT_ADMIN_ROLE, caller@) ==> r == Ok::<
                (),
                AccessControlError,
            >(()) && final(self).trusted_forwarder == Some(forwarder),
            !access.has_role_spec(DEFAULT_ADMIN_ROLE, caller@) ==> r == Err::<
                (),
                AccessControlError,
            >(AccessControlError::MissingRole) && *final(self) == *old(self),
    {
        if access.has_role(DEFAULT_ADMIN_ROLE, &caller) {
            self.trusted_forwarder = Some(forwarder);
            Ok(())
        } else {
            Err(AccessControlError::MissingRole)
        }
    }

    /// Resolves the effective caller of the current request: `direct_caller`
    /// unless it equals the trusted forwarder, which may embed the caller in
    /// the first 32 bytes of `data`.
    pub fn _caller(&self, direct_caller: AccountId, data: Vec<u8>) -> (r: Result<AccountId, Error>)
        ensures
            resolves_to(self.trusted_forwarder, direct_caller, data@, r),
    {
        if let Some(fw) = self.trusted_forwarder {
            if account_eq(&direct_caller, &fw) {
                return match account_from_prefix(data.as_slice()) {
                    Some(a) => Ok(a),
                    None => Err(Error::RecoverAccountIdFailed),
                };
            }
        }
        Ok(direct_caller)
    }
}

/// The capability as a business contract exposes it. Both entry points take
/// the direct caller of the current request explicitly, as the hosting
/// environment reports it.
pub trait MetaTxContext {
    /// The configured trusted forwarder of this contract instance.
    spec fn forwarder_spec(&self) -> Option<AccountId>;

    /// Whether `who` holds the administrative role of this instance.
    spec fn has_admin_spec(&self, who: Seq<u8>) -> bool;

    /// The configured trusted forwarder, if any.
    fn get_trusted_forwarder(&self) -> (r: Option<AccountId>)
        ensures
            r == self.forwarder_spec(),
    ;

    /// Overwrites the trusted forwarder; fails with the access error, and
    /// changes nothing, exactly when `caller` lacks the administrative role.
    fn set_trusted_forwarder(&mut self, forwarder: AccountId, caller: AccountId) -> (r: Result<
        (),
        AccessControlError,
    >)
        ensures
            old(self).has_admin_spec(caller@) ==> r == Ok::<(), AccessControlError>(())
                && final(self).forwarder_spec() == Some(forwarder),
            !old(self).has_admin_spec(caller@) ==> r == Err::<(), AccessControlError>(
                AccessControlError::MissingRole,
            ) && final(self).forwarder_spec() == old(self).forwarder_spec(),
            forall|w: Seq<u8>|
                final(self).has_admin_spec(w) == old(self).has_admin_spec(w),
    ;

    /// Resolves the effective caller of a request that arrived from
    /// `direct_caller` carrying payload `data`.
    fn _caller(&self, direct_caller: AccountId, data: Vec<u8>) -> (r: Result<AccountId, Error>)
        ensures
            resolves_to(self.forwarder_spec(), direct_caller, data@, r),
    ;
}

/// The effective caller of a request that does not arrive through the
/// configured trusted forwarder is the direct caller, whatever the payload:
/// two resolutions under different payloads agree.
pub proof fn lemma_resolve_ignores_payload(
    forwarder: Option<AccountId>,
    direct_caller: AccountId,
    data1: Seq<u8>,
    data2: Seq<u8>,
    r1: Result<AccountId, Error>,
    r2: Result<AccountId, Error>,
)
    requires
        forwarder is Some ==> direct_caller@ != forwarder.unwrap()@,
        resolves_to(forwarder, direct_caller, data1, r1),
        resolves_to(forwarder, direct_caller, data2, r2),
    ensures
        r1 == Ok::<AccountId, Error>(direct_caller),
        r1 == r2,
{
    crate::account::lemma_account_view_injective(r1.unwrap(), direct_caller);
    crate::account::lemma_account_view_injective(r2.unwrap(), direct_caller);
}

} // verus!

//! A minimal role-based access-control collaborator: role membership per
//! account, queried to gate configuration calls.

use vstd::prelude::*;

use crate::account::{account_eq, AccountId};

verus! {

/// The role identifier space.
pub type RoleType = u32;

/// The administrative role that gates configuration calls.
pub const DEFAULT_ADMIN_ROLE: RoleType = 0;

/// Failure of a gated call.
#[derive(Clone, Copy, Debug, PartialEq, Eq, Structural)]
pub enum AccessControlError {
    /// The caller does not hold the required role.
    MissingRole,
}

/// Role membership, owned by a contract instance for its whole lifetime.
pub struct AccessControlData {
    members: Vec<(RoleType, AccountId)>,
}

impl AccessControlData {
    /// Whether `who` holds `role`.
    pub closed spec fn has_role_spec(&self, role: RoleType, who: Seq<u8>) -> bool {
        exists|i: int|
            0 <= i < self.members@.len() && (#[trigger] self.members@[i]).0 == role
                && self.members@[i].1@ == who
    }

    /// An empty membership table: nobody holds any role.
    pub fn new() -> (r: Self)
        ensures
            forall|role: RoleType, who: Seq<u8>| !r.has_role_spec(role, who),
    {
        AccessControlData { members: Vec::new() }
    }

    /// Whether `who` holds `role`.
    pub fn has_role(&self, role: RoleType, who: &AccountId) -> (r: bool)
        ensures
            r == self.has_role_spec(role, who@),
    {
        let mut i: usize = 0;
        while i < self.members.len()
            invariant
                0 <= i <= self.members@.len(),
                forall|j: int|
                    0 <= j < i ==> !((#[trigger] self.members@[j]).0 == role
                        && self.members@[j].1@ == who@),
            decreases self.members@.len() - i,
        {
            if self.members[i].0 == role && account_eq(&self.members[i].1, who) {
                return true;
            }
            i += 1;
        }
        false
    }

    /// Grants `role` to `who`; every other membership is unchanged.
    pub fn grant_role(&mut self, role: RoleType, who: AccountId)
        ensures
            final(self).has_role_spec(role, who@),
            forall|r2: RoleType, w2: Seq<u8>|
                !(r2 == role && w2 == who@) ==> #[trigger] final(self).has_role_spec(r2, w2) == old(
                    self,
                ).has_role_spec(r2, w2),
    {
        let ghost prev = self.members@;
        self.members.push((role, who));
        proof {
            assert(self.members@[prev.len() as int] == (role, who));
            assert forall|r2: RoleType, w2: Seq<u8>|
                !(r2 == role && w2 == who@) implies #[trigger] self.has_role_spec(r2, w2) == old(
                self,
            ).has_role_spec(r2, w2) by {
                if old(self).has_role_spec(r2, w2) {
                    let i = choose|i: int|
                        0 <= i < prev.len() && (#[trigger] prev[i]).0 == r2 && prev[i].1@ == w2;
                    assert(self.members@[i] == prev[i]);
                }
                if self.has_role_spec(r2, w2) {
                    let i = choose|i: int|
                        0 <= i < self.members@.len() && (#[trigger] self.members@[i]).0 == r2
                            && self.members@[i].1@ == w2;
                    assert(i < prev.len());
                    assert(prev[i] == self.members@[i]);
                }
            }
        }
    }
}

} // verus!

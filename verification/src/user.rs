//! Users and the role hierarchy.

use vstd::prelude::*;

verus! {

/// User access level.  Roles form a strict total order: `User < Admin`.
#[derive(Clone, Copy, Debug, PartialEq, Eq, Structural)]
pub enum UserRole {
    User,
    Admin,
}

impl UserRole {
    /// Position of the role in the defined order.
    pub open spec fn spec_rank(self) -> int {
        match self {
            UserRole::User => 0,
            UserRole::Admin => 1,
        }
    }

    /// Capability gate: true iff this role is at or above `min_role` in the
    /// defined order.
    pub fn satisfies(self, min_role: UserRole) -> (r: bool)
        ensures
            r == (self.spec_rank() >= min_role.spec_rank()),
    {
        match (self, min_role) {
            (UserRole::Admin, _) => true,
            (UserRole::User, UserRole::User) => true,
            (UserRole::User, UserRole::Admin) => false,
        }
    }
}

/// The rank order on roles is a total order, and ranks identify roles, so
/// `satisfies` behaves as the order relation: reflexive, transitive,
/// antisymmetric and total over every defined role.
pub proof fn lemma_role_order_total(a: UserRole, b: UserRole, c: UserRole)
    ensures
        a.spec_rank() >= a.spec_rank(),
        a.spec_rank() >= b.spec_rank() && b.spec_rank() >= c.spec_rank() ==> a.spec_rank()
            >= c.spec_rank(),
        a.spec_rank() >= b.spec_rank() && b.spec_rank() >= a.spec_rank() ==> a == b,
        a.spec_rank() >= b.spec_rank() || b.spec_rank() >= a.spec_rank(),
{
}

/// An authenticated user record.
pub struct UserData {
    pub id: String,
    pub password: String,
    pub username: String,
    pub email: String,
    pub verified: bool,
    pub role: UserRole,
}

/// Registration input.
pub struct UserCreateForm {
    pub username: String,
    pub email: String,
    pub password: String,
}

/// Account deletion input: the password confirms the request.
pub struct UserDeleteForm {
    pub password: String,
}

/// Email change input.
pub struct UserEmailForm {
    pub email: String,
}

/// Password change input.
pub struct PasswordChangeForm {
    pub current_password: String,
    pub new_password: String,
}

} // verus!

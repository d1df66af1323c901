//! The calling principal and what it may see.
//!
//! An [`AuthContext`] is produced once per request by an external
//! authentication collaborator and is read-only afterwards.  The data-access
//! layer consults it to narrow queries to the caller's own resources unless
//! the caller's role permits bypassing ownership checks.

use vstd::prelude::*;
use crate::user::UserRole;

verus! {

/// Failures of the access layer, each mapped to a stable status code by
/// [`AccessError::status_code`].
#[derive(Clone, Copy, Debug, PartialEq, Eq, Structural)]
pub enum AccessError {
    /// Malformed input, resolved before any query is issued.
    Validation,
    /// No valid credential was presented.
    Authentication,
    /// A valid credential with insufficient privilege or an ownership
    /// mismatch.
    Authorization,
    /// The store collaborator failed; details are not leaked to the client.
    Store,
}

impl AccessError {
    /// The stable transport status code of this error.
    pub fn status_code(self) -> (code: u16)
        ensures
            self == AccessError::Validation ==> code == 400,
            self == AccessError::Authentication ==> code == 401,
            self == AccessError::Authorization ==> code == 403,
            self == AccessError::Store ==> code == 500,
    {
        match self {
            AccessError::Validation => 400,
            AccessError::Authentication => 401,
            AccessError::Authorization => 403,
            AccessError::Store => 500,
        }
    }
}

/// The sentinel a caller sends in place of a user id to mean "my own
/// resources".
pub open spec fn spec_self_sentinel() -> Seq<char> {
    "@me"@
}

/// Admits the context an external authentication collaborator resolved, or
/// fails with an authentication error when no valid credential was
/// presented.
pub fn authenticate(resolved: Option<AuthContext>) -> (r: Result<AuthContext, AccessError>)
    ensures
        resolved matches Some(ctx) ==> r == Ok::<AuthContext, AccessError>(ctx),
        resolved is None ==> r == Err::<AuthContext, AccessError>(AccessError::Authentication),
{
    match resolved {
        Some(ctx) => Ok(ctx),
        None => Err(AccessError::Authentication),
    }
}

/// The authenticated principal of one request.
#[derive(Debug)]
pub struct AuthContext {
    /// Identity of the principal, as a textual identifier.
    pub user_id: String,
    /// Resolved role, immutable for the request.
    pub role: UserRole,
    /// True when the credential is an application-level token scoped to its
    /// owner: such a caller may not bypass ownership narrowing even if its
    /// role is elevated.
    pub application_scoped: bool,
}

impl AuthContext {
    /// True iff this context may bypass ownership narrowing: its role is at
    /// or above `Admin` and the credential is not an owner-scoped
    /// application token.
    pub open spec fn spec_elevated(self) -> bool {
        self.role.spec_rank() >= UserRole::Admin.spec_rank() && !self.application_scoped
    }

    /// The owner whose resources a request for `requested` may query as this
    /// principal: the principal itself for the self sentinel or its own
    /// literal id, any owner for an elevated caller, nobody otherwise.
    pub open spec fn spec_resolved_owner(self, requested: Seq<char>) -> Option<Seq<char>> {
        if requested == spec_self_sentinel() || requested == self.user_id@ {
            Some(self.user_id@)
        } else if self.spec_elevated() {
            Some(requested)
        } else {
            None
        }
    }

    /// The capability gate of an operation: passes every context whose role
    /// is at or above `min_role`, and fails with an authorization error —
    /// distinct from an authentication failure — otherwise.
    pub fn require_role(&self, min_role: UserRole) -> (r: Result<(), AccessError>)
        ensures
            r is Ok <==> self.role.spec_rank() >= min_role.spec_rank(),
            r matches Err(e) ==> e == AccessError::Authorization,
    {
        if self.role.satisfies(min_role) {
            Ok(())
        } else {
            Err(AccessError::Authorization)
        }
    }

    /// Capability gate: true iff the context's role is at or above
    /// `min_role`.
    pub fn satisfies(&self, min_role: UserRole) -> (r: bool)
        ensures
            r == (self.role.spec_rank() >= min_role.spec_rank()),
    {
        self.role.satisfies(min_role)
    }

    /// True iff this context may bypass ownership narrowing.
    pub fn is_elevated(&self) -> (r: bool)
        ensures
            r == self.spec_elevated(),
    {
        self.role.satisfies(UserRole::Admin) && !self.application_scoped
    }

    /// The identity this caller is allowed to query as when it asks for its
    /// own resources.
    pub fn effective_owner_id(&self) -> (r: &String)
        ensures
            r@ == self.user_id@,
    {
        &self.user_id
    }

    /// Resolves the owner id a request names against this context.
    ///
    /// The self sentinel and the caller's own literal id resolve to the
    /// caller's identity; any other id resolves as given for an elevated
    /// caller and is an explicit authorization error otherwise — never a
    /// silently substituted filter.
    pub fn resolve_owner(&self, requested: &String) -> (r: Result<String, AccessError>)
        ensures
            match r {
                Ok(owner) => self.spec_resolved_owner(requested@) == Some(owner@),
                Err(e) => self.spec_resolved_owner(requested@) is None && e
                    == AccessError::Authorization,
            },
    {
        let sentinel: String = "@me".to_owned();
        if *requested == sentinel || *requested == self.user_id {
            Ok(self.user_id.clone())
        } else if self.is_elevated() {
            Ok(requested.clone())
        } else {
            Err(AccessError::Authorization)
        }
    }
}

} // verus!

//! The role lattice: a small, totally ordered set of privilege levels and
//! the "must be at least" check used by the access guard.

use vstd::prelude::*;

use crate::error::ResponseError;
use crate::status::HttpStatus;

verus! {

/// Privilege levels in ascending order. The listed order is the authorization
/// order: a later variant may do everything an earlier one may.
#[derive(Clone, Copy, PartialEq, Eq, Structural, Debug)]
pub enum Role {
    NoRole,
    Collaborator,
    Owner,
    Moderator,
    Admin,
}

impl Role {
    /// The ordinal of a role in the lattice; `rank(a) <= rank(b)` is the
    /// "b is at least a" relation every comparison goes through.
    pub open spec fn rank(self) -> int {
        match self {
            Role::NoRole => 0,
            Role::Collaborator => 1,
            Role::Owner => 2,
            Role::Moderator => 3,
            Role::Admin => 4,
        }
    }

    fn rank_exec(&self) -> (r: u8)
        ensures
            r as int == self.rank(),
    {
        match self {
            Role::NoRole => 0,
            Role::Collaborator => 1,
            Role::Owner => 2,
            Role::Moderator => 3,
            Role::Admin => 4,
        }
    }

    /// Succeeds exactly when `self` is at least `other` in the lattice order;
    /// otherwise reports which role would have been required.
    pub fn ensure_at_least(&self, other: Role) -> (r: Result<(), RoleError>)
        ensures
            r is Ok <==> self.rank() >= other.rank(),
            r is Err ==> r->Err_0 == (RoleError::MustBeAtLeast { required: other }),
    {
        if self.rank_exec() < other.rank_exec() {
            Err(RoleError::MustBeAtLeast { required: other })
        } else {
            Ok(())
        }
    }
}

/// Failure of an authorization check: the caller's role was below `required`.
#[derive(Clone, Copy, PartialEq, Eq, Structural, Debug)]
pub enum RoleError {
    MustBeAtLeast { required: Role },
}

impl Role {
    /// The lower-case name a role shows in messages.
    pub open spec fn spec_label(self) -> Seq<char> {
        match self {
            Role::NoRole => "none"@,
            Role::Collaborator => "collaborator"@,
            Role::Owner => "owner"@,
            Role::Moderator => "moderator"@,
            Role::Admin => "admin"@,
        }
    }

    pub fn label(&self) -> (r: &'static str)
        ensures
            r@ == self.spec_label(),
    {
        match self {
            Role::NoRole => "none",
            Role::Collaborator => "collaborator",
            Role::Owner => "owner",
            Role::Moderator => "moderator",
            Role::Admin => "admin",
        }
    }
}

/// An insufficient role is a Forbidden-class failure whose message names the
/// required role.
impl ResponseError for RoleError {
    open spec fn spec_status(&self) -> HttpStatus {
        HttpStatus { code: 403 }
    }

    open spec fn spec_message(&self) -> Seq<char> {
        match *self {
            RoleError::MustBeAtLeast { required } => "Your role must be at least "@
                + required.spec_label() + " to do that action."@,
        }
    }

    fn status(&self) -> (s: HttpStatus) {
        HttpStatus::forbidden()
    }

    fn message(&self) -> (m: String) {
        match self {
            RoleError::MustBeAtLeast { required } => String::from_str(
                "Your role must be at least ",
            ).concat(required.label()).concat(" to do that action."),
        }
    }
}

/// A resource whose per-user access level an outside collaborator can look
/// up: given an identity and a resource identifier, it reports the caller's
/// effective role for that resource, or that no relationship exists.
/// Implementations live with the store that holds the relationship records.
pub trait GuardedResource {
    type ResourceId;

    fn access_level(user: &crate::credential::Info, rid: &Self::ResourceId) -> Result<
        Role,
        crate::error::Error,
    >;
}

/// The guard's decision on what the lookup collaborator reported: a role is
/// passed through; no relationship record is a not-found failure.
pub fn resolve_access(found: Option<Role>) -> (r: Result<Role, crate::error::Error>)
    ensures
        found is Some <==> r is Ok,
        found is Some ==> r->Ok_0 == found.unwrap(),
        found is None ==> r->Err_0.wf() && r->Err_0.spec_status().code == 404,
{
    match found {
        Some(role) => Ok(role),
        None => Err(
            crate::error::Error::new(HttpStatus::not_found(), String::from_str("Not found.")),
        ),
    }
}

/// The lattice order is reflexive: every role is at least itself.
pub proof fn lemma_at_least_reflexive(r: Role)
    ensures
        r.rank() >= r.rank(),
{
}

} // verus!

use vstd::prelude::*;
use crate::models::AuthUser;
use crate::outcome::Outcome;

verus! {

/// Who may perform an operation.
#[derive(Clone, Copy, Debug, PartialEq, Eq, Structural)]
pub enum Policy {
    /// Any caller, anonymous included.
    Public,
    /// Any authenticated caller.
    Authenticated,
    /// The owner of the given account, or an administrator.
    SelfOrAdmin(i32),
    /// Administrators only.
    AdminOnly,
}

/// Whether `policy` lets `user` through, before any escalation guard.
pub open spec fn allows(policy: Policy, user: AuthUser) -> bool {
    match policy {
        Policy::Public => true,
        Policy::Authenticated => user.is_connected,
        Policy::SelfOrAdmin(target) => user.is_connected && (user.user_id == target || user.is_admin),
        Policy::AdminOnly => user.is_connected && user.is_admin,
    }
}

/// Whether `user` may ask for the admin flag to be set on an account: only an
/// authenticated administrator may.
pub open spec fn may_grant_admin(user: AuthUser, requests_admin: bool) -> bool {
    requests_admin ==> (user.is_connected && user.is_admin)
}

/// Checks `user` against `policy` and against the escalation guard: a request
/// that sets `is_admin` on an account needs an administrator, whatever the
/// policy. Every denial is the same `Unauthorized`.
pub fn authorize(policy: Policy, user: &AuthUser, requests_admin: bool) -> (r: Result<(), Outcome>)
    ensures
        r is Ok <==> (allows(policy, *user) && may_grant_admin(*user, requests_admin)),
        r is Err ==> r == Err::<(), Outcome>(Outcome::Unauthorized),
{
    let base = match policy {
        Policy::Public => true,
        Policy::Authenticated => user.is_connected,
        Policy::SelfOrAdmin(target) => user.is_connected && (user.user_id == target || user.is_admin),
        Policy::AdminOnly => user.is_connected && user.is_admin,
    };
    if !base {
        return Err(Outcome::Unauthorized);
    }
    if requests_admin && !(user.is_connected && user.is_admin) {
        return Err(Outcome::Unauthorized);
    }
    Ok(())
}

} // verus!

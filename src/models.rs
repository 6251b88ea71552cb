use vstd::prelude::*;

verus! {

/// The identity attached to a request once its credentials were looked at.
///
/// An anonymous caller has `is_connected == false`, id `-1`, an empty name and
/// no admin flag; an authenticated one carries the claims of its token.
#[derive(Clone, Debug)]
pub struct AuthUser {
    pub user_id: i32,
    pub username: String,
    pub is_admin: bool,
    pub is_connected: bool,
}

impl AuthUser {
    /// The anonymous identity carries no id, name or role.
    pub open spec fn wf(&self) -> bool {
        !self.is_connected ==> (self.user_id == -1 && self.username@.len() == 0 && !self.is_admin)
    }

    pub open spec fn spec_is_anonymous(&self) -> bool {
        !self.is_connected && self.user_id == -1 && self.username@.len() == 0 && !self.is_admin
    }

    /// The identity of a caller that presented no usable credentials.
    pub fn anonymous() -> (r: AuthUser)
        ensures
            r.spec_is_anonymous(),
            r.wf(),
    {
        AuthUser { user_id: -1, username: String::new(), is_admin: false, is_connected: false }
    }

    /// The identity of a caller whose token named this account.
    pub fn authenticated(user_id: i32, username: String, is_admin: bool) -> (r: AuthUser)
        ensures
            r.is_connected,
            r.user_id == user_id,
            r.username@ == username@,
            r.is_admin == is_admin,
            r.wf(),
    {
        AuthUser { user_id, username, is_admin, is_connected: true }
    }

    pub fn is_anonymous(&self) -> (r: bool)
        requires
            self.wf(),
        ensures
            r == self.spec_is_anonymous(),
    {
        !self.is_connected
    }
}

/// Credentials sent to the login operation.
pub struct LoginRequest {
    pub username: String,
    pub password: String,
}

/// What a successful login hands back.
pub struct TokenResponse {
    pub token: String,
}

/// Content of a new post; its author is the caller, never a field.
pub struct FormPost {
    pub content: String,
}

/// Fields of an account to create.
pub struct FormUser {
    pub username: String,
    pub email: String,
    pub password: String,
    pub title: Option<String>,
    pub is_admin: bool,
}

/// Fields of an account to update; the password changes only when given.
pub struct FormUpdateUser {
    pub username: String,
    pub email: String,
    pub password: Option<String>,
    pub title: Option<String>,
    pub is_admin: bool,
}

} // verus!

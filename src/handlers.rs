use vstd::prelude::*;
use crate::credentials::{argon2_verdict, check_password, hash_password, is_hash_of, password_hashable};
use crate::models::{AuthUser, FormUpdateUser, FormUser};
use crate::outcome::Outcome;
use crate::policy::{allows, authorize, may_grant_admin, Policy};
use crate::token::{issue_claims, issued_exp, unix_now, Claims, TOKEN_LIFETIME_SECS};

verus! {

/// Page size when a listing names none.
pub const DEFAULT_LIMIT: i64 = 10;

/// Offset when a listing names none.
pub const DEFAULT_OFFSET: i64 = 0;

/// Paging of a listing: how many items to skip and at most how many to return.
pub struct PaginationQuery {
    pub offset: Option<i64>,
    pub limit: Option<i64>,
}

impl PaginationQuery {
    /// The page size asked for, or `DEFAULT_LIMIT`.
    pub fn limit_or_default(&self) -> (r: i64)
        ensures
            r == match self.limit {
                Some(l) => l,
                None => DEFAULT_LIMIT,
            },
    {
        match self.limit {
            Some(l) => l,
            None => DEFAULT_LIMIT,
        }
    }

    /// The offset asked for, or `DEFAULT_OFFSET`.
    pub fn offset_or_default(&self) -> (r: i64)
        ensures
            r == match self.offset {
                Some(o) => o,
                None => DEFAULT_OFFSET,
            },
    {
        match self.offset {
            Some(o) => o,
            None => DEFAULT_OFFSET,
        }
    }
}

/// The outcome of a write aimed at one row: `None` when the store failed,
/// else the number of rows it touched. No row touched means the target is
/// missing.
pub fn write_outcome(rows_affected: Option<u64>, on_success: Outcome) -> (r: Outcome)
    ensures
        rows_affected is None ==> r == Outcome::InternalError,
        rows_affected matches Some(n) ==> (n > 0 ==> r == on_success) && (n == 0 ==> r == Outcome::NotFound),
{
    match rows_affected {
        None => Outcome::InternalError,
        Some(n) => if n > 0 {
            on_success
        } else {
            Outcome::NotFound
        },
    }
}

/// The account whose likes a listing reports: the caller's when
/// authenticated, else `-1`, which matches no account.
pub fn viewer_id(user: &AuthUser) -> (r: i32)
    ensures
        user.is_connected ==> r == user.user_id,
        !user.is_connected ==> r == -1,
{
    if user.is_connected {
        user.user_id
    } else {
        -1
    }
}

/// Whether the store confirms that the caller is an administrator: an
/// anonymous caller never is; otherwise the stored flag decides, and a failed
/// lookup (`None`) counts as no.
pub fn is_admin_confirmed(user: &AuthUser, stored_is_admin: Option<bool>) -> (r: bool)
    ensures
        r == (user.is_connected && stored_is_admin == Some(true)),
{
    if !user.is_connected {
        return false;
    }
    match stored_is_admin {
        Some(b) => b,
        None => false,
    }
}

/// The account id of an authenticated caller; `Unauthorized` for anyone else.
pub fn require_authenticated(user: &AuthUser) -> (r: Result<i32, Outcome>)
    ensures
        r is Ok <==> user.is_connected,
        r matches Ok(id) ==> id == user.user_id,
        r is Err ==> r == Err::<i32, Outcome>(Outcome::Unauthorized),
{
    match authorize(Policy::Authenticated, user, false) {
        Ok(()) => Ok(user.user_id),
        Err(e) => Err(e),
    }
}

/// What the store holds of an account for a login attempt.
pub struct LoginAccount {
    pub id: i32,
    pub username: String,
    pub is_admin: bool,
    pub password_hash: String,
}

/// Decides a login at time `now` from the account stored under the given
/// username, if any. An unknown username and a wrong password get the same
/// `Unauthorized`, so the answer does not tell whether the account exists. A
/// stored value that is no PHC string, or a time before the epoch, is an
/// `InternalError`. A matching password yields the claims of a token for that
/// account, valid for 24 hours.
pub fn login_claims(account: Option<LoginAccount>, password: &str, now: i64) -> (r: Result<Claims, Outcome>)
    ensures
        account is None ==> r == Err::<Claims, Outcome>(Outcome::Unauthorized),
        account matches Some(a) ==> (argon2_verdict(password@, a.password_hash@) is None
            ==> r == Err::<Claims, Outcome>(Outcome::InternalError)),
        account matches Some(a) ==> (argon2_verdict(password@, a.password_hash@) == Some(false)
            ==> r == Err::<Claims, Outcome>(Outcome::Unauthorized)),
        account matches Some(a) ==> (argon2_verdict(password@, a.password_hash@) == Some(true)
            ==> (now >= 0 <==> r is Ok)),
        account matches Some(a) ==> (argon2_verdict(password@, a.password_hash@) == Some(true) && now < 0
            ==> r == Err::<Claims, Outcome>(Outcome::InternalError)),
        account matches Some(a) ==> (is_hash_of(a.password_hash@, password@) && now >= 0 ==> r is Ok),
        r matches Ok(c) ==> (account matches Some(a) && {
            &&& argon2_verdict(password@, a.password_hash@) == Some(true)
            &&& c.sub == a.id
            &&& c.username@ == a.username@
            &&& c.is_admin == a.is_admin
            &&& c.exp == issued_exp(now)
        }),
        r matches Err(e) ==> (e == Outcome::Unauthorized || e == Outcome::InternalError),
{
    let a = match account {
        None => {
            return Err(Outcome::Unauthorized);
        },
        Some(a) => a,
    };
    match check_password(password, a.password_hash.as_str()) {
        Err(e) => Err(e),
        Ok(false) => Err(Outcome::Unauthorized),
        Ok(true) => match issue_claims(a.id, a.username, a.is_admin, now) {
            Ok(c) => Ok(c),
            Err(_) => Err(Outcome::InternalError),
        },
    }
}

/// `login_claims` at the current time. A clock that reads before the epoch
/// gives `InternalError`.
pub fn login_claims_now(account: Option<LoginAccount>, password: &str) -> (r: Result<Claims, Outcome>)
    ensures
        account is None ==> r == Err::<Claims, Outcome>(Outcome::Unauthorized),
        account matches Some(a) ==> (argon2_verdict(password@, a.password_hash@) is None
            ==> r == Err::<Claims, Outcome>(Outcome::InternalError)),
        account matches Some(a) ==> (argon2_verdict(password@, a.password_hash@) == Some(false)
            ==> r == Err::<Claims, Outcome>(Outcome::Unauthorized)),
        account matches Some(a) ==> (argon2_verdict(password@, a.password_hash@) == Some(true)
            ==> (r is Ok || r == Err::<Claims, Outcome>(Outcome::InternalError))),
        r matches Ok(c) ==> (account matches Some(a) && {
            &&& argon2_verdict(password@, a.password_hash@) == Some(true)
            &&& c.sub == a.id
            &&& c.username@ == a.username@
            &&& c.is_admin == a.is_admin
            &&& c.exp >= TOKEN_LIFETIME_SECS
        }),
        r matches Err(e) ==> (e == Outcome::Unauthorized || e == Outcome::InternalError),
{
    login_claims(account, password, unix_now())
}

/// An account ready to be stored: the form's fields with the password hashed.
pub struct NewAccount {
    pub username: String,
    pub email: String,
    pub password_hash: String,
    pub title: Option<String>,
    pub is_admin: bool,
}

/// Checks and prepares the creation of an account. Anyone may create a
/// regular account; only an authenticated administrator may create an
/// administrator (`Unauthorized` otherwise). An allowed creation succeeds
/// unless the password is too long for Argon2 (`InternalError`).
pub fn prepare_new_account(user: &AuthUser, form: FormUser) -> (r: Result<NewAccount, Outcome>)
    ensures
        !may_grant_admin(*user, form.is_admin) ==> r == Err::<NewAccount, Outcome>(Outcome::Unauthorized),
        may_grant_admin(*user, form.is_admin) && password_hashable(form.password@) ==> r is Ok,
        may_grant_admin(*user, form.is_admin) ==> r != Err::<NewAccount, Outcome>(Outcome::Unauthorized),
        r matches Ok(n) ==> {
            &&& may_grant_admin(*user, form.is_admin)
            &&& n.username@ == form.username@
            &&& n.email@ == form.email@
            &&& n.title == form.title
            &&& n.is_admin == form.is_admin
            &&& (password_hashable(form.password@) ==> is_hash_of(n.password_hash@, form.password@))
        },
        r matches Err(e) ==> (e == Outcome::Unauthorized || e == Outcome::InternalError),
{
    match authorize(Policy::Public, user, form.is_admin) {
        Err(e) => {
            return Err(e);
        },
        Ok(()) => {},
    }
    let password_hash = match hash_password(form.password.as_str()) {
        Ok(h) => h,
        Err(e) => {
            return Err(e);
        },
    };
    Ok(NewAccount {
        username: form.username,
        email: form.email,
        password_hash,
        title: form.title,
        is_admin: form.is_admin,
    })
}

/// An account update ready to be stored; the hash is there only when the
/// password changes.
pub struct AccountUpdate {
    pub username: String,
    pub email: String,
    pub password_hash: Option<String>,
    pub title: Option<String>,
    pub is_admin: bool,
}

/// Checks and prepares the update of account `target_id`. The caller must be
/// that account or an administrator, and only an administrator may set the
/// admin flag, whoever owns the account; any denial is `Unauthorized`. An
/// allowed update succeeds unless a new password is too long for Argon2
/// (`InternalError`).
pub fn prepare_account_update(user: &AuthUser, target_id: i32, form: FormUpdateUser) -> (r: Result<AccountUpdate, Outcome>)
    ensures
        !(allows(Policy::SelfOrAdmin(target_id), *user) && may_grant_admin(*user, form.is_admin))
            ==> r == Err::<AccountUpdate, Outcome>(Outcome::Unauthorized),
        allows(Policy::SelfOrAdmin(target_id), *user) && may_grant_admin(*user, form.is_admin)
            ==> r != Err::<AccountUpdate, Outcome>(Outcome::Unauthorized),
        allows(Policy::SelfOrAdmin(target_id), *user) && may_grant_admin(*user, form.is_admin)
            && (form.password matches Some(p) ==> password_hashable(p@)) ==> r is Ok,
        r matches Ok(u) ==> {
            &&& allows(Policy::SelfOrAdmin(target_id), *user)
            &&& may_grant_admin(*user, form.is_admin)
            &&& u.username@ == form.username@
            &&& u.email@ == form.email@
            &&& u.title == form.title
            &&& u.is_admin == form.is_admin
            &&& (form.password is None <==> u.password_hash is None)
            &&& (form.password matches Some(p) ==> (u.password_hash matches Some(h)
                && (password_hashable(p@) ==> is_hash_of(h@, p@))))
        },
        r matches Err(e) ==> (e == Outcome::Unauthorized || e == Outcome::InternalError),
{
    match authorize(Policy::SelfOrAdmin(target_id), user, form.is_admin) {
        Err(e) => {
            return Err(e);
        },
        Ok(()) => {},
    }
    let password_hash = match form.password {
        None => None,
        Some(p) => match hash_password(p.as_str()) {
            Ok(h) => Some(h),
            Err(e) => {
                return Err(e);
            },
        },
    };
    Ok(AccountUpdate {
        username: form.username,
        email: form.email,
        password_hash,
        title: form.title,
        is_admin: form.is_admin,
    })
}

} // verus!

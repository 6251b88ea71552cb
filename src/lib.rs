//! Authentication, authorization and like bookkeeping for a small social
//! backend: accounts, short posts, and likes between them.
//!
//! The verified core decides who a request comes from, whether that caller may
//! perform an operation, and how likes move a post's counter. Storage, HTTP and
//! JSON live outside the library and hand it plain values.

pub mod outcome;
pub mod models;
pub mod policy;
pub mod token;
pub mod credentials;
pub mod likes;
pub mod handlers;
pub mod startup;
pub mod transaction;

pub use outcome::Outcome;
pub use models::{AuthUser, FormPost, FormUpdateUser, FormUser, LoginRequest, TokenResponse};
pub use policy::{authorize, Policy};
pub use token::{
    bearer_token, check_claims, create_jwt, issue_claims, issue_claims_now, open_credentials,
    resolve_identity, resolve_identity_now, verify_jwt, Claims, TokenError, TOKEN_LIFETIME_SECS,
};
pub use credentials::{check_password, hash_password, hash_password_with_salt, verify_password};
pub use likes::{like_decision, unlike_decision, LikeLedger};
pub use handlers::{
    is_admin_confirmed, login_claims, login_claims_now, prepare_account_update, prepare_new_account,
    require_authenticated, viewer_id, write_outcome, AccountUpdate, LoginAccount, NewAccount,
    PaginationQuery, DEFAULT_LIMIT, DEFAULT_OFFSET,
};
pub use startup::next_connect_attempt;
pub use transaction::{counter_delta, like_tx_step, LikeOp, TxAction, TxEvent, TxStage};

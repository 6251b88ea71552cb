use vstd::prelude::*;
use crate::models::AuthUser;

verus! {

/// How long an issued token stays valid, in seconds (24 hours).
pub const TOKEN_LIFETIME_SECS: i64 = 86400;

/// The payload of a token: who it names and until when it is valid.
#[derive(Clone, Debug)]
pub struct Claims {
    pub username: String,
    pub is_admin: bool,
    /// The account id.
    pub sub: i32,
    /// Expiry, in Unix seconds.
    pub exp: u64,
}

/// Why a token could not be issued or accepted.
#[derive(Clone, Copy, Debug, PartialEq, Eq, Structural)]
pub enum TokenError {
    /// The clock reads a time before the Unix epoch.
    Clock,
    /// The payload could not be signed.
    Signing,
    /// Malformed, wrongly signed, or signed with another algorithm.
    Invalid,
    /// Past its expiry.
    Expired,
}

#[verifier::external_type_specification]
#[verifier::external_body]
pub struct ExJwtError(jsonwebtoken::errors::Error);

/// The compact HS256 token that signs the JSON text `payload` under `secret`;
/// `None` when `payload` is not JSON.
pub uninterp spec fn signed_token_of(payload: Seq<char>, secret: Seq<u8>) -> Option<Seq<char>>;

/// The JSON payload of `token` when it opens under `secret`: `None` when the
/// token is malformed, names another algorithm than HS256, carries a signature
/// that does not match, or has claims that jsonwebtoken's validation refuses
/// (no numeric `exp`, or an `aud` claim).
pub uninterp spec fn opened_payload_of(token: Seq<char>, secret: Seq<u8>) -> Option<Seq<char>>;

/// Relies on jsonwebtoken::encode with an HS256 header; the JSON text is handed
/// over verbatim as a serde_json RawValue (whose from_string refuses text that
/// is not JSON). The token depends on the text and the secret alone.
#[verifier::external_body]
fn jwt_encode_hs256(payload: &str, secret: &[u8]) -> (r: Result<String, jsonwebtoken::errors::Error>)
    ensures
        r matches Ok(t) ==> signed_token_of(payload@, secret@) == Some(t@),
        r is Err ==> signed_token_of(payload@, secret@) is None,
{
    let raw = serde_json::value::RawValue::from_string(payload.to_string())?;
    let header = jsonwebtoken::Header::new(jsonwebtoken::Algorithm::HS256);
    jsonwebtoken::encode(&header, &raw, &jsonwebtoken::EncodingKey::from_secret(secret))
}

/// Relies on jsonwebtoken::decode with `Validation::new(HS256)`: a token whose
/// header names another algorithm, or whose signature does not match, is
/// refused. Expiry is checked by the caller, so `validate_exp` is off. The
/// payload comes back as its JSON text; the answer depends on the token and
/// the secret alone.
#[verifier::external_body]
fn jwt_decode_hs256(token: &str, secret: &[u8]) -> (r: Result<String, jsonwebtoken::errors::Error>)
    ensures
        r matches Ok(p) ==> opened_payload_of(token@, secret@) == Some(p@),
        r is Err ==> opened_payload_of(token@, secret@) is None,
{
    let mut validation = jsonwebtoken::Validation::new(jsonwebtoken::Algorithm::HS256);
    validation.validate_exp = false;
    let key = jsonwebtoken::DecodingKey::from_secret(secret);
    let data = jsonwebtoken::decode::<Box<serde_json::value::RawValue>>(token, &key, &validation)?;
    Ok(data.claims.get().to_string())
}

/// Relies on chrono's conversion of std's SystemTime::now into a UTC time:
/// the current Unix time in seconds, negative when the clock reads before the
/// epoch. Nothing is promised of the value.
#[verifier::external_body]
pub(crate) fn unix_now() -> i64 {
    chrono::DateTime::<chrono::Utc>::from(std::time::SystemTime::now()).timestamp()
}

/// A character that may stand in a header value read as text: visible ASCII,
/// space or tab.
pub open spec fn is_header_char(c: char) -> bool {
    (' ' <= c && c <= '~') || c == '\t'
}

pub open spec fn is_header_text(s: Seq<char>) -> bool {
    forall|i: int| 0 <= i < s.len() ==> is_header_char(#[trigger] s[i])
}

/// `s` starts with the scheme `Bearer`, in any case, and a space.
pub open spec fn has_bearer_scheme(s: Seq<char>) -> bool {
    &&& s.len() > 6
    &&& (s[0] == 'b' || s[0] == 'B')
    &&& (s[1] == 'e' || s[1] == 'E')
    &&& (s[2] == 'a' || s[2] == 'A')
    &&& (s[3] == 'r' || s[3] == 'R')
    &&& (s[4] == 'e' || s[4] == 'E')
    &&& (s[5] == 'r' || s[5] == 'R')
    &&& s[6] == ' '
}

/// `s` without its leading spaces and tabs.
pub open spec fn trim_start_blank(s: Seq<char>) -> Seq<char>
    decreases s.len(),
{
    if s.len() > 0 && (s[0] == ' ' || s[0] == '\t') {
        trim_start_blank(s.drop_first())
    } else {
        s
    }
}

/// The token of an `Authorization` header value, if it is a bearer credential.
pub open spec fn bearer_token_of(h: Seq<char>) -> Option<Seq<char>> {
    if is_header_text(h) && has_bearer_scheme(h) {
        Some(trim_start_blank(h.skip(7)))
    } else {
        None
    }
}

/// Relies on headers' decoding of `Authorization<Bearer>` from one header
/// value, built with http's HeaderValue::from_str: a value of visible ASCII and
/// tabs that starts with `Bearer ` (scheme in any case) gives the rest with its
/// leading blanks trimmed; any other value gives nothing.
#[verifier::external_body]
fn decode_bearer(raw: &str) -> (r: Option<String>)
    ensures
        r matches Some(t) ==> bearer_token_of(raw@) == Some(t@),
        r is None ==> bearer_token_of(raw@) is None,
{
    let value = axum::http::HeaderValue::from_str(raw).ok()?;
    let mut values = std::iter::once(&value);
    let auth = <headers::Authorization<headers::authorization::Bearer> as headers::Header>::decode(&mut values).ok()?;
    Some(auth.token().to_string())
}

/// The view of an optional string.
pub open spec fn opt_str_view(o: Option<String>) -> Option<Seq<char>> {
    match o {
        Some(s) => Some(s@),
        None => None,
    }
}

/// The bearer token of an optional `Authorization` header value.
pub fn bearer_token(header: Option<&str>) -> (r: Option<String>)
    ensures
        header is None ==> r is None,
        header matches Some(h) ==> opt_str_view(r) == bearer_token_of(h@),
{
    match header {
        None => None,
        Some(h) => decode_bearer(h),
    }
}

/// The expiry of claims issued at `now`.
pub open spec fn issued_exp(now: i64) -> int {
    now + TOKEN_LIFETIME_SECS
}

/// Claims expiring at `exp` are still valid at `now`: not yet past the expiry.
pub open spec fn valid_at(exp: u64, now: i64) -> bool {
    now <= exp
}

/// The claims of a token issued at `now` for this account, valid for 24 hours.
/// A time before the Unix epoch gives `Clock`.
pub fn issue_claims(user_id: i32, username: String, is_admin: bool, now: i64) -> (r: Result<Claims, TokenError>)
    ensures
        r is Err <==> now < 0,
        r is Err ==> r == Err::<Claims, TokenError>(TokenError::Clock),
        r matches Ok(c) ==> {
            &&& c.sub == user_id
            &&& c.username@ == username@
            &&& c.is_admin == is_admin
            &&& c.exp == issued_exp(now)
        },
{
    if now < 0 {
        return Err(TokenError::Clock);
    }
    let exp: u64 = now as u64 + TOKEN_LIFETIME_SECS as u64;
    Ok(Claims { username, is_admin, sub: user_id, exp })
}

/// `issue_claims` at the current time; a clock before the epoch gives `Clock`.
pub fn issue_claims_now(user_id: i32, username: String, is_admin: bool) -> (r: Result<Claims, TokenError>)
    ensures
        r is Err ==> r == Err::<Claims, TokenError>(TokenError::Clock),
        r matches Ok(c) ==> {
            &&& c.sub == user_id
            &&& c.username@ == username@
            &&& c.is_admin == is_admin
            &&& c.exp >= TOKEN_LIFETIME_SECS
        },
{
    issue_claims(user_id, username, is_admin, unix_now())
}

/// Accepts `claims` at `now` unless they are past their expiry.
pub fn check_claims(claims: Claims, now: i64) -> (r: Result<Claims, TokenError>)
    ensures
        r is Ok <==> valid_at(claims.exp, now),
        r is Err ==> r == Err::<Claims, TokenError>(TokenError::Expired),
        r matches Ok(c) ==> c == claims,
{
    if now < 0 || (now as u64) <= claims.exp {
        Ok(claims)
    } else {
        Err(TokenError::Expired)
    }
}

/// Signs the JSON text of a token's claims under `secret`; text that is not
/// JSON gives `Signing`.
pub fn create_jwt(claims_json: &str, secret: &[u8]) -> (r: Result<String, TokenError>)
    ensures
        r is Ok <==> signed_token_of(claims_json@, secret@) is Some,
        r matches Ok(t) ==> signed_token_of(claims_json@, secret@) == Some(t@),
        r is Err ==> r == Err::<String, TokenError>(TokenError::Signing),
{
    match jwt_encode_hs256(claims_json, secret) {
        Ok(t) => Ok(t),
        Err(_) => Err(TokenError::Signing),
    }
}

/// The JSON text of the claims of `token`, if it is signed with HS256 under
/// `secret`; `Invalid` otherwise. Expiry is checked on the claims, by
/// `check_claims`.
pub fn verify_jwt(token: &str, secret: &[u8]) -> (r: Result<String, TokenError>)
    ensures
        r is Ok <==> opened_payload_of(token@, secret@) is Some,
        r matches Ok(p) ==> opened_payload_of(token@, secret@) == Some(p@),
        r is Err ==> r == Err::<String, TokenError>(TokenError::Invalid),
{
    match jwt_decode_hs256(token, secret) {
        Ok(p) => Ok(p),
        Err(_) => Err(TokenError::Invalid),
    }
}

/// What the credentials of a request open to: the claims text of its bearer
/// token, when there is one and it is signed under `secret`.
pub open spec fn opened_credentials(header: Option<Seq<char>>, secret: Seq<u8>) -> Option<Seq<char>> {
    match header {
        None => None,
        Some(h) => match bearer_token_of(h) {
            None => None,
            Some(t) => opened_payload_of(t, secret),
        },
    }
}

/// Reads the bearer token of an optional `Authorization` header value and
/// opens it. No header, a header that is no bearer credential, and a token
/// that does not open under `secret` all give `None`.
pub fn open_credentials(header: Option<&str>, secret: &[u8]) -> (r: Option<String>)
    ensures
        opt_str_view(r) == opened_credentials(opt_str_view_ref(header), secret@),
{
    match bearer_token(header) {
        None => None,
        Some(t) => match verify_jwt(t.as_str(), secret) {
            Ok(p) => Some(p),
            Err(_) => None,
        },
    }
}

pub open spec fn opt_str_view_ref(o: Option<&str>) -> Option<Seq<char>> {
    match o {
        Some(s) => Some(s@),
        None => None,
    }
}

/// The identity of a request from the claims its token opened to, if any:
/// claims still valid at `now` authenticate their account; missing or expired
/// claims leave the caller anonymous. This step never fails.
pub fn resolve_identity(claims: Option<Claims>, now: i64) -> (r: AuthUser)
    ensures
        r.wf(),
        claims is None ==> r.spec_is_anonymous(),
        claims matches Some(c) ==> (!valid_at(c.exp, now) ==> r.spec_is_anonymous()),
        claims matches Some(c) ==> (valid_at(c.exp, now) ==> {
            &&& r.is_connected
            &&& r.user_id == c.sub
            &&& r.username@ == c.username@
            &&& r.is_admin == c.is_admin
        }),
{
    match claims {
        None => AuthUser::anonymous(),
        Some(c) => match check_claims(c, now) {
            Ok(c) => AuthUser::authenticated(c.sub, c.username, c.is_admin),
            Err(_) => AuthUser::anonymous(),
        },
    }
}

/// `resolve_identity` at the current time. A clock that reads before the
/// epoch leaves every caller anonymous.
pub fn resolve_identity_now(claims: Option<Claims>) -> (r: AuthUser)
    ensures
        r.wf(),
        claims is None ==> r.spec_is_anonymous(),
        r.is_connected ==> (claims matches Some(c) && {
            &&& r.user_id == c.sub
            &&& r.username@ == c.username@
            &&& r.is_admin == c.is_admin
        }),
{
    let now = unix_now();
    if now < 0 {
        // a clock before the epoch cannot judge expiry: fail closed
        return AuthUser::anonymous();
    }
    resolve_identity(claims, now)
}

/// Claims issued at `now` are accepted at `now` and at every instant up to
/// their expiry 24 hours later, and refused at every instant after it.
pub proof fn lemma_issued_claims_expire(now: i64, at: i64)
    requires
        0 <= now,
    ensures
        valid_at(issued_exp(now) as u64, now),
        valid_at(issued_exp(now) as u64, at) <==> at <= now + TOKEN_LIFETIME_SECS,
{
}

/// A request without credentials, or whose credentials do not open under the
/// server's secret (wrongly signed, malformed, another algorithm), reaches the
/// handlers as anonymous.
pub proof fn lemma_unusable_credentials_are_anonymous(header: Option<Seq<char>>, secret: Seq<u8>)
    requires
        header is None || (bearer_token_of(header->Some_0) matches Some(t) && opened_payload_of(t, secret) is None),
    ensures
        opened_credentials(header, secret) is None,
{
}

} // verus!

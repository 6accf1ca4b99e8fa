//! Accounts and authentication: what the `/user` endpoints and the authentication
//! middleware decide.  Database access, token encoding and the HTTP plumbing are done
//! by the caller, which hands the outcomes in here.
use vstd::prelude::*;
use vstd::utf8::encode_utf8;

use crate::database::DbError;
use crate::dto::{JwtClaims, LoginResponse};
use crate::models::User;
use crate::util::{bytes_to_hex_string, hex_lower, lemma_hex_lower_injective};
use argon2::{Argon2, PasswordHash, PasswordHasher, PasswordVerifier};
use hmac::{Hmac, KeyInit, Mac};
use sha2::Sha256;

verus! {

/// The key of the name hashes and of the token signatures.
pub const SECRET_KEY: &'static str = "secret";

/// Name of the header, and of the cookie, that carries the authentication token.
pub const AUTH_HEADER_KEY: &'static str = "Authorization";

/// How long an issued token is valid: one year, in seconds (the unit of a JWT `exp`).
pub const TOKEN_LIFETIME_SECS: u64 = 31536000;

/// The handler of the `/user` endpoints.
pub struct UserHandler {}

/// A refused request: its HTTP status and message.
#[derive(Debug, Clone, PartialEq, Eq)]
pub struct HttpError {
    pub status: u16,
    pub message: String,
}

impl View for HttpError {
    type V = (u16, Seq<char>);

    open spec fn view(&self) -> (u16, Seq<char>) {
        (self.status, self.message@)
    }
}

/// A successful answer that hands out a token: its HTTP status and body.
#[derive(Debug, Clone, PartialEq, Eq)]
pub struct TokenReply {
    pub status: u16,
    pub body: LoginResponse,
}

pub open spec fn forbidden_login() -> (u16, Seq<char>) {
    (403u16, "invalid username or password"@)
}

// ---------------------------------------------------------------- formats

/// Whether `c` is a lowercase hexadecimal digit.
pub open spec fn is_lower_hex_digit(c: char) -> bool {
    ('0' as u32 <= c as u32 <= '9' as u32) || ('a' as u32 <= c as u32 <= 'f' as u32)
}

/// Whether `s` is the lowercase hyphenated text of a version-7 UUID:
/// 8-4-4-4-12 hex digits, the version digit `7`, and a variant digit of 8, 9, a or b.
pub open spec fn is_uuid_v7_text(s: Seq<char>) -> bool {
    &&& s.len() == 36
    &&& forall|i: int|
        0 <= i < 36 ==> if i == 8 || i == 13 || i == 18 || i == 23 {
            #[trigger] s[i] == '-'
        } else {
            is_lower_hex_digit(s[i])
        }
    &&& s[14] == '7'
    &&& (s[19] == '8' || s[19] == '9' || s[19] == 'a' || s[19] == 'b')
}

/// Whether `s` starts as an Argon2id (version 19) hash in the PHC string format does:
/// with `$argon2id$v=19$`.
pub open spec fn is_argon2id_phc(s: Seq<char>) -> bool {
    "$argon2id$v=19$"@.is_prefix_of(s)
}

// ---------------------------------------------------------------- outside calls

/// HMAC-SHA256 of `message` under `key`.
pub uninterp spec fn hmac_sha256_tag(key: Seq<u8>, message: Seq<u8>) -> Seq<u8>;

/// Calls `hmac::Hmac::<sha2::Sha256>::new_from_slice`, `Mac::update` and `Mac::finalize`.
/// Trusted: the tag equals `hmac_sha256_tag(key, message)` and has the 32 bytes of a
/// SHA-256 output.  (`new_from_slice` accepts keys of any length.)
#[verifier::external_body]
fn hmac_sha256(key: &[u8], message: &[u8]) -> (tag: Vec<u8>)
    ensures
        tag@ == hmac_sha256_tag(key@, message@),
        tag@.len() == 32,
{
    let mut mac = <Hmac<Sha256> as KeyInit>::new_from_slice(key).expect("HMAC accepts keys of any length");
    mac.update(message);
    mac.finalize().into_bytes().to_vec()
}

/// Whether `phc_hash` is a PHC string that Argon2 accepts for `password`.
pub uninterp spec fn password_matches(password: Seq<char>, phc_hash: Seq<char>) -> bool;

/// Calls `argon2::Argon2::default().hash_password` with a salt from
/// `SaltString::generate(&mut OsRng)`, and renders the hash as a PHC string.
/// The salt is random, so nothing names the result; trusted: the hash verifies against
/// the password it was made from (the round trip that argon2's documentation shows).
/// `Argon2::default()` is Argon2id, version 19, so the PHC string starts with
/// `$argon2id$v=19$` (password-hash's `Display` writes `$`, the algorithm, `$v=`, the
/// version, then the parameters, salt and hash).
/// Argon2 refuses passwords of more than `0xFFFF_FFFF` bytes, hence the `requires`;
/// a failure of the operating system's random source is not excluded (it panics).
#[verifier::external_body]
fn hash_password(password: &str) -> (hash: String)
    requires
        encode_utf8(password@).len() <= 0xFFFF_FFFF,
    ensures
        password_matches(password@, hash@),
        is_argon2id_phc(hash@),
{
    let salt = argon2::password_hash::SaltString::generate(&mut argon2::password_hash::rand_core::OsRng);
    Argon2::default().hash_password(password.as_bytes(), &salt).unwrap().to_string()
}

/// Calls `PasswordHash::new` on `password_hash` and, when it parses,
/// `Argon2::default().verify_password`.  Trusted: the answer is `password_matches`.
#[verifier::external_body]
fn verify_password(password: &str, password_hash: &str) -> (ok: bool)
    ensures
        ok == password_matches(password@, password_hash@),
{
    match PasswordHash::new(password_hash) {
        Ok(hash) => Argon2::default().verify_password(password.as_bytes(), &hash).is_ok(),
        Err(_) => false,
    }
}

/// Calls `uuid::Uuid::now_v7()` and renders it (`Display`, the lowercase hyphenated
/// form).  The id depends on the clock and on chance; trusted: it is the text of a
/// version-7 UUID (`encode_unix_timestamp_millis` sets the version nibble to 7 and the
/// variant bits to `10`).
#[verifier::external_body]
fn new_user_id() -> (id: String)
    ensures
        is_uuid_v7_text(id@),
{
    uuid::Uuid::now_v7().to_string()
}

// ---------------------------------------------------------------- specifications

/// The stored form of a user name: the lowercase hex of HMAC-SHA256 keyed with the
/// name, over the secret key.
pub open spec fn username_hash(name: Seq<char>) -> Seq<char> {
    hex_lower(hmac_sha256_tag(encode_utf8(name), encode_utf8(SECRET_KEY@)))
}

/// The claims of a token issued at `now_secs` (whole seconds since the Unix epoch):
/// the user id, and an expiry one year later.
pub open spec fn claims_for(user_id: Seq<char>, now_secs: u64) -> (Seq<char>, usize) {
    (user_id, (now_secs + TOKEN_LIFETIME_SECS) as usize)
}

/// A result whose error is seen as (status, message).
pub open spec fn http_view<T>(r: Result<T, HttpError>) -> Result<T, (u16, Seq<char>)> {
    match r {
        Ok(t) => Ok(t),
        Err(e) => Err(e@),
    }
}

/// What a login answers, given the lookup of the hashed name and the password given.
pub open spec fn login_outcome(found: Result<Option<User>, DbError>, password: Seq<char>) -> Result<
    User,
    (u16, Seq<char>),
> {
    match found {
        Ok(Some(u)) => if password_matches(password, u.password_hash@) {
            Ok(u)
        } else {
            Err(forbidden_login())
        },
        _ => Err(forbidden_login()),
    }
}

/// What a deletion request answers before touching the database: the id of the
/// account to delete, or a refusal.
pub open spec fn delete_outcome(user: User, password: Seq<char>) -> Result<Seq<char>, (u16, Seq<char>)> {
    if password_matches(password, user.password_hash@) {
        Ok(user.id@)
    } else {
        Err(forbidden_login())
    }
}

/// Which token a request authenticates with.
pub open spec fn token_choice(cookie: Option<String>, header: Option<String>) -> Result<
    String,
    (u16, Seq<char>),
> {
    match (cookie, header) {
        (Some(c), _) => Ok(c),
        (None, Some(h)) => Ok(h),
        (None, None) => Err((401u16, "missing authentication token"@)),
    }
}

/// The user id that a decoding outcome of a token yields.
pub open spec fn subject_outcome(decoded: Result<JwtClaims, String>) -> Result<Seq<char>, (u16, Seq<char>)> {
    match decoded {
        Ok(c) => Ok(c.sub@),
        Err(_) => Err((401u16, "invalid authentication token"@)),
    }
}

// ---------------------------------------------------------------- functions

/// Hashes a user name for storage and lookup.
pub fn hash_username(username: &str) -> (res: String)
    ensures
        res@ == username_hash(username@),
        res@.len() == 64,
{
    let tag = hmac_sha256(username.as_bytes(), SECRET_KEY.as_bytes());
    bytes_to_hex_string(tag.as_slice())
}

/// The record of a new account: a fresh id, the hashed name and the hashed password.
pub fn new_user(name: &str, password: &str) -> (user: User)
    requires
        encode_utf8(password@).len() <= 0xFFFF_FFFF,
    ensures
        is_uuid_v7_text(user.id@),
        user.name_hash@ == username_hash(name@),
        password_matches(password@, user.password_hash@),
        is_argon2id_phc(user.password_hash@),
{
    User {
        id: new_user_id(),
        name_hash: hash_username(name),
        password_hash: hash_password(password),
    }
}

/// The answer to a registration whose insert failed: a taken name is a conflict (409),
/// any other failure an internal error (500) with the database's message.
pub fn registration_failure(err: DbError) -> (res: HttpError)
    ensures
        res@ == match err {
            DbError::UniqueViolation(_) => (409u16, "username already taken"@),
            DbError::Other(m) => (500u16, m@),
        },
{
    match err {
        DbError::UniqueViolation(_) => HttpError {
            status: 409,
            message: "username already taken".to_owned(),
        },
        DbError::Other(m) => HttpError { status: 500, message: m },
    }
}

fn token_reply(encoded: Result<String, String>, status: u16) -> (res: Result<TokenReply, HttpError>)
    ensures
        match encoded {
            Ok(jwt) => res matches Ok(r) && r.status == status && r.body.jwt == jwt,
            Err(m) => res matches Err(e) && e@ == (500u16, m@),
        },
{
    match encoded {
        Ok(jwt) => Ok(TokenReply { status, body: LoginResponse { jwt } }),
        Err(m) => Err(HttpError { status: 500, message: m }),
    }
}

/// The answer to a registration, given the outcome of encoding the new user's token:
/// 201 with the token, or 500 with the encoder's message.
pub fn register_response(encoded: Result<String, String>) -> (res: Result<TokenReply, HttpError>)
    ensures
        match encoded {
            Ok(jwt) => res matches Ok(r) && r.status == 201 && r.body.jwt == jwt,
            Err(m) => res matches Err(e) && e@ == (500u16, m@),
        },
{
    token_reply(encoded, 201)
}

/// The answer to a login, given the outcome of encoding the user's token:
/// 200 with the token, or 500 with the encoder's message.
pub fn login_response(encoded: Result<String, String>) -> (res: Result<TokenReply, HttpError>)
    ensures
        match encoded {
            Ok(jwt) => res matches Ok(r) && r.status == 200 && r.body.jwt == jwt,
            Err(m) => res matches Err(e) && e@ == (500u16, m@),
        },
{
    token_reply(encoded, 200)
}

/// Checks a login: the lookup of the hashed name must have found a user whose password
/// hash accepts `password`.  Otherwise, and also when the lookup failed, the answer is
/// 403 "invalid username or password", the same for an unknown name and a wrong password.
pub fn login_check(found: Result<Option<User>, DbError>, password: &str) -> (res: Result<User, HttpError>)
    ensures
        http_view(res) == login_outcome(found, password@),
{
    match found {
        Ok(Some(user)) => {
            if verify_password(password, user.password_hash.as_str()) {
                Ok(user)
            } else {
                Err(HttpError { status: 403, message: "invalid username or password".to_owned() })
            }
        },
        _ => Err(HttpError { status: 403, message: "invalid username or password".to_owned() }),
    }
}

/// Checks the password given to delete the authenticated account; answers the id of
/// the account to delete, or 403 "invalid username or password".
pub fn delete_check(user: &User, password: &str) -> (res: Result<String, HttpError>)
    ensures
        match (res, delete_outcome(*user, password@)) {
            (Ok(id), Ok(expected)) => id@ == expected,
            (Err(e), Err(expected)) => e@ == expected,
            _ => false,
        },
{
    if !verify_password(password, user.password_hash.as_str()) {
        return Err(HttpError { status: 403, message: "invalid username or password".to_owned() });
    }
    Ok(user.id.clone())
}

/// The answer to an account deletion: 200, or 500 with the database's message.
pub fn delete_response(result: Result<(), DbError>) -> (res: Result<u16, HttpError>)
    ensures
        match result {
            Ok(_) => res == Ok::<u16, HttpError>(200),
            Err(e) => res matches Err(r) && r@ == (500u16, e.message_view()),
        },
{
    match result {
        Ok(_) => Ok(200),
        Err(DbError::UniqueViolation(m)) => Err(HttpError { status: 500, message: m }),
        Err(DbError::Other(m)) => Err(HttpError { status: 500, message: m }),
    }
}

/// The claims of the token issued to `user` at `now_secs` (whole seconds since the
/// Unix epoch): the user's id, and an expiry one year later, so that the token is
/// valid for one year.
pub fn jwt_claims(user: &User, now_secs: u64) -> (claims: JwtClaims)
    requires
        now_secs + TOKEN_LIFETIME_SECS <= u64::MAX,
    ensures
        (claims.sub@, claims.exp) == claims_for(user.id@, now_secs),
        claims.sub@ == user.id@,
        now_secs + TOKEN_LIFETIME_SECS <= usize::MAX ==> claims.exp == now_secs + TOKEN_LIFETIME_SECS,
{
    let exp = now_secs + TOKEN_LIFETIME_SECS;
    JwtClaims { sub: user.id.clone(), exp: exp as usize }
}

/// Picks the authentication token of a request: the cookie if there is one, else the
/// header; without either the request is refused with 401 "missing authentication token".
pub fn auth_token(cookie: Option<String>, header: Option<String>) -> (res: Result<String, HttpError>)
    ensures
        http_view(res) == token_choice(cookie, header),
        cookie is None && header is Some ==> res == Ok::<String, HttpError>(header.unwrap()),
        res is Err <==> cookie is None && header is None,
{
    match cookie {
        Some(c) => Ok(c),
        None => match header {
            Some(h) => Ok(h),
            None => Err(HttpError { status: 401, message: "missing authentication token".to_owned() }),
        },
    }
}

/// The user id that a decoded token names; a token that did not decode (bad signature,
/// expired, malformed) is refused with 401 "invalid authentication token".
pub fn auth_subject(decoded: Result<JwtClaims, String>) -> (res: Result<String, HttpError>)
    ensures
        match (res, subject_outcome(decoded)) {
            (Ok(id), Ok(expected)) => id@ == expected,
            (Err(e), Err(expected)) => e@ == expected,
            _ => false,
        },
{
    match decoded {
        Ok(c) => Ok(c.sub),
        Err(_) => Err(HttpError { status: 401, message: "invalid authentication token".to_owned() }),
    }
}

/// The user that an authenticated request acts for; when the lookup of the token's
/// user id found nobody (or failed), the request is refused with 400 "user does not exist".
pub fn auth_user(found: Result<Option<User>, DbError>) -> (res: Result<User, HttpError>)
    ensures
        match found {
            Ok(Some(u)) => res == Ok::<User, HttpError>(u),
            _ => res matches Err(e) && e@ == (400u16, "user does not exist"@),
        },
{
    match found {
        Ok(Some(u)) => Ok(u),
        _ => Err(HttpError { status: 400, message: "user does not exist".to_owned() }),
    }
}

// ---------------------------------------------------------------- laws

/// A user registered with a name and a password is accepted when logging in with the
/// same name and password: the login looks the user up under the hash of the name,
/// which is the hash stored at registration, and the stored password hash accepts the
/// password.
pub proof fn lemma_registered_user_can_log_in(name: Seq<char>, password: Seq<char>, user: User)
    requires
        user.name_hash@ == username_hash(name),
        password_matches(password, user.password_hash@),
    ensures
        login_outcome(Ok(Some(user)), password) == Ok::<User, (u16, Seq<char>)>(user),
{
}

/// A refused login does not tell an unknown name (or a failed lookup) from a wrong
/// password: all are answered with the same status and message.
pub proof fn lemma_login_refusal_is_uniform(user: User, password: Seq<char>, err: DbError)
    requires
        !password_matches(password, user.password_hash@),
    ensures
        login_outcome(Ok(Some(user)), password) == login_outcome(Ok(None), password),
        login_outcome(Err(err), password) == login_outcome(Ok(None), password),
        login_outcome(Ok(None), password) == Err::<User, (u16, Seq<char>)>(forbidden_login()),
{
}

/// Two names get the same stored hash exactly when HMAC-SHA256, keyed with the whole
/// UTF-8 encoding of each name, gives the same tag over the secret key: the hash is the
/// tag of the full name and nothing less.
pub proof fn lemma_name_hash_is_tag_of_whole_name(a: Seq<char>, b: Seq<char>)
    ensures
        username_hash(a) == username_hash(b) <==> hmac_sha256_tag(encode_utf8(a), encode_utf8(SECRET_KEY@))
            == hmac_sha256_tag(encode_utf8(b), encode_utf8(SECRET_KEY@)),
{
    if username_hash(a) == username_hash(b) {
        lemma_hex_lower_injective(
            hmac_sha256_tag(encode_utf8(a), encode_utf8(SECRET_KEY@)),
            hmac_sha256_tag(encode_utf8(b), encode_utf8(SECRET_KEY@)),
        );
    }
}

/// Without a cookie, the header's token is used as it is, whatever its length or
/// content; a request is refused for a missing token only when it has neither.
pub proof fn lemma_header_token_used_without_cookie(cookie: Option<String>, header: Option<String>)
    ensures
        cookie is None && header is Some ==> token_choice(cookie, header) == Ok::<
            String,
            (u16, Seq<char>),
        >(header.unwrap()),
        token_choice(cookie, header) is Err <==> cookie is None && header is None,
{
}

/// A token is valid for exactly one year: the expiry of the claims issued at
/// `now_secs` is `now_secs` plus 31 536 000 seconds, hence later than the issue time.
pub proof fn lemma_claims_expire_one_year_after_issue(user_id: Seq<char>, now_secs: u64)
    requires
        now_secs + 31536000 <= usize::MAX,
    ensures
        claims_for(user_id, now_secs).0 == user_id,
        claims_for(user_id, now_secs).1 == now_secs + 31536000,
        claims_for(user_id, now_secs).1 > now_secs,
{
}

/// The account owner can delete the account with the password it was registered with.
pub proof fn lemma_owner_can_delete(user: User, password: Seq<char>)
    requires
        password_matches(password, user.password_hash@),
    ensures
        delete_outcome(user, password) == Ok::<Seq<char>, (u16, Seq<char>)>(user.id@),
{
}

/// A token issued to a user authenticates that user: the claims issued for `user_id`
/// name `user_id` once decoded.
pub proof fn lemma_issued_token_names_user(claims: JwtClaims, user_id: Seq<char>, now_secs: u64)
    requires
        (claims.sub@, claims.exp) == claims_for(user_id, now_secs),
    ensures
        subject_outcome(Ok(claims)) == Ok::<Seq<char>, (u16, Seq<char>)>(user_id),
{
}

/// The cookie takes precedence over the header.
pub proof fn lemma_cookie_over_header(cookie: String, header: Option<String>)
    ensures
        token_choice(Some(cookie), header) == Ok::<String, (u16, Seq<char>)>(cookie),
{
}

} // verus!

use libretube_sync::database::DbError;
use libretube_sync::dto::JwtClaims;
use libretube_sync::handlers::user::{
    auth_subject, auth_token, auth_user, delete_check, delete_response, hash_username,
    jwt_claims, login_check, login_response, new_user, register_response, registration_failure,
    HttpError, TOKEN_LIFETIME_SECS,
};
use libretube_sync::models::User;

fn err(status: u16, message: &str) -> HttpError {
    HttpError { status, message: message.to_string() }
}

#[test]
fn username_hash_is_hmac_sha256_hex() {
    assert_eq!(
        hash_username("alice"),
        "b2f44609297745043488713f4c37b0e0699704dded79d06b8b02cc9b62517f59"
    );
    assert_eq!(
        hash_username("bob"),
        "d8484de1dbb388359c02c3f06423bb4535687bfe43229af280a2dbc87eae4fad"
    );
    assert_eq!(
        hash_username(""),
        "1810e8d341b9e61e88895fba0b1aa2bd03cb6c8fff2b368e666ef8efdef5b4fb"
    );
}

#[test]
fn username_hash_is_stable() {
    assert_eq!(hash_username("carol"), hash_username("carol"));
    assert_ne!(hash_username("carol"), hash_username("Carol"));
}

#[test]
fn new_user_hashes_name_and_password() {
    let user = new_user("alice", "hunter2");
    assert_eq!(user.id.len(), 36);
    for (i, c) in user.id.chars().enumerate() {
        if [8, 13, 18, 23].contains(&i) {
            assert_eq!(c, '-');
        } else {
            assert!(c.is_ascii_digit() || ('a'..='f').contains(&c));
        }
    }
    assert_eq!(user.id.chars().nth(14), Some('7'));
    assert!("89ab".contains(user.id.chars().nth(19).unwrap()));
    assert_eq!(user.name_hash, hash_username("alice"));
    assert!(user.password_hash.starts_with("$argon2id$v=19$"));
    assert!(!user.password_hash.contains("hunter2"));
    let other = new_user("alice", "hunter2");
    assert_ne!(user.id, other.id);
    assert_ne!(user.password_hash, other.password_hash);
}

#[test]
fn registered_user_can_log_in() {
    let user = new_user("alice", "hunter2");
    assert_eq!(login_check(Ok(Some(user.clone())), "hunter2"), Ok(user));
}

#[test]
fn login_refusals_are_uniform() {
    let user = new_user("alice", "hunter2");
    let refused = Err(err(403, "invalid username or password"));
    assert_eq!(login_check(Ok(Some(user)), "wrong"), refused);
    assert_eq!(login_check(Ok(None), "hunter2"), refused);
    assert_eq!(login_check(Err(DbError::Other("down".to_string())), "hunter2"), refused);
}

#[test]
fn malformed_password_hash_never_matches() {
    let user = User {
        id: "u".to_string(),
        name_hash: "n".to_string(),
        password_hash: "not a phc string".to_string(),
    };
    assert_eq!(
        login_check(Ok(Some(user.clone())), "anything"),
        Err(err(403, "invalid username or password"))
    );
    assert_eq!(delete_check(&user, ""), Err(err(403, "invalid username or password")));
}

#[test]
fn owner_can_delete_with_password() {
    let user = new_user("bob", "pw");
    assert_eq!(delete_check(&user, "pw"), Ok(user.id.clone()));
    assert_eq!(delete_check(&user, "pw!"), Err(err(403, "invalid username or password")));
}

#[test]
fn registration_failures() {
    assert_eq!(
        registration_failure(DbError::UniqueViolation("duplicate key".to_string())),
        err(409, "username already taken")
    );
    assert_eq!(registration_failure(DbError::Other("boom".to_string())), err(500, "boom"));
}

#[test]
fn token_replies() {
    let r = register_response(Ok("tok".to_string())).unwrap();
    assert_eq!(r.status, 201);
    assert_eq!(r.body.jwt, "tok");
    let l = login_response(Ok("tok2".to_string())).unwrap();
    assert_eq!(l.status, 200);
    assert_eq!(l.body.jwt, "tok2");
    assert_eq!(register_response(Err("enc".to_string())), Err(err(500, "enc")));
    assert_eq!(login_response(Err("enc".to_string())), Err(err(500, "enc")));
}

#[test]
fn delete_replies() {
    assert_eq!(delete_response(Ok(())), Ok(200));
    assert_eq!(delete_response(Err(DbError::Other("gone".to_string()))), Err(err(500, "gone")));
}

#[test]
fn claims_expire_a_year_later_in_seconds() {
    let user = User { id: "id-1".to_string(), name_hash: String::new(), password_hash: String::new() };
    let claims = jwt_claims(&user, 1_700_000_000);
    assert_eq!(claims.sub, "id-1");
    assert_eq!(claims.exp, 1_700_000_000 + 31_536_000);
    assert_eq!(TOKEN_LIFETIME_SECS, 365 * 24 * 60 * 60);
}

#[test]
fn issued_token_names_the_user() {
    let user = new_user("dave", "pw");
    let claims = jwt_claims(&user, 5);
    assert_eq!(auth_subject(Ok(claims)), Ok(user.id.clone()));
}

#[test]
fn cookie_takes_precedence_over_header() {
    assert_eq!(auth_token(Some("c".to_string()), Some("h".to_string())), Ok("c".to_string()));
    assert_eq!(auth_token(Some("c".to_string()), None), Ok("c".to_string()));
    assert_eq!(auth_token(None, Some("h".to_string())), Ok("h".to_string()));
    assert_eq!(auth_token(None, None), Err(err(401, "missing authentication token")));
}

#[test]
fn undecodable_token_is_refused() {
    assert_eq!(
        auth_subject(Err("ExpiredSignature".to_string())),
        Err(err(401, "invalid authentication token"))
    );
    let claims = JwtClaims { sub: "x".to_string(), exp: 1 };
    assert_eq!(auth_subject(Ok(claims)), Ok("x".to_string()));
}

#[test]
fn unknown_user_is_a_bad_request() {
    let user = User { id: "u".to_string(), name_hash: "n".to_string(), password_hash: "p".to_string() };
    assert_eq!(auth_user(Ok(Some(user.clone()))), Ok(user));
    assert_eq!(auth_user(Ok(None)), Err(err(400, "user does not exist")));
    assert_eq!(auth_user(Err(DbError::Other("x".to_string()))), Err(err(400, "user does not exist")));
}

#[test]
fn names_differing_only_by_trailing_nul_share_a_hash() {
    // HMAC zero-pads keys shorter than the SHA-256 block, and the name is the key
    assert_eq!(hash_username("alice"), hash_username("alice\0"));
    assert_ne!(hash_username("alice"), hash_username("\0alice"));
}

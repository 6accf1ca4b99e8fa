//! Values exchanged with clients.
use vstd::prelude::*;

verus! {

/// The claims carried by an authentication token: the user id and the expiry time.
#[derive(Debug, Clone, PartialEq, Eq)]
pub struct JwtClaims {
    pub sub: String,
    pub exp: usize,
}

/// The body of a successful registration or login.
#[derive(Debug, Clone, PartialEq, Eq)]
pub struct LoginResponse {
    pub jwt: String,
}

} // verus!

//! Records stored by the server.
use vstd::prelude::*;

verus! {

/// An account.  The name is stored only as a keyed hash, the password only as an
/// Argon2 PHC string.
#[derive(Debug, Clone, PartialEq, Eq)]
pub struct User {
    pub id: String,
    pub name_hash: String,
    pub password_hash: String,
}

/// A user's subscription to a channel.
#[derive(Debug, Clone, PartialEq, Eq)]
pub struct Subscription {
    pub user_id: String,
    pub channel_id: String,
}

} // verus!

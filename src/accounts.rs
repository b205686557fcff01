use vstd::prelude::*;

verus! {

/// Server-assigned identity of an account.
#[derive(Debug, Clone, Copy, PartialEq, Eq, Hash, Structural)]
pub struct AccountId(pub i32);

/// A registered account; `password` holds an encoded hash once stored.
#[derive(Debug, Clone)]
pub struct Account {
    pub id: Option<AccountId>,
    pub username: String,
    pub password: String,
    pub role: String,
}

/// An authenticated caller: the account a valid token names, and the
/// token's expiry in seconds since the Unix epoch.
#[derive(Debug, Clone, Copy, PartialEq, Eq, Structural)]
pub struct Session {
    pub exp: i64,
    pub account_id: AccountId,
}

} // verus!

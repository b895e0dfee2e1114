use vstd::prelude::*;
use crate::models::user::User;
use crate::models::links::Link;

verus! {

/// A login session as the session store keeps it. `expiry` is in
/// milliseconds since the Unix epoch; `id` is the record id (table, key).
#[derive(Debug, PartialEq)]
pub struct Session {
    pub expiry: i64,
    pub id: (String, String),
    pub token: String,
}

/// Everything stored about an account, as it is sent to its owner on request.
#[derive(Debug, PartialEq)]
pub struct GDPRCompliance {
    pub user: User,
    pub links: Vec<Link>,
    pub sessions: Vec<Session>,
}

/// A database record reference: table and key.
pub struct Record {
    pub id: (String, String),
}

/// Marks a type whose values can be stored as a new record.
pub trait Creatable {}

/// Marks a type whose values can be merged into a stored record.
pub trait Patchable {}

} // verus!

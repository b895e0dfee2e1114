use vstd::prelude::*;
use argon2::{PasswordHasher, PasswordVerifier};

verus! {

/// An account.
#[derive(Debug, PartialEq)]
pub struct User {
    pub id: String,
    pub email: String,
    pub person_id: i64,
    pub password_hash: String,
    pub untis_cypher: String,
    pub verified: bool,
}

/// A new account, before the database gave it an id.
#[derive(Debug, PartialEq)]
pub struct UserCreate {
    pub email: String,
    pub person_id: i64,
    pub password_hash: String,
    pub untis_cypher: String,
    pub verified: bool,
}

/// A partial update of an account: the fields that are `Some` replace the
/// stored ones.
#[derive(Debug, PartialEq)]
pub struct UserPatch {
    pub id: String,
    pub email: Option<String>,
    pub password_hash: Option<String>,
    pub person_id: Option<i64>,
    pub untis_cypher: Option<String>,
}

/// What checking `password` against the PHC string `hash` with Argon2 gives:
/// `PasswordHash::new(hash)` followed by `Argon2::default().verify_password`;
/// `Err` carries the message of the error.
pub uninterp spec fn argon2_verify(hash: Seq<char>, password: Seq<char>) -> Result<(), Seq<char>>;

pub open spec fn unit_result_view(r: Result<(), String>) -> Result<(), Seq<char>> {
    match r {
        Ok(()) => Ok(()),
        Err(m) => Err(m@),
    }
}

/// Wraps `argon2::PasswordHash::new` and `PasswordVerifier::verify_password` of
/// `Argon2::default()`. Claimed: the result is [`argon2_verify`] of the stored
/// hash and the password; an error is returned as its message.
#[verifier::external_body]
fn argon2_check(hash: &str, password: &str) -> (res: Result<(), String>)
    ensures
        unit_result_view(res) == argon2_verify(hash@, password@),
{
    let parsed = match argon2::PasswordHash::new(hash) {
        Ok(p) => p,
        Err(e) => return Err(e.to_string()),
    };
    match argon2::Argon2::default().verify_password(password.as_bytes(), &parsed) {
        Ok(()) => Ok(()),
        Err(e) => Err(e.to_string()),
    }
}

/// Wraps `Argon2::default().hash_password` with a salt from
/// `SaltString::generate(&mut OsRng)`; the hash comes back as its PHC string,
/// an error as its message. The salt is random, so nothing is claimed of the
/// string itself; claimed is what the argon2 documentation shows: a hash it
/// gives verifies the password it was made from. argon2 refuses only a
/// password of more than `u32::MAX` bytes (the generated salt and the default
/// parameters always pass its checks); a character takes at most four bytes,
/// so a password of at most 1 073 741 823 characters is hashed.
#[verifier::external_body]
pub(crate) fn hash_password(password: &str) -> (res: Result<String, String>)
    ensures
        password@.len() <= 1_073_741_823 ==> res is Ok,
        res matches Ok(h) ==> argon2_verify(h@, password@) is Ok,
{
    let salt = argon2::password_hash::SaltString::generate(&mut rand_core::OsRng);
    match argon2::Argon2::default().hash_password(password.as_bytes(), &salt) {
        Ok(h) => Ok(h.to_string()),
        Err(e) => Err(e.to_string()),
    }
}

impl User {
    /// Checks `password` against the stored hash.
    pub fn verify_password(&self, password: String) -> (res: Result<(), String>)
        ensures
            unit_result_view(res) == argon2_verify(self.password_hash@, password@),
    {
        argon2_check(self.password_hash.as_str(), password.as_str())
    }
}

impl User {
    /// The account with new Untis data.
    pub fn with_untis_data(self, untis_cypher: String, person_id: i64) -> (res: User)
        ensures
            res == (User { untis_cypher, person_id, ..self }),
    {
        User { untis_cypher, person_id, ..self }
    }

    /// The account with a new password hash and Untis cypher.
    pub fn with_password(self, password_hash: String, untis_cypher: String) -> (res: User)
        ensures
            res == (User { password_hash, untis_cypher, ..self }),
    {
        User { password_hash, untis_cypher, ..self }
    }

    /// The account with a new e-mail address.
    pub fn with_email(self, email: String) -> (res: User)
        ensures
            res == (User { email, ..self }),
    {
        User { email, ..self }
    }

    /// The account marked as verified.
    pub fn as_verified(self) -> (res: User)
        ensures
            res == (User { verified: true, ..self }),
    {
        User { verified: true, ..self }
    }
}

} // verus!

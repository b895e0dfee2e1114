use vstd::prelude::*;
use vstd::string::StringSliceAdditionalSpecFns;

verus! {

/// Why a password was refused.
#[derive(Debug, Clone, Copy, PartialEq, Eq)]
pub enum PasswordError {
    TooShort,
    TooLong,
    NotEnoughSymbols,
    NotEnoughDigits,
    NotEnoughLetters,
}

/// Minimum length of a password, in characters.
pub const PASS_MIN_LENGTH: usize = 8;
/// Maximum length of a password, in characters.
pub const PASS_MAX_LENGTH: usize = 160;
pub const PASS_MIN_SYMBOLS: usize = 1;
pub const PASS_MIN_DIGITS: usize = 1;
pub const PASS_MIN_LETTERS: usize = 1;

pub const DIGITS: &'static str = "1234567890";
pub const LETTERS: &'static str = "ABCDEFGHIJKLMNOPQRSTUVWXYZabcdefghijklmnopqrstuvwxyz";
pub const SPECIAL_SYMBOLS: &'static str = "-_/\\(){}[]|!@#$%^&*)+=\"\';:<>,.?";

/// Number of characters of `s` (counted with repetition) that occur in `allowed`.
pub open spec fn count_in(s: Seq<char>, allowed: Seq<char>) -> nat
    decreases s.len(),
{
    if s.len() == 0 {
        0
    } else {
        count_in(s.drop_last(), allowed) + if allowed.contains(s.last()) { 1nat } else { 0nat }
    }
}

/// The rule a password must meet, as a result.
pub open spec fn password_verdict(p: Seq<char>) -> Result<(), PasswordError> {
    if p.len() < PASS_MIN_LENGTH {
        Err(PasswordError::TooShort)
    } else if p.len() > PASS_MAX_LENGTH {
        Err(PasswordError::TooLong)
    } else if count_in(p, SPECIAL_SYMBOLS@) < PASS_MIN_SYMBOLS {
        Err(PasswordError::NotEnoughSymbols)
    } else if count_in(p, DIGITS@) < PASS_MIN_DIGITS {
        Err(PasswordError::NotEnoughDigits)
    } else if count_in(p, LETTERS@) < PASS_MIN_LETTERS {
        Err(PasswordError::NotEnoughLetters)
    } else {
        Ok(())
    }
}

fn char_in(allowed: &str, c: char) -> (res: bool)
    ensures
        res == allowed@.contains(c),
{
    let n = allowed.unicode_len();
    let mut i: usize = 0;
    while i < n
        invariant
            n == allowed@.len(),
            i <= n,
            forall|j: int| 0 <= j < i ==> allowed@[j] != c,
        decreases n - i,
    {
        if allowed.get_char(i) == c {
            return true;
        }
        i = i + 1;
    }
    false
}

/// Counts the characters of `pass` that occur in `allowed`.
pub fn contains_number(pass: &str, allowed: &str) -> (count: usize)
    ensures
        count == count_in(pass@, allowed@),
{
    let n = pass.unicode_len();
    let mut i: usize = 0;
    let mut count: usize = 0;
    while i < n
        invariant
            n == pass@.len(),
            i <= n,
            count == count_in(pass@.subrange(0, i as int), allowed@),
            count <= i,
        decreases n - i,
    {
        let c = pass.get_char(i);
        assert(pass@.subrange(0, i + 1).drop_last() =~= pass@.subrange(0, i as int));
        if char_in(allowed, c) {
            count = count + 1;
        }
        i = i + 1;
    }
    assert(pass@.subrange(0, n as int) =~= pass@);
    count
}

/// Checks a new password against the password rules. The first rule broken,
/// in the order length, symbols, digits, letters, decides the error.
pub fn valid_password(password: &str) -> (res: Result<(), PasswordError>)
    ensures
        res == password_verdict(password@),
{
    let n = password.unicode_len();
    if n < PASS_MIN_LENGTH {
        return Err(PasswordError::TooShort);
    }
    if n > PASS_MAX_LENGTH {
        return Err(PasswordError::TooLong);
    }
    if contains_number(password, SPECIAL_SYMBOLS) < PASS_MIN_SYMBOLS {
        return Err(PasswordError::NotEnoughSymbols);
    }
    if contains_number(password, DIGITS) < PASS_MIN_DIGITS {
        return Err(PasswordError::NotEnoughDigits);
    }
    if contains_number(password, LETTERS) < PASS_MIN_LETTERS {
        return Err(PasswordError::NotEnoughLetters);
    }
    Ok(())
}

/// The text of a password error.
pub open spec fn password_message(e: PasswordError) -> Seq<char> {
    match e {
        PasswordError::TooShort => "Password too short. Minimum size: 8 characters"@,
        PasswordError::TooLong => "Password too long. Maximum size: 160 characters"@,
        PasswordError::NotEnoughSymbols => "Password doesn't contain enough Special characters. Minimum special characters: 1"@,
        PasswordError::NotEnoughDigits => "Password doesn't contain enough Digits. Minimum digits: 1"@,
        PasswordError::NotEnoughLetters => "Password doesn't contain enough Letters. Minimum letters: 1"@,
    }
}

impl PasswordError {
    /// The text shown for this error.
    pub fn message(&self) -> (res: String)
        ensures
            res@ == password_message(*self),
    {
        match self {
            PasswordError::TooShort => String::from_str("Password too short. Minimum size: 8 characters"),
            PasswordError::TooLong => String::from_str("Password too long. Maximum size: 160 characters"),
            PasswordError::NotEnoughSymbols => String::from_str(
                "Password doesn't contain enough Special characters. Minimum special characters: 1",
            ),
            PasswordError::NotEnoughDigits => String::from_str(
                "Password doesn't contain enough Digits. Minimum digits: 1",
            ),
            PasswordError::NotEnoughLetters => String::from_str(
                "Password doesn't contain enough Letters. Minimum letters: 1",
            ),
        }
    }
}

/// A password is accepted exactly when it is 8 to 160 characters long and has at
/// least one special symbol, one digit and one letter.
pub proof fn lemma_accepted_passwords(p: Seq<char>)
    ensures
        password_verdict(p) is Ok <==> (8 <= p.len() <= 160 && count_in(p, SPECIAL_SYMBOLS@) >= 1
            && count_in(p, DIGITS@) >= 1 && count_in(p, LETTERS@) >= 1),
{
}

} // verus!

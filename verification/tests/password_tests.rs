use theschedule::password::{
    contains_number, valid_password, PasswordError, DIGITS, LETTERS, SPECIAL_SYMBOLS,
};
use theschedule::error::{Error, MailError};

#[test]
fn counts_characters_from_a_set() {
    assert_eq!(contains_number("abc123", DIGITS), 3);
    assert_eq!(contains_number("abc123", LETTERS), 3);
    assert_eq!(contains_number("a!b?c", SPECIAL_SYMBOLS), 2);
    assert_eq!(contains_number("", DIGITS), 0);
    assert_eq!(contains_number("ääö", LETTERS), 0);
}

#[test]
fn accepts_a_good_password() {
    assert_eq!(valid_password("Abcdef1!"), Ok(()));
    assert_eq!(valid_password("correct-horse-7"), Ok(()));
}

#[test]
fn refuses_short_and_long_passwords() {
    assert_eq!(valid_password("Ab1!"), Err(PasswordError::TooShort));
    assert_eq!(valid_password(""), Err(PasswordError::TooShort));
    let long = "a1!".repeat(54);
    assert_eq!(long.len(), 162);
    assert_eq!(valid_password(&long), Err(PasswordError::TooLong));
    let edge = "a1!".repeat(53) + "a";
    assert_eq!(edge.len(), 160);
    assert_eq!(valid_password(&edge), Ok(()));
}

#[test]
fn length_counts_characters() {
    // seven characters, though the umlauts take two bytes each in UTF-8
    assert_eq!(valid_password("ääää1!a"), Err(PasswordError::TooShort));
    assert_eq!(valid_password("ä1!abcde"), Ok(()));
    // 160 characters of 320 bytes are accepted, 161 are not
    let wide = "ä".repeat(158) + "1!";
    assert_eq!(wide.chars().count(), 160);
    assert_eq!(valid_password(&wide), Err(PasswordError::NotEnoughLetters));
    let wide = "ä".repeat(157) + "a1!";
    assert_eq!(valid_password(&wide), Ok(()));
    let wider = "ä".repeat(158) + "a1!";
    assert_eq!(valid_password(&wider), Err(PasswordError::TooLong));
}

#[test]
fn refuses_missing_character_classes_in_order() {
    assert_eq!(valid_password("abcdefg1"), Err(PasswordError::NotEnoughSymbols));
    assert_eq!(valid_password("abcdefg!"), Err(PasswordError::NotEnoughDigits));
    assert_eq!(valid_password("1234567!"), Err(PasswordError::NotEnoughLetters));
    // symbols are checked before digits
    assert_eq!(valid_password("abcdefgh"), Err(PasswordError::NotEnoughSymbols));
}

#[test]
fn password_error_messages() {
    assert_eq!(PasswordError::TooShort.message(), "Password too short. Minimum size: 8 characters");
    assert_eq!(PasswordError::TooLong.message(), "Password too long. Maximum size: 160 characters");
    assert_eq!(
        PasswordError::NotEnoughSymbols.message(),
        "Password doesn't contain enough Special characters. Minimum special characters: 1"
    );
    assert_eq!(PasswordError::NotEnoughDigits.message(), "Password doesn't contain enough Digits. Minimum digits: 1");
    assert_eq!(PasswordError::NotEnoughLetters.message(), "Password doesn't contain enough Letters. Minimum letters: 1");
}

#[test]
fn error_status_and_page() {
    let e = Error::Password(PasswordError::TooShort);
    assert_eq!(e.status_code(), 403);
    assert_eq!(
        e.error_response(),
        (403, "403 Forbidden\nPassword too short. Minimum size: 8 characters".to_string())
    );
    let d = Error::Database("connection lost".to_string());
    assert_eq!(d.status_code(), 500);
    assert_eq!(d.error_response(), (500, "500 Internal Server Error\nconnection lost".to_string()));
    assert_eq!(Error::CtxFail.message(), "Fail to get Ctx");
    let m = Error::Mail(MailError::InvalidAddress("bob".to_string()));
    assert_eq!(m.message(), "bob is not a recipient");
    assert_eq!(Error::from(PasswordError::NotEnoughDigits), Error::Password(PasswordError::NotEnoughDigits));
}

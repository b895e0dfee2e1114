use vstd::prelude::*;
use crate::password::{PasswordError, password_message};

verus! {

/// Why an e-mail could not be built or sent; outside errors are carried as their message.
#[derive(Debug, PartialEq)]
pub enum MailError {
    InvalidAddress(String),
    MessageCreation(String),
    SMTP(String),
}

/// The errors of the backend. Errors of the database, of Untis requests and of
/// I/O are carried as their message.
#[derive(Debug, PartialEq)]
pub enum Error {
    CtxFail,
    UntisError(String),
    Reqwest(String),
    Database(String),
    Password(PasswordError),
    Mail(MailError),
    IO(String),
}

/// The text of a mail error.
pub open spec fn mail_message(e: MailError) -> Seq<char> {
    match e {
        MailError::InvalidAddress(a) => a@ + " is not a recipient"@,
        MailError::MessageCreation(m) => m@,
        MailError::SMTP(m) => m@,
    }
}

/// The text of an error, as it is shown to a client.
pub open spec fn error_message(e: Error) -> Seq<char> {
    match e {
        Error::CtxFail => "Fail to get Ctx"@,
        Error::UntisError(m) => m@,
        Error::Reqwest(m) => m@,
        Error::Database(m) => m@,
        Error::Password(p) => password_message(p),
        Error::Mail(m) => mail_message(m),
        Error::IO(m) => m@,
    }
}

/// The HTTP status of an error: a refused password is 403, anything else 500.
pub open spec fn error_status(e: Error) -> u16 {
    match e {
        Error::Password(_) => 403,
        _ => 500,
    }
}

/// The body of the HTTP answer to an error of status `code` and text `m`.
pub open spec fn status_body(code: u16, m: Seq<char>) -> Seq<char> {
    if code == 404 {
        "404 Not Found\n"@ + m
    } else if code == 403 {
        "403 Forbidden\n"@ + m
    } else if code == 409 {
        "409 Conflict\n"@ + m
    } else {
        "500 Internal Server Error\n"@ + m
    }
}

/// The status an answer with `code` is sent with: the status itself for 404,
/// 403, 409 and 500, 500 for anything else.
pub open spec fn sent_status(code: u16) -> u16 {
    if code == 404 || code == 403 || code == 409 {
        code
    } else {
        500
    }
}

impl MailError {
    /// The text shown for this error.
    pub fn message(&self) -> (res: String)
        ensures
            res@ == mail_message(*self),
    {
        match self {
            MailError::InvalidAddress(a) => {
                let mut t = a.clone();
                t.append(" is not a recipient");
                t
            },
            MailError::MessageCreation(m) => m.clone(),
            MailError::SMTP(m) => m.clone(),
        }
    }
}

impl Error {
    /// The text shown for this error.
    pub fn message(&self) -> (res: String)
        ensures
            res@ == error_message(*self),
    {
        match self {
            Error::CtxFail => String::from_str("Fail to get Ctx"),
            Error::UntisError(m) => m.clone(),
            Error::Reqwest(m) => m.clone(),
            Error::Database(m) => m.clone(),
            Error::Password(p) => p.message(),
            Error::Mail(m) => m.message(),
            Error::IO(m) => m.clone(),
        }
    }

    /// The HTTP status this error is answered with.
    pub fn status_code(&self) -> (res: u16)
        ensures
            res == error_status(*self),
    {
        match self {
            Error::Password(_) => 403,
            _ => 500,
        }
    }

    /// The HTTP answer to this error: its status and its plain-text body, the
    /// status line followed by the text of the error.
    pub fn error_response(&self) -> (res: (u16, String))
        ensures
            res.0 == sent_status(error_status(*self)),
            res.1@ == status_body(error_status(*self), error_message(*self)),
    {
        let code = self.status_code();
        let m = self.message();
        let mut body = if code == 404 {
            String::from_str("404 Not Found\n")
        } else if code == 403 {
            String::from_str("403 Forbidden\n")
        } else if code == 409 {
            String::from_str("409 Conflict\n")
        } else {
            String::from_str("500 Internal Server Error\n")
        };
        body.append(m.as_str());
        let status = if code == 404 || code == 403 || code == 409 {
            code
        } else {
            500
        };
        (status, body)
    }
}

impl From<PasswordError> for Error {
    fn from(e: PasswordError) -> (res: Error) {
        Error::Password(e)
    }
}

impl vstd::std_specs::convert::FromSpecImpl<PasswordError> for Error {
    open spec fn obeys_from_spec() -> bool {
        true
    }

    open spec fn from_spec(e: PasswordError) -> Error {
        Error::Password(e)
    }
}

impl From<MailError> for Error {
    fn from(e: MailError) -> (res: Error) {
        Error::Mail(e)
    }
}

impl vstd::std_specs::convert::FromSpecImpl<MailError> for Error {
    open spec fn obeys_from_spec() -> bool {
        true
    }

    open spec fn from_spec(e: MailError) -> Error {
        Error::Mail(e)
    }
}

} // verus!

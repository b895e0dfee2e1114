use vstd::prelude::*;
use crate::error::{Error, error_message, error_status, sent_status, status_body};

verus! {

/// How an endpoint answers a request.
#[derive(Debug, PartialEq)]
pub enum Reply {
    /// An error status with a plain-text body.
    Status(u16, String),
    /// A JSON `TextResponse` with this message.
    Text(String),
    /// A JSON `Response` that failed with this code and message.
    Failure(u16, String),
    /// A JSON `Response` that succeeded with this message.
    Success(String),
    /// A JSON `LoginResponse` with this Untis cypher.
    Cypher(String),
    /// A JSON boolean.
    Flag(bool),
}

/// The abstract value of a [`Reply`].
pub enum ReplyView {
    Status(u16, Seq<char>),
    Text(Seq<char>),
    Failure(u16, Seq<char>),
    Success(Seq<char>),
    Cypher(Seq<char>),
    Flag(bool),
}

impl View for Reply {
    type V = ReplyView;

    open spec fn view(&self) -> ReplyView {
        match self {
            Reply::Status(c, m) => ReplyView::Status(*c, m@),
            Reply::Text(m) => ReplyView::Text(m@),
            Reply::Failure(c, m) => ReplyView::Failure(*c, m@),
            Reply::Success(m) => ReplyView::Success(m@),
            Reply::Cypher(c) => ReplyView::Cypher(c@),
            Reply::Flag(b) => ReplyView::Flag(*b),
        }
    }
}

/// Whether an endpoint refuses with an error status or with a failed JSON
/// `Response`.
#[derive(Debug, Clone, Copy, PartialEq, Eq, Structural)]
pub enum Style {
    Status,
    Json,
}

/// A refusal with `code` and `m` in the style of the endpoint.
pub open spec fn refusal(style: Style, code: u16, m: Seq<char>) -> ReplyView {
    match style {
        Style::Status => ReplyView::Status(code, m),
        Style::Json => ReplyView::Failure(code, m),
    }
}

/// Refuses with `code` and `m` in the given style.
pub fn refuse(style: Style, code: u16, m: &str) -> (res: Reply)
    ensures
        res@ == refusal(style, code, m@),
{
    match style {
        Style::Status => Reply::Status(code, String::from_str(m)),
        Style::Json => Reply::Failure(code, String::from_str(m)),
    }
}

/// The answer to an error that an endpoint passes on: its status and its
/// error page.
pub open spec fn error_answer(e: Error) -> ReplyView {
    ReplyView::Status(sent_status(error_status(e)), status_body(error_status(e), error_message(e)))
}

/// Answers with an error that the endpoint passes on.
pub fn error_reply(e: &Error) -> (res: Reply)
    ensures
        res@ == error_answer(*e),
{
    let (code, body) = e.error_response();
    Reply::Status(code, body)
}

} // verus!

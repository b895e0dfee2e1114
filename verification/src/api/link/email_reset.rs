use vstd::prelude::*;
use crate::api::reply::{Reply, ReplyView, Style, refuse};
use crate::api::flow::{Action, Event, answers, copy, uuid_parses, is_uuid, address_parses, is_address, check_link, link_verdict, check_user, user_verdict};
use crate::models::user::User;
use crate::models::links::{Link, LinkType};

verus! {

/// The address an e-mail reset link restores.
pub struct NewMail {
    pub mail: String,
}

/// Where restoring an address through a reset link stands.
pub enum EmailReset {
    Start(String, NewMail),
    /// Waiting for the link.
    LookingUpLink(NewMail),
    /// Waiting for the account of the link.
    LookingUpUser(Link, NewMail),
    /// Waiting to learn whether the address is taken.
    CheckingEmail(Link, User, NewMail),
    /// Waiting for the account to be stored.
    Saving(Link),
    /// Waiting for the link to be deleted; carries the account id.
    DeletingLink(String),
    /// Waiting for the sessions of the account to be deleted.
    LoggingOut,
    Finished,
}

pub open spec fn email_reset_awaits(s: EmailReset, e: Event) -> bool {
    match s {
        EmailReset::Start(..) => e is Start,
        EmailReset::LookingUpLink(_) => e is Link,
        EmailReset::LookingUpUser(..) => e is User,
        EmailReset::CheckingEmail(..) => e is User,
        EmailReset::Saving(_) => e is Done,
        EmailReset::DeletingLink(_) => e is Done,
        EmailReset::LoggingOut => e is Done,
        EmailReset::Finished => false,
    }
}

pub open spec fn reset_ends(res: (EmailReset, Action), v: ReplyView) -> bool {
    res.0 is Finished && answers(res.1, v)
}

/// One step of restoring an address: the reset link names the account; an
/// address that another account has is refused; the account gets the
/// address with everything else kept, the link is deleted (a failure there
/// is ignored) and the account is logged out everywhere.
pub open spec fn email_reset_next(s: EmailReset, e: Event, res: (EmailReset, Action)) -> bool {
    let db = ReplyView::Status(500, "There was a database error"@);
    match s {
        EmailReset::Start(id, b) => if !address_parses(b.mail@) {
            reset_ends(res, ReplyView::Status(422, "Not a valid e-mail"@))
        } else if !uuid_parses(id@) {
            reset_ends(res, ReplyView::Status(422, "UUID is not a valid uuid"@))
        } else {
            res.0 == EmailReset::LookingUpLink(b) && (res.1 matches Action::FetchLink(x) && x@ == id@)
        },
        EmailReset::LookingUpLink(b) => match e {
            Event::Link(r) => match link_verdict(r, Some(LinkType::EmailReset), Style::Status, "There was a database error"@) {
                Err(v) => reset_ends(res, v),
                Ok(l) => res.0 == EmailReset::LookingUpUser(l, b) && (res.1 matches Action::FetchUser(t, k) && t@ == "users"@ && k@ == l.user@),
            },
            _ => false,
        },
        EmailReset::LookingUpUser(l, b) => match e {
            Event::User(r) => match user_verdict(r, Style::Status, "There was a database error"@, "There was a database error"@) {
                Err(v) => reset_ends(res, v),
                Ok(u) => res.0 == EmailReset::CheckingEmail(l, u, b) && (res.1 matches Action::FindUserByEmail(m) && m@ == b.mail@),
            },
            _ => false,
        },
        EmailReset::CheckingEmail(l, u, b) => match e {
            Event::User(Err(_)) => reset_ends(res, db),
            Event::User(Ok(Some(_))) => reset_ends(res, ReplyView::Status(403, "Mail already in use"@)),
            Event::User(Ok(None)) => res.0 == EmailReset::Saving(l) && res.1 == Action::ReplaceUser(User { id: l.user, email: b.mail, ..u }),
            _ => false,
        },
        EmailReset::Saving(l) => match e {
            Event::Done(Err(_)) => reset_ends(res, db),
            Event::Done(Ok(())) => res.0 == EmailReset::DeletingLink(l.user) && res.1 == Action::DeleteLink(l.id),
            _ => false,
        },
        EmailReset::DeletingLink(uid) => match e {
            Event::Done(_) => res.0 is LoggingOut && res.1 == Action::DeleteSessions(uid),
            _ => false,
        },
        EmailReset::LoggingOut => match e {
            Event::Done(Err(_)) => reset_ends(res, db),
            Event::Done(Ok(())) => reset_ends(res, ReplyView::Text("Successfully updated e-mail"@)),
            _ => false,
        },
        EmailReset::Finished => false,
    }
}

fn finish(r: Reply) -> (res: (EmailReset, Action))
    ensures
        res.0 is Finished,
        res.1 == Action::Reply(r),
{
    (EmailReset::Finished, Action::Reply(r))
}

/// One step of restoring an address through a reset link.
pub fn email_reset_step(s: EmailReset, e: Event) -> (res: (EmailReset, Action))
    requires
        email_reset_awaits(s, e),
    ensures
        email_reset_next(s, e, res),
{
    match s {
        EmailReset::Start(id, b) => {
            if !is_address(b.mail.as_str()) {
                return finish(refuse(Style::Status, 422, "Not a valid e-mail"));
            }
            if !is_uuid(id.as_str()) {
                return finish(refuse(Style::Status, 422, "UUID is not a valid uuid"));
            }
            (EmailReset::LookingUpLink(b), Action::FetchLink(id))
        },
        EmailReset::LookingUpLink(b) => match e {
            Event::Link(r) => match check_link(r, Some(LinkType::EmailReset), Style::Status, "There was a database error") {
                Err(x) => finish(x),
                Ok(l) => {
                    proof {
                        reveal_strlit("users");
                    }
                    let k = copy(&l.user);
                    (EmailReset::LookingUpUser(l, b), Action::FetchUser(String::from_str("users"), k))
                },
            },
            _ => finish(refuse(Style::Status, 500, "There was a database error")),
        },
        EmailReset::LookingUpUser(l, b) => match e {
            Event::User(r) => match check_user(r, Style::Status, "There was a database error", "There was a database error") {
                Err(x) => finish(x),
                Ok(u) => {
                    let m = copy(&b.mail);
                    (EmailReset::CheckingEmail(l, u, b), Action::FindUserByEmail(m))
                },
            },
            _ => finish(refuse(Style::Status, 500, "There was a database error")),
        },
        EmailReset::CheckingEmail(l, u, b) => match e {
            Event::User(Err(_)) => finish(refuse(Style::Status, 500, "There was a database error")),
            Event::User(Ok(Some(_))) => finish(refuse(Style::Status, 403, "Mail already in use")),
            Event::User(Ok(None)) => {
                let uid = copy(&l.user);
                let n = User { id: uid, ..u }.with_email(b.mail);
                (EmailReset::Saving(l), Action::ReplaceUser(n))
            },
            _ => finish(refuse(Style::Status, 500, "There was a database error")),
        },
        EmailReset::Saving(l) => match e {
            Event::Done(Err(_)) => finish(refuse(Style::Status, 500, "There was a database error")),
            Event::Done(Ok(())) => (EmailReset::DeletingLink(l.user), Action::DeleteLink(l.id)),
            _ => finish(refuse(Style::Status, 500, "There was a database error")),
        },
        EmailReset::DeletingLink(uid) => (EmailReset::LoggingOut, Action::DeleteSessions(uid)),
        EmailReset::LoggingOut => match e {
            Event::Done(Err(_)) => finish(refuse(Style::Status, 500, "There was a database error")),
            Event::Done(Ok(())) => {
                proof {
                    reveal_strlit("Successfully updated e-mail");
                }
                finish(Reply::Text(String::from_str("Successfully updated e-mail")))
            },
            _ => finish(refuse(Style::Status, 500, "There was a database error")),
        },
        EmailReset::Finished => finish(refuse(Style::Status, 500, "There was a database error")),
    }
}

} // verus!

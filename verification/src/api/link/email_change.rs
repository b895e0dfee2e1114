use vstd::prelude::*;
use crate::api::reply::{Reply, ReplyView, Style, refuse};
use crate::api::flow::{Action, Event, Mail, answers, copy, uuid_parses, is_uuid, address_parses, is_address, check_link, link_verdict, check_user, user_verdict};
use crate::models::user::{User, argon2_verify};
use crate::models::links::{Link, LinkType, link_url};

verus! {

/// The new address and the password that confirms it.
pub struct NewMail {
    pub mail: String,
    pub password: String,
}

/// Where an e-mail change through a change link stands.
pub enum EmailChange {
    Start(String, NewMail),
    /// Waiting for the link.
    LookingUpLink(NewMail),
    /// Waiting for the account of the link.
    LookingUpUser(Link, NewMail),
    /// Waiting to learn whether the new address is taken.
    CheckingEmail(Link, User, NewMail),
    /// Waiting for the account to be stored; carries the link, the old
    /// address and the form.
    Saving(Link, String, NewMail),
    /// Waiting for the link to be deleted; carries the account id.
    DeletingLink(String, String, NewMail),
    /// Waiting for the stored account under its new address.
    FindingUpdated(String, String, NewMail),
    /// Waiting for the sessions to be deleted; carries the stored account.
    LoggingOut(User, String, NewMail),
    /// Waiting for the reset link; carries the old and the new address.
    MakingLink(String, String),
    /// Waiting for the mail to the old address to go out.
    Mailing,
    Finished,
}

pub open spec fn email_change_awaits(s: EmailChange, e: Event) -> bool {
    match s {
        EmailChange::Start(..) => e is Start,
        EmailChange::LookingUpLink(_) => e is Link,
        EmailChange::LookingUpUser(..) => e is User,
        EmailChange::CheckingEmail(..) => e is User,
        EmailChange::Saving(..) => e is Done,
        EmailChange::DeletingLink(..) => e is Done,
        EmailChange::FindingUpdated(..) => e is User,
        EmailChange::LoggingOut(..) => e is Done,
        EmailChange::MakingLink(..) => e is NewLink,
        EmailChange::Mailing => e is Done,
        EmailChange::Finished => false,
    }
}

pub open spec fn change_ends(res: (EmailChange, Action), v: ReplyView) -> bool {
    res.0 is Finished && answers(res.1, v)
}

/// The mail that tells the old address of the change: the reset link and
/// the new address filled in.
pub open spec fn is_changed_mail(m: Mail, old: Seq<char>, url: Seq<char>, new: Seq<char>) -> bool {
    &&& m.to@ == old
    &&& m.subject@ == "Deine E-Mail Addresse wurde geändert"@
    &&& m.template@ == "email_changed.html"@
    &&& m.fills@.len() == 2
    &&& m.fills@[0].0@ == "${{RESET_URL}}"@
    &&& m.fills@[0].1@ == url
    &&& m.fills@[1].0@ == "${{NEW_MAIL}}"@
    &&& m.fills@[1].1@ == new
}

/// One step of an e-mail change: the change link names the account; the
/// password must be right and the new address free. The account gets the
/// new address with everything else kept, the link is deleted (a failure
/// there is ignored), the account is logged out everywhere, and a reset link
/// is mailed to the old address.
pub open spec fn email_change_next(s: EmailChange, e: Event, debug: bool, res: (EmailChange, Action)) -> bool {
    let db = ReplyView::Status(500, "There was a database error"@);
    let mail_failed = ReplyView::Status(500, "There was an error sending out an e-mail"@);
    match s {
        EmailChange::Start(id, b) => if !address_parses(b.mail@) {
            change_ends(res, ReplyView::Status(422, "Not a valid e-mail"@))
        } else if !uuid_parses(id@) {
            change_ends(res, ReplyView::Status(422, "UUID is not a valid uuid"@))
        } else {
            res.0 == EmailChange::LookingUpLink(b) && (res.1 matches Action::FetchLink(x) && x@ == id@)
        },
        EmailChange::LookingUpLink(b) => match e {
            Event::Link(r) => match link_verdict(r, Some(LinkType::EmailChange), Style::Status, "There was a database error"@) {
                Err(v) => change_ends(res, v),
                Ok(l) => res.0 == EmailChange::LookingUpUser(l, b) && (res.1 matches Action::FetchUser(t, k) && t@ == "users"@ && k@ == l.user@),
            },
            _ => false,
        },
        EmailChange::LookingUpUser(l, b) => match e {
            Event::User(r) => match user_verdict(r, Style::Status, "There was a database error"@, "There was a database error"@) {
                Err(v) => change_ends(res, v),
                Ok(u) => if argon2_verify(u.password_hash@, b.password@) is Err {
                    change_ends(res, ReplyView::Status(403, "Wrong Password"@))
                } else {
                    res.0 == EmailChange::CheckingEmail(l, u, b) && (res.1 matches Action::FindUserByEmail(m) && m@ == b.mail@)
                },
            },
            _ => false,
        },
        EmailChange::CheckingEmail(l, u, b) => match e {
            Event::User(Err(_)) => change_ends(res, db),
            Event::User(Ok(Some(_))) => change_ends(res, ReplyView::Status(403, "Mail already in use"@)),
            Event::User(Ok(None)) => res.0 == EmailChange::Saving(l, u.email, b) && res.1 == Action::ReplaceUser(
                User { id: l.user, email: b.mail, ..u },
            ),
            _ => false,
        },
        EmailChange::Saving(l, old, b) => match e {
            Event::Done(Err(_)) => change_ends(res, db),
            Event::Done(Ok(())) => res.0 == EmailChange::DeletingLink(l.user, old, b) && res.1 == Action::DeleteLink(l.id),
            _ => false,
        },
        EmailChange::DeletingLink(uid, old, b) => match e {
            Event::Done(_) => res.0 == EmailChange::FindingUpdated(uid, old, b) && (res.1 matches Action::FindUserByEmail(m) && m@ == b.mail@),
            _ => false,
        },
        EmailChange::FindingUpdated(uid, old, b) => match e {
            Event::User(Ok(Some(n))) => res.0 == EmailChange::LoggingOut(n, old, b) && res.1 == Action::DeleteSessions(uid),
            Event::User(_) => change_ends(res, db),
            _ => false,
        },
        EmailChange::LoggingOut(n, old, b) => match e {
            Event::Done(Err(_)) => change_ends(res, db),
            Event::Done(Ok(())) => res.0 == EmailChange::MakingLink(old, b.mail) && res.1 == Action::CreateLink(n, LinkType::EmailReset),
            _ => false,
        },
        EmailChange::MakingLink(old, new) => match e {
            Event::NewLink(Err(_)) => change_ends(res, mail_failed),
            Event::NewLink(Ok(l)) => res.0 is Mailing && (res.1 matches Action::SendMail(m) && is_changed_mail(m, old@, link_url(l.link_type, l.id@, debug), new@)),
            _ => false,
        },
        EmailChange::Mailing => match e {
            Event::Done(Err(_)) => change_ends(res, mail_failed),
            Event::Done(Ok(())) => change_ends(res, ReplyView::Text("Successfully updated e-mail"@)),
            _ => false,
        },
        EmailChange::Finished => false,
    }
}

fn finish(r: Reply) -> (res: (EmailChange, Action))
    ensures
        res.0 is Finished,
        res.1 == Action::Reply(r),
{
    (EmailChange::Finished, Action::Reply(r))
}

fn changed_mail(old: String, url: String, new: String) -> (res: Mail)
    ensures
        is_changed_mail(res, old@, url@, new@),
{
    proof {
        reveal_strlit("${{RESET_URL}}");
        reveal_strlit("${{NEW_MAIL}}");
    }
    let mut fills: Vec<(String, String)> = Vec::new();
    fills.push((String::from_str("${{RESET_URL}}"), url));
    fills.push((String::from_str("${{NEW_MAIL}}"), new));
    Mail {
        to: old,
        subject: String::from_str("Deine E-Mail Addresse wurde geändert"),
        template: String::from_str("email_changed.html"),
        fills,
    }
}

/// One step of an e-mail change through a change link; `debug` selects the
/// local frontend for links.
pub fn email_change_step(s: EmailChange, e: Event, debug: bool) -> (res: (EmailChange, Action))
    requires
        email_change_awaits(s, e),
    ensures
        email_change_next(s, e, debug, res),
{
    match s {
        EmailChange::Start(id, b) => {
            if !is_address(b.mail.as_str()) {
                return finish(refuse(Style::Status, 422, "Not a valid e-mail"));
            }
            if !is_uuid(id.as_str()) {
                return finish(refuse(Style::Status, 422, "UUID is not a valid uuid"));
            }
            (EmailChange::LookingUpLink(b), Action::FetchLink(id))
        },
        EmailChange::LookingUpLink(b) => match e {
            Event::Link(r) => match check_link(r, Some(LinkType::EmailChange), Style::Status, "There was a database error") {
                Err(x) => finish(x),
                Ok(l) => {
                    proof {
                        reveal_strlit("users");
                    }
                    let k = copy(&l.user);
                    (EmailChange::LookingUpUser(l, b), Action::FetchUser(String::from_str("users"), k))
                },
            },
            _ => finish(refuse(Style::Status, 500, "There was a database error")),
        },
        EmailChange::LookingUpUser(l, b) => match e {
            Event::User(r) => match check_user(r, Style::Status, "There was a database error", "There was a database error") {
                Err(x) => finish(x),
                Ok(u) => {
                    if u.verify_password(copy(&b.password)).is_err() {
                        return finish(refuse(Style::Status, 403, "Wrong Password"));
                    }
                    let m = copy(&b.mail);
                    (EmailChange::CheckingEmail(l, u, b), Action::FindUserByEmail(m))
                },
            },
            _ => finish(refuse(Style::Status, 500, "There was a database error")),
        },
        EmailChange::CheckingEmail(l, u, b) => match e {
            Event::User(Err(_)) => finish(refuse(Style::Status, 500, "There was a database error")),
            Event::User(Ok(Some(_))) => finish(refuse(Style::Status, 403, "Mail already in use")),
            Event::User(Ok(None)) => {
                let old = copy(&u.email);
                let uid = copy(&l.user);
                let mail = copy(&b.mail);
                let n = User { id: uid, ..u }.with_email(mail);
                (EmailChange::Saving(l, old, b), Action::ReplaceUser(n))
            },
            _ => finish(refuse(Style::Status, 500, "There was a database error")),
        },
        EmailChange::Saving(l, old, b) => match e {
            Event::Done(Err(_)) => finish(refuse(Style::Status, 500, "There was a database error")),
            Event::Done(Ok(())) => (EmailChange::DeletingLink(l.user, old, b), Action::DeleteLink(l.id)),
            _ => finish(refuse(Style::Status, 500, "There was a database error")),
        },
        EmailChange::DeletingLink(uid, old, b) => {
            let m = copy(&b.mail);
            (EmailChange::FindingUpdated(uid, old, b), Action::FindUserByEmail(m))
        },
        EmailChange::FindingUpdated(uid, old, b) => match e {
            Event::User(Ok(Some(n))) => (EmailChange::LoggingOut(n, old, b), Action::DeleteSessions(uid)),
            _ => finish(refuse(Style::Status, 500, "There was a database error")),
        },
        EmailChange::LoggingOut(n, old, b) => match e {
            Event::Done(Err(_)) => finish(refuse(Style::Status, 500, "There was a database error")),
            Event::Done(Ok(())) => (EmailChange::MakingLink(old, b.mail), Action::CreateLink(n, LinkType::EmailReset)),
            _ => finish(refuse(Style::Status, 500, "There was a database error")),
        },
        EmailChange::MakingLink(old, new) => match e {
            Event::NewLink(Err(_)) => finish(refuse(Style::Status, 500, "There was an error sending out an e-mail")),
            Event::NewLink(Ok(l)) => {
                let url = l.construct_link(debug);
                (EmailChange::Mailing, Action::SendMail(changed_mail(old, url, new)))
            },
            _ => finish(refuse(Style::Status, 500, "There was an error sending out an e-mail")),
        },
        EmailChange::Mailing => match e {
            Event::Done(Err(_)) => finish(refuse(Style::Status, 500, "There was an error sending out an e-mail")),
            Event::Done(Ok(())) => {
                proof {
                    reveal_strlit("Successfully updated e-mail");
                }
                finish(Reply::Text(String::from_str("Successfully updated e-mail")))
            },
            _ => finish(refuse(Style::Status, 500, "There was an error sending out an e-mail")),
        },
        EmailChange::Finished => finish(refuse(Style::Status, 500, "There was a database error")),
    }
}

} // verus!

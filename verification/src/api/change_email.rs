use vstd::prelude::*;
use crate::api::reply::{Reply, ReplyView, Style, refuse};
use crate::api::flow::{Action, Event, IdentityState, answers, sends, mail_with, copy, check_identity, identity_verdict, well_formed_identity, check_user, user_verdict};
use crate::models::user::User;
use crate::models::links::{LinkType, link_url};

verus! {

/// Where asking for an e-mail change stands.
pub enum ChangeEmail {
    Start(IdentityState),
    /// Waiting for the account of the session.
    LookingUp,
    /// Waiting for the change link; carries the current address.
    MakingLink(String),
    /// Waiting for the mail to go out.
    Mailing,
    Finished,
}

pub open spec fn change_email_awaits(s: ChangeEmail, e: Event) -> bool {
    match s {
        ChangeEmail::Start(id) => e is Start && well_formed_identity(id),
        ChangeEmail::LookingUp => e is User,
        ChangeEmail::MakingLink(_) => e is NewLink,
        ChangeEmail::Mailing => e is Done,
        ChangeEmail::Finished => false,
    }
}

pub open spec fn change_email_ends(res: (ChangeEmail, Action), v: ReplyView) -> bool {
    res.0 is Finished && answers(res.1, v)
}

/// One step of asking for an e-mail change: a change link is made for the
/// account of the session and sent to its current address.
pub open spec fn change_email_next(s: ChangeEmail, e: Event, debug: bool, res: (ChangeEmail, Action)) -> bool {
    let internal = ReplyView::Status(500, "Internal Server Error"@);
    match s {
        ChangeEmail::Start(id) => match identity_verdict(id, Style::Status, "Not logged in"@, "Internal Server Error"@) {
            Err(v) => change_email_ends(res, v),
            Ok((t, k, _)) => res.0 is LookingUp && (res.1 matches Action::FetchUser(x, y) && x@ == t && y@ == k),
        },
        ChangeEmail::LookingUp => match e {
            Event::User(r) => match user_verdict(r, Style::Status, "Internal Server Error"@, "Internal Server Error"@) {
                Err(v) => change_email_ends(res, v),
                Ok(u) => (res.0 matches ChangeEmail::MakingLink(m) && m@ == u.email@) && res.1 == Action::CreateLink(u, LinkType::EmailChange),
            },
            _ => false,
        },
        ChangeEmail::MakingLink(mail) => match e {
            Event::NewLink(Err(_)) => change_email_ends(res, internal),
            Event::NewLink(Ok(l)) => res.0 is Mailing && sends(
                res.1,
                mail@,
                "E-Mail Änderung"@,
                "email_change.html"@,
                "${{CHANGE_URL}}"@,
                link_url(l.link_type, l.id@, debug),
            ),
            _ => false,
        },
        ChangeEmail::Mailing => match e {
            Event::Done(Err(_)) => change_email_ends(res, internal),
            Event::Done(Ok(())) => change_email_ends(res, ReplyView::Text("Sent E-Mail, check your inbox"@)),
            _ => false,
        },
        ChangeEmail::Finished => false,
    }
}

fn finish(r: Reply) -> (res: (ChangeEmail, Action))
    ensures
        res.0 is Finished,
        res.1 == Action::Reply(r),
{
    (ChangeEmail::Finished, Action::Reply(r))
}

/// One step of asking for an e-mail change; `debug` selects the local
/// frontend for links.
pub fn change_email_step(s: ChangeEmail, e: Event, debug: bool) -> (res: (ChangeEmail, Action))
    requires
        change_email_awaits(s, e),
    ensures
        change_email_next(s, e, debug, res),
{
    match s {
        ChangeEmail::Start(id) => match check_identity(id, Style::Status, "Not logged in", "Internal Server Error") {
            Err(r) => finish(r),
            Ok((t, k, _)) => (ChangeEmail::LookingUp, Action::FetchUser(t, k)),
        },
        ChangeEmail::LookingUp => match e {
            Event::User(r) => match check_user(r, Style::Status, "Internal Server Error", "Internal Server Error") {
                Err(x) => finish(x),
                Ok(u) => {
                    let mail = copy(&u.email);
                    (ChangeEmail::MakingLink(mail), Action::CreateLink(u, LinkType::EmailChange))
                },
            },
            _ => finish(refuse(Style::Status, 500, "Internal Server Error")),
        },
        ChangeEmail::MakingLink(mail) => match e {
            Event::NewLink(Err(_)) => finish(refuse(Style::Status, 500, "Internal Server Error")),
            Event::NewLink(Ok(l)) => {
                let url = l.construct_link(debug);
                (ChangeEmail::Mailing, Action::SendMail(mail_with(mail, "E-Mail Änderung", "email_change.html", "${{CHANGE_URL}}", url)))
            },
            _ => finish(refuse(Style::Status, 500, "Internal Server Error")),
        },
        ChangeEmail::Mailing => match e {
            Event::Done(Err(_)) => finish(refuse(Style::Status, 500, "Internal Server Error")),
            Event::Done(Ok(())) => {
                proof {
                    reveal_strlit("Sent E-Mail, check your inbox");
                }
                finish(Reply::Text(String::from_str("Sent E-Mail, check your inbox")))
            },
            _ => finish(refuse(Style::Status, 500, "Internal Server Error")),
        },
        ChangeEmail::Finished => finish(refuse(Style::Status, 500, "Internal Server Error")),
    }
}

} // verus!

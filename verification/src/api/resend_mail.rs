use vstd::prelude::*;
use crate::api::reply::{Reply, ReplyView, Style, refuse};
use crate::api::flow::{Action, Event, IdentityState, answers, sends, mail_with, copy, copy_user, check_identity, identity_verdict, well_formed_identity, check_user, user_verdict};
use crate::models::user::User;
use crate::models::links::{LinkType, link_url};

verus! {

/// Where sending a new verification mail stands.
pub enum ResendMail {
    Start(IdentityState),
    /// Waiting for the account of the session.
    LookingUp,
    /// Waiting for the old verification links to be deleted.
    Clearing(User),
    /// Waiting for the new verification link.
    MakingLink(User),
    /// Waiting for the mail to go out.
    Mailing,
    Finished,
}

pub open spec fn resend_mail_awaits(s: ResendMail, e: Event) -> bool {
    match s {
        ResendMail::Start(id) => e is Start && well_formed_identity(id),
        ResendMail::LookingUp => e is User,
        ResendMail::Clearing(_) => e is Done,
        ResendMail::MakingLink(_) => e is NewLink,
        ResendMail::Mailing => e is Done,
        ResendMail::Finished => false,
    }
}

pub open spec fn resend_ends(res: (ResendMail, Action), v: ReplyView) -> bool {
    res.0 is Finished && answers(res.1, v)
}

/// One step of sending a new verification mail: a verified account is
/// refused; otherwise its old verification links are replaced by a new one,
/// which is mailed to it.
pub open spec fn resend_mail_next(s: ResendMail, e: Event, debug: bool, res: (ResendMail, Action)) -> bool {
    let internal = ReplyView::Status(500, "Internal Server Error"@);
    match s {
        ResendMail::Start(id) => match identity_verdict(id, Style::Status, "Not logged in"@, "Internal Server Error"@) {
            Err(v) => resend_ends(res, v),
            Ok((t, k, _)) => res.0 is LookingUp && (res.1 matches Action::FetchUser(x, y) && x@ == t && y@ == k),
        },
        ResendMail::LookingUp => match e {
            Event::User(r) => match user_verdict(r, Style::Status, "Internal Server Error"@, "Internal Server Error"@) {
                Err(v) => resend_ends(res, v),
                Ok(u) => if u.verified {
                    resend_ends(res, ReplyView::Status(422, "You're already verified"@))
                } else {
                    res.0 == ResendMail::Clearing(u) && (res.1 matches Action::DeleteLinksOfType(x, t) && x@ == u.id@ && t == LinkType::VerifyAccount)
                },
            },
            _ => false,
        },
        ResendMail::Clearing(u) => match e {
            Event::Done(Err(_)) => resend_ends(res, internal),
            Event::Done(Ok(())) => res.0 == ResendMail::MakingLink(u) && res.1 == Action::CreateLink(u, LinkType::VerifyAccount),
            _ => false,
        },
        ResendMail::MakingLink(u) => match e {
            Event::NewLink(Err(_)) => resend_ends(res, internal),
            Event::NewLink(Ok(l)) => res.0 is Mailing && sends(
                res.1,
                u.email@,
                "Accountverifizierung"@,
                "verify.html"@,
                "${{VERIFY_URL}}"@,
                link_url(l.link_type, l.id@, debug),
            ),
            _ => false,
        },
        ResendMail::Mailing => match e {
            Event::Done(Err(_)) => resend_ends(res, internal),
            Event::Done(Ok(())) => resend_ends(res, ReplyView::Text("Sent E-Mail, check your inbox"@)),
            _ => false,
        },
        ResendMail::Finished => false,
    }
}

fn finish(r: Reply) -> (res: (ResendMail, Action))
    ensures
        res.0 is Finished,
        res.1 == Action::Reply(r),
{
    (ResendMail::Finished, Action::Reply(r))
}

/// One step of sending a new verification mail; `debug` selects the local
/// frontend for links.
pub fn resend_mail_step(s: ResendMail, e: Event, debug: bool) -> (res: (ResendMail, Action))
    requires
        resend_mail_awaits(s, e),
    ensures
        resend_mail_next(s, e, debug, res),
{
    match s {
        ResendMail::Start(id) => match check_identity(id, Style::Status, "Not logged in", "Internal Server Error") {
            Err(r) => finish(r),
            Ok((t, k, _)) => (ResendMail::LookingUp, Action::FetchUser(t, k)),
        },
        ResendMail::LookingUp => match e {
            Event::User(r) => match check_user(r, Style::Status, "Internal Server Error", "Internal Server Error") {
                Err(x) => finish(x),
                Ok(u) => if u.verified {
                    finish(refuse(Style::Status, 422, "You're already verified"))
                } else {
                    let id = copy(&u.id);
                    (ResendMail::Clearing(u), Action::DeleteLinksOfType(id, LinkType::VerifyAccount))
                },
            },
            _ => finish(refuse(Style::Status, 500, "Internal Server Error")),
        },
        ResendMail::Clearing(u) => match e {
            Event::Done(Err(_)) => finish(refuse(Style::Status, 500, "Internal Server Error")),
            Event::Done(Ok(())) => {
                let v = copy_user(&u);
                (ResendMail::MakingLink(u), Action::CreateLink(v, LinkType::VerifyAccount))
            },
            _ => finish(refuse(Style::Status, 500, "Internal Server Error")),
        },
        ResendMail::MakingLink(u) => match e {
            Event::NewLink(Err(_)) => finish(refuse(Style::Status, 500, "Internal Server Error")),
            Event::NewLink(Ok(l)) => {
                let url = l.construct_link(debug);
                (ResendMail::Mailing, Action::SendMail(mail_with(u.email, "Accountverifizierung", "verify.html", "${{VERIFY_URL}}", url)))
            },
            _ => finish(refuse(Style::Status, 500, "Internal Server Error")),
        },
        ResendMail::Mailing => match e {
            Event::Done(Err(_)) => finish(refuse(Style::Status, 500, "Internal Server Error")),
            Event::Done(Ok(())) => {
                proof {
                    reveal_strlit("Sent E-Mail, check your inbox");
                }
                finish(Reply::Text(String::from_str("Sent E-Mail, check your inbox")))
            },
            _ => finish(refuse(Style::Status, 500, "Internal Server Error")),
        },
        ResendMail::Finished => finish(refuse(Style::Status, 500, "Internal Server Error")),
    }
}

} // verus!

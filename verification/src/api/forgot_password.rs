use vstd::prelude::*;
use crate::api::reply::{Reply, ReplyView, Style, refuse};
use crate::api::flow::{Action, Event, answers, sends, mail_with, copy, address_parses, is_address};
use crate::models::links::{LinkType, link_url};

verus! {

/// The form that asks for a password reset.
pub struct ForgotPassword {
    pub mail: String,
}

/// Where a password reset request stands.
pub enum Forgot {
    Start(ForgotPassword),
    /// Waiting for the account with the address.
    LookingUp(ForgotPassword),
    /// Waiting for the reset link.
    MakingLink(ForgotPassword),
    /// Waiting for the mail to go out.
    Mailing,
    Finished,
}

pub open spec fn forgot_awaits(s: Forgot, e: Event) -> bool {
    match s {
        Forgot::Start(_) => e is Start,
        Forgot::LookingUp(_) => e is User,
        Forgot::MakingLink(_) => e is NewLink,
        Forgot::Mailing => e is Done,
        Forgot::Finished => false,
    }
}

pub open spec fn forgot_ends(res: (Forgot, Action), v: ReplyView) -> bool {
    res.0 is Finished && answers(res.1, v)
}

/// One step of a password reset request: the account with the address gets
/// a reset link, mailed to the address given.
pub open spec fn forgot_next(s: Forgot, e: Event, debug: bool, res: (Forgot, Action)) -> bool {
    let internal = ReplyView::Status(500, "Internal Server Error"@);
    match s {
        Forgot::Start(b) => if !address_parses(b.mail@) {
            forgot_ends(res, ReplyView::Status(422, "Not a valid e-mail"@))
        } else {
            res.0 == Forgot::LookingUp(b) && (res.1 matches Action::FindUserByEmail(m) && m@ == b.mail@)
        },
        Forgot::LookingUp(b) => match e {
            Event::User(Err(_)) => forgot_ends(res, internal),
            Event::User(Ok(None)) => forgot_ends(res, ReplyView::Status(404, "No account associated with e-mail"@)),
            Event::User(Ok(Some(u))) => res.0 == Forgot::MakingLink(b) && res.1 == Action::CreateLink(u, LinkType::PasswordReset),
            _ => false,
        },
        Forgot::MakingLink(b) => match e {
            Event::NewLink(Err(_)) => forgot_ends(res, internal),
            Event::NewLink(Ok(l)) => res.0 is Mailing && sends(
                res.1,
                b.mail@,
                "Passwort Zurücksetzen"@,
                "password_reset.html"@,
                "${{RESET_URL}}"@,
                link_url(l.link_type, l.id@, debug),
            ),
            _ => false,
        },
        Forgot::Mailing => match e {
            Event::Done(Err(_)) => forgot_ends(res, internal),
            Event::Done(Ok(())) => forgot_ends(res, ReplyView::Text("Sent E-Mail, check your Inbox"@)),
            _ => false,
        },
        Forgot::Finished => false,
    }
}

fn finish(r: Reply) -> (res: (Forgot, Action))
    ensures
        res.0 is Finished,
        res.1 == Action::Reply(r),
{
    (Forgot::Finished, Action::Reply(r))
}

/// One step of a password reset request; `debug` selects the local frontend
/// for links.
pub fn forgot_password_step(s: Forgot, e: Event, debug: bool) -> (res: (Forgot, Action))
    requires
        forgot_awaits(s, e),
    ensures
        forgot_next(s, e, debug, res),
{
    match s {
        Forgot::Start(b) => {
            if !is_address(b.mail.as_str()) {
                return finish(refuse(Style::Status, 422, "Not a valid e-mail"));
            }
            let m = copy(&b.mail);
            (Forgot::LookingUp(b), Action::FindUserByEmail(m))
        },
        Forgot::LookingUp(b) => match e {
            Event::User(Err(_)) => finish(refuse(Style::Status, 500, "Internal Server Error")),
            Event::User(Ok(None)) => finish(refuse(Style::Status, 404, "No account associated with e-mail")),
            Event::User(Ok(Some(u))) => (Forgot::MakingLink(b), Action::CreateLink(u, LinkType::PasswordReset)),
            _ => finish(refuse(Style::Status, 500, "Internal Server Error")),
        },
        Forgot::MakingLink(b) => match e {
            Event::NewLink(Err(_)) => finish(refuse(Style::Status, 500, "Internal Server Error")),
            Event::NewLink(Ok(l)) => {
                let url = l.construct_link(debug);
                (Forgot::Mailing, Action::SendMail(mail_with(b.mail, "Passwort Zurücksetzen", "password_reset.html", "${{RESET_URL}}", url)))
            },
            _ => finish(refuse(Style::Status, 500, "Internal Server Error")),
        },
        Forgot::Mailing => match e {
            Event::Done(Err(_)) => finish(refuse(Style::Status, 500, "Internal Server Error")),
            Event::Done(Ok(())) => {
                proof {
                    reveal_strlit("Sent E-Mail, check your Inbox");
                }
                finish(Reply::Text(String::from_str("Sent E-Mail, check your Inbox")))
            },
            _ => finish(refuse(Style::Status, 500, "Internal Server Error")),
        },
        Forgot::Finished => finish(refuse(Style::Status, 500, "Internal Server Error")),
    }
}

} // verus!

use vstd::prelude::*;
use crate::error::Error;
use crate::api::reply::{Reply, ReplyView, Style, refuse, error_reply, error_answer};
use crate::api::flow::{Action, Event, IdentityState, answers, sends, mail_with, copy, copy_user, check_identity, identity_verdict, well_formed_identity};
use crate::models::user::{User, argon2_verify, hash_password};
use crate::models::links::{LinkType, link_url};
use crate::password::{valid_password, password_verdict};
use crate::text::str_eq;

verus! {

/// The form that changes the password of the logged-in account.
pub struct PasswordChange {
    pub old_password: String,
    pub new_untis_cypher: String,
    pub new_password: String,
}

/// Where a password change stands.
pub enum ChangePassword {
    Start(IdentityState, PasswordChange),
    /// Waiting for the account of the session.
    LookingUp(PasswordChange),
    /// Waiting for the account to be stored.
    Saving(User),
    /// Waiting for the sessions to be deleted.
    LoggingOut(User),
    /// Waiting for the reset link.
    MakingLink(User),
    /// Waiting for the mail to go out.
    Mailing,
    Finished,
}

pub open spec fn change_password_awaits(s: ChangePassword, e: Event) -> bool {
    match s {
        ChangePassword::Start(id, _) => e is Start && well_formed_identity(id),
        ChangePassword::LookingUp(_) => e is User,
        ChangePassword::Saving(_) => e is Done,
        ChangePassword::LoggingOut(_) => e is Done,
        ChangePassword::MakingLink(_) => e is NewLink,
        ChangePassword::Mailing => e is Done,
        ChangePassword::Finished => false,
    }
}

pub open spec fn change_password_ends(res: (ChangePassword, Action), v: ReplyView) -> bool {
    res.0 is Finished && answers(res.1, v)
}

/// The account after a password change: a hash that the new password
/// verifies against and the new Untis cypher; everything else kept.
pub open spec fn changed_account(n: User, u: User, b: PasswordChange) -> bool {
    &&& n == (User { password_hash: n.password_hash, untis_cypher: b.new_untis_cypher, ..u })
    &&& argon2_verify(n.password_hash@, b.new_password@) is Ok
}

/// One step of a password change: the new password must meet the rules and
/// differ from the old one, and the old one must be right. The account is
/// stored with the new password, all its sessions are deleted, and a reset
/// link is mailed to it.
pub open spec fn change_password_next(s: ChangePassword, e: Event, debug: bool, res: (ChangePassword, Action)) -> bool {
    let internal = ReplyView::Failure(500, "Internal Server Error"@);
    let mail_failed = ReplyView::Failure(500, "Error sending mail"@);
    match s {
        ChangePassword::Start(id, b) => match identity_verdict(id, Style::Json, "Not logged in"@, "Internal Server Error"@) {
            Err(v) => change_password_ends(res, v),
            Ok((t, k, _)) => res.0 == ChangePassword::LookingUp(b) && (res.1 matches Action::FetchUser(x, y) && x@ == t && y@ == k),
        },
        ChangePassword::LookingUp(b) => match e {
            Event::User(Err(_)) => change_password_ends(res, ReplyView::Failure(500, "Interal Server Error"@)),
            Event::User(Ok(None)) => change_password_ends(res, internal),
            Event::User(Ok(Some(u))) => match password_verdict(b.new_password@) {
                Err(pe) => change_password_ends(res, error_answer(Error::Password(pe))),
                Ok(()) => if b.old_password@ == b.new_password@ {
                    change_password_ends(res, ReplyView::Failure(400, "New Password can't be Old Password"@))
                } else if argon2_verify(u.password_hash@, b.old_password@) is Err {
                    change_password_ends(res, ReplyView::Failure(403, "Wrong password"@))
                } else {
                    res.0 matches ChangePassword::Saving(n) && changed_account(n, u, b) && res.1 == Action::ReplaceUser(n)
                },
            },
            _ => false,
        },
        ChangePassword::Saving(n) => match e {
            Event::Done(Err(_)) => change_password_ends(res, internal),
            Event::Done(Ok(())) => res.0 == ChangePassword::LoggingOut(n) && (res.1 matches Action::DeleteSessions(x) && x@ == n.id@),
            _ => false,
        },
        ChangePassword::LoggingOut(n) => match e {
            Event::Done(Err(_)) => change_password_ends(res, internal),
            Event::Done(Ok(())) => res.0 == ChangePassword::MakingLink(n) && res.1 == Action::CreateLink(n, LinkType::PasswordReset),
            _ => false,
        },
        ChangePassword::MakingLink(n) => match e {
            Event::NewLink(Err(_)) => change_password_ends(res, mail_failed),
            Event::NewLink(Ok(l)) => res.0 is Mailing && sends(
                res.1,
                n.email@,
                "Dein Passwort wurde geändert"@,
                "password_changed.html"@,
                "${{RESET_URL}}"@,
                link_url(l.link_type, l.id@, debug),
            ),
            _ => false,
        },
        ChangePassword::Mailing => match e {
            Event::Done(Err(_)) => change_password_ends(res, mail_failed),
            Event::Done(Ok(())) => change_password_ends(res, ReplyView::Success("Successfully changed Password"@)),
            _ => false,
        },
        ChangePassword::Finished => false,
    }
}

fn finish(r: Reply) -> (res: (ChangePassword, Action))
    ensures
        res.0 is Finished,
        res.1 == Action::Reply(r),
{
    (ChangePassword::Finished, Action::Reply(r))
}

/// One step of a password change; `debug` selects the local frontend for
/// links.
pub fn change_password_step(s: ChangePassword, e: Event, debug: bool) -> (res: (ChangePassword, Action))
    requires
        change_password_awaits(s, e),
    ensures
        change_password_next(s, e, debug, res),
{
    match s {
        ChangePassword::Start(id, b) => match check_identity(id, Style::Json, "Not logged in", "Internal Server Error") {
            Err(r) => finish(r),
            Ok((t, k, _)) => (ChangePassword::LookingUp(b), Action::FetchUser(t, k)),
        },
        ChangePassword::LookingUp(b) => match e {
            Event::User(Err(_)) => finish(refuse(Style::Json, 500, "Interal Server Error")),
            Event::User(Ok(None)) => finish(refuse(Style::Json, 500, "Internal Server Error")),
            Event::User(Ok(Some(u))) => {
                if let Err(pe) = valid_password(b.new_password.as_str()) {
                    return finish(error_reply(&Error::Password(pe)));
                }
                if str_eq(b.old_password.as_str(), b.new_password.as_str()) {
                    return finish(refuse(Style::Json, 400, "New Password can't be Old Password"));
                }
                if u.verify_password(copy(&b.old_password)).is_err() {
                    return finish(refuse(Style::Json, 403, "Wrong password"));
                }
                let hash = match hash_password(b.new_password.as_str()) {
                    Ok(h) => h,
                    Err(_) => return finish(refuse(Style::Json, 500, "Internal Server Error")),
                };
                let n = u.with_password(hash, b.new_untis_cypher);
                let v = copy_user(&n);
                (ChangePassword::Saving(n), Action::ReplaceUser(v))
            },
            _ => finish(refuse(Style::Json, 500, "Internal Server Error")),
        },
        ChangePassword::Saving(n) => match e {
            Event::Done(Err(_)) => finish(refuse(Style::Json, 500, "Internal Server Error")),
            Event::Done(Ok(())) => {
                let id = copy(&n.id);
                (ChangePassword::LoggingOut(n), Action::DeleteSessions(id))
            },
            _ => finish(refuse(Style::Json, 500, "Internal Server Error")),
        },
        ChangePassword::LoggingOut(n) => match e {
            Event::Done(Err(_)) => finish(refuse(Style::Json, 500, "Internal Server Error")),
            Event::Done(Ok(())) => {
                let v = copy_user(&n);
                (ChangePassword::MakingLink(n), Action::CreateLink(v, LinkType::PasswordReset))
            },
            _ => finish(refuse(Style::Json, 500, "Internal Server Error")),
        },
        ChangePassword::MakingLink(n) => match e {
            Event::NewLink(Err(_)) => finish(refuse(Style::Json, 500, "Error sending mail")),
            Event::NewLink(Ok(l)) => {
                let url = l.construct_link(debug);
                (ChangePassword::Mailing, Action::SendMail(mail_with(n.email, "Dein Passwort wurde geändert", "password_changed.html", "${{RESET_URL}}", url)))
            },
            _ => finish(refuse(Style::Json, 500, "Internal Server Error")),
        },
        ChangePassword::Mailing => match e {
            Event::Done(Err(_)) => finish(refuse(Style::Json, 500, "Error sending mail")),
            Event::Done(Ok(())) => {
                proof {
                    reveal_strlit("Successfully changed Password");
                }
                finish(Reply::Success(String::from_str("Successfully changed Password")))
            },
            _ => finish(refuse(Style::Json, 500, "Internal Server Error")),
        },
        ChangePassword::Finished => finish(refuse(Style::Json, 500, "Internal Server Error")),
    }
}

/// A password change that would keep the password is refused before the old
/// password is even checked.
pub proof fn lemma_same_password_refused(b: PasswordChange, u: User, debug: bool, res: (ChangePassword, Action))
    requires
        b.old_password@ == b.new_password@,
        password_verdict(b.new_password@) is Ok,
        change_password_next(ChangePassword::LookingUp(b), Event::User(Ok(Some(u))), debug, res),
    ensures
        change_password_ends(res, ReplyView::Failure(400, "New Password can't be Old Password"@)),
{
}

/// After a password change the stored account accepts the new password.
pub proof fn lemma_new_password_accepted(b: PasswordChange, u: User, debug: bool, n: User, res: (ChangePassword, Action))
    requires
        change_password_next(ChangePassword::LookingUp(b), Event::User(Ok(Some(u))), debug, res),
        res.1 == Action::ReplaceUser(n),
    ensures
        argon2_verify(n.password_hash@, b.new_password@) is Ok,
        n.id == u.id && n.email == u.email && n.person_id == u.person_id && n.verified == u.verified,
{
}

} // verus!

use vstd::prelude::*;
use crate::error::Error;
use crate::api::reply::{Reply, ReplyView, Style, refuse, error_reply, error_answer};
use crate::api::flow::{Action, Event, answers, copy, uuid_parses, is_uuid, check_link, link_verdict, check_user, user_verdict};
use crate::models::user::{User, argon2_verify, hash_password};
use crate::models::links::{Link, LinkType};
use crate::password::{valid_password, password_verdict};

verus! {

/// The form that sets a new password through a reset link.
pub struct PasswordChange {
    pub new_password: String,
    pub new_untis_cypher: String,
    pub new_person_id: i64,
}

/// Where a password reset stands.
pub enum ResetPassword {
    Start(String, PasswordChange),
    /// Waiting for the link.
    LookingUpLink(PasswordChange),
    /// Waiting for the account of the link; carries the link id.
    LookingUpUser(String, PasswordChange),
    /// Waiting for the account to be stored; carries the link id and the
    /// account id.
    Saving(String, String),
    /// Waiting for the link to be deleted; carries the account id.
    DeletingLink(String),
    /// Waiting for the sessions of the account to be deleted.
    LoggingOut,
    Finished,
}

pub open spec fn reset_password_awaits(s: ResetPassword, e: Event) -> bool {
    match s {
        ResetPassword::Start(..) => e is Start,
        ResetPassword::LookingUpLink(_) => e is Link,
        ResetPassword::LookingUpUser(..) => e is User,
        ResetPassword::Saving(..) => e is Done,
        ResetPassword::DeletingLink(_) => e is Done,
        ResetPassword::LoggingOut => e is Done,
        ResetPassword::Finished => false,
    }
}

pub open spec fn reset_password_ends(res: (ResetPassword, Action), v: ReplyView) -> bool {
    res.0 is Finished && answers(res.1, v)
}

/// The account after a reset: a hash that the new password verifies
/// against, the new Untis cypher and person id; everything else kept.
pub open spec fn reset_account(n: User, u: User, b: PasswordChange) -> bool {
    &&& n == (User {
        password_hash: n.password_hash,
        untis_cypher: b.new_untis_cypher,
        person_id: b.new_person_id,
        ..u
    })
    &&& argon2_verify(n.password_hash@, b.new_password@) is Ok
}

/// One step of a password reset: the new password must meet the rules; the
/// reset link names the account; the current password is not accepted as
/// the new one. The account is stored with the new password, the link is
/// deleted (a failure there is ignored) and the account is logged out
/// everywhere.
pub open spec fn reset_password_next(s: ResetPassword, e: Event, res: (ResetPassword, Action)) -> bool {
    let internal = ReplyView::Status(500, "Internal Server Error"@);
    match s {
        ResetPassword::Start(id, b) => if !uuid_parses(id@) {
            reset_password_ends(res, ReplyView::Status(422, "UUID is not a valid uuid"@))
        } else {
            match password_verdict(b.new_password@) {
                Err(pe) => reset_password_ends(res, error_answer(Error::Password(pe))),
                Ok(()) => res.0 == ResetPassword::LookingUpLink(b) && (res.1 matches Action::FetchLink(x) && x@ == id@),
            }
        },
        ResetPassword::LookingUpLink(b) => match e {
            Event::Link(r) => match link_verdict(r, Some(LinkType::PasswordReset), Style::Status, "There was a database error"@) {
                Err(v) => reset_password_ends(res, v),
                Ok(l) => res.0 == ResetPassword::LookingUpUser(l.id, b) && (res.1 matches Action::FetchUser(t, k) && t@ == "users"@ && k@ == l.user@),
            },
            _ => false,
        },
        ResetPassword::LookingUpUser(lid, b) => match e {
            Event::User(r) => match user_verdict(r, Style::Status, "There was a database error"@, "There was a database error"@) {
                Err(v) => reset_password_ends(res, v),
                Ok(u) => if argon2_verify(u.password_hash@, b.new_password@) is Ok {
                    reset_password_ends(res, ReplyView::Status(422, "New Password can't be Old Password"@))
                } else {
                    let saved = res.0 == ResetPassword::Saving(lid, u.id) && (res.1 matches Action::ReplaceUser(n) && reset_account(n, u, b));
                    // A password that passed the rules at the start is short enough
                    // always to be hashed; only a longer one may fail there.
                    if b.new_password@.len() <= 1_073_741_823 {
                        saved
                    } else {
                        reset_password_ends(res, ReplyView::Status(500, "Unknown error trying to hash password"@)) || saved
                    }
                },
            },
            _ => false,
        },
        ResetPassword::Saving(lid, uid) => match e {
            Event::Done(Err(_)) => reset_password_ends(res, internal),
            Event::Done(Ok(())) => res.0 == ResetPassword::DeletingLink(uid) && res.1 == Action::DeleteLink(lid),
            _ => false,
        },
        ResetPassword::DeletingLink(uid) => match e {
            Event::Done(_) => res.0 is LoggingOut && res.1 == Action::DeleteSessions(uid),
            _ => false,
        },
        ResetPassword::LoggingOut => match e {
            Event::Done(Err(_)) => reset_password_ends(res, internal),
            Event::Done(Ok(())) => reset_password_ends(res, ReplyView::Text("Successfully updated Password"@)),
            _ => false,
        },
        ResetPassword::Finished => false,
    }
}

fn finish(r: Reply) -> (res: (ResetPassword, Action))
    ensures
        res.0 is Finished,
        res.1 == Action::Reply(r),
{
    (ResetPassword::Finished, Action::Reply(r))
}

/// One step of a password reset.
pub fn reset_password_step(s: ResetPassword, e: Event) -> (res: (ResetPassword, Action))
    requires
        reset_password_awaits(s, e),
    ensures
        reset_password_next(s, e, res),
{
    match s {
        ResetPassword::Start(id, b) => {
            if !is_uuid(id.as_str()) {
                return finish(refuse(Style::Status, 422, "UUID is not a valid uuid"));
            }
            if let Err(pe) = valid_password(b.new_password.as_str()) {
                return finish(error_reply(&Error::Password(pe)));
            }
            (ResetPassword::LookingUpLink(b), Action::FetchLink(id))
        },
        ResetPassword::LookingUpLink(b) => match e {
            Event::Link(r) => match check_link(r, Some(LinkType::PasswordReset), Style::Status, "There was a database error") {
                Err(x) => finish(x),
                Ok(l) => {
                    proof {
                        reveal_strlit("users");
                    }
                    (ResetPassword::LookingUpUser(l.id, b), Action::FetchUser(String::from_str("users"), l.user))
                },
            },
            _ => finish(refuse(Style::Status, 500, "Internal Server Error")),
        },
        ResetPassword::LookingUpUser(lid, b) => match e {
            Event::User(r) => match check_user(r, Style::Status, "There was a database error", "There was a database error") {
                Err(x) => finish(x),
                Ok(u) => {
                    if u.verify_password(copy(&b.new_password)).is_ok() {
                        return finish(refuse(Style::Status, 422, "New Password can't be Old Password"));
                    }
                    let hash = match hash_password(b.new_password.as_str()) {
                        Ok(h) => h,
                        Err(_) => return finish(refuse(Style::Status, 500, "Unknown error trying to hash password")),
                    };
                    let uid = copy(&u.id);
                    let n = User { password_hash: hash, untis_cypher: b.new_untis_cypher, person_id: b.new_person_id, ..u };
                    (ResetPassword::Saving(lid, uid), Action::ReplaceUser(n))
                },
            },
            _ => finish(refuse(Style::Status, 500, "Internal Server Error")),
        },
        ResetPassword::Saving(lid, uid) => match e {
            Event::Done(Err(_)) => finish(refuse(Style::Status, 500, "Internal Server Error")),
            Event::Done(Ok(())) => (ResetPassword::DeletingLink(uid), Action::DeleteLink(lid)),
            _ => finish(refuse(Style::Status, 500, "Internal Server Error")),
        },
        ResetPassword::DeletingLink(uid) => (ResetPassword::LoggingOut, Action::DeleteSessions(uid)),
        ResetPassword::LoggingOut => match e {
            Event::Done(Err(_)) => finish(refuse(Style::Status, 500, "Internal Server Error")),
            Event::Done(Ok(())) => {
                proof {
                    reveal_strlit("Successfully updated Password");
                }
                finish(Reply::Text(String::from_str("Successfully updated Password")))
            },
            _ => finish(refuse(Style::Status, 500, "Internal Server Error")),
        },
        ResetPassword::Finished => finish(refuse(Style::Status, 500, "Internal Server Error")),
    }
}

/// A reset to the password the account already has is refused, and nothing
/// is stored.
pub proof fn lemma_reset_to_same_refused(lid: String, b: PasswordChange, u: User, res: (ResetPassword, Action))
    requires
        argon2_verify(u.password_hash@, b.new_password@) is Ok,
        reset_password_next(ResetPassword::LookingUpUser(lid, b), Event::User(Ok(Some(u))), res),
    ensures
        reset_password_ends(res, ReplyView::Status(422, "New Password can't be Old Password"@)),
{
}

} // verus!

use vstd::prelude::*;
use crate::api::reply::{Reply, ReplyView, Style, refuse};
use crate::api::flow::{Action, Event, IdentityState, answers, check_identity, identity_verdict, well_formed_identity, check_user, user_verdict};
use crate::models::user::argon2_verify;

verus! {

/// The form that confirms deleting an account.
pub struct DeleteBody {
    pub password: String,
}

/// Where deleting an account stands.
pub enum Delete {
    Start(IdentityState, DeleteBody),
    /// Waiting for the account of the session; carries the record id and
    /// the whole id.
    LookingUp(String, String, String, DeleteBody),
    /// Waiting for the sessions to be deleted.
    LoggingOut(String, String),
    /// Waiting for the account to be deleted.
    Deleting,
    Finished,
}

pub open spec fn delete_awaits(s: Delete, e: Event) -> bool {
    match s {
        Delete::Start(id, _) => e is Start && well_formed_identity(id),
        Delete::LookingUp(..) => e is User,
        Delete::LoggingOut(..) => e is Done,
        Delete::Deleting => e is Done,
        Delete::Finished => false,
    }
}

pub open spec fn delete_ends(res: (Delete, Action), v: ReplyView) -> bool {
    res.0 is Finished && answers(res.1, v)
}

/// One step of deleting an account: the password must be right; the
/// sessions are deleted (a failure there is ignored), then the account.
pub open spec fn delete_next(s: Delete, e: Event, res: (Delete, Action)) -> bool {
    let internal = ReplyView::Status(500, "Internal Server Error"@);
    match s {
        Delete::Start(id, b) => match identity_verdict(id, Style::Status, "Not logged in"@, "Internal Server Error"@) {
            Err(v) => delete_ends(res, v),
            Ok((t, k, whole)) => (res.0 matches Delete::LookingUp(t2, k2, w2, b2) && t2@ == t && k2@ == k && w2@ == whole && b2 == b)
                && (res.1 matches Action::FetchUser(x, y) && x@ == t && y@ == k),
        },
        Delete::LookingUp(t, k, whole, b) => match e {
            Event::User(r) => match user_verdict(r, Style::Status, "Internal Server Error"@, "Internal Server Error"@) {
                Err(v) => delete_ends(res, v),
                Ok(u) => if argon2_verify(u.password_hash@, b.password@) is Ok {
                    res.0 == Delete::LoggingOut(t, k) && (res.1 matches Action::DeleteSessions(x) && x@ == whole@)
                } else {
                    delete_ends(res, ReplyView::Status(403, "Incorrect Password"@))
                },
            },
            _ => false,
        },
        Delete::LoggingOut(t, k) => match e {
            Event::Done(_) => res.0 is Deleting && res.1 == Action::DeleteUser(t, k),
            _ => false,
        },
        Delete::Deleting => match e {
            Event::Done(Err(_)) => delete_ends(res, internal),
            Event::Done(Ok(())) => delete_ends(res, ReplyView::Text("Deleted your Account, bye-bye!"@)),
            _ => false,
        },
        Delete::Finished => false,
    }
}

fn finish(r: Reply) -> (res: (Delete, Action))
    ensures
        res.0 is Finished,
        res.1 == Action::Reply(r),
{
    (Delete::Finished, Action::Reply(r))
}

/// One step of deleting an account.
pub fn delete_step(s: Delete, e: Event) -> (res: (Delete, Action))
    requires
        delete_awaits(s, e),
    ensures
        delete_next(s, e, res),
{
    match s {
        Delete::Start(id, b) => match check_identity(id, Style::Status, "Not logged in", "Internal Server Error") {
            Err(r) => finish(r),
            Ok((t, k, whole)) => {
                let t2 = t.clone();
                let k2 = k.clone();
                (Delete::LookingUp(t, k, whole, b), Action::FetchUser(t2, k2))
            },
        },
        Delete::LookingUp(t, k, whole, b) => match e {
            Event::User(r) => match check_user(r, Style::Status, "Internal Server Error", "Internal Server Error") {
                Err(x) => finish(x),
                Ok(u) => if u.verify_password(b.password).is_ok() {
                    (Delete::LoggingOut(t, k), Action::DeleteSessions(whole))
                } else {
                    finish(refuse(Style::Status, 403, "Incorrect Password"))
                },
            },
            _ => finish(refuse(Style::Status, 500, "Internal Server Error")),
        },
        Delete::LoggingOut(t, k) => (Delete::Deleting, Action::DeleteUser(t, k)),
        Delete::Deleting => match e {
            Event::Done(Err(_)) => finish(refuse(Style::Status, 500, "Internal Server Error")),
            Event::Done(Ok(())) => {
                proof {
                    reveal_strlit("Deleted your Account, bye-bye!");
                }
                finish(Reply::Text(String::from_str("Deleted your Account, bye-bye!")))
            },
            _ => finish(refuse(Style::Status, 500, "Internal Server Error")),
        },
        Delete::Finished => finish(refuse(Style::Status, 500, "Internal Server Error")),
    }
}

} // verus!

use vstd::prelude::*;
use crate::api::reply::{Reply, ReplyView, Style};
use crate::api::flow::{Action, Event, IdentityState, answers, check_identity, identity_verdict, well_formed_identity, check_user, user_verdict};

verus! {

/// Where the question "is my account verified?" stands.
pub enum Verified {
    Start(IdentityState),
    /// Waiting for the account of the session.
    LookingUp,
    Finished,
}

pub open spec fn verified_awaits(s: Verified, e: Event) -> bool {
    match s {
        Verified::Start(id) => e is Start && well_formed_identity(id),
        Verified::LookingUp => e is User,
        Verified::Finished => false,
    }
}

/// One step: the answer is whether the account of the session is verified.
pub open spec fn verified_next(s: Verified, e: Event, res: (Verified, Action)) -> bool {
    match s {
        Verified::Start(id) => match identity_verdict(id, Style::Status, "Not logged in!"@, "Internal Server Error"@) {
            Err(v) => res.0 is Finished && answers(res.1, v),
            Ok((t, k, _)) => res.0 is LookingUp && (res.1 matches Action::FetchUser(a, b) && a@ == t && b@ == k),
        },
        Verified::LookingUp => match e {
            Event::User(r) => res.0 is Finished && match user_verdict(r, Style::Status, "Internal Server Error"@, "Internal Server Error"@) {
                Err(v) => answers(res.1, v),
                Ok(u) => answers(res.1, ReplyView::Flag(u.verified)),
            },
            _ => false,
        },
        Verified::Finished => false,
    }
}

/// One step of the question.
pub fn verified_step(s: Verified, e: Event) -> (res: (Verified, Action))
    requires
        verified_awaits(s, e),
    ensures
        verified_next(s, e, res),
{
    match s {
        Verified::Start(id) => match check_identity(id, Style::Status, "Not logged in!", "Internal Server Error") {
            Err(r) => (Verified::Finished, Action::Reply(r)),
            Ok((t, k, _)) => (Verified::LookingUp, Action::FetchUser(t, k)),
        },
        Verified::LookingUp => match e {
            Event::User(r) => match check_user(r, Style::Status, "Internal Server Error", "Internal Server Error") {
                Err(x) => (Verified::Finished, Action::Reply(x)),
                Ok(u) => (Verified::Finished, Action::Reply(Reply::Flag(u.verified))),
            },
            _ => (Verified::Finished, Action::Reply(Reply::Status(500, String::new()))),
        },
        Verified::Finished => (Verified::Finished, Action::Reply(Reply::Status(500, String::new()))),
    }
}

} // verus!

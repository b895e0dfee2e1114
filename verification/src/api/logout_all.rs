use vstd::prelude::*;
use crate::api::reply::{Reply, ReplyView, refuse, Style, error_reply, error_answer};
use crate::api::flow::{Action, Event, IdentityState, answers};

verus! {

/// Where a logout from all devices stands.
pub enum LogoutAll {
    Start(IdentityState),
    /// Waiting for the sessions of the user to be deleted.
    Deleting,
    Finished,
}

pub open spec fn logout_all_awaits(s: LogoutAll, e: Event) -> bool {
    match s {
        LogoutAll::Start(_) => e is Start,
        LogoutAll::Deleting => e is Done,
        LogoutAll::Finished => false,
    }
}

pub open spec fn logout_all_ends(res: (LogoutAll, Action), v: ReplyView) -> bool {
    res.0 is Finished && answers(res.1, v)
}

/// One step of a logout from all devices: every session of the logged-in
/// user is deleted; an error of the deletion is passed on.
pub open spec fn logout_all_next(s: LogoutAll, e: Event, res: (LogoutAll, Action)) -> bool {
    match s {
        LogoutAll::Start(id) => match id {
            IdentityState::Anonymous => logout_all_ends(res, ReplyView::Status(403, "Not logged in!"@)),
            IdentityState::Unreadable => logout_all_ends(res, ReplyView::Status(500, "Internal Server Error"@)),
            IdentityState::Known(t) => res.0 is Deleting && (res.1 matches Action::DeleteSessions(x) && x@ == t@),
        },
        LogoutAll::Deleting => match e {
            Event::Done(Err(err)) => logout_all_ends(res, error_answer(err)),
            Event::Done(Ok(())) => logout_all_ends(res, ReplyView::Text("Logged out on all devices!"@)),
            _ => false,
        },
        LogoutAll::Finished => false,
    }
}

fn finish(r: Reply) -> (res: (LogoutAll, Action))
    ensures
        res.0 is Finished,
        res.1 == Action::Reply(r),
{
    (LogoutAll::Finished, Action::Reply(r))
}

/// One step of a logout from all devices.
pub fn logout_all_step(s: LogoutAll, e: Event) -> (res: (LogoutAll, Action))
    requires
        logout_all_awaits(s, e),
    ensures
        logout_all_next(s, e, res),
{
    match s {
        LogoutAll::Start(id) => match id {
            IdentityState::Anonymous => finish(refuse(Style::Status, 403, "Not logged in!")),
            IdentityState::Unreadable => finish(refuse(Style::Status, 500, "Internal Server Error")),
            IdentityState::Known(t) => (LogoutAll::Deleting, Action::DeleteSessions(t)),
        },
        LogoutAll::Deleting => match e {
            Event::Done(Err(err)) => finish(error_reply(&err)),
            Event::Done(Ok(())) => {
                proof {
                    reveal_strlit("Logged out on all devices!");
                }
                finish(Reply::Text(String::from_str("Logged out on all devices!")))
            },
            _ => finish(refuse(Style::Status, 500, "Internal Server Error")),
        },
        LogoutAll::Finished => finish(refuse(Style::Status, 500, "Internal Server Error")),
    }
}

} // verus!

use vstd::prelude::*;
use crate::api::reply::{Reply, ReplyView, Style, refuse};
use crate::api::flow::{Action, Event, answers, uuid_parses, is_uuid, check_link, link_verdict, check_user, user_verdict};
use crate::models::user::User;
use crate::models::links::LinkType;

verus! {

/// Where verifying an account through its link stands.
pub enum Verify {
    Start(String),
    /// Waiting for the link.
    LookingUpLink,
    /// Waiting for the account of the link; carries the link id.
    LookingUpUser(String),
    /// Waiting for the account to be stored; carries the link id.
    Saving(String),
    /// Waiting for the link to be deleted.
    Deleting,
    Finished,
}

pub open spec fn verify_awaits(s: Verify, e: Event) -> bool {
    match s {
        Verify::Start(_) => e is Start,
        Verify::LookingUpLink => e is Link,
        Verify::LookingUpUser(_) => e is User,
        Verify::Saving(_) => e is Done,
        Verify::Deleting => e is Done,
        Verify::Finished => false,
    }
}

pub open spec fn verify_ends(res: (Verify, Action), v: ReplyView) -> bool {
    res.0 is Finished && answers(res.1, v)
}

/// One step of verifying an account: the verification link names the
/// account, which is stored as verified with everything else kept; the link
/// is then deleted (a failure there is ignored).
pub open spec fn verify_next(s: Verify, e: Event, res: (Verify, Action)) -> bool {
    let internal = ReplyView::Failure(500, "Internal Server Error"@);
    match s {
        Verify::Start(id) => if !uuid_parses(id@) {
            verify_ends(res, ReplyView::Failure(400, "UUID is not a valid uuid"@))
        } else {
            res.0 is LookingUpLink && (res.1 matches Action::FetchLink(x) && x@ == id@)
        },
        Verify::LookingUpLink => match e {
            Event::Link(r) => match link_verdict(r, Some(LinkType::VerifyAccount), Style::Json, "There was a database error"@) {
                Err(v) => verify_ends(res, v),
                Ok(l) => res.0 == Verify::LookingUpUser(l.id) && (res.1 matches Action::FetchUser(t, k) && t@ == "users"@ && k@ == l.user@),
            },
            _ => false,
        },
        Verify::LookingUpUser(lid) => match e {
            Event::User(r) => match user_verdict(r, Style::Json, "Internal Server Error"@, "Internal Server Error"@) {
                Err(v) => verify_ends(res, v),
                Ok(u) => res.0 == Verify::Saving(lid) && res.1 == Action::ReplaceUser(User { verified: true, ..u }),
            },
            _ => false,
        },
        Verify::Saving(lid) => match e {
            Event::Done(Err(_)) => verify_ends(res, internal),
            Event::Done(Ok(())) => res.0 is Deleting && res.1 == Action::DeleteLink(lid),
            _ => false,
        },
        Verify::Deleting => match e {
            Event::Done(_) => verify_ends(res, ReplyView::Success("Successfully verified!"@)),
            _ => false,
        },
        Verify::Finished => false,
    }
}

fn finish(r: Reply) -> (res: (Verify, Action))
    ensures
        res.0 is Finished,
        res.1 == Action::Reply(r),
{
    (Verify::Finished, Action::Reply(r))
}

/// One step of verifying an account.
pub fn verify_step(s: Verify, e: Event) -> (res: (Verify, Action))
    requires
        verify_awaits(s, e),
    ensures
        verify_next(s, e, res),
{
    match s {
        Verify::Start(id) => {
            if !is_uuid(id.as_str()) {
                return finish(refuse(Style::Json, 400, "UUID is not a valid uuid"));
            }
            (Verify::LookingUpLink, Action::FetchLink(id))
        },
        Verify::LookingUpLink => match e {
            Event::Link(r) => match check_link(r, Some(LinkType::VerifyAccount), Style::Json, "There was a database error") {
                Err(x) => finish(x),
                Ok(l) => {
                    proof {
                        reveal_strlit("users");
                    }
                    (Verify::LookingUpUser(l.id), Action::FetchUser(String::from_str("users"), l.user))
                },
            },
            _ => finish(refuse(Style::Json, 500, "Internal Server Error")),
        },
        Verify::LookingUpUser(lid) => match e {
            Event::User(r) => match check_user(r, Style::Json, "Internal Server Error", "Internal Server Error") {
                Err(x) => finish(x),
                Ok(u) => (Verify::Saving(lid), Action::ReplaceUser(u.as_verified())),
            },
            _ => finish(refuse(Style::Json, 500, "Internal Server Error")),
        },
        Verify::Saving(lid) => match e {
            Event::Done(Err(_)) => finish(refuse(Style::Json, 500, "Internal Server Error")),
            Event::Done(Ok(())) => (Verify::Deleting, Action::DeleteLink(lid)),
            _ => finish(refuse(Style::Json, 500, "Internal Server Error")),
        },
        Verify::Deleting => {
            proof {
                reveal_strlit("Successfully verified!");
            }
            finish(Reply::Success(String::from_str("Successfully verified!")))
        },
        Verify::Finished => finish(refuse(Style::Json, 500, "Internal Server Error")),
    }
}

} // verus!

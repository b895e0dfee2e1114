use vstd::prelude::*;
use crate::api::reply::{Reply, ReplyView, Style, refuse};
use crate::api::flow::{Action, Event, answers, copy, uuid_parses, is_uuid, address_parses, is_address, check_link, link_verdict, check_user, user_verdict};
use crate::models::user::UserPatch;

verus! {

/// The address a link resets an account to.
pub struct QueryParams {
    pub mail: String,
}

/// Where resetting an address through a link stands.
pub enum EmailResetGet {
    Start(String, QueryParams),
    /// Waiting for the link.
    LookingUpLink(QueryParams),
    /// Waiting for the account of the link; carries its id.
    LookingUpUser(String, QueryParams),
    /// Waiting for the account to be updated.
    Saving,
    Finished,
}

pub open spec fn email_reset_get_awaits(s: EmailResetGet, e: Event) -> bool {
    match s {
        EmailResetGet::Start(..) => e is Start,
        EmailResetGet::LookingUpLink(_) => e is Link,
        EmailResetGet::LookingUpUser(..) => e is User,
        EmailResetGet::Saving => e is Done,
        EmailResetGet::Finished => false,
    }
}

pub open spec fn reset_get_ends(res: (EmailResetGet, Action), v: ReplyView) -> bool {
    res.0 is Finished && answers(res.1, v)
}

/// The update that sets only the address of the account `id`.
pub open spec fn only_email(p: UserPatch, id: Seq<char>, mail: Seq<char>) -> bool {
    &&& p.id@ == id
    &&& p.email matches Some(m) && m@ == mail
    &&& p.password_hash is None
    &&& p.person_id is None
    &&& p.untis_cypher is None
}

/// One step of resetting an address through a link (of any type): the
/// account of the link gets the address of the query.
pub open spec fn email_reset_get_next(s: EmailResetGet, e: Event, res: (EmailResetGet, Action)) -> bool {
    let db = ReplyView::Failure(500, "There was a database error"@);
    match s {
        EmailResetGet::Start(id, q) => if !address_parses(q.mail@) {
            reset_get_ends(res, ReplyView::Failure(400, "Not a valid e-mail"@))
        } else if !uuid_parses(id@) {
            reset_get_ends(res, ReplyView::Failure(400, "UUID is not a valid uuid"@))
        } else {
            res.0 == EmailResetGet::LookingUpLink(q) && (res.1 matches Action::FetchLink(x) && x@ == id@)
        },
        EmailResetGet::LookingUpLink(q) => match e {
            Event::Link(r) => match link_verdict(r, None, Style::Json, "There was a database error"@) {
                Err(v) => reset_get_ends(res, v),
                Ok(l) => res.0 == EmailResetGet::LookingUpUser(l.user, q) && (res.1 matches Action::FetchUser(t, k)
                    && t@ == "users"@ && k@ == l.user@),
            },
            _ => false,
        },
        EmailResetGet::LookingUpUser(uid, q) => match e {
            Event::User(r) => match user_verdict(r, Style::Json, "There was a database error"@, "There was a database error"@) {
                Err(v) => reset_get_ends(res, v),
                Ok(_) => res.0 is Saving && (res.1 matches Action::PatchUser(p) && only_email(p, uid@, q.mail@)),
            },
            _ => false,
        },
        EmailResetGet::Saving => match e {
            Event::Done(Err(_)) => reset_get_ends(res, db),
            Event::Done(Ok(())) => reset_get_ends(res, ReplyView::Success("Successfully update e-mail"@)),
            _ => false,
        },
        EmailResetGet::Finished => false,
    }
}

fn finish(r: Reply) -> (res: (EmailResetGet, Action))
    ensures
        res.0 is Finished,
        res.1 == Action::Reply(r),
{
    (EmailResetGet::Finished, Action::Reply(r))
}

/// One step of resetting an address through a link.
pub fn email_reset_get_step(s: EmailResetGet, e: Event) -> (res: (EmailResetGet, Action))
    requires
        email_reset_get_awaits(s, e),
    ensures
        email_reset_get_next(s, e, res),
{
    match s {
        EmailResetGet::Start(id, q) => {
            if !is_address(q.mail.as_str()) {
                return finish(refuse(Style::Json, 400, "Not a valid e-mail"));
            }
            if !is_uuid(id.as_str()) {
                return finish(refuse(Style::Json, 400, "UUID is not a valid uuid"));
            }
            (EmailResetGet::LookingUpLink(q), Action::FetchLink(id))
        },
        EmailResetGet::LookingUpLink(q) => match e {
            Event::Link(r) => match check_link(r, None, Style::Json, "There was a database error") {
                Err(x) => finish(x),
                Ok(l) => {
                    proof {
                        reveal_strlit("users");
                    }
                    let k = copy(&l.user);
                    (EmailResetGet::LookingUpUser(l.user, q), Action::FetchUser(String::from_str("users"), k))
                },
            },
            _ => finish(refuse(Style::Json, 500, "There was a database error")),
        },
        EmailResetGet::LookingUpUser(uid, q) => match e {
            Event::User(r) => match check_user(r, Style::Json, "There was a database error", "There was a database error") {
                Err(x) => finish(x),
                Ok(_) => {
                    let p = UserPatch {
                        id: uid,
                        email: Some(q.mail),
                        password_hash: None,
                        person_id: None,
                        untis_cypher: None,
                    };
                    (EmailResetGet::Saving, Action::PatchUser(p))
                },
            },
            _ => finish(refuse(Style::Json, 500, "There was a database error")),
        },
        EmailResetGet::Saving => match e {
            Event::Done(Err(_)) => finish(refuse(Style::Json, 500, "There was a database error")),
            Event::Done(Ok(())) => {
                proof {
                    reveal_strlit("Successfully update e-mail");
                }
                finish(Reply::Success(String::from_str("Successfully update e-mail")))
            },
            _ => finish(refuse(Style::Json, 500, "There was a database error")),
        },
        EmailResetGet::Finished => finish(refuse(Style::Json, 500, "There was a database error")),
    }
}

} // verus!

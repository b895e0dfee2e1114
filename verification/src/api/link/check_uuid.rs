use vstd::prelude::*;
use crate::api::reply::{Reply, ReplyView, Style, refuse};
use crate::api::flow::{Action, Event, answers, uuid_parses, is_uuid, check_link, link_verdict};
use crate::models::links::LinkType;

verus! {

/// The link type a link check asks about.
pub struct UuidQuery {
    pub link_type: LinkType,
}

/// Where a link check stands.
pub enum CheckUuid {
    Start(String, UuidQuery),
    /// Waiting for the link.
    LookingUp(UuidQuery),
    Finished,
}

pub open spec fn check_uuid_awaits(s: CheckUuid, e: Event) -> bool {
    match s {
        CheckUuid::Start(..) => e is Start,
        CheckUuid::LookingUp(_) => e is Link,
        CheckUuid::Finished => false,
    }
}

/// One step of a link check: whether a link with the id and type exists.
pub open spec fn check_uuid_next(s: CheckUuid, e: Event, res: (CheckUuid, Action)) -> bool {
    match s {
        CheckUuid::Start(id, q) => if !uuid_parses(id@) {
            res.0 is Finished && answers(res.1, ReplyView::Status(422, "UUID is not a valid uuid"@))
        } else {
            res.0 == CheckUuid::LookingUp(q) && (res.1 matches Action::FetchLink(x) && x@ == id@)
        },
        CheckUuid::LookingUp(q) => match e {
            Event::Link(r) => res.0 is Finished && match link_verdict(r, Some(q.link_type), Style::Status, "Internal Server Error"@) {
                Err(v) => answers(res.1, v),
                Ok(_) => answers(res.1, ReplyView::Text("Link found"@)),
            },
            _ => false,
        },
        CheckUuid::Finished => false,
    }
}

/// One step of a link check.
pub fn check_uuid_step(s: CheckUuid, e: Event) -> (res: (CheckUuid, Action))
    requires
        check_uuid_awaits(s, e),
    ensures
        check_uuid_next(s, e, res),
{
    match s {
        CheckUuid::Start(id, q) => {
            if !is_uuid(id.as_str()) {
                return (CheckUuid::Finished, Action::Reply(refuse(Style::Status, 422, "UUID is not a valid uuid")));
            }
            (CheckUuid::LookingUp(q), Action::FetchLink(id))
        },
        CheckUuid::LookingUp(q) => match e {
            Event::Link(r) => match check_link(r, Some(q.link_type), Style::Status, "Internal Server Error") {
                Err(x) => (CheckUuid::Finished, Action::Reply(x)),
                Ok(_) => {
                    proof {
                        reveal_strlit("Link found");
                    }
                    (CheckUuid::Finished, Action::Reply(Reply::Text(String::from_str("Link found"))))
                },
            },
            _ => (CheckUuid::Finished, Action::Reply(refuse(Style::Status, 500, "Internal Server Error"))),
        },
        CheckUuid::Finished => (CheckUuid::Finished, Action::Reply(refuse(Style::Status, 500, "Internal Server Error"))),
    }
}

} // verus!

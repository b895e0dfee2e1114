use vstd::prelude::*;
use crate::api::reply::{Reply, ReplyView, Style, refuse, error_reply, error_answer};
use crate::api::flow::{Action, Event, answers};
use crate::text::str_eq;

verus! {

/// What the admin endpoints make of the admin password cookie, given the
/// password the server was started with.
pub open spec fn admin_verdict(cookie: Option<Seq<char>>, expected: Seq<char>) -> Result<(), ReplyView> {
    match cookie {
        None => Err(ReplyView::Status(403, "No Adminpassword"@)),
        Some(c) => if c == expected {
            Ok(())
        } else {
            Err(ReplyView::Status(403, "Wrong Password"@))
        },
    }
}

/// Checks the admin password cookie.
pub fn check_admin(cookie: Option<&str>, expected: &str) -> (res: Result<(), Reply>)
    ensures
        match admin_verdict(match cookie {
            Some(c) => Some(c@),
            None => None,
        }, expected@) {
            Ok(()) => res is Ok,
            Err(v) => res matches Err(r) && r@ == v,
        },
{
    match cookie {
        None => Err(refuse(Style::Status, 403, "No Adminpassword")),
        Some(c) => if str_eq(c, expected) {
            Ok(())
        } else {
            Err(refuse(Style::Status, 403, "Wrong Password"))
        },
    }
}

/// The lists that the admin endpoints replace as a whole.
#[derive(Debug, Clone, Copy, PartialEq, Eq, Structural)]
pub enum AdminList {
    Teachers,
    ManualLbs,
    Jahrgaenge,
}

/// What saving a list answers.
pub open spec fn saved_message(l: AdminList) -> Seq<char> {
    match l {
        AdminList::Jahrgaenge => "Jahrgänge updated"@,
        _ => "Teachers updated"@,
    }
}

/// Where replacing a list stands.
pub enum Save {
    /// The request: the cookie, the admin password, the number of items.
    Start(Option<String>, String, usize),
    /// Waiting for the table to be cleared.
    Clearing(usize),
    /// Waiting for the item with the first index to be stored, of the second
    /// number of items.
    Inserting(usize, usize),
    Finished,
}

pub open spec fn save_awaits(s: Save, e: Event) -> bool {
    match s {
        Save::Start(..) => e is Start,
        Save::Clearing(_) => e is Done,
        Save::Inserting(i, n) => e is Done && i < n,
        Save::Finished => false,
    }
}

pub open spec fn save_ends(res: (Save, Action), v: ReplyView) -> bool {
    res.0 is Finished && answers(res.1, v)
}

/// One step of replacing a list: after the admin password is checked, the
/// table is cleared and the items are stored one by one, in order; the
/// first error ends the request.
pub open spec fn save_next(l: AdminList, s: Save, e: Event, res: (Save, Action)) -> bool {
    match s {
        Save::Start(cookie, expected, n) => match admin_verdict(match cookie {
            Some(c) => Some(c@),
            None => None,
        }, expected@) {
            Err(v) => save_ends(res, v),
            Ok(()) => res.0 == Save::Clearing(n) && res.1 is ClearTable,
        },
        Save::Clearing(n) => match e {
            Event::Done(Err(err)) => save_ends(res, error_answer(err)),
            Event::Done(Ok(())) => if n == 0 {
                save_ends(res, ReplyView::Text(saved_message(l)))
            } else {
                res.0 == Save::Inserting(0, n) && res.1 == Action::InsertItem(0)
            },
            _ => false,
        },
        Save::Inserting(i, n) => match e {
            Event::Done(Err(err)) => save_ends(res, error_answer(err)),
            Event::Done(Ok(())) => if i + 1 == n {
                save_ends(res, ReplyView::Text(saved_message(l)))
            } else {
                res.0 == Save::Inserting((i + 1) as usize, n) && res.1 == Action::InsertItem((i + 1) as usize)
            },
            _ => false,
        },
        Save::Finished => false,
    }
}

fn finish(r: Reply) -> (res: (Save, Action))
    ensures
        res.0 is Finished,
        res.1 == Action::Reply(r),
{
    (Save::Finished, Action::Reply(r))
}

fn saved(l: AdminList) -> (res: Reply)
    ensures
        res@ == ReplyView::Text(saved_message(l)),
{
    match l {
        AdminList::Jahrgaenge => {
            proof {
                reveal_strlit("Jahrgänge updated");
            }
            Reply::Text(String::from_str("Jahrgänge updated"))
        },
        _ => {
            proof {
                reveal_strlit("Teachers updated");
            }
            Reply::Text(String::from_str("Teachers updated"))
        },
    }
}

/// One step of replacing a list.
pub fn save_step(l: AdminList, s: Save, e: Event) -> (res: (Save, Action))
    requires
        save_awaits(s, e),
    ensures
        save_next(l, s, e, res),
{
    match s {
        Save::Start(cookie, expected, n) => {
            let c = match &cookie {
                Some(c) => Some(c.as_str()),
                None => None,
            };
            match check_admin(c, expected.as_str()) {
                Err(r) => finish(r),
                Ok(()) => (Save::Clearing(n), Action::ClearTable),
            }
        },
        Save::Clearing(n) => match e {
            Event::Done(Err(err)) => finish(error_reply(&err)),
            Event::Done(Ok(())) => if n == 0 {
                finish(saved(l))
            } else {
                (Save::Inserting(0, n), Action::InsertItem(0))
            },
            _ => finish(refuse(Style::Status, 500, "Internal Server Error")),
        },
        Save::Inserting(i, n) => match e {
            Event::Done(Err(err)) => finish(error_reply(&err)),
            Event::Done(Ok(())) => if i + 1 == n {
                finish(saved(l))
            } else {
                (Save::Inserting(i + 1, n), Action::InsertItem(i + 1))
            },
            _ => finish(refuse(Style::Status, 500, "Internal Server Error")),
        },
        Save::Finished => finish(refuse(Style::Status, 500, "Internal Server Error")),
    }
}

} // verus!

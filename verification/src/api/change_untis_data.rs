use vstd::prelude::*;
use crate::api::reply::{Reply, ReplyView, Style, refuse};
use crate::api::flow::{Action, Event, IdentityState, answers, check_identity, identity_verdict, well_formed_identity, check_user, user_verdict};
use crate::models::user::{User, argon2_verify};

verus! {

/// The form that changes the Untis data of an account.
pub struct UntisData {
    pub password: String,
    pub untis_cypher: String,
    pub person_id: i64,
}

/// Where changing the Untis data stands.
pub enum ChangeUntisData {
    Start(IdentityState, UntisData),
    /// Waiting for the account of the session; carries the whole id.
    LookingUp(String, UntisData),
    /// Waiting for the account to be stored.
    Saving(String),
    /// Waiting for the sessions to be deleted.
    LoggingOut,
    Finished,
}

pub open spec fn change_untis_data_awaits(s: ChangeUntisData, e: Event) -> bool {
    match s {
        ChangeUntisData::Start(id, _) => e is Start && well_formed_identity(id),
        ChangeUntisData::LookingUp(..) => e is User,
        ChangeUntisData::Saving(_) => e is Done,
        ChangeUntisData::LoggingOut => e is Done,
        ChangeUntisData::Finished => false,
    }
}

pub open spec fn untis_ends(res: (ChangeUntisData, Action), v: ReplyView) -> bool {
    res.0 is Finished && answers(res.1, v)
}

/// One step of changing the Untis data: with the right password the account
/// gets the new cypher and person id, everything else kept; then its
/// sessions are deleted (a failure there is ignored).
pub open spec fn change_untis_data_next(s: ChangeUntisData, e: Event, res: (ChangeUntisData, Action)) -> bool {
    let internal = ReplyView::Status(500, "Internal Server Error"@);
    match s {
        ChangeUntisData::Start(id, b) => match identity_verdict(id, Style::Status, "Not logged in"@, "Internal Server Error"@) {
            Err(v) => untis_ends(res, v),
            Ok((t, k, whole)) => (res.0 matches ChangeUntisData::LookingUp(w, b2) && w@ == whole && b2 == b)
                && (res.1 matches Action::FetchUser(x, y) && x@ == t && y@ == k),
        },
        ChangeUntisData::LookingUp(whole, b) => match e {
            Event::User(r) => match user_verdict(r, Style::Status, "Internal Server Error"@, "Internal Server Error"@) {
                Err(v) => untis_ends(res, v),
                Ok(u) => if argon2_verify(u.password_hash@, b.password@) is Ok {
                    res.0 == ChangeUntisData::Saving(whole) && res.1 == Action::ReplaceUser(
                        User { untis_cypher: b.untis_cypher, person_id: b.person_id, ..u },
                    )
                } else {
                    untis_ends(res, ReplyView::Status(403, "Incorrect Password"@))
                },
            },
            _ => false,
        },
        ChangeUntisData::Saving(whole) => match e {
            Event::Done(Err(_)) => untis_ends(res, internal),
            Event::Done(Ok(())) => res.0 is LoggingOut && res.1 == Action::DeleteSessions(whole),
            _ => false,
        },
        ChangeUntisData::LoggingOut => match e {
            Event::Done(_) => untis_ends(res, ReplyView::Text("Successfully changed Untis Data"@)),
            _ => false,
        },
        ChangeUntisData::Finished => false,
    }
}

fn finish(r: Reply) -> (res: (ChangeUntisData, Action))
    ensures
        res.0 is Finished,
        res.1 == Action::Reply(r),
{
    (ChangeUntisData::Finished, Action::Reply(r))
}

/// One step of changing the Untis data.
pub fn change_untis_data_step(s: ChangeUntisData, e: Event) -> (res: (ChangeUntisData, Action))
    requires
        change_untis_data_awaits(s, e),
    ensures
        change_untis_data_next(s, e, res),
{
    match s {
        ChangeUntisData::Start(id, b) => match check_identity(id, Style::Status, "Not logged in", "Internal Server Error") {
            Err(r) => finish(r),
            Ok((t, k, whole)) => (ChangeUntisData::LookingUp(whole, b), Action::FetchUser(t, k)),
        },
        ChangeUntisData::LookingUp(whole, b) => match e {
            Event::User(r) => match check_user(r, Style::Status, "Internal Server Error", "Internal Server Error") {
                Err(x) => finish(x),
                Ok(u) => if u.verify_password(b.password).is_ok() {
                    (ChangeUntisData::Saving(whole), Action::ReplaceUser(u.with_untis_data(b.untis_cypher, b.person_id)))
                } else {
                    finish(refuse(Style::Status, 403, "Incorrect Password"))
                },
            },
            _ => finish(refuse(Style::Status, 500, "Internal Server Error")),
        },
        ChangeUntisData::Saving(whole) => match e {
            Event::Done(Err(_)) => finish(refuse(Style::Status, 500, "Internal Server Error")),
            Event::Done(Ok(())) => (ChangeUntisData::LoggingOut, Action::DeleteSessions(whole)),
            _ => finish(refuse(Style::Status, 500, "Internal Server Error")),
        },
        ChangeUntisData::LoggingOut => {
            proof {
                reveal_strlit("Successfully changed Untis Data");
            }
            finish(Reply::Text(String::from_str("Successfully changed Untis Data")))
        },
        ChangeUntisData::Finished => finish(refuse(Style::Status, 500, "Internal Server Error")),
    }
}

} // verus!

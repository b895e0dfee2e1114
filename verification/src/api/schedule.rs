use vstd::prelude::*;
use crate::error::{Error, error_message};
use crate::api::reply::{Reply, ReplyView, Style, refuse, refusal, error_reply, error_answer};
use crate::api::flow::{IdentityState, check_identity, identity_verdict};
use crate::models::user::User;
use crate::untis::calendar::{this_monday_text, this_friday_text, is_monday_text, is_friday_text, monday_text, friday_text, opt_str_view};

verus! {

/// The days a timetable request asks for (`yyyymmdd`; this week when not
/// given) and, for the service worker, the class.
pub struct TimetableQuery {
    pub from: Option<String>,
    pub until: Option<String>,
    pub class_name: Option<String>,
}

/// The Untis session the service worker sends along.
pub struct ServiceWorkerQuery {
    pub jsessionid: Option<String>,
}

/// The endpoints that show data from Untis.
#[derive(Debug, Clone, Copy, PartialEq, Eq, Structural)]
pub enum Endpoint {
    Timetable,
    Lernbueros,
    FreeRooms,
    ServiceWorker,
}

/// How an endpoint refuses.
pub open spec fn style_of(ep: Endpoint) -> Style {
    match ep {
        Endpoint::Timetable | Endpoint::Lernbueros => Style::Json,
        _ => Style::Status,
    }
}

fn style(ep: Endpoint) -> (res: Style)
    ensures
        res == style_of(ep),
{
    match ep {
        Endpoint::Timetable | Endpoint::Lernbueros => Style::Json,
        _ => Style::Status,
    }
}

/// What an endpoint does with the session and the Untis session id of a
/// request: without a login, or without an Untis session, it refuses with
/// 403; an id it cannot read is refused with 500. Otherwise the record id of
/// the user and the Untis session id.
pub open spec fn access_verdict(ep: Endpoint, id: IdentityState, jsessionid: Option<Seq<char>>) -> Result<
    (Seq<char>, Seq<char>, Seq<char>),
    ReplyView,
> {
    match id {
        IdentityState::Anonymous => Err(refusal(style_of(ep), 403, "Not logged in"@)),
        _ => match jsessionid {
            None => Err(refusal(style_of(ep), 403, "No JSESSIONID provided"@)),
            Some(j) => match identity_verdict(id, style_of(ep), "Not logged in"@, "There was an error trying to get your id"@) {
                Err(v) => Err(v),
                Ok((t, k, _)) => Ok((t, k, j)),
            },
        },
    }
}

/// Checks who asks and with which Untis session: the table and key of the
/// user and the Untis session id.
pub fn check_access(ep: Endpoint, id: IdentityState, jsessionid: Option<String>) -> (res: Result<
    (String, String, String),
    Reply,
>)
    ensures
        match access_verdict(ep, id, match jsessionid {
            Some(j) => Some(j@),
            None => None,
        }) {
            Ok((t, k, j)) => res matches Ok((a, b, c)) && a@ == t && b@ == k && c@ == j,
            Err(v) => res matches Err(r) && r@ == v,
        },
{
    let st = style(ep);
    if let IdentityState::Anonymous = id {
        return Err(refuse(st, 403, "Not logged in"));
    }
    let j = match jsessionid {
        None => return Err(refuse(st, 403, "No JSESSIONID provided")),
        Some(j) => j,
    };
    match check_identity(id, st, "Not logged in", "There was an error trying to get your id") {
        Err(r) => Err(r),
        Ok((t, k, _)) => Ok((t, k, j)),
    }
}

/// The refusal of an account that is not verified, where the endpoint asks
/// for one.
pub open spec fn unverified_answer(ep: Endpoint) -> Option<ReplyView> {
    let m = "Account not verified! Check your E-Mails for a verification link"@;
    match ep {
        Endpoint::Timetable => None,
        Endpoint::Lernbueros => Some(ReplyView::Failure(403, m)),
        Endpoint::FreeRooms => Some(ReplyView::Status(401, m)),
        Endpoint::ServiceWorker => Some(ReplyView::Status(403, m)),
    }
}

/// What an endpoint does with the account it looked up: a failed lookup is
/// passed on, a missing account refused with 404, an unverified one refused
/// where the endpoint asks for verification.
pub open spec fn account_verdict(ep: Endpoint, r: Result<Option<User>, Error>) -> Result<User, ReplyView> {
    match r {
        Err(e) => Err(error_answer(e)),
        Ok(None) => Err(refusal(style_of(ep), 404, "This account doesn't exist!"@)),
        Ok(Some(u)) => if !u.verified && unverified_answer(ep) is Some {
            Err(unverified_answer(ep)->0)
        } else {
            Ok(u)
        },
    }
}

/// Takes the account a lookup found.
pub fn check_account(ep: Endpoint, r: Result<Option<User>, Error>) -> (res: Result<User, Reply>)
    ensures
        match account_verdict(ep, r) {
            Ok(u) => res == Ok::<User, Reply>(u),
            Err(v) => res matches Err(x) && x@ == v,
        },
{
    let st = style(ep);
    match r {
        Err(e) => Err(error_reply(&e)),
        Ok(None) => Err(refuse(st, 404, "This account doesn't exist!")),
        Ok(Some(u)) => {
            if !u.verified {
                match ep {
                    Endpoint::Timetable => {},
                    Endpoint::Lernbueros => return Err(refuse(Style::Json, 403, "Account not verified! Check your E-Mails for a verification link")),
                    Endpoint::FreeRooms => return Err(refuse(Style::Status, 401, "Account not verified! Check your E-Mails for a verification link")),
                    Endpoint::ServiceWorker => return Err(refuse(Style::Status, 403, "Account not verified! Check your E-Mails for a verification link")),
                }
            }
            Ok(u)
        },
    }
}

/// The Untis person id of an account, when it fits.
pub fn untis_person_id(u: &User) -> (res: Option<u16>)
    ensures
        match res {
            Some(p) => p == u.person_id,
            None => !(0 <= u.person_id <= u16::MAX),
        },
{
    if 0 <= u.person_id && u.person_id <= 65535 {
        Some(u.person_id as u16)
    } else {
        None
    }
}

/// The answer when the Untis client could not be set up with the session.
pub open spec fn init_failure_answer(ep: Endpoint, e: Error) -> ReplyView {
    match ep {
        Endpoint::Timetable | Endpoint::Lernbueros => if e is Reqwest {
            ReplyView::Failure(400, "You done fucked up"@)
        } else {
            ReplyView::Failure(500, "Untis done fucked up"@)
        },
        Endpoint::FreeRooms => if e is Reqwest {
            ReplyView::Status(422, "Request could not be processed"@)
        } else {
            ReplyView::Status(500, error_message(e))
        },
        Endpoint::ServiceWorker => match e {
            Error::Reqwest(_) => ReplyView::Status(422, "Request could not be processed"@),
            Error::UntisError(body) => ReplyView::Status(500, body@),
            _ => ReplyView::Status(500, "Unexpected Server Error"@),
        },
    }
}

/// Answers a failed setup of the Untis client.
pub fn init_failure(ep: Endpoint, e: &Error) -> (res: Reply)
    ensures
        res@ == init_failure_answer(ep, *e),
{
    match ep {
        Endpoint::Timetable | Endpoint::Lernbueros => if let Error::Reqwest(_) = e {
            refuse(Style::Json, 400, "You done fucked up")
        } else {
            refuse(Style::Json, 500, "Untis done fucked up")
        },
        Endpoint::FreeRooms => if let Error::Reqwest(_) = e {
            refuse(Style::Status, 422, "Request could not be processed")
        } else {
            Reply::Status(500, e.message())
        },
        Endpoint::ServiceWorker => match e {
            Error::Reqwest(_) => refuse(Style::Status, 422, "Request could not be processed"),
            Error::UntisError(body) => Reply::Status(500, body.clone()),
            _ => refuse(Style::Status, 500, "Unexpected Server Error"),
        },
    }
}

/// The answer when fetching the data from Untis failed.
pub open spec fn fetch_failure_answer(ep: Endpoint, e: Error) -> ReplyView {
    match ep {
        Endpoint::Timetable | Endpoint::Lernbueros => ReplyView::Failure(500, "Fetching from Untis failed"@),
        Endpoint::FreeRooms => ReplyView::Status(500, "Error while fetching rooms"@),
        Endpoint::ServiceWorker => ReplyView::Status(500, error_message(e)),
    }
}

/// Answers a failed fetch of the data.
pub fn fetch_failure(ep: Endpoint, e: &Error) -> (res: Reply)
    ensures
        res@ == fetch_failure_answer(ep, *e),
{
    match ep {
        Endpoint::Timetable | Endpoint::Lernbueros => refuse(Style::Json, 500, "Fetching from Untis failed"),
        Endpoint::FreeRooms => refuse(Style::Status, 500, "Error while fetching rooms"),
        Endpoint::ServiceWorker => Reply::Status(500, e.message()),
    }
}

/// The days asked for: the days given, else the default days `monday` and
/// `friday`; `None` where a default is needed and missing.
pub open spec fn days_asked(
    from: Option<String>,
    until: Option<String>,
    monday: Option<Seq<char>>,
    friday: Option<Seq<char>>,
) -> Option<(Seq<char>, Seq<char>)> {
    let f = match from {
        Some(x) => Some(x@),
        None => monday,
    };
    let u = match until {
        Some(y) => Some(y@),
        None => friday,
    };
    match (f, u) {
        (Some(a), Some(b)) => Some((a, b)),
        _ => None,
    }
}

/// The days a request asks for: the days given, else Monday and Friday of
/// this week as Untis writes them; `None` where a day of this week is needed
/// and chrono cannot represent or write it.
pub fn requested_days(from: Option<String>, until: Option<String>) -> (res: Option<(String, String)>)
    ensures
        exists|today1: i32, today2: i32|
            (match res {
                Some((f, u)) => Some((f@, u@)),
                None => None,
            }) == days_asked(from, until, #[trigger] monday_text(today1), #[trigger] friday_text(today2)),
        match res {
            Some((f, u)) => (match from {
                Some(x) => f == x,
                None => is_monday_text(f@),
            }) && (match until {
                Some(y) => u == y,
                None => is_friday_text(u@),
            }),
            None => from is None || until is None,
        },
{
    let ghost from0 = from;
    let ghost until0 = until;
    let ghost mut t1: i32 = 0;
    let ghost mut t2: i32 = 0;
    let f = match from {
        Some(f) => f,
        None => {
            let m = this_monday_text();
            proof {
                t1 = choose|t: i32| opt_str_view(m) == #[trigger] monday_text(t);
            }
            match m {
                Some(t) => t,
                None => {
                    assert(days_asked(from0, until0, monday_text(t1), friday_text(t2)) is None);
                    return None;
                },
            }
        },
    };
    let u = match until {
        Some(u) => u,
        None => {
            let fr = this_friday_text();
            proof {
                t2 = choose|t: i32| opt_str_view(fr) == #[trigger] friday_text(t);
            }
            match fr {
                Some(t) => t,
                None => {
                    assert(days_asked(from0, until0, monday_text(t1), friday_text(t2)) is None);
                    return None;
                },
            }
        },
    };
    assert(days_asked(from0, until0, monday_text(t1), friday_text(t2)) == Some((f@, u@)));
    Some((f, u))
}

/// What the demo timetable does without a login: it refuses with 403.
pub fn demo_access(logged_in: bool) -> (res: Result<(), Reply>)
    ensures
        logged_in ==> res is Ok,
        !logged_in ==> (res matches Err(r) && r@ == ReplyView::Failure(403, "Not logged in"@)),
{
    if logged_in {
        Ok(())
    } else {
        Err(refuse(Style::Json, 403, "Not logged in"))
    }
}

/// Where a request to an endpoint that shows Untis data stands.
pub enum Schedule {
    /// The request has arrived with this session and Untis session id.
    Start(Endpoint, IdentityState, Option<String>),
    /// Waiting for the account; the Untis session id to use.
    LookingUp(Endpoint, String),
    /// Waiting for the Untis client to be set up.
    Opening(Endpoint),
    /// Waiting for the data.
    Fetching(Endpoint),
    Finished,
}

/// What such an endpoint asks to be done next.
#[derive(Debug, PartialEq)]
pub enum ScheduleAction {
    /// Answer the request; the endpoint is done.
    Reply(Reply),
    /// Look the user up by record id (table, key). `ScheduleEvent::User`.
    FetchUser(String, String),
    /// Set up the Untis client with this session id and person id.
    /// `ScheduleEvent::Opened`.
    OpenUntis(String, u16),
    /// Fetch what the endpoint shows, for the requested days.
    /// `ScheduleEvent::Fetched`.
    Fetch,
    /// Answer with what was fetched; the endpoint is done.
    Show,
}

/// What came of a [`ScheduleAction`].
pub enum ScheduleEvent {
    Start,
    User(Result<Option<User>, Error>),
    Opened(Result<(), Error>),
    Fetched(Result<(), Error>),
}

/// The event each state waits for. An account the endpoint accepts has a
/// person id that Untis can take (a `u16`).
pub open spec fn schedule_awaits(s: Schedule, e: ScheduleEvent) -> bool {
    match s {
        Schedule::Start(..) => e is Start,
        Schedule::LookingUp(ep, _) => match e {
            ScheduleEvent::User(r) => account_verdict(ep, r) matches Ok(u) ==> 0 <= u.person_id <= 65535,
            _ => false,
        },
        Schedule::Opening(_) => e is Opened,
        Schedule::Fetching(_) => e is Fetched,
        Schedule::Finished => false,
    }
}

pub open spec fn schedule_ends(res: (Schedule, ScheduleAction), v: ReplyView) -> bool {
    res.0 is Finished && (res.1 matches ScheduleAction::Reply(r) && r@ == v)
}

/// One step of a request for Untis data: login and Untis session are checked
/// first, then the account, then the Untis client is set up and the data
/// fetched; each failure is answered as the endpoint answers it.
pub open spec fn schedule_next(s: Schedule, e: ScheduleEvent, res: (Schedule, ScheduleAction)) -> bool {
    match s {
        Schedule::Start(ep, id, js) => match access_verdict(ep, id, match js {
            Some(j) => Some(j@),
            None => None,
        }) {
            Err(v) => schedule_ends(res, v),
            Ok((t, k, j)) => (res.0 matches Schedule::LookingUp(ep2, j2) && ep2 == ep && j2@ == j)
                && (res.1 matches ScheduleAction::FetchUser(a, b) && a@ == t && b@ == k),
        },
        Schedule::LookingUp(ep, j) => match e {
            ScheduleEvent::User(r) => match account_verdict(ep, r) {
                Err(v) => schedule_ends(res, v),
                Ok(u) => res.0 == Schedule::Opening(ep) && (res.1 matches ScheduleAction::OpenUntis(x, p)
                    && x == j && p == u.person_id),
            },
            _ => false,
        },
        Schedule::Opening(ep) => match e {
            ScheduleEvent::Opened(Err(err)) => schedule_ends(res, init_failure_answer(ep, err)),
            ScheduleEvent::Opened(Ok(())) => res.0 == Schedule::Fetching(ep) && res.1 == ScheduleAction::Fetch,
            _ => false,
        },
        Schedule::Fetching(ep) => match e {
            ScheduleEvent::Fetched(Err(err)) => schedule_ends(res, fetch_failure_answer(ep, err)),
            ScheduleEvent::Fetched(Ok(())) => res.0 is Finished && res.1 == ScheduleAction::Show,
            _ => false,
        },
        Schedule::Finished => false,
    }
}

fn done(r: Reply) -> (res: (Schedule, ScheduleAction))
    ensures
        res.0 is Finished,
        res.1 == ScheduleAction::Reply(r),
{
    (Schedule::Finished, ScheduleAction::Reply(r))
}

/// One step of a request for Untis data.
pub fn schedule_step(s: Schedule, e: ScheduleEvent) -> (res: (Schedule, ScheduleAction))
    requires
        schedule_awaits(s, e),
    ensures
        schedule_next(s, e, res),
{
    match s {
        Schedule::Start(ep, id, js) => match check_access(ep, id, js) {
            Err(r) => done(r),
            Ok((t, k, j)) => (Schedule::LookingUp(ep, j), ScheduleAction::FetchUser(t, k)),
        },
        Schedule::LookingUp(ep, j) => match e {
            ScheduleEvent::User(r) => match check_account(ep, r) {
                Err(x) => done(x),
                Ok(u) => match untis_person_id(&u) {
                    Some(p) => (Schedule::Opening(ep), ScheduleAction::OpenUntis(j, p)),
                    None => done(refuse(Style::Status, 500, "Internal Server Error")),
                },
            },
            _ => done(refuse(Style::Status, 500, "Internal Server Error")),
        },
        Schedule::Opening(ep) => match e {
            ScheduleEvent::Opened(Err(err)) => done(init_failure(ep, &err)),
            ScheduleEvent::Opened(Ok(())) => (Schedule::Fetching(ep), ScheduleAction::Fetch),
            _ => done(refuse(Style::Status, 500, "Internal Server Error")),
        },
        Schedule::Fetching(ep) => match e {
            ScheduleEvent::Fetched(Err(err)) => done(fetch_failure(ep, &err)),
            ScheduleEvent::Fetched(Ok(())) => (Schedule::Finished, ScheduleAction::Show),
            _ => done(refuse(Style::Status, 500, "Internal Server Error")),
        },
        Schedule::Finished => done(refuse(Style::Status, 500, "Internal Server Error")),
    }
}

} // verus!

use vstd::prelude::*;
use crate::api::reply::{Reply, ReplyView, refuse, Style};
use crate::api::flow::{Action, Event, answers, copy};
use crate::models::user::{User, argon2_verify};

verus! {

/// The login form.
pub struct LoginData {
    pub email: String,
    pub password: String,
}

/// What a successful login answers: the Untis cypher of the account.
pub struct LoginResponse {
    pub untis_cypher: String,
}

/// Where a login stands.
pub enum Login {
    Start(LoginData),
    /// Waiting for the account with the address.
    LookingUp(LoginData),
    /// Waiting for the session to be logged in as the account.
    LoggingIn(User),
    Finished,
}

pub open spec fn login_awaits(s: Login, e: Event) -> bool {
    match s {
        Login::Start(_) => e is Start,
        Login::LookingUp(_) => e is User,
        Login::LoggingIn(_) => e is Done,
        Login::Finished => false,
    }
}

pub open spec fn login_ends(res: (Login, Action), v: ReplyView) -> bool {
    res.0 is Finished && answers(res.1, v)
}

/// The answer to wrong credentials.
pub open spec fn wrong_credentials() -> ReplyView {
    ReplyView::Status(403, "E-Mail or Password is incorrect!"@)
}

/// One step of a login: an unknown address and a wrong password get the
/// same answer; with the right password the session is logged in and the
/// Untis cypher of the account is sent back.
pub open spec fn login_next(s: Login, e: Event, res: (Login, Action)) -> bool {
    match s {
        Login::Start(d) => res.0 == Login::LookingUp(d) && (res.1 matches Action::FindUserByEmail(m) && m@ == d.email@),
        Login::LookingUp(d) => match e {
            Event::User(Err(_)) => login_ends(res, ReplyView::Status(500, "Internal Server Error"@)),
            Event::User(Ok(None)) => login_ends(res, wrong_credentials()),
            Event::User(Ok(Some(u))) => if argon2_verify(u.password_hash@, d.password@) is Ok {
                res.0 == Login::LoggingIn(u) && (res.1 matches Action::Login(id) && id@ == u.id@)
            } else {
                login_ends(res, wrong_credentials())
            },
            _ => false,
        },
        Login::LoggingIn(u) => match e {
            Event::Done(Err(_)) => login_ends(res, ReplyView::Status(500, "Internal Server Error"@)),
            Event::Done(Ok(())) => login_ends(res, ReplyView::Cypher(u.untis_cypher@)),
            _ => false,
        },
        Login::Finished => false,
    }
}

fn finish(r: Reply) -> (res: (Login, Action))
    ensures
        res.0 is Finished,
        res.1 == Action::Reply(r),
{
    (Login::Finished, Action::Reply(r))
}

/// One step of a login.
pub fn login_step(s: Login, e: Event) -> (res: (Login, Action))
    requires
        login_awaits(s, e),
    ensures
        login_next(s, e, res),
{
    match s {
        Login::Start(d) => {
            let m = copy(&d.email);
            (Login::LookingUp(d), Action::FindUserByEmail(m))
        },
        Login::LookingUp(d) => match e {
            Event::User(Err(_)) => finish(refuse(Style::Status, 500, "Internal Server Error")),
            Event::User(Ok(None)) => finish(refuse(Style::Status, 403, "E-Mail or Password is incorrect!")),
            Event::User(Ok(Some(u))) => {
                if u.verify_password(d.password).is_ok() {
                    let id = copy(&u.id);
                    (Login::LoggingIn(u), Action::Login(id))
                } else {
                    finish(refuse(Style::Status, 403, "E-Mail or Password is incorrect!"))
                }
            },
            _ => finish(refuse(Style::Status, 500, "Internal Server Error")),
        },
        Login::LoggingIn(u) => match e {
            Event::Done(Err(_)) => finish(refuse(Style::Status, 500, "Internal Server Error")),
            Event::Done(Ok(())) => finish(Reply::Cypher(u.untis_cypher)),
            _ => finish(refuse(Style::Status, 500, "Internal Server Error")),
        },
        Login::Finished => finish(refuse(Style::Status, 500, "Internal Server Error")),
    }
}

/// A login is refused in the same words whether the address is unknown or
/// the password is wrong.
pub proof fn lemma_login_hides_accounts(d: LoginData, u: User, r1: (Login, Action), r2: (Login, Action))
    requires
        argon2_verify(u.password_hash@, d.password@) is Err,
        login_next(Login::LookingUp(d), Event::User(Ok(None)), r1),
        login_next(Login::LookingUp(d), Event::User(Ok(Some(u))), r2),
    ensures
        r1.0 is Finished && r2.0 is Finished,
        (r1.1 matches Action::Reply(a) && r2.1 matches Action::Reply(b) && a@ == b@),
{
}

} // verus!

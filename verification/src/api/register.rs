use vstd::prelude::*;
use crate::error::Error;
use crate::api::reply::{Reply, ReplyView, refuse, Style, error_reply, error_answer};
use crate::api::flow::{Action, Event, answers, sends, address_parses, is_address, mail_with, copy, copy_user};
use crate::models::user::{User, UserCreate, argon2_verify, hash_password};
use crate::models::links::{LinkType, link_url};
use crate::password::{valid_password, password_verdict};

verus! {

/// The sign-up form.
pub struct RegisterData {
    pub email: String,
    pub password: String,
    pub person_id: i64,
    pub untis_cypher: String,
}

/// Where a sign-up stands.
pub enum Register {
    /// The form has arrived.
    Start(RegisterData),
    /// Waiting to learn whether the address is taken.
    CheckingEmail(RegisterData),
    /// Waiting for the new account to be stored.
    Creating,
    /// Waiting for the verification link of the new account.
    MakingLink(User),
    /// Waiting for the verification mail to go out.
    Mailing(User),
    /// Waiting for the session to be logged in.
    LoggingIn,
    /// Answered.
    Finished,
}

/// The event a sign-up waits for in state `s`.
pub open spec fn register_awaits(s: Register, e: Event) -> bool {
    match s {
        Register::Start(_) => e is Start,
        Register::CheckingEmail(_) => e is User,
        Register::Creating => e is Created,
        Register::MakingLink(_) => e is NewLink,
        Register::Mailing(_) => e is Done,
        Register::LoggingIn => e is Done,
        Register::Finished => false,
    }
}

/// The sign-up ends with the answer `v`.
pub open spec fn register_ends(res: (Register, Action), v: ReplyView) -> bool {
    res.0 is Finished && answers(res.1, v)
}

/// The account a sign-up stores for the form `d`: not yet verified, with a
/// hash that the password verifies against.
pub open spec fn new_account(c: UserCreate, d: RegisterData) -> bool {
    &&& c.email@ == d.email@
    &&& c.person_id == d.person_id
    &&& c.untis_cypher@ == d.untis_cypher@
    &&& !c.verified
    &&& argon2_verify(c.password_hash@, d.password@) is Ok
}

/// One step of a sign-up: the state after the event `e` and what to do next.
/// A taken address is refused (a failed lookup does not stop the sign-up),
/// then the password rules are checked; the new account gets a verification
/// link by mail and the session is logged in.
pub open spec fn register_next(s: Register, e: Event, debug: bool, res: (Register, Action)) -> bool {
    let internal = ReplyView::Status(500, "Internal Server Error"@);
    match s {
        Register::Start(d) => if !address_parses(d.email@) {
            register_ends(res, ReplyView::Status(422, "Not a valid email address"@))
        } else {
            res.0 == Register::CheckingEmail(d) && (res.1 matches Action::FindUserByEmail(m) && m@ == d.email@)
        },
        Register::CheckingEmail(d) => match e {
            Event::User(Ok(Some(_))) => register_ends(res, ReplyView::Status(403, "E-mail already associated to account!"@)),
            _ => match password_verdict(d.password@) {
                Err(pe) => register_ends(res, error_answer(Error::Password(pe))),
                Ok(()) => res.0 is Creating && (res.1 matches Action::CreateUser(c) && new_account(c, d)),
            },
        },
        Register::Creating => match e {
            Event::Created(Err(err)) => register_ends(res, error_answer(err)),
            Event::Created(Ok(u)) => res.0 == Register::MakingLink(u) && (res.1 matches Action::CreateLink(v, t) && v == u && t == LinkType::VerifyAccount),
            _ => false,
        },
        Register::MakingLink(u) => match e {
            Event::NewLink(Err(_)) => register_ends(res, internal),
            Event::NewLink(Ok(l)) => res.0 == Register::Mailing(u) && sends(
                res.1,
                u.email@,
                "Accountverifizierung"@,
                "verify.html"@,
                "${{VERIFY_URL}}"@,
                link_url(l.link_type, l.id@, debug),
            ),
            _ => false,
        },
        Register::Mailing(u) => match e {
            Event::Done(Err(_)) => register_ends(res, internal),
            Event::Done(Ok(())) => res.0 is LoggingIn && (res.1 matches Action::Login(id) && id@ == u.id@),
            _ => false,
        },
        Register::LoggingIn => match e {
            Event::Done(Err(_)) => register_ends(res, internal),
            Event::Done(Ok(())) => register_ends(res, ReplyView::Text("Account successfully registered"@)),
            _ => false,
        },
        Register::Finished => false,
    }
}

fn finish(r: Reply) -> (res: (Register, Action))
    ensures
        res.0 is Finished,
        res.1 == Action::Reply(r),
{
    (Register::Finished, Action::Reply(r))
}

/// One step of a sign-up; `debug` selects the local frontend for links.
pub fn register_step(s: Register, e: Event, debug: bool) -> (res: (Register, Action))
    requires
        register_awaits(s, e),
    ensures
        register_next(s, e, debug, res),
{
    match s {
        Register::Start(d) => {
            if !is_address(d.email.as_str()) {
                return finish(refuse(Style::Status, 422, "Not a valid email address"));
            }
            let m = copy(&d.email);
            (Register::CheckingEmail(d), Action::FindUserByEmail(m))
        },
        Register::CheckingEmail(d) => {
            if let Event::User(Ok(Some(_))) = e {
                return finish(refuse(Style::Status, 403, "E-mail already associated to account!"));
            }
            if let Err(pe) = valid_password(d.password.as_str()) {
                return finish(error_reply(&Error::Password(pe)));
            }
            let hash = match hash_password(d.password.as_str()) {
                Ok(h) => h,
                Err(_) => return finish(refuse(Style::Status, 500, "Internal Server Error")),
            };
            let c = UserCreate {
                email: d.email,
                person_id: d.person_id,
                password_hash: hash,
                untis_cypher: d.untis_cypher,
                verified: false,
            };
            (Register::Creating, Action::CreateUser(c))
        },
        Register::Creating => match e {
            Event::Created(Err(err)) => finish(error_reply(&err)),
            Event::Created(Ok(u)) => {
                let v = copy_user(&u);
                (Register::MakingLink(u), Action::CreateLink(v, LinkType::VerifyAccount))
            },
            _ => finish(refuse(Style::Status, 500, "Internal Server Error")),
        },
        Register::MakingLink(u) => match e {
            Event::NewLink(Err(_)) => finish(refuse(Style::Status, 500, "Internal Server Error")),
            Event::NewLink(Ok(l)) => {
                let url = l.construct_link(debug);
                let m = mail_with(copy(&u.email), "Accountverifizierung", "verify.html", "${{VERIFY_URL}}", url);
                (Register::Mailing(u), Action::SendMail(m))
            },
            _ => finish(refuse(Style::Status, 500, "Internal Server Error")),
        },
        Register::Mailing(u) => match e {
            Event::Done(Err(_)) => finish(refuse(Style::Status, 500, "Internal Server Error")),
            Event::Done(Ok(())) => (Register::LoggingIn, Action::Login(u.id)),
            _ => finish(refuse(Style::Status, 500, "Internal Server Error")),
        },
        Register::LoggingIn => match e {
            Event::Done(Err(_)) => finish(refuse(Style::Status, 500, "Internal Server Error")),
            Event::Done(Ok(())) => {
                proof {
                    reveal_strlit("Account successfully registered");
                }
                finish(Reply::Text(String::from_str("Account successfully registered")))
            },
            _ => finish(refuse(Style::Status, 500, "Internal Server Error")),
        },
        Register::Finished => finish(refuse(Style::Status, 500, "Internal Server Error")),
    }
}

} // verus!

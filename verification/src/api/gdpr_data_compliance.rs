use vstd::prelude::*;
use crate::api::reply::{Reply, ReplyView, Style, refuse};
use crate::api::flow::{Action, DataMail, Event, IdentityState, answers, copy, copy_user, check_identity, identity_verdict, well_formed_identity, check_user, user_verdict};
use crate::models::user::User;
use crate::models::links::Link;
use crate::models::session::GDPRCompliance;

verus! {

/// Where a request for the stored data stands.
pub enum Gdpr {
    Start(IdentityState),
    /// Waiting for the account of the session.
    LookingUp,
    /// Waiting for the links of the account.
    Links(User),
    /// Waiting for the sessions of the account.
    Sessions(User, Vec<Link>),
    /// Waiting for the mail to go out.
    Mailing,
    Finished,
}

pub open spec fn gdpr_awaits(s: Gdpr, e: Event) -> bool {
    match s {
        Gdpr::Start(id) => e is Start && well_formed_identity(id),
        Gdpr::LookingUp => e is User,
        Gdpr::Links(_) => e is Links,
        Gdpr::Sessions(..) => e is Sessions,
        Gdpr::Mailing => e is Done,
        Gdpr::Finished => false,
    }
}

pub open spec fn gdpr_ends(res: (Gdpr, Action), v: ReplyView) -> bool {
    res.0 is Finished && answers(res.1, v)
}

/// The mail of the stored data `data` to the address `to`: subject
/// "Deine Daten bei TheSchedule", text from `gdpr_compliance.html` with the
/// time of sending for `${{TIMESTAMP}}`, the data attached as `daten.json`.
pub open spec fn is_data_mail(m: DataMail, to: Seq<char>, data: GDPRCompliance) -> bool {
    &&& m.to@ == to
    &&& m.subject@ == "Deine Daten bei TheSchedule"@
    &&& m.template@ == "gdpr_compliance.html"@
    &&& m.time_key@ == "${{TIMESTAMP}}"@
    &&& m.attachment@ == "daten.json"@
    &&& m.attachment_type@ == "application/json"@
    &&& m.data == data
}

/// One step of a request for the stored data: the account, its links and its
/// sessions are collected and mailed to the address of the account.
pub open spec fn gdpr_next(s: Gdpr, e: Event, res: (Gdpr, Action)) -> bool {
    let internal = ReplyView::Status(500, "Internal Server Error"@);
    match s {
        Gdpr::Start(id) => match identity_verdict(id, Style::Status, "Not logged in"@, "Internal Server Error"@) {
            Err(v) => gdpr_ends(res, v),
            Ok((t, k, _)) => res.0 is LookingUp && (res.1 matches Action::FetchUser(x, y) && x@ == t && y@ == k),
        },
        Gdpr::LookingUp => match e {
            Event::User(r) => match user_verdict(r, Style::Status, "Internal Server Error"@, "Internal Server Error"@) {
                Err(v) => gdpr_ends(res, v),
                Ok(u) => res.0 == Gdpr::Links(u) && res.1 == Action::FetchLinksOf(u),
            },
            _ => false,
        },
        Gdpr::Links(u) => match e {
            Event::Links(Err(_)) => gdpr_ends(res, internal),
            Event::Links(Ok(ls)) => res.0 == Gdpr::Sessions(u, ls) && (res.1 matches Action::FetchSessionsOf(x) && x@ == u.id@),
            _ => false,
        },
        Gdpr::Sessions(u, ls) => match e {
            Event::Sessions(Err(_)) => gdpr_ends(res, internal),
            Event::Sessions(Ok(ss)) => res.0 is Mailing && (res.1 matches Action::SendDataMail(m)
                && is_data_mail(m, u.email@, GDPRCompliance { user: u, links: ls, sessions: ss })),
            _ => false,
        },
        Gdpr::Mailing => match e {
            Event::Done(Err(_)) => gdpr_ends(res, internal),
            Event::Done(Ok(())) => gdpr_ends(res, ReplyView::Text("Sent E-Mail, check your inbox"@)),
            _ => false,
        },
        Gdpr::Finished => false,
    }
}

fn finish(r: Reply) -> (res: (Gdpr, Action))
    ensures
        res.0 is Finished,
        res.1 == Action::Reply(r),
{
    (Gdpr::Finished, Action::Reply(r))
}

/// One step of a request for the stored data.
pub fn gdpr_data_compliance_step(s: Gdpr, e: Event) -> (res: (Gdpr, Action))
    requires
        gdpr_awaits(s, e),
    ensures
        gdpr_next(s, e, res),
{
    match s {
        Gdpr::Start(id) => match check_identity(id, Style::Status, "Not logged in", "Internal Server Error") {
            Err(r) => finish(r),
            Ok((t, k, _)) => (Gdpr::LookingUp, Action::FetchUser(t, k)),
        },
        Gdpr::LookingUp => match e {
            Event::User(r) => match check_user(r, Style::Status, "Internal Server Error", "Internal Server Error") {
                Err(x) => finish(x),
                Ok(u) => {
                    let v = copy_user(&u);
                    (Gdpr::Links(u), Action::FetchLinksOf(v))
                },
            },
            _ => finish(refuse(Style::Status, 500, "Internal Server Error")),
        },
        Gdpr::Links(u) => match e {
            Event::Links(Err(_)) => finish(refuse(Style::Status, 500, "Internal Server Error")),
            Event::Links(Ok(ls)) => {
                let id = copy(&u.id);
                (Gdpr::Sessions(u, ls), Action::FetchSessionsOf(id))
            },
            _ => finish(refuse(Style::Status, 500, "Internal Server Error")),
        },
        Gdpr::Sessions(u, ls) => match e {
            Event::Sessions(Err(_)) => finish(refuse(Style::Status, 500, "Internal Server Error")),
            Event::Sessions(Ok(ss)) => {
                proof {
                    reveal_strlit("Deine Daten bei TheSchedule");
                    reveal_strlit("gdpr_compliance.html");
                    reveal_strlit("${{TIMESTAMP}}");
                    reveal_strlit("daten.json");
                    reveal_strlit("application/json");
                }
                let m = DataMail {
                    to: copy(&u.email),
                    subject: String::from_str("Deine Daten bei TheSchedule"),
                    template: String::from_str("gdpr_compliance.html"),
                    time_key: String::from_str("${{TIMESTAMP}}"),
                    attachment: String::from_str("daten.json"),
                    attachment_type: String::from_str("application/json"),
                    data: GDPRCompliance { user: u, links: ls, sessions: ss },
                };
                (Gdpr::Mailing, Action::SendDataMail(m))
            },
            _ => finish(refuse(Style::Status, 500, "Internal Server Error")),
        },
        Gdpr::Mailing => match e {
            Event::Done(Err(_)) => finish(refuse(Style::Status, 500, "Internal Server Error")),
            Event::Done(Ok(())) => {
                proof {
                    reveal_strlit("Sent E-Mail, check your inbox");
                }
                finish(Reply::Text(String::from_str("Sent E-Mail, check your inbox")))
            },
            _ => finish(refuse(Style::Status, 500, "Internal Server Error")),
        },
        Gdpr::Finished => finish(refuse(Style::Status, 500, "Internal Server Error")),
    }
}

} // verus!

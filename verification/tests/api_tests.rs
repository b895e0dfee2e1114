use theschedule::api::reply::Reply;
use theschedule::api::response::{Response, ResponseResult, ResponseError};
use theschedule::api::flow::{Action, DataMail, Event, IdentityState, Mail, render_mail};
use theschedule::api::gdpr_data_compliance::{gdpr_data_compliance_step, Gdpr};
use theschedule::models::session::{GDPRCompliance, Session};
use theschedule::api::register::{register_step, Register, RegisterData};
use theschedule::api::login::{login_step, Login, LoginData};
use theschedule::api::logout::logout_post;
use theschedule::api::check_session::check_session_get;
use theschedule::api::delete::{delete_step, Delete, DeleteBody};
use theschedule::api::change_password::{change_password_step, ChangePassword, PasswordChange};
use theschedule::api::link::check_uuid::{check_uuid_step, CheckUuid, UuidQuery};
use theschedule::api::link::verify::{verify_step, Verify};
use theschedule::api::link::password::{reset_password_step, ResetPassword, PasswordChange as ResetForm};
use theschedule::api::link::email_change::{email_change_step, EmailChange, NewMail};
use theschedule::api::admin::{check_admin, save_step, AdminList, Save};
use theschedule::api::schedule::{check_access, check_account, init_failure, fetch_failure, Endpoint, schedule_step, Schedule, ScheduleAction, ScheduleEvent};
use theschedule::error::Error;
use theschedule::models::user::{User, UserCreate};
use theschedule::models::links::{Link, LinkType, link_lookup, LinkLookup, link_validity, Validity};
use theschedule::governor::{key_source, extract_key, KeySource, AddressText, extractor_name};

const UUID: &str = "550e8400-e29b-41d4-a716-446655440000";

/// An Argon2id hash of `Abcdef1!` with small parameters, made by another
/// Argon2 implementation.
const CHEAP_HASH: &str = "$argon2id$v=19$m=8,t=1,p=1$c2FsdHNhbHRzYWx0c2FsdA$sdupKMtBKHK1HjGQxkSVAFfm/i4cEnYUGQkWNv0h+Oc";

fn user(hash: &str, verified: bool) -> User {
    User {
        id: "abc".to_string(),
        email: "old@example.com".to_string(),
        person_id: 17,
        password_hash: hash.to_string(),
        untis_cypher: "cypher".to_string(),
        verified,
    }
}

fn link(t: LinkType) -> Link {
    Link { id: UUID.to_string(), user: "abc".to_string(), link_type: t, expiry: 1_000 }
}

/// Signs up with `password` and returns the hash the new account gets.
fn hash_of(password: &str) -> String {
    let d = RegisterData { email: "new@example.com".to_string(), password: password.to_string(), person_id: 1, untis_cypher: "c".to_string() };
    let (s, _) = register_step(Register::Start(d), Event::Start, false);
    match register_step(s, Event::User(Ok(None)), false) {
        (Register::Creating, Action::CreateUser(c)) => c.password_hash,
        other => panic!("unexpected {:?}", other.1),
    }
}

#[test]
fn responses() {
    let r: Response<String> = Response::new_error(404, "nope".to_string());
    assert!(!r.success);
    assert!(matches!(r.body, ResponseResult::Failure(ResponseError { code: 404, ref message }) if message == "nope"));
    let s = Response::new_success(5u8);
    assert!(s.success);
    assert!(matches!(s.body, ResponseResult::Success(5)));
    let e: Response<u8> = Response::from_error(Error::UntisError("x 155".to_string()));
    assert!(matches!(e.body, ResponseResult::Failure(ResponseError { code: 500, ref message }) if message == "x 155"));
}

#[test]
fn sign_up_checks_address_then_password() {
    let d = RegisterData { email: "no address".to_string(), password: "Abcdef1!".to_string(), person_id: 1, untis_cypher: "c".to_string() };
    let (s, a) = register_step(Register::Start(d), Event::Start, false);
    assert!(matches!(s, Register::Finished));
    assert_eq!(a, Action::Reply(Reply::Status(422, "Not a valid email address".to_string())));

    let d = RegisterData { email: "a@b.de".to_string(), password: "short".to_string(), person_id: 1, untis_cypher: "c".to_string() };
    let (s, a) = register_step(Register::Start(d), Event::Start, false);
    assert_eq!(a, Action::FindUserByEmail("a@b.de".to_string()));
    let (_, a) = register_step(s, Event::User(Ok(None)), false);
    assert_eq!(a, Action::Reply(Reply::Status(403, "403 Forbidden\nPassword too short. Minimum size: 8 characters".to_string())));

    let d = RegisterData { email: "a@b.de".to_string(), password: "Abcdef1!".to_string(), person_id: 1, untis_cypher: "c".to_string() };
    let (s, _) = register_step(Register::Start(d), Event::Start, false);
    let (_, a) = register_step(s, Event::User(Ok(Some(user("x", false)))), false);
    assert_eq!(a, Action::Reply(Reply::Status(403, "E-mail already associated to account!".to_string())));
}

#[test]
fn sign_up_stores_a_hash_and_mails_a_link() {
    let hash = hash_of("Abcdef1!");
    assert_ne!(hash, "Abcdef1!");
    assert!(user(&hash, false).verify_password("Abcdef1!".to_string()).is_ok());
    assert!(user(&hash, false).verify_password("Abcdef1?".to_string()).is_err());

    let created = User { id: "u1".to_string(), email: "a@b.de".to_string(), person_id: 1, password_hash: hash, untis_cypher: "c".to_string(), verified: false };
    let (s, a) = register_step(Register::Creating, Event::Created(Ok(created)), false);
    assert!(matches!(a, Action::CreateLink(_, LinkType::VerifyAccount)));
    let l = Link { id: "L1".to_string(), user: "u1".to_string(), link_type: LinkType::VerifyAccount, expiry: 0 };
    let (s, a) = register_step(s, Event::NewLink(Ok(l)), true);
    let mail = match a {
        Action::SendMail(m) => m,
        other => panic!("unexpected {:?}", other),
    };
    assert_eq!(mail.to, "a@b.de");
    assert_eq!(mail.subject, "Accountverifizierung");
    assert_eq!(mail.template, "verify.html");
    assert_eq!(render_mail("<a href=\"${{VERIFY_URL}}\">", &mail.fills), "<a href=\"http://localhost:3000/verify/L1\">");
    let (s, a) = register_step(s, Event::Done(Ok(())), true);
    assert_eq!(a, Action::Login("u1".to_string()));
    let (_, a) = register_step(s, Event::Done(Ok(())), true);
    assert_eq!(a, Action::Reply(Reply::Text("Account successfully registered".to_string())));
}

#[test]
fn login_does_not_tell_which_part_was_wrong() {
    let hash = CHEAP_HASH.to_string();
    let form = |p: &str| LoginData { email: "old@example.com".to_string(), password: p.to_string() };
    let (s, a) = login_step(Login::Start(form("x")), Event::Start);
    assert_eq!(a, Action::FindUserByEmail("old@example.com".to_string()));
    let (_, unknown) = login_step(s, Event::User(Ok(None)));
    let (s, _) = login_step(Login::Start(form("wrong")), Event::Start);
    let (_, wrong) = login_step(s, Event::User(Ok(Some(user(&hash, true)))));
    assert_eq!(unknown, wrong);
    assert_eq!(wrong, Action::Reply(Reply::Status(403, "E-Mail or Password is incorrect!".to_string())));
    let (s, _) = login_step(Login::Start(form("Abcdef1!")), Event::Start);
    let (s, a) = login_step(s, Event::User(Ok(Some(user(&hash, true)))));
    assert_eq!(a, Action::Login("abc".to_string()));
    let (_, a) = login_step(s, Event::Done(Ok(())));
    assert_eq!(a, Action::Reply(Reply::Cypher("cypher".to_string())));
}

#[test]
fn sessions() {
    assert_eq!(logout_post(false), (false, Reply::Status(403, "Not logged in!".to_string())));
    assert_eq!(logout_post(true), (true, Reply::Text("Logout successful!".to_string())));
    assert_eq!(check_session_get(&IdentityState::Known("users:abc".to_string())), Reply::Text("Authenticated".to_string()));
    assert_eq!(check_session_get(&IdentityState::Unreadable), Reply::Status(500, "NOPE Server Error".to_string()));
    assert_eq!(check_session_get(&IdentityState::Anonymous), Reply::Status(403, "Not Authenticated".to_string()));
}

#[test]
fn deleting_an_account() {
    let hash = CHEAP_HASH.to_string();
    let (s, a) = delete_step(Delete::Start(IdentityState::Known("users:abc".to_string()), DeleteBody { password: "bad".to_string() }), Event::Start);
    assert_eq!(a, Action::FetchUser("users".to_string(), "abc".to_string()));
    let (_, a) = delete_step(s, Event::User(Ok(Some(user(&hash, true)))));
    assert_eq!(a, Action::Reply(Reply::Status(403, "Incorrect Password".to_string())));
    let (s, _) = delete_step(Delete::Start(IdentityState::Known("users:abc".to_string()), DeleteBody { password: "Abcdef1!".to_string() }), Event::Start);
    let (s, a) = delete_step(s, Event::User(Ok(Some(user(&hash, true)))));
    assert_eq!(a, Action::DeleteSessions("users:abc".to_string()));
    let (s, a) = delete_step(s, Event::Done(Err(Error::Database("gone".to_string()))));
    assert_eq!(a, Action::DeleteUser("users".to_string(), "abc".to_string()));
    let (_, a) = delete_step(s, Event::Done(Ok(())));
    assert_eq!(a, Action::Reply(Reply::Text("Deleted your Account, bye-bye!".to_string())));
    let (_, a) = delete_step(Delete::Start(IdentityState::Anonymous, DeleteBody { password: String::new() }), Event::Start);
    assert_eq!(a, Action::Reply(Reply::Status(403, "Not logged in".to_string())));
}

#[test]
fn changing_the_password() {
    let hash = CHEAP_HASH.to_string();
    let form = |old: &str, new: &str| PasswordChange { old_password: old.to_string(), new_untis_cypher: "c2".to_string(), new_password: new.to_string() };
    let start = |f| change_password_step(ChangePassword::Start(IdentityState::Known("users:abc".to_string()), f), Event::Start, false).0;
    let (_, a) = change_password_step(start(form("Abcdef1!", "Abcdef1!")), Event::User(Ok(Some(user(&hash, true)))), false);
    assert_eq!(a, Action::Reply(Reply::Failure(400, "New Password can't be Old Password".to_string())));
    let (_, a) = change_password_step(start(form("nope", "Xyzuvw2?")), Event::User(Ok(Some(user(&hash, true)))), false);
    assert_eq!(a, Action::Reply(Reply::Failure(403, "Wrong password".to_string())));
    let (_, a) = change_password_step(start(form("Abcdef1!", "xyz")), Event::User(Ok(Some(user(&hash, true)))), false);
    assert_eq!(a, Action::Reply(Reply::Status(403, "403 Forbidden\nPassword too short. Minimum size: 8 characters".to_string())));
    let (_, a) = change_password_step(start(form("a", "b")), Event::User(Err(Error::Database("x".to_string()))), false);
    assert_eq!(a, Action::Reply(Reply::Failure(500, "Interal Server Error".to_string())));
    let (s, a) = change_password_step(start(form("Abcdef1!", "Xyzuvw2?")), Event::User(Ok(Some(user(&hash, true)))), false);
    let stored = match a {
        Action::ReplaceUser(u) => u,
        other => panic!("unexpected {:?}", other),
    };
    assert!(stored.verify_password("Xyzuvw2?".to_string()).is_ok());
    assert_eq!((stored.email.as_str(), stored.untis_cypher.as_str(), stored.person_id), ("old@example.com", "c2", 17));
    let (s, a) = change_password_step(s, Event::Done(Ok(())), false);
    assert_eq!(a, Action::DeleteSessions("abc".to_string()));
    let (s, a) = change_password_step(s, Event::Done(Ok(())), false);
    assert!(matches!(a, Action::CreateLink(_, LinkType::PasswordReset)));
    let (_, a) = change_password_step(s, Event::NewLink(Err(Error::Database("x".to_string()))), false);
    assert_eq!(a, Action::Reply(Reply::Failure(500, "Error sending mail".to_string())));
}

#[test]
fn links_of_another_type_are_not_found() {
    let (s, a) = check_uuid_step(CheckUuid::Start(UUID.to_string(), UuidQuery { link_type: LinkType::PasswordReset }), Event::Start);
    assert_eq!(a, Action::FetchLink(UUID.to_string()));
    let (_, wrong) = check_uuid_step(s, Event::Link(Ok(Some(link(LinkType::EmailChange)))));
    let (s, _) = check_uuid_step(CheckUuid::Start(UUID.to_string(), UuidQuery { link_type: LinkType::PasswordReset }), Event::Start);
    let (_, missing) = check_uuid_step(s, Event::Link(Ok(None)));
    assert_eq!(wrong, missing);
    assert_eq!(missing, Action::Reply(Reply::Status(404, "Link not found".to_string())));
    let (s, _) = check_uuid_step(CheckUuid::Start(UUID.to_string(), UuidQuery { link_type: LinkType::PasswordReset }), Event::Start);
    let (_, found) = check_uuid_step(s, Event::Link(Ok(Some(link(LinkType::PasswordReset)))));
    assert_eq!(found, Action::Reply(Reply::Text("Link found".to_string())));
    let (_, bad) = check_uuid_step(CheckUuid::Start("not-a-uuid".to_string(), UuidQuery { link_type: LinkType::PasswordReset }), Event::Start);
    assert_eq!(bad, Action::Reply(Reply::Status(422, "UUID is not a valid uuid".to_string())));
}

#[test]
fn verifying_an_account() {
    let (_, a) = verify_step(Verify::Start("zzz".to_string()), Event::Start);
    assert_eq!(a, Action::Reply(Reply::Failure(400, "UUID is not a valid uuid".to_string())));
    let (s, _) = verify_step(Verify::Start(UUID.to_string()), Event::Start);
    let (s, a) = verify_step(s, Event::Link(Ok(Some(link(LinkType::VerifyAccount)))));
    assert_eq!(a, Action::FetchUser("users".to_string(), "abc".to_string()));
    let (s, a) = verify_step(s, Event::User(Ok(Some(user("h", false)))));
    assert_eq!(a, Action::ReplaceUser(user("h", true)));
    let (s, a) = verify_step(s, Event::Done(Ok(())));
    assert_eq!(a, Action::DeleteLink(UUID.to_string()));
    let (_, a) = verify_step(s, Event::Done(Err(Error::Database("x".to_string()))));
    assert_eq!(a, Action::Reply(Reply::Success("Successfully verified!".to_string())));
}

#[test]
fn resetting_a_password_through_a_link() {
    let hash = CHEAP_HASH.to_string();
    let form = |p: &str| ResetForm { new_password: p.to_string(), new_untis_cypher: "c3".to_string(), new_person_id: 99 };
    let (_, a) = reset_password_step(ResetPassword::Start(UUID.to_string(), form("weak")), Event::Start);
    assert_eq!(a, Action::Reply(Reply::Status(403, "403 Forbidden\nPassword too short. Minimum size: 8 characters".to_string())));
    let (s, _) = reset_password_step(ResetPassword::Start(UUID.to_string(), form("Abcdef1!")), Event::Start);
    let (s, _) = reset_password_step(s, Event::Link(Ok(Some(link(LinkType::PasswordReset)))));
    let (_, a) = reset_password_step(s, Event::User(Ok(Some(user(&hash, true)))));
    assert_eq!(a, Action::Reply(Reply::Status(422, "New Password can't be Old Password".to_string())));
    let (s, _) = reset_password_step(ResetPassword::Start(UUID.to_string(), form("Qwerty9#")), Event::Start);
    let (s, _) = reset_password_step(s, Event::Link(Ok(Some(link(LinkType::PasswordReset)))));
    let (s, a) = reset_password_step(s, Event::User(Ok(Some(user(&hash, true)))));
    match a {
        Action::ReplaceUser(u) => {
            assert!(u.verify_password("Qwerty9#".to_string()).is_ok());
            assert_eq!((u.person_id, u.untis_cypher.as_str()), (99, "c3"));
        },
        other => panic!("unexpected {:?}", other),
    }
    let (s, a) = reset_password_step(s, Event::Done(Ok(())));
    assert_eq!(a, Action::DeleteLink(UUID.to_string()));
    let (s, a) = reset_password_step(s, Event::Done(Ok(())));
    assert_eq!(a, Action::DeleteSessions("abc".to_string()));
    let (_, a) = reset_password_step(s, Event::Done(Ok(())));
    assert_eq!(a, Action::Reply(Reply::Text("Successfully updated Password".to_string())));
}

#[test]
fn changing_the_address_through_a_link() {
    let hash = CHEAP_HASH.to_string();
    let form = || NewMail { mail: "new@example.com".to_string(), password: "Abcdef1!".to_string() };
    let (_, a) = email_change_step(EmailChange::Start(UUID.to_string(), NewMail { mail: "nope".to_string(), password: String::new() }), Event::Start, false);
    assert_eq!(a, Action::Reply(Reply::Status(422, "Not a valid e-mail".to_string())));
    let (s, _) = email_change_step(EmailChange::Start(UUID.to_string(), form()), Event::Start, false);
    let (_, a) = email_change_step(s, Event::Link(Ok(Some(link(LinkType::EmailReset)))), false);
    assert_eq!(a, Action::Reply(Reply::Status(404, "Link not found".to_string())));
    let (s, _) = email_change_step(EmailChange::Start(UUID.to_string(), form()), Event::Start, false);
    let (s, _) = email_change_step(s, Event::Link(Ok(Some(link(LinkType::EmailChange)))), false);
    let (s, a) = email_change_step(s, Event::User(Ok(Some(user(&hash, true)))), false);
    assert_eq!(a, Action::FindUserByEmail("new@example.com".to_string()));
    let (s, a) = email_change_step(s, Event::User(Ok(None)), false);
    let mut expected = user(&hash, true);
    expected.email = "new@example.com".to_string();
    assert_eq!(a, Action::ReplaceUser(expected));
    let (s, a) = email_change_step(s, Event::Done(Ok(())), false);
    assert_eq!(a, Action::DeleteLink(UUID.to_string()));
    let (s, _) = email_change_step(s, Event::Done(Ok(())), false);
    let mut stored = user(&hash, true);
    stored.email = "new@example.com".to_string();
    let (s, a) = email_change_step(s, Event::User(Ok(Some(stored))), false);
    assert_eq!(a, Action::DeleteSessions("abc".to_string()));
    let (s, _) = email_change_step(s, Event::Done(Ok(())), false);
    let reset = Link { id: "R1".to_string(), user: "abc".to_string(), link_type: LinkType::EmailReset, expiry: 0 };
    let (_, a) = email_change_step(s, Event::NewLink(Ok(reset)), false);
    match a {
        Action::SendMail(Mail { to, subject, template, fills }) => {
            assert_eq!(to, "old@example.com");
            assert_eq!(subject, "Deine E-Mail Addresse wurde geändert");
            assert_eq!(template, "email_changed.html");
            assert_eq!(render_mail("${{RESET_URL}} ${{NEW_MAIL}}", &fills), "https://theschedule.de/reset-email/R1 new@example.com");
        },
        other => panic!("unexpected {:?}", other),
    }
}

#[test]
fn links_expire_and_point_to_the_frontend() {
    let l = link(LinkType::EmailChange);
    assert_eq!(l.construct_link(false), format!("https://theschedule.de/change-email/{UUID}"));
    assert_eq!(link(LinkType::VerifyAccount).construct_link(true), format!("http://localhost:3000/verify/{UUID}"));
    assert_eq!(link(LinkType::PasswordReset).construct_link(false), format!("https://theschedule.de/reset-password/{UUID}"));
    assert!(matches!(link_lookup(Some(link(LinkType::EmailReset)), 1_001), LinkLookup::Expired(_)));
    assert!(matches!(link_lookup(Some(link(LinkType::EmailReset)), 1_000), LinkLookup::Live(_)));
    assert!(matches!(link_lookup(None, 0), LinkLookup::Missing));
    assert_eq!(link_validity(LinkType::VerifyAccount), Validity::Months(1));
    assert_eq!(link_validity(LinkType::EmailChange), Validity::Days(2));
}

#[test]
fn admin_lists() {
    assert_eq!(check_admin(None, "pw"), Err(Reply::Status(403, "No Adminpassword".to_string())));
    assert_eq!(check_admin(Some("x"), "pw"), Err(Reply::Status(403, "Wrong Password".to_string())));
    assert_eq!(check_admin(Some("pw"), "pw"), Ok(()));
    let (s, a) = save_step(AdminList::Jahrgaenge, Save::Start(Some("pw".to_string()), "pw".to_string(), 2), Event::Start);
    assert_eq!(a, Action::ClearTable);
    let (s, a) = save_step(AdminList::Jahrgaenge, s, Event::Done(Ok(())));
    assert_eq!(a, Action::InsertItem(0));
    let (s, a) = save_step(AdminList::Jahrgaenge, s, Event::Done(Ok(())));
    assert_eq!(a, Action::InsertItem(1));
    let (_, a) = save_step(AdminList::Jahrgaenge, s, Event::Done(Ok(())));
    assert_eq!(a, Action::Reply(Reply::Text("Jahrgänge updated".to_string())));
    let (s, _) = save_step(AdminList::Teachers, Save::Start(Some("pw".to_string()), "pw".to_string(), 0), Event::Start);
    let (_, a) = save_step(AdminList::Teachers, s, Event::Done(Ok(())));
    assert_eq!(a, Action::Reply(Reply::Text("Teachers updated".to_string())));
}

#[test]
fn timetable_endpoints() {
    assert_eq!(
        check_access(Endpoint::Lernbueros, IdentityState::Anonymous, None),
        Err(Reply::Failure(403, "Not logged in".to_string()))
    );
    assert_eq!(
        check_access(Endpoint::FreeRooms, IdentityState::Known("users:abc".to_string()), None),
        Err(Reply::Status(403, "No JSESSIONID provided".to_string()))
    );
    assert_eq!(
        check_access(Endpoint::FreeRooms, IdentityState::Known("nocolon".to_string()), Some("j".to_string())),
        Err(Reply::Status(500, "There was an error trying to get your id".to_string()))
    );
    assert_eq!(
        check_access(Endpoint::ServiceWorker, IdentityState::Known("users:abc".to_string()), Some("j".to_string())),
        Ok(("users".to_string(), "abc".to_string(), "j".to_string()))
    );
    assert_eq!(check_account(Endpoint::Timetable, Ok(Some(user("h", false)))), Ok(user("h", false)));
    assert_eq!(
        check_account(Endpoint::FreeRooms, Ok(Some(user("h", false)))),
        Err(Reply::Status(401, "Account not verified! Check your E-Mails for a verification link".to_string()))
    );
    assert_eq!(check_account(Endpoint::Lernbueros, Ok(None)), Err(Reply::Failure(404, "This account doesn't exist!".to_string())));
    assert_eq!(init_failure(Endpoint::Timetable, &Error::Reqwest("x".to_string())), Reply::Failure(400, "You done fucked up".to_string()));
    assert_eq!(init_failure(Endpoint::ServiceWorker, &Error::UntisError("body".to_string())), Reply::Status(500, "body".to_string()));
    assert_eq!(fetch_failure(Endpoint::FreeRooms, &Error::CtxFail), Reply::Status(500, "Error while fetching rooms".to_string()));
}

#[test]
fn rate_limit_keys() {
    assert_eq!(extractor_name(), "Proxy IP");
    assert_eq!(key_source("10.0.0.1", Some("10.0.0.1"), true), KeySource::Forwarded);
    assert_eq!(key_source("10.0.0.1", Some("127.0.0.1"), true), KeySource::Peer);
    assert_eq!(key_source("10.0.0.1", Some("8.8.8.8"), true), KeySource::Misconfigured);
    assert_eq!(key_source("10.0.0.1", Some("8.8.8.8"), false), KeySource::Peer);
    assert_eq!(key_source("10.0.0.1", None, true), KeySource::Misconfigured);
    assert_eq!(extract_key(KeySource::Forwarded, Some(AddressText::Ip("1.2.3.4".to_string())), None), Ok("1.2.3.4".to_string()));
    assert_eq!(extract_key(KeySource::Peer, None, Some(AddressText::Ip("1.2.3.4".to_string()))), Err("Could not extract real IP Address from request".to_string()));
    assert_eq!(extract_key(KeySource::Peer, None, Some(AddressText::Socket("1.2.3.4".to_string()))), Ok("1.2.3.4".to_string()));
}

#[allow(dead_code)]
fn unused(_: UserCreate) {}

#[test]
fn gdpr_mail_carries_all_data() {
    let (s, a) = gdpr_data_compliance_step(Gdpr::Start(IdentityState::Known("users:abc".to_string())), Event::Start);
    assert_eq!(a, Action::FetchUser("users".to_string(), "abc".to_string()));
    let (s, a) = gdpr_data_compliance_step(s, Event::User(Ok(Some(user("h", true)))));
    assert_eq!(a, Action::FetchLinksOf(user("h", true)));
    let (s, a) = gdpr_data_compliance_step(s, Event::Links(Ok(vec![link(LinkType::PasswordReset)])));
    assert_eq!(a, Action::FetchSessionsOf("abc".to_string()));
    let session = || Session { expiry: 5, id: ("sessions".to_string(), "s1".to_string()), token: "t".to_string() };
    let (s, a) = gdpr_data_compliance_step(s, Event::Sessions(Ok(vec![session()])));
    assert_eq!(
        a,
        Action::SendDataMail(DataMail {
            to: "old@example.com".to_string(),
            subject: "Deine Daten bei TheSchedule".to_string(),
            template: "gdpr_compliance.html".to_string(),
            time_key: "${{TIMESTAMP}}".to_string(),
            attachment: "daten.json".to_string(),
            attachment_type: "application/json".to_string(),
            data: GDPRCompliance {
                user: user("h", true),
                links: vec![link(LinkType::PasswordReset)],
                sessions: vec![session()],
            },
        })
    );
    let (_, a) = gdpr_data_compliance_step(s, Event::Done(Ok(())));
    assert_eq!(a, Action::Reply(Reply::Text("Sent E-Mail, check your inbox".to_string())));
}

#[test]
fn schedule_requests_check_login_session_account_then_untis() {
    let (_, a) = schedule_step(Schedule::Start(Endpoint::Lernbueros, IdentityState::Anonymous, Some("J".to_string())), ScheduleEvent::Start);
    assert_eq!(a, ScheduleAction::Reply(Reply::Failure(403, "Not logged in".to_string())));
    let (_, a) = schedule_step(Schedule::Start(Endpoint::FreeRooms, IdentityState::Known("users:abc".to_string()), None), ScheduleEvent::Start);
    assert_eq!(a, ScheduleAction::Reply(Reply::Status(403, "No JSESSIONID provided".to_string())));
    let (_, a) = schedule_step(Schedule::Start(Endpoint::FreeRooms, IdentityState::Known("abc".to_string()), Some("J".to_string())), ScheduleEvent::Start);
    assert_eq!(a, ScheduleAction::Reply(Reply::Status(500, "There was an error trying to get your id".to_string())));

    let (s, a) = schedule_step(Schedule::Start(Endpoint::Lernbueros, IdentityState::Known("users:abc".to_string()), Some("J".to_string())), ScheduleEvent::Start);
    assert_eq!(a, ScheduleAction::FetchUser("users".to_string(), "abc".to_string()));
    let (_, a) = schedule_step(s, ScheduleEvent::User(Ok(Some(user("h", false)))));
    assert_eq!(
        a,
        ScheduleAction::Reply(Reply::Failure(403, "Account not verified! Check your E-Mails for a verification link".to_string()))
    );

    let (s, _) = schedule_step(Schedule::Start(Endpoint::Timetable, IdentityState::Known("users:abc".to_string()), Some("J".to_string())), ScheduleEvent::Start);
    let (s, a) = schedule_step(s, ScheduleEvent::User(Ok(Some(user("h", false)))));
    assert_eq!(a, ScheduleAction::OpenUntis("J".to_string(), 17));
    let (s, a) = schedule_step(s, ScheduleEvent::Opened(Ok(())));
    assert_eq!(a, ScheduleAction::Fetch);
    let (_, a) = schedule_step(s, ScheduleEvent::Fetched(Ok(())));
    assert_eq!(a, ScheduleAction::Show);

    let (_, a) = schedule_step(Schedule::Opening(Endpoint::Timetable), ScheduleEvent::Opened(Err(Error::Reqwest("x".to_string()))));
    assert_eq!(a, ScheduleAction::Reply(Reply::Failure(400, "You done fucked up".to_string())));
    let (_, a) = schedule_step(Schedule::Fetching(Endpoint::ServiceWorker), ScheduleEvent::Fetched(Err(Error::UntisError("bad 155".to_string()))));
    assert_eq!(a, ScheduleAction::Reply(Reply::Status(500, "bad 155".to_string())));
    let (_, a) = schedule_step(Schedule::LookingUp(Endpoint::FreeRooms, "J".to_string()), ScheduleEvent::User(Ok(None)));
    assert_eq!(a, ScheduleAction::Reply(Reply::Status(404, "This account doesn't exist!".to_string())));
}

#[test]
fn valid_passwords_are_always_hashed() {
    let form = PasswordChange {
        old_password: "Abcdef1!".to_string(),
        new_password: "ääää1!ab".to_string(),
        new_untis_cypher: "new".to_string(),
    };
    let (s, _) = change_password_step(ChangePassword::Start(IdentityState::Known("users:abc".to_string()), form), Event::Start, false);
    let (s, a) = change_password_step(s, Event::User(Ok(Some(user(CHEAP_HASH, true)))), false);
    match (s, a) {
        (ChangePassword::Saving(_), Action::ReplaceUser(n)) => {
            assert_eq!(n.untis_cypher, "new");
            assert!(n.verify_password("ääää1!ab".to_string()).is_ok());
        },
        _ => panic!("the account is saved"),
    }
}

#[test]
fn a_verification_link_works_once() {
    let (s, a) = verify_step(Verify::Start(UUID.to_string()), Event::Start);
    assert_eq!(a, Action::FetchLink(UUID.to_string()));
    let (s, _) = verify_step(s, Event::Link(Ok(Some(link(LinkType::VerifyAccount)))));
    let (s, a) = verify_step(s, Event::User(Ok(Some(user("h", false)))));
    assert_eq!(a, Action::ReplaceUser(user("h", true)));
    let (s, a) = verify_step(s, Event::Done(Ok(())));
    assert_eq!(a, Action::DeleteLink(UUID.to_string()));
    let (_, a) = verify_step(s, Event::Done(Ok(())));
    assert_eq!(a, Action::Reply(Reply::Success("Successfully verified!".to_string())));
    // the link is gone: the second verification finds nothing
    let (s, _) = verify_step(Verify::Start(UUID.to_string()), Event::Start);
    let (_, a) = verify_step(s, Event::Link(Ok(None)));
    assert_eq!(a, Action::Reply(Reply::Failure(404, "Link not found".to_string())));
}

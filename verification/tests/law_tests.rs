use theschedule::api::flow::{Action, Event, IdentityState};
use theschedule::api::reply::Reply;
use theschedule::api::change_email::{change_email_step, ChangeEmail};
use theschedule::api::gdpr_data_compliance::{gdpr_data_compliance_step, Gdpr};
use theschedule::api::resend_mail::{resend_mail_step, ResendMail};
use theschedule::api::verified::{verified_step, Verified};
use theschedule::api::logout_all::{logout_all_step, LogoutAll};
use theschedule::api::change_untis_data::{change_untis_data_step, ChangeUntisData, UntisData};
use theschedule::api::link::email::{email_reset_get_step, EmailResetGet, QueryParams};
use theschedule::api::link::email_reset::{email_reset_step, EmailReset, NewMail};
use theschedule::untis::dates::day_of_week;
use theschedule::untis::calendar::{this_monday_text, this_friday_text};
use theschedule::models::links::{link_expiry_at, new_link_expiry, resolve_link, Link, LinkLookup, LinkType};
use theschedule::text::parse_u32;

#[test]
fn anonymous_requests_are_refused() {
    let (_, a) = change_email_step(ChangeEmail::Start(IdentityState::Anonymous), Event::Start, false);
    assert_eq!(a, Action::Reply(Reply::Status(403, "Not logged in".to_string())));
    let (_, a) = gdpr_data_compliance_step(Gdpr::Start(IdentityState::Anonymous), Event::Start);
    assert_eq!(a, Action::Reply(Reply::Status(403, "Not logged in".to_string())));
    let (_, a) = resend_mail_step(ResendMail::Start(IdentityState::Anonymous), Event::Start, false);
    assert_eq!(a, Action::Reply(Reply::Status(403, "Not logged in".to_string())));
    let (_, a) = verified_step(Verified::Start(IdentityState::Anonymous), Event::Start);
    assert_eq!(a, Action::Reply(Reply::Status(403, "Not logged in!".to_string())));
    let (_, a) = logout_all_step(LogoutAll::Start(IdentityState::Anonymous), Event::Start);
    assert_eq!(a, Action::Reply(Reply::Status(403, "Not logged in!".to_string())));
    let form = UntisData { password: "p".to_string(), untis_cypher: "c".to_string(), person_id: 1 };
    let (_, a) = change_untis_data_step(ChangeUntisData::Start(IdentityState::Anonymous, form), Event::Start);
    assert_eq!(a, Action::Reply(Reply::Status(403, "Not logged in".to_string())));
    let (_, a) = verified_step(Verified::Start(IdentityState::Unreadable), Event::Start);
    assert_eq!(a, Action::Reply(Reply::Status(500, "Internal Server Error".to_string())));
}

#[test]
fn link_ids_must_be_uuids() {
    let (_, a) = email_reset_get_step(
        EmailResetGet::Start("1234".to_string(), QueryParams { mail: "a@b.de".to_string() }),
        Event::Start,
    );
    assert_eq!(a, Action::Reply(Reply::Failure(400, "UUID is not a valid uuid".to_string())));
    let (_, a) = email_reset_get_step(
        EmailResetGet::Start("1234".to_string(), QueryParams { mail: "nope".to_string() }),
        Event::Start,
    );
    assert_eq!(a, Action::Reply(Reply::Failure(400, "Not a valid e-mail".to_string())));
    let (_, a) = email_reset_step(EmailReset::Start("{zzz}".to_string(), NewMail { mail: "a@b.de".to_string() }), Event::Start);
    assert_eq!(a, Action::Reply(Reply::Status(422, "UUID is not a valid uuid".to_string())));
    // the braced and the simple form of a UUID are accepted
    let (_, a) = email_reset_step(
        EmailReset::Start("{550e8400-e29b-41d4-a716-446655440000}".to_string(), NewMail { mail: "a@b.de".to_string() }),
        Event::Start,
    );
    assert_eq!(a, Action::FetchLink("{550e8400-e29b-41d4-a716-446655440000}".to_string()));
    let (_, a) = email_reset_step(
        EmailReset::Start("550e8400e29b41d4a716446655440000".to_string(), NewMail { mail: "a@b.de".to_string() }),
        Event::Start,
    );
    assert_eq!(a, Action::FetchLink("550e8400e29b41d4a716446655440000".to_string()));
}

#[test]
fn the_next_day_of_a_month_is_the_next_week_day() {
    for date in [20240108u32, 20240111, 20240114, 20231230, 19990101] {
        assert_eq!(day_of_week(date + 1), (day_of_week(date) + 1) % 7, "{date}");
    }
}

#[test]
fn this_week_is_written_as_untis_dates() {
    let monday = this_monday_text().unwrap();
    let friday = this_friday_text().unwrap();
    let m = parse_u32(&monday).unwrap();
    let f = parse_u32(&friday).unwrap();
    assert_eq!(monday.len(), 8);
    assert_eq!(day_of_week(m), 0);
    assert_eq!(day_of_week(f), 4);
    assert!(m < f);
}

#[test]
fn only_live_links_are_found() {
    let link = |expiry| Link { id: "l".to_string(), user: "u".to_string(), link_type: LinkType::EmailReset, expiry };
    assert!(matches!(resolve_link(Some(link(0))), LinkLookup::Expired(_)));
    assert!(matches!(resolve_link(Some(link(i64::MAX))), LinkLookup::Live(_)));
    assert!(matches!(resolve_link(None), LinkLookup::Missing));
    let soon = new_link_expiry(LinkType::PasswordReset).unwrap();
    let later = new_link_expiry(LinkType::VerifyAccount).unwrap();
    assert!(later > soon);
    assert!(matches!(resolve_link(Some(link(soon))), LinkLookup::Live(_)));
}

#[test]
fn link_expiry_two_days_or_one_month() {
    assert_eq!(link_expiry_at(LinkType::PasswordReset, 0), Some(172_800_000));
    assert_eq!(link_expiry_at(LinkType::EmailChange, 1_000), Some(172_801_000));
    // 1970-01-01 plus one month is 1970-02-01, 31 days later.
    assert_eq!(link_expiry_at(LinkType::VerifyAccount, 0), Some(2_678_400_000));
    // 2024-01-31 plus one month is the last day of February, 2024-02-29.
    assert_eq!(link_expiry_at(LinkType::VerifyAccount, 1_706_659_200_000), Some(1_709_164_800_000));
    assert_eq!(link_expiry_at(LinkType::EmailReset, i64::MAX), None);
}

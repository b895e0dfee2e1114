use vstd::prelude::*;
use crate::api::reply::ReplyView;
use crate::api::flow::{Action, Event, IdentityState, uuid_parses, answers};
use crate::models::links::{Link, LinkType};
use crate::models::user::User;
use crate::api::change_email::{ChangeEmail, change_email_next};
use crate::api::change_password::{ChangePassword, PasswordChange, change_password_next};
use crate::api::change_untis_data::{ChangeUntisData, UntisData, change_untis_data_next};
use crate::api::delete::{Delete, DeleteBody, delete_next};
use crate::api::gdpr_data_compliance::{Gdpr, gdpr_next};
use crate::api::resend_mail::{ResendMail, resend_mail_next};
use crate::api::verified::{Verified, verified_next};
use crate::api::logout_all::{LogoutAll, logout_all_next};
use crate::api::link::check_uuid::{CheckUuid, UuidQuery, check_uuid_next};
use crate::api::link::verify::{Verify, verify_next};
use crate::api::link::email::{EmailResetGet, QueryParams, email_reset_get_next};
use crate::api::link::email_reset::{EmailReset, NewMail as ResetMail, email_reset_next};
use crate::api::link::email_change::{EmailChange, NewMail, email_change_next};
use crate::api::link::password::{ResetPassword, PasswordChange as ResetForm, reset_password_next};
use crate::api::forgot_password::{Forgot, ForgotPassword, forgot_next};

verus! {

/// The answer is a refusal with status 403.
pub open spec fn refused_403(a: Action) -> bool {
    a matches Action::Reply(r) && (r@ matches ReplyView::Status(403, _) || r@ matches ReplyView::Failure(403, _))
}

/// Every endpoint that works on the account of the session refuses a request
/// without a login with 403, before it does anything else.
pub proof fn lemma_login_required(
    debug: bool,
    pc: PasswordChange,
    ud: UntisData,
    db: DeleteBody,
    r1: (ChangeEmail, Action),
    r2: (ChangePassword, Action),
    r3: (ChangeUntisData, Action),
    r4: (Delete, Action),
    r5: (Gdpr, Action),
    r6: (ResendMail, Action),
    r7: (Verified, Action),
    r8: (LogoutAll, Action),
)
    requires
        change_email_next(ChangeEmail::Start(IdentityState::Anonymous), Event::Start, debug, r1),
        change_password_next(ChangePassword::Start(IdentityState::Anonymous, pc), Event::Start, debug, r2),
        change_untis_data_next(ChangeUntisData::Start(IdentityState::Anonymous, ud), Event::Start, r3),
        delete_next(Delete::Start(IdentityState::Anonymous, db), Event::Start, r4),
        gdpr_next(Gdpr::Start(IdentityState::Anonymous), Event::Start, r5),
        resend_mail_next(ResendMail::Start(IdentityState::Anonymous), Event::Start, debug, r6),
        verified_next(Verified::Start(IdentityState::Anonymous), Event::Start, r7),
        logout_all_next(LogoutAll::Start(IdentityState::Anonymous), Event::Start, r8),
    ensures
        r1.0 is Finished && refused_403(r1.1),
        r2.0 is Finished && refused_403(r2.1),
        r3.0 is Finished && refused_403(r3.1),
        r4.0 is Finished && refused_403(r4.1),
        r5.0 is Finished && refused_403(r5.1),
        r6.0 is Finished && refused_403(r6.1),
        r7.0 is Finished && refused_403(r7.1),
        r8.0 is Finished && refused_403(r8.1),
{
}

/// The answer is a refusal with a client error status (400 or 422).
pub open spec fn refused_as_malformed(a: Action) -> bool {
    a matches Action::Reply(r) && (r@ matches ReplyView::Status(422, _) || r@ matches ReplyView::Failure(400, _))
}

/// Every endpoint that takes a link id refuses an id that is no UUID before
/// it looks anything up.
pub proof fn lemma_link_ids_checked(
    id: String,
    q: UuidQuery,
    qp: QueryParams,
    rm: ResetMail,
    nm: NewMail,
    rf: ResetForm,
    debug: bool,
    r1: (CheckUuid, Action),
    r2: (Verify, Action),
    r3: (EmailResetGet, Action),
    r4: (EmailReset, Action),
    r5: (EmailChange, Action),
    r6: (ResetPassword, Action),
)
    requires
        !uuid_parses(id@),
        check_uuid_next(CheckUuid::Start(id, q), Event::Start, r1),
        verify_next(Verify::Start(id), Event::Start, r2),
        email_reset_get_next(EmailResetGet::Start(id, qp), Event::Start, r3),
        email_reset_next(EmailReset::Start(id, rm), Event::Start, r4),
        email_change_next(EmailChange::Start(id, nm), Event::Start, debug, r5),
        reset_password_next(ResetPassword::Start(id, rf), Event::Start, r6),
    ensures
        r1.0 is Finished && refused_as_malformed(r1.1),
        r2.0 is Finished && refused_as_malformed(r2.1),
        r3.0 is Finished && refused_as_malformed(r3.1),
        r4.0 is Finished && refused_as_malformed(r4.1),
        r5.0 is Finished && refused_as_malformed(r5.1),
        r6.0 is Finished && refused_as_malformed(r6.1),
{
}

/// What a lookup by id finds among the stored links `links`, keyed by id.
pub open spec fn link_in(links: Map<Seq<char>, Link>, id: Seq<char>) -> Option<Link> {
    if links.contains_key(id) {
        Some(links[id])
    } else {
        None
    }
}

/// A verification link works once: a verification that found the link, the
/// account and could store it deletes that very link; a second verification
/// with the same id, among the links that are left, finds nothing and is
/// answered 404 "Link not found" without any change.
pub proof fn lemma_verify_link_single_use(
    links: Map<Seq<char>, Link>,
    id: String,
    again: String,
    u: User,
    r1: (Verify, Action),
    r2: (Verify, Action),
    r3: (Verify, Action),
    r4: (Verify, Action),
    q1: (Verify, Action),
    q2: (Verify, Action),
)
    requires
        uuid_parses(id@),
        link_in(links, id@) is Some,
        link_in(links, id@)->0.id@ == id@,
        link_in(links, id@)->0.link_type == LinkType::VerifyAccount,
        verify_next(Verify::Start(id), Event::Start, r1),
        verify_next(r1.0, Event::Link(Ok(link_in(links, id@))), r2),
        verify_next(r2.0, Event::User(Ok(Some(u))), r3),
        verify_next(r3.0, Event::Done(Ok(())), r4),
        again@ == id@,
        verify_next(Verify::Start(again), Event::Start, q1),
        verify_next(q1.0, Event::Link(Ok(link_in(links.remove(id@), id@))), q2),
    ensures
        r4.1 matches Action::DeleteLink(lid) && lid@ == id@,
        q2.0 is Finished,
        answers(q2.1, ReplyView::Failure(404, "Link not found"@)),
{
}

/// The link mailed for a forgotten password resets it: when the address
/// belongs to an account, the link asked for is made for that account, and
/// the link the store makes as asked is a password-reset link, which the
/// password-reset endpoint accepts and follows to its account.
pub proof fn lemma_forgotten_password_link_resets(
    b: ForgotPassword,
    u: User,
    debug: bool,
    res: (Forgot, Action),
    l: Link,
    form: ResetForm,
    r: (ResetPassword, Action),
)
    requires
        forgot_next(Forgot::LookingUp(b), Event::User(Ok(Some(u))), debug, res),
        res.1 matches Action::CreateLink(_, t) && l.link_type == t,
        reset_password_next(ResetPassword::LookingUpLink(form), Event::Link(Ok(Some(l))), r),
    ensures
        res.1 matches Action::CreateLink(owner, _) && owner == u,
        l.link_type == LinkType::PasswordReset,
        r.0 == ResetPassword::LookingUpUser(l.id, form),
        r.1 matches Action::FetchUser(t, k) && t@ == "users"@ && k@ == l.user@,
{
}

} // verus!

use vstd::prelude::*;
use crate::error::Error;
use crate::api::reply::{Reply, ReplyView, Style, refuse, refusal};
use crate::text::{split_once, split_at_first};
use crate::models::user::{User, UserCreate, UserPatch};
use crate::models::links::{Link, LinkType};
use crate::models::session::{Session, GDPRCompliance};
use crate::text::{replaced, replace_all};


verus! {

/// What the identity middleware knows of the session of a request.
#[derive(Debug, PartialEq)]
pub enum IdentityState {
    /// Nobody is logged in.
    Anonymous,
    /// Someone is logged in, but the id could not be read.
    Unreadable,
    /// The id of the logged-in user, `table:key`.
    Known(String),
}

/// An e-mail made from a template: `fills` are the placeholders of the
/// template and their values.
#[derive(Debug, PartialEq)]
pub struct Mail {
    pub to: String,
    pub subject: String,
    pub template: String,
    pub fills: Vec<(String, String)>,
}

/// An e-mail that carries the stored data of an account: its text is the
/// template with the placeholder `time_key` filled with the moment of
/// sending; the data goes along as a JSON file named `attachment`, of the
/// content type `attachment_type`.
#[derive(Debug, PartialEq)]
pub struct DataMail {
    pub to: String,
    pub subject: String,
    pub template: String,
    pub time_key: String,
    pub attachment: String,
    pub attachment_type: String,
    pub data: GDPRCompliance,
}

/// What an endpoint asks to be done next. Each action but `Reply` is answered
/// with the [`Event`] named in its description.
#[derive(Debug, PartialEq)]
pub enum Action {
    /// Answer the request; the endpoint is done.
    Reply(Reply),
    /// Look a link up by id; expired links count as missing. `Event::Link`.
    FetchLink(String),
    /// Look a user up by record id (table, key). `Event::User`.
    FetchUser(String, String),
    /// Look a user up by e-mail address. `Event::User`.
    FindUserByEmail(String),
    /// Replace the stored user. `Event::Done`.
    ReplaceUser(User),
    /// Merge fields into the stored user. `Event::Done`.
    PatchUser(UserPatch),
    /// Store a new user. `Event::Created`.
    CreateUser(UserCreate),
    /// Delete the user with this record id. `Event::Done`.
    DeleteUser(String, String),
    /// Delete a link. `Event::Done`.
    DeleteLink(String),
    /// Delete the links of one type of the user with this id. `Event::Done`.
    DeleteLinksOfType(String, LinkType),
    /// Delete the login sessions of the user with this id. `Event::Done`.
    DeleteSessions(String),
    /// Make a link of this type for the user. `Event::NewLink`.
    CreateLink(User, LinkType),
    /// Load the template, fill it in and send the e-mail. `Event::Done`.
    SendMail(Mail),
    /// Send the stored data of an account. `Event::Done`.
    SendDataMail(DataMail),
    /// Log the session in as the user with this id. `Event::Done`.
    Login(String),
    /// Fetch the links of the user. `Event::Links`.
    FetchLinksOf(User),
    /// Fetch the sessions of the user with this id. `Event::Sessions`.
    FetchSessionsOf(String),
    /// Delete every row of the table being saved. `Event::Done`.
    ClearTable,
    /// Store the item with this index of the list being saved. `Event::Done`.
    InsertItem(usize),
}

/// What came of an [`Action`].
pub enum Event {
    /// The request has just arrived.
    Start,
    Link(Result<Option<Link>, Error>),
    User(Result<Option<User>, Error>),
    Created(Result<User, Error>),
    NewLink(Result<Link, Error>),
    Done(Result<(), Error>),
    Links(Result<Vec<Link>, Error>),
    Sessions(Result<Vec<Session>, Error>),
}

/// The action answers `v`.
pub open spec fn answers(a: Action, v: ReplyView) -> bool {
    a matches Action::Reply(r) && r@ == v
}

/// Whether `lettre` reads `s` as an e-mail address (`Address::from_str`).
pub uninterp spec fn address_parses(s: Seq<char>) -> bool;

/// Whether the `uuid` crate reads `s` as a UUID (`Uuid::from_str`).
pub uninterp spec fn uuid_parses(s: Seq<char>) -> bool;

/// Wraps `<lettre::Address as FromStr>::from_str`. Claimed: it succeeds
/// exactly when [`address_parses`] holds of `s`.
#[verifier::external_body]
pub(crate) fn is_address(s: &str) -> (res: bool)
    ensures
        res == address_parses(s@),
{
    s.parse::<lettre::Address>().is_ok()
}

/// Wraps `<uuid::Uuid as FromStr>::from_str`. Claimed: it succeeds exactly
/// when [`uuid_parses`] holds of `s`.
#[verifier::external_body]
pub(crate) fn is_uuid(s: &str) -> (res: bool)
    ensures
        res == uuid_parses(s@),
{
    s.parse::<uuid::Uuid>().is_ok()
}

/// Copies a string.
pub fn copy(s: &String) -> (res: String)
    ensures
        res == *s,
{
    s.clone()
}

/// Copies a user.
pub fn copy_user(u: &User) -> (res: User)
    ensures
        res == *u,
{
    let r = User {
        id: u.id.clone(),
        email: u.email.clone(),
        person_id: u.person_id,
        password_hash: u.password_hash.clone(),
        untis_cypher: u.untis_cypher.clone(),
        verified: u.verified,
    };
    assert(r.id@ == u.id@ && r.email@ == u.email@ && r.password_hash@ == u.password_hash@
        && r.untis_cypher@ == u.untis_cypher@);
    r
}

/// The text of a template after its placeholders were replaced one after the
/// other.
pub open spec fn filled(t: Seq<char>, fills: Seq<(String, String)>) -> Seq<char>
    decreases fills.len(),
{
    if fills.len() == 0 {
        t
    } else {
        replaced(filled(t, fills.drop_last()), fills.last().0@, fills.last().1@)
    }
}

/// Placeholders are never empty.
pub open spec fn fills_ok(fills: Seq<(String, String)>) -> bool {
    forall|i: int| 0 <= i < fills.len() ==> (#[trigger] fills[i]).0@.len() > 0
}

/// Fills in the placeholders of the template text `t`.
pub fn render_mail(t: &str, fills: &Vec<(String, String)>) -> (res: String)
    requires
        fills_ok(fills@),
    ensures
        res@ == filled(t@, fills@),
{
    let mut out = String::from_str(t);
    let n = fills.len();
    let mut i: usize = 0;
    assert(fills@.take(0) =~= Seq::<(String, String)>::empty());
    while i < n
        invariant
            n == fills@.len(),
            i <= n,
            fills_ok(fills@),
            out@ == filled(t@, fills@.take(i as int)),
        decreases n - i,
    {
        let (k, v) = (&fills[i].0, &fills[i].1);
        assert(fills@[i as int].0@.len() > 0);
        let next = replace_all(out.as_str(), k.as_str(), v.as_str());
        proof {
            assert(fills@.take(i + 1).drop_last() =~= fills@.take(i as int));
            assert(fills@.take(i + 1).last() == fills@[i as int]);
        }
        out = next;
        i = i + 1;
    }
    assert(fills@.take(n as int) =~= fills@);
    out
}

/// A mail to `to` with the subject `subject` from the template `template`,
/// with the one placeholder `key` filled with `value`.
pub open spec fn is_mail(m: Mail, to: Seq<char>, subject: Seq<char>, template: Seq<char>, key: Seq<char>, value: Seq<char>) -> bool {
    &&& m.to@ == to
    &&& m.subject@ == subject
    &&& m.template@ == template
    &&& m.fills@.len() == 1
    &&& m.fills@[0].0@ == key
    &&& m.fills@[0].1@ == value
}

/// A mail from a template with one placeholder.
pub fn mail_with(to: String, subject: &str, template: &str, key: &str, value: String) -> (res: Mail)
    ensures
        is_mail(res, to@, subject@, template@, key@, value@),
{
    let mut fills: Vec<(String, String)> = Vec::new();
    fills.push((String::from_str(key), value));
    Mail { to, subject: String::from_str(subject), template: String::from_str(template), fills }
}

/// The action asks to send the mail `m`.
pub open spec fn sends(a: Action, to: Seq<char>, subject: Seq<char>, template: Seq<char>, key: Seq<char>, value: Seq<char>) -> bool {
    a matches Action::SendMail(m) && is_mail(m, to, subject, template, key, value)
}

/// What an endpoint that needs a login does with the identity `id`: refuse
/// an anonymous request with 403 and `anonymous`, an unreadable id with 500
/// and `unreadable`; otherwise the id, cut at its first `:` into table and key.
pub open spec fn identity_verdict(
    id: IdentityState,
    style: Style,
    anonymous: Seq<char>,
    unreadable: Seq<char>,
) -> Result<(Seq<char>, Seq<char>, Seq<char>), ReplyView> {
    match id {
        IdentityState::Anonymous => Err(refusal(style, 403, anonymous)),
        IdentityState::Unreadable => Err(refusal(style, 500, unreadable)),
        IdentityState::Known(s) => match split_at_first(s@, ':') {
            Some((t, k)) => Ok((t, k, s@)),
            None => Err(refusal(style, 500, unreadable)),
        },
    }
}

/// An id that the session store hands out: `table:key`.
pub open spec fn well_formed_identity(id: IdentityState) -> bool {
    id matches IdentityState::Known(s) ==> s@.contains(':')
}

/// Checks the identity of a request: the table, key and whole text of the
/// id of the logged-in user, or the refusal.
pub fn check_identity(id: IdentityState, style: Style, anonymous: &str, unreadable: &str) -> (res: Result<
    (String, String, String),
    Reply,
>)
    ensures
        match identity_verdict(id, style, anonymous@, unreadable@) {
            Ok((t, k, s)) => res matches Ok((a, b, c)) && a@ == t && b@ == k && c@ == s,
            Err(v) => res matches Err(r) && r@ == v,
        },
{
    match id {
        IdentityState::Anonymous => Err(refuse(style, 403, anonymous)),
        IdentityState::Unreadable => Err(refuse(style, 500, unreadable)),
        IdentityState::Known(s) => match split_once(s.as_str(), ':') {
            Some((t, k)) => Ok((t, k, s)),
            None => Err(refuse(style, 500, unreadable)),
        },
    }
}

/// What an endpoint does with the account it looked up: a missing account
/// is refused with 500 and `missing`, a failed lookup with 500 and `failed`.
pub open spec fn user_verdict(r: Result<Option<User>, Error>, style: Style, missing: Seq<char>, failed: Seq<char>) -> Result<User, ReplyView> {
    match r {
        Ok(Some(u)) => Ok(u),
        Ok(None) => Err(refusal(style, 500, missing)),
        Err(_) => Err(refusal(style, 500, failed)),
    }
}

/// Takes the account a lookup found.
pub fn check_user(r: Result<Option<User>, Error>, style: Style, missing: &str, failed: &str) -> (res: Result<User, Reply>)
    ensures
        match user_verdict(r, style, missing@, failed@) {
            Ok(u) => res == Ok::<User, Reply>(u),
            Err(v) => res matches Err(x) && x@ == v,
        },
{
    match r {
        Ok(Some(u)) => Ok(u),
        Ok(None) => Err(refuse(style, 500, missing)),
        Err(_) => Err(refuse(style, 500, failed)),
    }
}

/// What an endpoint does with the link it looked up: a failed lookup is
/// refused with 500 and `failed`; a missing link, and a link of another type
/// than `expected`, with 404 `Link not found`.
pub open spec fn link_verdict(r: Result<Option<Link>, Error>, expected: Option<LinkType>, style: Style, failed: Seq<char>) -> Result<Link, ReplyView> {
    match r {
        Err(_) => Err(refusal(style, 500, failed)),
        Ok(None) => Err(refusal(style, 404, "Link not found"@)),
        Ok(Some(l)) => match expected {
            Some(t) => if l.link_type == t {
                Ok(l)
            } else {
                Err(refusal(style, 404, "Link not found"@))
            },
            None => Ok(l),
        },
    }
}

/// Takes the link a lookup found.
pub fn check_link(r: Result<Option<Link>, Error>, expected: Option<LinkType>, style: Style, failed: &str) -> (res: Result<Link, Reply>)
    ensures
        match link_verdict(r, expected, style, failed@) {
            Ok(l) => res == Ok::<Link, Reply>(l),
            Err(v) => res matches Err(x) && x@ == v,
        },
{
    proof {
        reveal_strlit("Link not found");
    }
    match r {
        Err(_) => Err(refuse(style, 500, failed)),
        Ok(None) => Err(refuse(style, 404, "Link not found")),
        Ok(Some(l)) => match expected {
            Some(t) => if l.link_type == t {
                Ok(l)
            } else {
                Err(refuse(style, 404, "Link not found"))
            },
            None => Ok(l),
        },
    }
}

/// A link of another type is answered exactly as a link that does not
/// exist: the answer does not tell that the id belongs to some link.
pub proof fn lemma_wrong_type_is_missing(l: Link, t: LinkType, style: Style, failed: Seq<char>)
    requires
        l.link_type != t,
    ensures
        link_verdict(Ok(Some(l)), Some(t), style, failed) == link_verdict(Ok(None), Some(t), style, failed),
{
}

} // verus!

use vstd::prelude::*;

verus! {

/// What a link sent by e-mail is for.
#[derive(Debug, Clone, Copy, PartialEq, Eq, Structural)]
pub enum LinkType {
    EmailChange,
    EmailReset,
    PasswordReset,
    VerifyAccount,
}

/// A link sent by e-mail. `expiry` is the moment it stops being valid, in
/// milliseconds since the Unix epoch (UTC).
#[derive(Debug, PartialEq)]
pub struct Link {
    pub id: String,
    pub user: String,
    pub link_type: LinkType,
    pub expiry: i64,
}

/// How long a new link stays valid.
#[derive(Debug, Clone, Copy, PartialEq, Eq, Structural)]
pub enum Validity {
    Days(u64),
    Months(u32),
}

/// The path segment of the frontend page for a link type.
pub open spec fn type_path(t: LinkType) -> Seq<char> {
    match t {
        LinkType::EmailChange => "change-email"@,
        LinkType::EmailReset => "reset-email"@,
        LinkType::PasswordReset => "reset-password"@,
        LinkType::VerifyAccount => "verify"@,
    }
}

/// The address of a link: the local frontend in a debug build, the public
/// site otherwise, then the type's page and the link id.
pub open spec fn link_url(t: LinkType, id: Seq<char>, debug: bool) -> Seq<char> {
    (if debug {
        "http://localhost:3000/"@
    } else {
        "https://theschedule.de/"@
    }) + type_path(t) + "/"@ + id
}

/// What looking a link up found.
pub enum LinkLookup {
    /// No link with that id.
    Missing,
    /// The link has expired: it is deleted and treated as missing.
    Expired(Link),
    /// A link that is still valid.
    Live(Link),
}

/// The outcome of a lookup that found `found` at the moment `now`
/// (milliseconds since the Unix epoch).
pub open spec fn lookup_outcome(found: Option<Link>, now: i64) -> LinkLookup {
    match found {
        None => LinkLookup::Missing,
        Some(l) => if l.expiry < now {
            LinkLookup::Expired(l)
        } else {
            LinkLookup::Live(l)
        },
    }
}

/// The current time in milliseconds since the Unix epoch. Wraps
/// `chrono::Utc::now().timestamp_millis()`; what it returns depends on the
/// clock, so nothing is claimed of it.
#[verifier::external_body]
fn utc_now_millis() -> (res: i64) {
    chrono::Utc::now().timestamp_millis()
}

/// What chrono gives for the moment `n` days after the moment `now`
/// (milliseconds since the Unix epoch), in milliseconds.
pub uninterp spec fn chrono_days_after(now: i64, n: u64) -> Option<i64>;

/// What chrono gives for the moment `n` months after the moment `now`
/// (milliseconds since the Unix epoch), in milliseconds.
pub uninterp spec fn chrono_months_after(now: i64, n: u32) -> Option<i64>;

/// The moment `n` days after `now`, both in milliseconds since the Unix
/// epoch. Wraps `DateTime::<Utc>::from_timestamp_millis` and
/// `DateTime::checked_add_days`: the result is named, and, as chrono adds the
/// days to the date part and keeps the time of day, in UTC a present result
/// lies exactly `n` times 86 400 000 ms later. `None` where chrono cannot
/// represent either moment.
#[verifier::external_body]
fn days_after(now: i64, n: u64) -> (res: Option<i64>)
    ensures
        res == chrono_days_after(now, n),
        res matches Some(r) ==> r == now + n * 86_400_000,
{
    let t = chrono::DateTime::from_timestamp_millis(now)?;
    t.checked_add_days(chrono::Days::new(n)).map(|d| d.timestamp_millis())
}

/// The moment `n` months after `now`, both in milliseconds since the Unix
/// epoch. Wraps `DateTime::<Utc>::from_timestamp_millis` and
/// `DateTime::checked_add_months`; the result is named, its calendar rules
/// (such as a shorter month's last day) are not stated. `None` where chrono
/// cannot represent either moment.
#[verifier::external_body]
fn months_after(now: i64, n: u32) -> (res: Option<i64>)
    ensures
        res == chrono_months_after(now, n),
{
    let t = chrono::DateTime::from_timestamp_millis(now)?;
    t.checked_add_months(chrono::Months::new(n)).map(|d| d.timestamp_millis())
}

/// The moment at which something valid for `v` from the moment `now` stops
/// being valid, as chrono computes it.
pub open spec fn expiry_from(now: i64, v: Validity) -> Option<i64> {
    match v {
        Validity::Days(n) => chrono_days_after(now, n),
        Validity::Months(n) => chrono_months_after(now, n),
    }
}

/// How long a link of type `t` stays valid: a verification link one month,
/// any other two days.
pub open spec fn validity_of(t: LinkType) -> Validity {
    match t {
        LinkType::VerifyAccount => Validity::Months(1),
        _ => Validity::Days(2),
    }
}

/// How long a link of type `t` stays valid.
pub fn link_validity(t: LinkType) -> (res: Validity)
    ensures
        res == validity_of(t),
{
    match t {
        LinkType::VerifyAccount => Validity::Months(1),
        _ => Validity::Days(2),
    }
}

/// The expiry of a link of type `t` made at the moment `now` (milliseconds
/// since the Unix epoch); `None` where the moment cannot be represented.
pub fn link_expiry_at(t: LinkType, now: i64) -> (res: Option<i64>)
    ensures
        res == expiry_from(now, validity_of(t)),
        t != LinkType::VerifyAccount && res is Some ==> res->0 == now + 172_800_000,
{
    match link_validity(t) {
        Validity::Days(n) => days_after(now, n),
        Validity::Months(n) => months_after(now, n),
    }
}

/// The expiry of a link of type `t` made now; `None` where the moment cannot
/// be represented.
pub fn new_link_expiry(t: LinkType) -> (res: Option<i64>)
    ensures
        exists|now: i64|
            res == #[trigger] expiry_from(now, validity_of(t)) && (t != LinkType::VerifyAccount && res is Some
                ==> res->0 == now + 172_800_000),
{
    let now = utc_now_millis();
    link_expiry_at(t, now)
}

/// Decides what a lookup found, at the moment `now`: an expired link counts
/// as missing and is to be deleted.
pub fn link_lookup(found: Option<Link>, now: i64) -> (res: LinkLookup)
    ensures
        res == lookup_outcome(found, now),
{
    match found {
        None => LinkLookup::Missing,
        Some(l) => if l.expiry < now {
            LinkLookup::Expired(l)
        } else {
            LinkLookup::Live(l)
        },
    }
}

/// Decides what a lookup found, at the current moment.
pub fn resolve_link(found: Option<Link>) -> (res: LinkLookup)
    ensures
        exists|now: i64| res == #[trigger] lookup_outcome(found, now),
{
    let now = utc_now_millis();
    link_lookup(found, now)
}

impl LinkType {
    /// The path segment of the frontend page for this link type.
    pub fn path(&self) -> (res: &'static str)
        ensures
            res@ == type_path(*self),
    {
        proof {
            reveal_strlit("change-email");
            reveal_strlit("reset-email");
            reveal_strlit("reset-password");
            reveal_strlit("verify");
        }
        match self {
            LinkType::EmailChange => "change-email",
            LinkType::EmailReset => "reset-email",
            LinkType::PasswordReset => "reset-password",
            LinkType::VerifyAccount => "verify",
        }
    }
}

impl Link {
    /// The address to send for this link; `debug` selects the local frontend.
    pub fn construct_link(&self, debug: bool) -> (res: String)
        ensures
            res@ == link_url(self.link_type, self.id@, debug),
    {
        let mut url = if debug {
            String::from_str("http://localhost:3000/")
        } else {
            String::from_str("https://theschedule.de/")
        };
        url.append(self.link_type.path());
        url.append("/");
        url.append(self.id.as_str());
        url
    }
}

/// A lookup at one moment never gives a link that expired before it.
pub proof fn lemma_live_not_expired(found: Option<Link>, now: i64)
    ensures
        lookup_outcome(found, now) matches LinkLookup::Live(l) ==> l.expiry >= now && found == Some(l),
{
}

} // verus!

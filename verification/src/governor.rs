use vstd::prelude::*;
use crate::text::str_eq;

verus! {

/// Where the rate limiter takes the client address from.
#[derive(Debug, Clone, Copy, PartialEq, Eq, Structural)]
pub enum KeySource {
    /// The request came through the reverse proxy: use the address that the
    /// `Forwarded` or `X-Forwarded-For` header names.
    Forwarded,
    /// Use the address of the peer itself.
    Peer,
    /// A release build got a request that did not come through the proxy: the
    /// server is set up wrongly and must stop.
    Misconfigured,
}

/// How a header value reads as an address.
pub enum AddressText {
    /// A socket address (`ip:port`); the text of its IP.
    Socket(String),
    /// A bare IP address; its text.
    Ip(String),
    /// Neither.
    Unreadable,
}

/// The source of the client address for a request whose peer has the address
/// text `peer` (as `IpAddr` displays it), behind the proxy with address text
/// `proxy`. Outside debug builds, only the proxy and the local host may
/// connect directly.
pub open spec fn source_of(proxy: Seq<char>, peer: Option<Seq<char>>, release: bool) -> KeySource {
    match peer {
        Some(p) => if p == proxy {
            KeySource::Forwarded
        } else if release && p != "127.0.0.1"@ {
            KeySource::Misconfigured
        } else {
            KeySource::Peer
        },
        None => if release {
            KeySource::Misconfigured
        } else {
            KeySource::Peer
        },
    }
}

/// Decides where the client address of a request comes from.
pub fn key_source(proxy: &str, peer: Option<&str>, release: bool) -> (res: KeySource)
    ensures
        res == source_of(
            proxy@,
            match peer {
                Some(p) => Some(p@),
                None => None,
            },
            release,
        ),
{
    match peer {
        Some(p) => {
            if str_eq(p, proxy) {
                KeySource::Forwarded
            } else if release && !str_eq(p, "127.0.0.1") {
                proof {
                    reveal_strlit("127.0.0.1");
                }
                KeySource::Misconfigured
            } else {
                proof {
                    reveal_strlit("127.0.0.1");
                }
                KeySource::Peer
            }
        },
        None => if release {
            KeySource::Misconfigured
        } else {
            KeySource::Peer
        },
    }
}

/// The text of the error when no client address can be found.
pub open spec fn extraction_error() -> Seq<char> {
    "Could not extract real IP Address from request"@
}

/// The client address found: through the proxy, the forwarded address read
/// as a socket address or else as a bare IP; directly, the peer address read
/// as a socket address.
pub open spec fn key_of(source: KeySource, forwarded: Option<AddressText>, peer: Option<AddressText>) -> Option<Seq<char>> {
    match source {
        KeySource::Forwarded => match forwarded {
            Some(AddressText::Socket(ip)) => Some(ip@),
            Some(AddressText::Ip(ip)) => Some(ip@),
            _ => None,
        },
        _ => match peer {
            Some(AddressText::Socket(ip)) => Some(ip@),
            _ => None,
        },
    }
}

/// Picks the client address that keys the rate limit; an error carries the
/// text of the limiter's extraction error.
pub fn extract_key(source: KeySource, forwarded: Option<AddressText>, peer: Option<AddressText>) -> (res: Result<
    String,
    String,
>)
    requires
        source != KeySource::Misconfigured,
    ensures
        match key_of(source, forwarded, peer) {
            Some(k) => res is Ok && res->Ok_0@ == k,
            None => res is Err && res->Err_0@ == extraction_error(),
        },
{
    let found = match source {
        KeySource::Forwarded => match forwarded {
            Some(AddressText::Socket(ip)) => Some(ip),
            Some(AddressText::Ip(ip)) => Some(ip),
            _ => None,
        },
        _ => match peer {
            Some(AddressText::Socket(ip)) => Some(ip),
            _ => None,
        },
    };
    match found {
        Some(ip) => Ok(ip),
        None => Err(String::from_str("Could not extract real IP Address from request")),
    }
}

/// The name of the key extractor.
pub fn extractor_name() -> (res: &'static str)
    ensures
        res@ == "Proxy IP"@,
{
    proof {
        reveal_strlit("Proxy IP");
    }
    "Proxy IP"
}

/// In a release build, a request that reaches the server directly from an
/// address other than the proxy and the local host is never keyed.
pub proof fn lemma_release_only_through_proxy(proxy: Seq<char>, peer: Seq<char>)
    requires
        peer != proxy,
        peer != "127.0.0.1"@,
    ensures
        source_of(proxy, Some(peer), true) == KeySource::Misconfigured,
        source_of(proxy, Some(peer), false) == KeySource::Peer,
{
}

} // verus!

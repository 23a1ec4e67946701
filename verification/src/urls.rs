//! URLs, through the `url` parser that `reqwest` re-exports: their canonical form, what
//! a relative reference resolves to, and their scheme; and the node's control-channel
//! URL derived from the control plane's.
use vstd::prelude::*;

use crate::split::{split_on, split_on_exec};
use crate::text::{
    all_digits, chars_eq, chars_of, concat3, digits_value, parse_digits_from, str_eq, to_ascii_lower,
    to_ascii_lower_chars,
};

verus! {

/// The canonical serialization of `input` as a URL, when it parses as one.
pub uninterp spec fn url_serialization(input: Seq<char>) -> Option<Seq<char>>;

/// The serialization of what `input` resolves to against the URL `base`, when `base`
/// parses and the reference resolves.
pub uninterp spec fn url_join_result(base: Seq<char>, input: Seq<char>) -> Option<Seq<char>>;

/// The scheme of the URL `u`, when it parses.
pub uninterp spec fn url_scheme_of(u: Seq<char>) -> Option<Seq<char>>;

/// The serialization of the URL `u` with its scheme set to `scheme`, when `u` parses
/// and the scheme may be set.
pub uninterp spec fn url_with_scheme(u: Seq<char>, scheme: Seq<char>) -> Option<Seq<char>>;

/// The user name of the URL `u`, empty when it has none, when `u` parses.
pub uninterp spec fn url_username_of(u: Seq<char>) -> Option<Seq<char>>;

/// The password of the URL `u`, if it has one, when `u` parses.
pub uninterp spec fn url_password_of(u: Seq<char>) -> Option<Option<Seq<char>>>;

/// The host of the URL `u` as text, if it has one, when `u` parses.
pub uninterp spec fn url_host_of(u: Seq<char>) -> Option<Option<Seq<char>>>;

/// `reqwest::Url::parse(input)` and `Url::as_str`: the canonical form of a URL; nothing
/// for text that is no URL.
#[verifier::external_body]
pub(crate) fn parse_url(input: &str) -> (r: Option<String>)
    ensures
        match r {
            Some(s) => url_serialization(input@) == Some(s@),
            None => url_serialization(input@) is None,
        },
{
    reqwest::Url::parse(input).ok().map(|u| u.as_str().to_owned())
}

/// `Url::join` on the URL that `base` parses to: the reference `input` resolved.
#[verifier::external_body]
fn url_join(base: &str, input: &str) -> (r: Option<String>)
    ensures
        match r {
            Some(s) => url_join_result(base@, input@) == Some(s@),
            None => url_join_result(base@, input@) is None,
        },
{
    reqwest::Url::parse(base).ok().and_then(|u| u.join(input).ok()).map(|u| u.as_str().to_owned())
}

/// `Url::scheme` of the URL that `u` parses to.
#[verifier::external_body]
fn url_scheme(u: &str) -> (r: Option<String>)
    ensures
        match r {
            Some(s) => url_scheme_of(u@) == Some(s@),
            None => url_scheme_of(u@) is None,
        },
{
    reqwest::Url::parse(u).ok().map(|u| u.scheme().to_owned())
}

/// `Url::set_scheme` on the URL that `u` parses to, and its serialization when the
/// scheme could be set.
#[verifier::external_body]
fn url_set_scheme(u: &str, scheme: &str) -> (r: Option<String>)
    ensures
        match r {
            Some(s) => url_with_scheme(u@, scheme@) == Some(s@),
            None => url_with_scheme(u@, scheme@) is None,
        },
{
    let mut url = reqwest::Url::parse(u).ok()?;
    url.set_scheme(scheme).ok()?;
    Some(url.as_str().to_owned())
}

/// The scheme of the control channel for a control plane reached by `scheme`:
/// WebSocket over HTTP, secure WebSocket over HTTPS.
pub open spec fn control_scheme_spec(scheme: Seq<char>) -> Result<Seq<char>, Seq<char>> {
    if scheme == "http"@ {
        Ok("ws"@)
    } else if scheme == "https"@ {
        Ok("wss"@)
    } else {
        Err("unsupported Core URL scheme `"@ + scheme + "`"@)
    }
}

pub fn control_scheme(scheme: &str) -> (r: Result<&'static str, String>)
    ensures
        match r {
            Ok(s) => control_scheme_spec(scheme@) == Ok::<Seq<char>, Seq<char>>(s@),
            Err(e) => control_scheme_spec(scheme@) == Err::<Seq<char>, Seq<char>>(e@),
        },
{
    if str_eq(scheme, "http") {
        Ok("ws")
    } else if str_eq(scheme, "https") {
        Ok("wss")
    } else {
        Err(concat3("unsupported Core URL scheme `", scheme, "`"))
    }
}

/// The control-channel URL of a control plane at `core_url`: its control path, over the
/// WebSocket scheme that matches its scheme.
pub open spec fn control_url_spec(core_url: Seq<char>) -> Result<Seq<char>, Seq<char>> {
    match url_join_result(core_url, "/api/v1/node/control"@) {
        None => Err("control URL should be valid"@),
        Some(joined) => match url_scheme_of(joined) {
            None => Err("control URL should be valid"@),
            Some(scheme) => match control_scheme_spec(scheme) {
                Err(e) => Err(e),
                Ok(ws) => match url_with_scheme(joined, ws) {
                    Some(u) => Ok(u),
                    None => Err("failed to set control URL scheme"@),
                },
            },
        },
    }
}

pub fn control_url(core_url: &str) -> (r: Result<String, String>)
    ensures
        match r {
            Ok(u) => control_url_spec(core_url@) == Ok::<Seq<char>, Seq<char>>(u@),
            Err(e) => control_url_spec(core_url@) == Err::<Seq<char>, Seq<char>>(e@),
        },
{
    let joined = match url_join(core_url, "/api/v1/node/control") {
        Some(j) => j,
        None => {
            return Err(crate::text::string_from("control URL should be valid"));
        },
    };
    let scheme = match url_scheme(joined.as_str()) {
        Some(s) => s,
        None => {
            return Err(crate::text::string_from("control URL should be valid"));
        },
    };
    let ws = match control_scheme(scheme.as_str()) {
        Ok(ws) => ws,
        Err(e) => {
            return Err(e);
        },
    };
    match url_set_scheme(joined.as_str(), ws) {
        Some(u) => Ok(u),
        None => Err(crate::text::string_from("failed to set control URL scheme")),
    }
}


/// The URL of an endpoint of the control plane: `path` resolved against the core URL.
pub fn core_endpoint(core_url: &str, path: &str) -> (r: Result<String, String>)
    ensures
        match r {
            Ok(u) => url_join_result(core_url@, path@) == Some(u@),
            Err(e) => url_join_result(core_url@, path@) is None && e@ == "endpoint URL should be valid"@,
        },
{
    match url_join(core_url, path) {
        Some(u) => Ok(u),
        None => Err(crate::text::string_from("endpoint URL should be valid")),
    }
}


/// `Url::username` of the URL that `u` parses to.
#[verifier::external_body]
fn url_username(u: &str) -> (r: Option<String>)
    ensures
        match r {
            Some(s) => url_username_of(u@) == Some(s@),
            None => url_username_of(u@) is None,
        },
{
    reqwest::Url::parse(u).ok().map(|u| u.username().to_owned())
}

/// `Url::password` of the URL that `u` parses to.
#[verifier::external_body]
fn url_password(u: &str) -> (r: Option<Option<String>>)
    ensures
        match r {
            Some(Some(s)) => url_password_of(u@) == Some(Some(s@)),
            Some(None) => url_password_of(u@) == Some(None::<Seq<char>>),
            None => url_password_of(u@) is None,
        },
{
    reqwest::Url::parse(u).ok().map(|u| u.password().map(|p| p.to_owned()))
}

/// `Url::host_str` of the URL that `u` parses to.
#[verifier::external_body]
fn url_host(u: &str) -> (r: Option<Option<String>>)
    ensures
        match r {
            Some(Some(s)) => url_host_of(u@) == Some(Some(s@)),
            Some(None) => url_host_of(u@) == Some(None::<Seq<char>>),
            None => url_host_of(u@) is None,
        },
{
    reqwest::Url::parse(u).ok().map(|u| u.host_str().map(|h| h.to_owned()))
}

/// One part of a dotted IPv4 address as an address parse reads it: one to three
/// decimal digits, without a leading zero unless it is `0`, of value at most 255.
pub open spec fn ipv4_octet(p: Seq<char>) -> bool {
    &&& 1 <= p.len() <= 3
    &&& all_digits(p)
    &&& (p.len() == 1 || p[0] != '0')
    &&& digits_value(p) <= 255
}

/// `host` is a loopback host: `localhost` in any case, or a dotted IPv4 address in
/// `127.0.0.0/8`. An IPv6 host is written in brackets, which no address parse accepts,
/// so none counts.
pub open spec fn loopback_host_spec(host: Seq<char>) -> bool {
    ||| to_ascii_lower(host) == "localhost"@
    ||| {
        let parts = split_on(host, '.');
        &&& parts.len() == 4
        &&& forall|k: int| 0 <= k < 4 ==> #[trigger] ipv4_octet(parts[k])
        &&& digits_value(parts[0]) == 127
    }
}

fn is_ipv4_octet(p: &Vec<char>) -> (b: bool)
    ensures
        b == ipv4_octet(p@),
{
    if p.len() < 1 || p.len() > 3 {
        return false;
    }
    match parse_digits_from(p.as_slice(), 0) {
        Some(v) => {
            assert(p@.skip(0) =~= p@);
            (p.len() == 1 || p[0] != '0') && v <= 255
        },
        None => {
            assert(p@.skip(0) =~= p@);
            false
        },
    }
}

/// Whether `host` is `localhost` or a loopback IPv4 address.
pub fn is_loopback_host(host: &str) -> (b: bool)
    ensures
        b == loopback_host_spec(host@),
{
    let chars = chars_of(host);
    let lower = to_ascii_lower_chars(chars.as_slice());
    let localhost = chars_of("localhost");
    if chars_eq(lower.as_slice(), localhost.as_slice()) {
        return true;
    }
    let parts = split_on_exec(&chars, '.');
    let ghost pv = parts@.map_values(|v: Vec<char>| v@);
    assert(pv.len() == parts@.len());
    if parts.len() != 4 {
        return false;
    }
    let mut k: usize = 0;
    while k < 4
        invariant
            parts@.len() == 4,
            pv == parts@.map_values(|v: Vec<char>| v@),
            pv == split_on(host@, '.'),
            to_ascii_lower(host@) != "localhost"@,
            k <= 4,
            forall|m: int| 0 <= m < k ==> #[trigger] ipv4_octet(pv[m]),
        decreases 4 - k,
    {
        assert(pv[k as int] == parts@[k as int]@);
        if !is_ipv4_octet(&parts[k]) {
            return false;
        }
        k = k + 1;
    }
    assert(pv[0] == parts@[0]@);
    assert(ipv4_octet(pv[0]));
    match parse_digits_from(parts[0].as_slice(), 0) {
        Some(v) => {
            assert(parts@[0]@.skip(0) =~= parts@[0]@);
            assert(v as int == digits_value(pv[0]));
            v == 127
        },
        None => {
            assert(parts@[0]@.skip(0) =~= parts@[0]@);
            false
        },
    }
}

/// A sandbox endpoint is allowed, while it cannot take an API key, only as plain HTTP
/// to a loopback host, with neither user name nor password.
pub open spec fn sandbox_url_allowed_spec(u: Seq<char>) -> bool {
    &&& url_scheme_of(u) == Some("http"@)
    &&& url_host_of(u) matches Some(Some(h)) && loopback_host_spec(h)
    &&& url_username_of(u) == Some(Seq::<char>::empty())
    &&& url_password_of(u) == Some(None::<Seq<char>>)
}

/// Whether the sandbox URL `u` may be used.
pub fn sandbox_url_allowed(u: &str) -> (b: bool)
    ensures
        b == sandbox_url_allowed_spec(u@),
{
    let scheme_ok = match url_scheme(u) {
        Some(s) => crate::text::str_eq(s.as_str(), "http"),
        None => false,
    };
    assert(scheme_ok == (url_scheme_of(u@) == Some("http"@)));
    if !scheme_ok {
        return false;
    }
    let loopback = match url_host(u) {
        Some(Some(h)) => is_loopback_host(h.as_str()),
        _ => false,
    };
    if !loopback {
        return false;
    }
    let user_ok = match url_username(u) {
        Some(name) => {
            let empty = name.as_str().is_empty();
            assert(empty ==> name@ =~= Seq::<char>::empty());
            empty
        },
        None => false,
    };
    if !user_ok {
        return false;
    }
    match url_password(u) {
        Some(None) => true,
        _ => false,
    }
}

} // verus!

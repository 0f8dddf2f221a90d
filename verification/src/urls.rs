//! URLs are carried through the library as their serialized text. What the
//! `url` crate computes from such a text (parsing, joining, host, port, path)
//! is reached through the trusted wrappers of this module.

use vstd::prelude::*;

verus! {

/// The serialization of the URL that `url::Url::parse` makes of `input`, or
/// `None` where it refuses the input.
pub uninterp spec fn parsed_url(input: Seq<char>) -> Option<Seq<char>>;

/// The serialization of `url::Url::join` of `input` onto the URL parsed from
/// `base`, or `None` where either step is refused.
pub uninterp spec fn joined_url(base: Seq<char>, input: Seq<char>) -> Option<Seq<char>>;

/// `url::Url::host_str` of the URL parsed from `url` (`None` also where it does
/// not parse).
pub uninterp spec fn url_host(url: Seq<char>) -> Option<Seq<char>>;

/// `url::Url::port` of the URL parsed from `url` (`None` also where it does not
/// parse).
pub uninterp spec fn url_port(url: Seq<char>) -> Option<u16>;

/// `url::Url::domain` of the URL parsed from `url` (`None` also where it does
/// not parse).
pub uninterp spec fn url_domain(url: Seq<char>) -> Option<Seq<char>>;

/// `url::Url::path` of the URL parsed from `url`, or `None` where it does not
/// parse.
pub uninterp spec fn url_path(url: Seq<char>) -> Option<Seq<char>>;

/// The view of an optional string.
pub open spec fn opt_view(s: Option<String>) -> Option<Seq<char>> {
    match s {
        Some(s) => Some(s@),
        None => None,
    }
}

/// Calls `url::Url::parse` and hands back the serialization of the result.
#[verifier::external_body]
pub(crate) fn parse_url(input: &str) -> (res: Option<String>)
    ensures
        opt_view(res) == parsed_url(input@),
{
    match url::Url::parse(input) {
        Ok(u) => Some(u.as_str().to_string()),
        Err(_) => None,
    }
}

/// Parses `base` with `url::Url::parse`, then calls `url::Url::join` with
/// `input`, and hands back the serialization of the result.
#[verifier::external_body]
pub(crate) fn join_url(base: &str, input: &str) -> (res: Option<String>)
    ensures
        opt_view(res) == joined_url(base@, input@),
{
    match url::Url::parse(base) {
        Ok(b) => match b.join(input) {
            Ok(u) => Some(u.as_str().to_string()),
            Err(_) => None,
        },
        Err(_) => None,
    }
}

/// Parses `url` with `url::Url::parse` and calls `url::Url::host_str`.
#[verifier::external_body]
pub(crate) fn host_of(url: &str) -> (res: Option<String>)
    ensures
        opt_view(res) == url_host(url@),
{
    match url::Url::parse(url) {
        Ok(u) => u.host_str().map(|h| h.to_string()),
        Err(_) => None,
    }
}

/// Parses `url` with `url::Url::parse` and calls `url::Url::port`.
#[verifier::external_body]
pub(crate) fn port_of(url: &str) -> (res: Option<u16>)
    ensures
        res == url_port(url@),
{
    match url::Url::parse(url) {
        Ok(u) => u.port(),
        Err(_) => None,
    }
}

/// Parses `url` with `url::Url::parse` and calls `url::Url::domain`.
#[verifier::external_body]
pub(crate) fn domain_of(url: &str) -> (res: Option<String>)
    ensures
        opt_view(res) == url_domain(url@),
{
    match url::Url::parse(url) {
        Ok(u) => u.domain().map(|d| d.to_string()),
        Err(_) => None,
    }
}

/// Parses `url` with `url::Url::parse` and calls `url::Url::path`.
#[verifier::external_body]
pub(crate) fn path_of(url: &str) -> (res: Option<String>)
    ensures
        opt_view(res) == url_path(url@),
{
    match url::Url::parse(url) {
        Ok(u) => Some(u.path().to_string()),
        Err(_) => None,
    }
}

} // verus!

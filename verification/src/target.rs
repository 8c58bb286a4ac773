//! Addresses: where a request goes, and the parts of the address that are
//! signed.

use vstd::prelude::*;
use crate::json::text_view;

verus! {

/// The root of every address of the service.
pub const ENDPOINT: &'static str = "https://api.coinbase.com/v2/";

/// An address: the whole of it, and its path and its query as they are
/// signed.
#[derive(Clone, Debug)]
pub struct Target {
    pub url: String,
    pub path: String,
    pub query: Option<String>,
}

/// An address as contracts speak of it.
pub ghost struct TargetView {
    pub url: Seq<char>,
    pub path: Seq<char>,
    pub query: Option<Seq<char>>,
}

impl View for Target {
    type V = TargetView;

    open spec fn view(&self) -> TargetView {
        TargetView { url: self.url@, path: self.path@, query: text_view(self.query) }
    }
}

/// The address that a text denotes, if it denotes one: the address in its
/// normal form, its path and its query.
pub uninterp spec fn url_parts(text: Seq<char>) -> Option<(Seq<char>, Seq<char>, Option<Seq<char>>)>;

/// The address that a text denotes, as a value of this library.
pub open spec fn target_of(text: Seq<char>) -> Option<TargetView> {
    match url_parts(text) {
        Some(parts) => Some(TargetView { url: parts.0, path: parts.1, query: parts.2 }),
        None => None,
    }
}

/// The address of the operation at `path` below the root of the service.
pub open spec fn located(path: Seq<char>) -> Option<TargetView> {
    target_of(ENDPOINT@ + path)
}

/// Parses an address with `Url::parse` of the `url` crate, as `reqwest`
/// hands it on, and reads it with `as_str`, `path` and `query`. The
/// contract claims that the outcome depends on the text alone.
#[verifier::external_body]
fn parse_target(text: &str) -> (r: Option<Target>)
    ensures
        r matches Some(target) ==> url_parts(text@) == Some(
            (target.url@, target.path@, text_view(target.query)),
        ),
        r is None ==> url_parts(text@) is None,
{
    match reqwest::Url::parse(text) {
        Ok(url) => Some(
            Target {
                url: url.as_str().to_owned(),
                path: url.path().to_owned(),
                query: url.query().map(str::to_owned),
            },
        ),
        Err(_) => None,
    }
}

/// The address of the operation at `path` below the root of the service;
/// `None` where the root and the path make no address.
pub fn locate(path: &str) -> (r: Option<Target>)
    ensures
        r matches Some(target) ==> located(path@) == Some(target@),
        r is None ==> located(path@) is None,
{
    let mut text = ENDPOINT.to_owned();
    text.append(path);
    parse_target(text.as_str())
}

} // verus!

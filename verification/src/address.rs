//! The address of an instance, from what the user typed to what the settings keep.

use crate::text::chars_of;
use vstd::prelude::*;

verus! {

/// Whether `s` begins with the letters `http`.
pub open spec fn has_http_prefix(s: Seq<char>) -> bool {
    s.len() >= 4 && s[0] == 'h' && s[1] == 't' && s[2] == 't' && s[3] == 'p'
}

/// Decides [`has_http_prefix`].
pub fn starts_with_http(s: &str) -> (b: bool)
    ensures
        b == has_http_prefix(s@),
{
    let chars = chars_of(s);
    chars.len() >= 4 && chars[0] == 'h' && chars[1] == 't' && chars[2] == 't' && chars[3] == 'p'
}

/// The prefix given to an address that names no scheme.
pub open spec fn default_scheme() -> Seq<char> {
    seq!['h', 't', 't', 'p', 's', ':', '/', '/']
}

/// An address as it is handed to the URL parser: as typed if it begins with
/// `http`, and with `https://` put in front otherwise.
pub open spec fn addressed(address: Seq<char>) -> Seq<char> {
    if has_http_prefix(address) {
        address
    } else {
        default_scheme() + address
    }
}

/// Computes [`addressed`].
pub fn with_scheme(address: String) -> (r: String)
    ensures
        r@ == addressed(address@),
{
    if starts_with_http(address.as_str()) {
        address
    } else {
        let mut r = String::from_str("https://");
        r.append(address.as_str());
        proof {
            reveal_strlit("https://");
        }
        r
    }
}

/// What parsing `input` as an absolute URL gives: the URL written out in full,
/// or the reason why `input` is none.
pub uninterp spec fn url_parse(input: Seq<char>) -> Result<Seq<char>, Seq<char>>;

/// The characters of either side of a parse result.
pub open spec fn parsed_text(r: Result<String, String>) -> Result<Seq<char>, Seq<char>> {
    match r {
        Ok(s) => Ok(s@),
        Err(e) => Err(e@),
    }
}

/// Calls `reqwest::Url::parse`, and writes the outcome out with `to_string`.
/// Trusted: the outcome depends on `input` alone, and a URL written out is
/// never empty, since it begins with its scheme and a colon.
#[verifier::external_body]
pub(crate) fn parse_url(input: &str) -> (r: Result<String, String>)
    ensures
        parsed_text(r) == url_parse(input@),
        r matches Ok(url) ==> url@.len() > 0,
{
    match reqwest::Url::parse(input) {
        Ok(url) => Ok(url.to_string()),
        Err(err) => Err(err.to_string()),
    }
}

} // verus!

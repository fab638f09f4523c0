//! Syntactic validation of the repository link, through the `url` crate's
//! parser.

use vstd::prelude::*;

verus! {

/// What the `url` crate's parser makes of a text: `Some` of the parsed URL's
/// normalized serialization when the text is a well-formed absolute URL,
/// `None` otherwise. Both the outcome and the serialization depend on the
/// text alone.
pub uninterp spec fn url_normalize(s: Seq<char>) -> Option<Seq<char>>;

/// Relies on url::Url::parse, whose outcome depends on the input text alone,
/// and url::Url::as_str, which returns the parsed URL's serialization.
#[verifier::external_body]
fn parse_url(s: &str) -> (r: Option<String>)
    ensures
        r is Some <==> url_normalize(s@) is Some,
        r matches Some(t) ==> url_normalize(s@) == Some(t@),
{
    match url::Url::parse(s) {
        Ok(u) => Some(u.as_str().to_owned()),
        Err(_) => None,
    }
}

/// Validates the repository link: `Some` with the URL's normalized text when
/// the input parses as a well-formed absolute URL, `None` otherwise. The
/// caller treats `None` as fatal.
pub fn validate_repo(s: &str) -> (r: Option<String>)
    ensures
        r is Some <==> url_normalize(s@) is Some,
        r matches Some(t) ==> url_normalize(s@) == Some(t@),
{
    parse_url(s)
}

} // verus!

//! Addresses: what the `url` crate makes of a text.

use vstd::prelude::*;

verus! {

/// A URL, as the parts of its text that the client reads.
#[derive(Debug, Clone, PartialEq, Eq)]
pub struct Address {
    /// The scheme, without the colon behind it.
    pub scheme: String,
    /// The whole URL.
    pub text: String,
    /// The URL from its start to the end of its path: scheme, authority
    /// and path, without query and fragment.
    pub through_path: String,
}

/// What `url::Url::parse` returns for `text`, as the scheme of the URL,
/// the text of the whole URL, and its text from the start to the end of
/// the path; `None` where `text` is no URL.
pub uninterp spec fn url_parsed(text: Seq<char>) -> Option<(Seq<char>, Seq<char>, Seq<char>)>;

/// The text of the URL `url` after `url::Url::set_scheme` gave it the
/// scheme `scheme`; `None` where `url` is no URL or does not take the
/// scheme.
pub uninterp spec fn url_with_scheme(url: Seq<char>, scheme: Seq<char>) -> Option<Seq<char>>;

/// Calls `url::Url::parse` and reads the URL it returns: its scheme
/// (`scheme`), its text (`as_str`) and its text cut behind the path
/// (`url::Position::AfterPath`).
#[verifier::external_body]
pub(crate) fn parse_url(text: &str) -> (parsed: Option<Address>)
    ensures
        parsed is Some <==> url_parsed(text@) is Some,
        parsed matches Some(address) ==> url_parsed(text@) == Some(
            (address.scheme@, address.text@, address.through_path@),
        ),
{
    match url::Url::parse(text) {
        Ok(url) => Some(
            Address {
                scheme: url.scheme().to_owned(),
                text: url.as_str().to_owned(),
                through_path: url[..url::Position::AfterPath].to_owned(),
            },
        ),
        Err(_) => None,
    }
}

/// Calls `url::Url::set_scheme` on the URL that `url` parses to and reads
/// the text of the URL afterwards.
#[verifier::external_body]
pub(crate) fn replace_scheme(url: &str, scheme: &str) -> (replaced: Option<String>)
    ensures
        replaced is Some <==> url_with_scheme(url@, scheme@) is Some,
        replaced matches Some(text) ==> url_with_scheme(url@, scheme@) == Some(text@),
{
    match url::Url::parse(url) {
        Ok(mut url) => match url.set_scheme(scheme) {
            Ok(()) => Some(String::from(url)),
            Err(()) => None,
        },
        Err(_) => None,
    }
}

/// The text of the URL written `text` from its start to the end of its
/// path; `None` where `text` is no URL.
pub open spec fn url_through_path(text: Seq<char>) -> Option<Seq<char>> {
    match url_parsed(text) {
        Some((_, _, through_path)) => Some(through_path),
        None => None,
    }
}

} // verus!

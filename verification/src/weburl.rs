//! Absolute URLs, parsed and resolved by the `url` crate.
//!
//! The parser itself is not verified. What it returns is named by
//! [`url_parse`] and [`url_join`], and everything the crate proves about URLs
//! is stated over these two names.

use vstd::prelude::*;

verus! {

/// The error type of the `url` crate's parser, carried through unchanged.
#[verifier::external_type_specification]
#[verifier::external_body]
pub struct ExParseError(url::ParseError);

/// What `url::Url::parse` makes of `input`: the serialization of the parsed
/// URL, or the parser's error.
pub uninterp spec fn url_parse(input: Seq<char>) -> Result<Seq<char>, url::ParseError>;

/// What `url::Url::join` makes of `reference` on the URL that
/// `url::Url::parse` makes of `base`: the serialization of the resolved URL,
/// or the error of whichever of the two steps failed first.
pub uninterp spec fn url_join(base: Seq<char>, reference: Seq<char>) -> Result<
    Seq<char>,
    url::ParseError,
>;

/// The characters of a successful outcome, the error of a failed one.
pub open spec fn text_outcome(r: Result<String, url::ParseError>) -> Result<
    Seq<char>,
    url::ParseError,
> {
    match r {
        Ok(s) => Ok(s@),
        Err(e) => Err(e),
    }
}

/// Calls `url::Url::parse` and hands back the serialization of the URL it
/// returns. Trusted: the result is the one that `url_parse` names.
#[verifier::external_body]
fn parse_text(input: &str) -> (r: Result<String, url::ParseError>)
    ensures
        text_outcome(r) == url_parse(input@),
{
    match url::Url::parse(input) {
        Ok(parsed) => Ok(String::from(parsed)),
        Err(e) => Err(e),
    }
}

/// Calls `url::Url::join` on the URL that `url::Url::parse` makes of `base`
/// and hands back the serialization of the resolved URL. Trusted: the result
/// is the one that `url_join` names.
#[verifier::external_body]
fn join_text(base: &str, reference: &str) -> (r: Result<String, url::ParseError>)
    ensures
        text_outcome(r) == url_join(base@, reference@),
{
    match url::Url::parse(base) {
        Ok(parsed) => match parsed.join(reference) {
            Ok(resolved) => Ok(String::from(resolved)),
            Err(e) => Err(e),
        },
        Err(e) => Err(e),
    }
}

/// A URL could not be composed: the `url` crate rejected the text.
#[derive(Debug, Clone, Copy, PartialEq, Eq)]
pub struct UrlError {
    /// The parser's own error.
    pub cause: url::ParseError,
}

/// An absolute URL, held as the serialization that the `url` crate produced.
#[derive(Debug, Clone, PartialEq, Eq)]
pub struct WebUrl {
    text: String,
}

impl View for WebUrl {
    type V = Seq<char>;

    closed spec fn view(&self) -> Seq<char> {
        self.text@
    }
}

/// The characters of a resolved URL, or the parser's error.
pub open spec fn url_outcome(r: Result<WebUrl, UrlError>) -> Result<Seq<char>, url::ParseError> {
    match r {
        Ok(u) => Ok(u@),
        Err(e) => Err(e.cause),
    }
}

/// Resolves `reference` against a base that may itself have failed.
pub open spec fn url_join_on(
    base: Result<Seq<char>, url::ParseError>,
    reference: Seq<char>,
) -> Result<Seq<char>, url::ParseError> {
    match base {
        Ok(b) => url_join(b, reference),
        Err(e) => Err(e),
    }
}

impl WebUrl {
    /// Parses an absolute URL.
    pub fn parse(input: &str) -> (r: Result<WebUrl, UrlError>)
        ensures
            url_outcome(r) == url_parse(input@),
    {
        match parse_text(input) {
            Ok(text) => Ok(WebUrl { text }),
            Err(cause) => Err(UrlError { cause }),
        }
    }

    /// Resolves `reference` with this URL as the base.
    pub fn join(&self, reference: &str) -> (r: Result<WebUrl, UrlError>)
        ensures
            url_outcome(r) == url_join(self@, reference@),
    {
        match join_text(self.text.as_str(), reference) {
            Ok(text) => Ok(WebUrl { text }),
            Err(cause) => Err(UrlError { cause }),
        }
    }

    /// The serialization of this URL.
    pub fn as_str(&self) -> (s: &str)
        ensures
            s@ == self@,
    {
        self.text.as_str()
    }

    /// The serialization of this URL, owned.
    pub fn into_string(self) -> (s: String)
        ensures
            s@ == self@,
    {
        self.text
    }
}

} // verus!

//! The parts of `reqwest` (and the `url` crate behind `reqwest::Url`) that the
//! library uses: an HTTP client and error carried through as opaque values, and
//! URL manipulation on URL text.
//!
//! URLs are held as their serialization (`Url::as_str`).  Each function below
//! parses that text with `reqwest::Url::parse`, performs one operation, and
//! returns the serialization of the result.  What the `url` crate computes is
//! named (`parsed_url`, `joined_url`, ...) rather than restated: those results
//! depend on the text given alone.

use crate::text::opt_text;
use vstd::prelude::*;

verus! {

/// `reqwest::Client`, carried through unopened.
#[verifier::external_type_specification]
#[verifier::external_body]
pub struct ExClient(reqwest::Client);

/// `reqwest::Error`, carried through unopened.
#[verifier::external_type_specification]
#[verifier::external_body]
pub struct ExReqwestError(reqwest::Error);

/// What `reqwest::Url::parse(text)` gives: the serialization of the URL, or the
/// text of the `url::ParseError`.
pub uninterp spec fn parsed_url(text: Seq<char>) -> Result<Seq<char>, Seq<char>>;

/// `reqwest::Url::parse`: the serialization of the parsed URL, or the error's text.
/// The contract claims only that the outcome is the one named by `parsed_url`.
#[verifier::external_body]
pub(crate) fn parse_url(text: &str) -> (r: Result<String, String>)
    ensures
        match r {
            Ok(u) => parsed_url(text@) == Ok::<Seq<char>, Seq<char>>(u@),
            Err(e) => parsed_url(text@) == Err::<Seq<char>, Seq<char>>(e@),
        },
{
    match reqwest::Url::parse(text) {
        Ok(u) => Ok(u.to_string()),
        Err(e) => Err(e.to_string()),
    }
}

/// What `Url::join(input)` gives on the URL whose serialization is `base`
/// (`None` when `base` does not parse or the join fails).
pub uninterp spec fn joined_url(base: Seq<char>, input: Seq<char>) -> Option<Seq<char>>;

/// `Url::join`, applied to the URL parsed from `base`.  The contract claims only
/// that the outcome is the one named by `joined_url`.
#[verifier::external_body]
pub(crate) fn join_url(base: &str, input: &str) -> (r: Option<String>)
    ensures
        opt_text(r) == joined_url(base@, input@),
{
    match reqwest::Url::parse(base) {
        Ok(u) => u.join(input).ok().map(|j| j.to_string()),
        Err(_) => None,
    }
}

/// What `Url::path_segments_mut()` followed by `extend(segments)` gives on the
/// URL whose serialization is `base` (`None` when `base` does not parse or the
/// URL cannot be a base).
pub uninterp spec fn url_with_segments(base: Seq<char>, segments: Seq<Seq<char>>) -> Option<
    Seq<char>,
>;

/// `PathSegmentsMut::extend` on the URL parsed from `base`.  The contract claims
/// only that the outcome is the one named by `url_with_segments`.
#[verifier::external_body]
pub(crate) fn extend_path(base: &str, segments: &Vec<String>) -> (r: Option<String>)
    ensures
        opt_text(r) == url_with_segments(base@, segments.deep_view()),
{
    let mut u = reqwest::Url::parse(base).ok()?;
    match u.path_segments_mut() {
        Ok(mut p) => {
            p.extend(segments.iter());
        },
        Err(_) => return None,
    };
    Some(u.to_string())
}

/// What `Url::query_pairs_mut()` followed by `extend_pairs(pairs)` gives on the
/// URL whose serialization is `base` (`None` when `base` does not parse).
pub uninterp spec fn url_with_query(base: Seq<char>, pairs: Seq<(Seq<char>, Seq<char>)>) -> Option<
    Seq<char>,
>;

/// `form_urlencoded::Serializer::extend_pairs` on the query of the URL parsed
/// from `base`.  The contract claims only that the outcome is the one named by
/// `url_with_query`.
#[verifier::external_body]
pub(crate) fn extend_query(base: &str, pairs: &Vec<(String, String)>) -> (r: Option<String>)
    ensures
        opt_text(r) == url_with_query(base@, pairs.deep_view()),
{
    match reqwest::Url::parse(base) {
        Ok(mut u) => {
            u.query_pairs_mut().extend_pairs(pairs.iter().map(|(k, v)| (k.as_str(), v.as_str())));
            Some(u.to_string())
        },
        Err(_) => None,
    }
}

/// What the `Display` text of `reqwest::StatusCode::from_u16(code)` is: the code
/// and its canonical reason phrase (`None` when `from_u16` refuses the code,
/// which it does for codes below 100 and from 1000 on).
pub uninterp spec fn status_line(code: u16) -> Option<Seq<char>>;

/// `reqwest::StatusCode::from_u16` and its `Display` text.  The contract claims
/// that a code is refused exactly when `from_u16` refuses it, and otherwise names
/// the text by `status_line`.
#[verifier::external_body]
pub(crate) fn status_text(code: u16) -> (r: Option<String>)
    ensures
        opt_text(r) == status_line(code),
        r is None <==> (code < 100 || code >= 1000),
{
    match reqwest::StatusCode::from_u16(code) {
        Ok(s) => Some(s.to_string()),
        Err(_) => None,
    }
}

/// The `Display` text of a `reqwest::Error`.  Nothing is claimed of it: the
/// error is opaque here.
#[verifier::external_body]
pub(crate) fn error_text(e: &reqwest::Error) -> String {
    e.to_string()
}

} // verus!

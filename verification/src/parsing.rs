//! What the URL parser of the `url` crate says of a string.
//!
//! The parser's grammar is not restated here. Its verdict on a string is
//! given a name, and the two functions that call it promise only that they
//! return what that name stands for.

use vstd::prelude::*;

verus! {

/// Why the parser turned a string down.
#[derive(Clone, Debug, PartialEq, Eq)]
pub struct ParseFailure {
    /// The string has no scheme, and no base was given to supply one.
    pub relative_without_base: bool,
    /// The parser's own description of the error.
    pub message: String,
}

/// A `ParseFailure` as contracts see it.
pub ghost struct FailureModel {
    pub relative_without_base: bool,
    pub message: Seq<char>,
}

impl View for ParseFailure {
    type V = FailureModel;

    open spec fn view(&self) -> FailureModel {
        FailureModel { relative_without_base: self.relative_without_base, message: self.message@ }
    }
}

/// The parser's verdict as contracts see it: the serialization of the URL it
/// built, or the failure.
pub type ParseModel = Result<Seq<char>, FailureModel>;

/// The model of a verdict that came back from the parser.
pub open spec fn verdict_model(verdict: Result<String, ParseFailure>) -> ParseModel {
    match verdict {
        Ok(text) => Ok(text@),
        Err(failure) => Err(failure@),
    }
}

/// What `url::Url::parse` returns for `input`: the serialization of the
/// absolute URL, or the error with its description.
pub uninterp spec fn url_parse(input: Seq<char>) -> ParseModel;

/// What `url::Url::join` returns for `reference` on the URL that
/// `url::Url::parse` builds from `base`; where `base` itself is turned down,
/// that failure.
pub uninterp spec fn url_join(base: Seq<char>, reference: Seq<char>) -> ParseModel;

/// Calls `url::Url::parse`. Not proved: that the result is the one the name
/// `url_parse` stands for, which says no more than that the parser's verdict
/// depends on the input alone. A URL is handed back as its serialization, an
/// error as whether it is `RelativeUrlWithoutBase` and its `Display` text.
#[verifier::external_body]
pub(crate) fn parse_url(input: &str) -> (verdict: Result<String, ParseFailure>)
    ensures
        verdict_model(verdict) == url_parse(input@),
{
    match url::Url::parse(input) {
        Ok(parsed) => Ok(parsed.into()),
        Err(error) => Err(ParseFailure {
            relative_without_base: matches!(error, url::ParseError::RelativeUrlWithoutBase),
            message: error.to_string(),
        }),
    }
}

/// Calls `url::Url::join` on the URL that `url::Url::parse` builds from
/// `base`. Not proved: that the result is the one the name `url_join` stands
/// for, which says no more than that the verdict depends on the two strings
/// alone. Nothing is claimed of the joined URL itself.
#[verifier::external_body]
pub(crate) fn join_url(base: &str, reference: &str) -> (verdict: Result<String, ParseFailure>)
    ensures
        verdict_model(verdict) == url_join(base@, reference@),
{
    let joined = match url::Url::parse(base) {
        Ok(parsed) => parsed.join(reference),
        Err(error) => Err(error),
    };
    match joined {
        Ok(url) => Ok(url.into()),
        Err(error) => Err(ParseFailure {
            relative_without_base: matches!(error, url::ParseError::RelativeUrlWithoutBase),
            message: error.to_string(),
        }),
    }
}

} // verus!

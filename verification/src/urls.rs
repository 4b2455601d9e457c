//! URL normalization: a raw specifier string plus a base URL string become
//! one absolute, scheme-bearing URL.
//!
//! Parsing and joining are done by the `url` crate behind trusted wrappers;
//! their results are named by uninterpreted spec functions, so the verified
//! normalization logic is exact up to those names.

use vstd::prelude::*;

use crate::errors::{FlyError, SpecError};

verus! {

/// What an attempt to parse (or join) a URL string yields, at spec level:
/// either the parsed URL's serialization and scheme, or the particular
/// failure "the input is relative and no base was given", or any other
/// parse failure.
pub enum UrlParseOutcome {
    Parsed { text: Seq<char>, scheme: Seq<char> },
    RelativeNoBase,
    Invalid,
}

/// The outcome of `url::Url::parse` on a string: the parsed URL's
/// serialization (`Url::as_str`) and scheme (`Url::scheme`, lower-cased by
/// the parser), or which way it failed.
pub uninterp spec fn url_parse_result(s: Seq<char>) -> UrlParseOutcome;

/// The outcome of parsing `base` with `url::Url::parse` and joining `rel`
/// onto it with `url::Url::join`: the joined URL's serialization and scheme,
/// or which way the first failing step failed.
pub uninterp spec fn url_join_result(base: Seq<char>, rel: Seq<char>) -> UrlParseOutcome;

/// The file-system path that `url::Url::to_file_path` derives from a URL
/// with the given serialization, or `None` where the URL does not parse,
/// names a non-local host, or yields no representable path.
pub uninterp spec fn file_path_of(url_text: Seq<char>) -> Option<Seq<char>>;

/// An absolute URL, reduced to the two pieces this subsystem reads:
/// its full serialization and its scheme.
#[derive(Clone, Debug)]
pub struct AbsUrl {
    pub text: String,
    pub scheme: String,
}

/// Spec-level mirror of [`AbsUrl`].
pub struct SpecUrl {
    pub text: Seq<char>,
    pub scheme: Seq<char>,
}

impl View for AbsUrl {
    type V = SpecUrl;

    open spec fn view(&self) -> SpecUrl {
        SpecUrl { text: self.text@, scheme: self.scheme@ }
    }
}

/// The exec-level outcome of a parse or join attempt.
pub enum ParseAttempt {
    Parsed(AbsUrl),
    RelativeNoBase,
    Invalid,
}

/// Whether the exec-level attempt `r` reports exactly the spec-level
/// outcome `o`.
pub open spec fn attempt_matches(r: ParseAttempt, o: UrlParseOutcome) -> bool {
    match r {
        ParseAttempt::Parsed(u) => o == (UrlParseOutcome::Parsed {
            text: u.text@,
            scheme: u.scheme@,
        }),
        ParseAttempt::RelativeNoBase => o == UrlParseOutcome::RelativeNoBase,
        ParseAttempt::Invalid => o == UrlParseOutcome::Invalid,
    }
}

/// Relies on `url::Url::parse`; the serialization and scheme of the parsed
/// URL are read with `url::Url::as_str` and `url::Url::scheme`, and the
/// error `url::ParseError::RelativeUrlWithoutBase` is told apart from every
/// other parse error.
#[verifier::external_body]
fn try_parse_url(s: &str) -> (r: ParseAttempt)
    ensures
        attempt_matches(r, url_parse_result(s@)),
{
    match url::Url::parse(s) {
        Ok(u) => ParseAttempt::Parsed(
            AbsUrl { text: u.as_str().to_string(), scheme: u.scheme().to_string() },
        ),
        Err(url::ParseError::RelativeUrlWithoutBase) => ParseAttempt::RelativeNoBase,
        Err(_) => ParseAttempt::Invalid,
    }
}

/// Relies on `url::Url::parse` (on `base`) and `url::Url::join` (of `rel`
/// onto it); the error `url::ParseError::RelativeUrlWithoutBase` is told
/// apart from every other parse error.
#[verifier::external_body]
fn try_join_url(base: &str, rel: &str) -> (r: ParseAttempt)
    ensures
        attempt_matches(r, url_join_result(base@, rel@)),
{
    let joined = match url::Url::parse(base) {
        Ok(b) => b.join(rel),
        Err(e) => Err(e),
    };
    match joined {
        Ok(u) => ParseAttempt::Parsed(
            AbsUrl { text: u.as_str().to_string(), scheme: u.scheme().to_string() },
        ),
        Err(url::ParseError::RelativeUrlWithoutBase) => ParseAttempt::RelativeNoBase,
        Err(_) => ParseAttempt::Invalid,
    }
}

/// Relies on `url::Url::parse` and `url::Url::to_file_path`: the path is a
/// function of the URL text alone; a URL that does not parse, that names a
/// non-local host, or whose path a `PathBuf` cannot represent yields `None`
/// (`PathBuf::to_str` is used to hand the path out as text).
#[verifier::external_body]
pub(crate) fn file_path_for_url(url_text: &str) -> (r: Option<String>)
    ensures
        match r {
            Some(p) => file_path_of(url_text@) == Some(p@),
            None => file_path_of(url_text@) is None,
        },
{
    match url::Url::parse(url_text) {
        Ok(parsed) => match parsed.to_file_path() {
            Ok(p) => p.to_str().map(|s| s.to_string()),
            Err(()) => None,
        },
        Err(_) => None,
    }
}

/// The message of a `MalformedSpecifier` error: it names the specifier and
/// the base it was normalized against.
pub open spec fn malformed_msg(specifier: Seq<char>, base: Seq<char>) -> Seq<char> {
    "Could not parse "@ + specifier + " from "@ + base
}

/// A URL with an empty scheme defaults to scheme "file".
pub open spec fn default_scheme(u: SpecUrl) -> SpecUrl {
    if u.scheme.len() == 0 {
        SpecUrl { text: u.text, scheme: "file"@ }
    } else {
        u
    }
}

/// What normalization yields: parse `raw` as an absolute URL; if it is
/// relative, join it onto `base`; any other failure, of the parse or of the
/// join, is a `MalformedSpecifier`. The resulting URL's scheme defaults to
/// "file" where it is empty.
pub open spec fn spec_parse_url(raw: Seq<char>, base: Seq<char>) -> Result<SpecUrl, SpecError> {
    match url_parse_result(raw) {
        UrlParseOutcome::Parsed { text, scheme } => Ok(
            default_scheme(SpecUrl { text, scheme }),
        ),
        UrlParseOutcome::RelativeNoBase => match url_join_result(base, raw) {
            UrlParseOutcome::Parsed { text, scheme } => Ok(
                default_scheme(SpecUrl { text, scheme }),
            ),
            UrlParseOutcome::RelativeNoBase => Err(
                SpecError::MalformedSpecifier { message: malformed_msg(raw, base) },
            ),
            UrlParseOutcome::Invalid => Err(
                SpecError::MalformedSpecifier { message: malformed_msg(raw, base) },
            ),
        },
        UrlParseOutcome::Invalid => Err(
            SpecError::MalformedSpecifier { message: malformed_msg(raw, base) },
        ),
    }
}

/// Builds the `MalformedSpecifier` message for `raw` against `base`.
fn build_malformed_msg(raw: &str, base: &str) -> (r: String)
    ensures
        r@ == malformed_msg(raw@, base@),
{
    let mut m = String::from_str("Could not parse ");
    m.append(raw);
    m.append(" from ");
    m.append(base);
    m
}

/// Applies the "file" default to a freshly parsed URL.
fn apply_default_scheme(u: AbsUrl) -> (r: AbsUrl)
    ensures
        r@ == default_scheme(u@),
{
    if u.scheme.as_str().is_empty() {
        AbsUrl { text: u.text, scheme: String::from_str("file") }
    } else {
        u
    }
}

/// Parse `url_str` as an absolute URL, or join it onto `working_url_str`
/// when it is relative; a URL with no scheme defaults to scheme "file".
/// `working_url_str` must itself be absolute for the join to succeed; a
/// relative base fails the join naturally and is reported as a
/// `MalformedSpecifier` like any other parse failure.
pub fn parse_url(url_str: &str, working_url_str: &str) -> (r: Result<AbsUrl, FlyError>)
    ensures
        match r {
            Ok(u) => spec_parse_url(url_str@, working_url_str@) == Ok::<SpecUrl, SpecError>(u@),
            Err(e) => spec_parse_url(url_str@, working_url_str@) == Err::<SpecUrl, SpecError>(e@),
        },
{
    match try_parse_url(url_str) {
        ParseAttempt::Parsed(u) => Ok(apply_default_scheme(u)),
        ParseAttempt::RelativeNoBase => match try_join_url(working_url_str, url_str) {
            ParseAttempt::Parsed(u) => Ok(apply_default_scheme(u)),
            ParseAttempt::RelativeNoBase => Err(
                FlyError::MalformedSpecifier {
                    message: build_malformed_msg(url_str, working_url_str),
                },
            ),
            ParseAttempt::Invalid => Err(
                FlyError::MalformedSpecifier {
                    message: build_malformed_msg(url_str, working_url_str),
                },
            ),
        },
        ParseAttempt::Invalid => Err(
            FlyError::MalformedSpecifier {
                message: build_malformed_msg(url_str, working_url_str),
            },
        ),
    }
}

} // verus!

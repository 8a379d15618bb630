//! Resolution of possibly-relative URL strings against a base.

use url::Url;
use vstd::prelude::*;

verus! {

/// Why a candidate string could not be turned into an absolute URL.
#[derive(Clone, Copy, Debug, PartialEq, Eq, Structural)]
pub enum ResolutionError {
    /// The base string is not an absolute URL.
    InvalidBase,
    /// The candidate can neither stand alone nor be joined to the base.
    InvalidCandidate,
}

/// What the URL parser reports of a string that is an absolute URL.
#[derive(Clone, Debug, PartialEq, Eq)]
pub struct ParsedUrl {
    /// The canonical serialization.
    pub text: String,
    /// Whether relative references cannot be resolved against this URL
    /// (as with `mailto:` and `data:` URLs).
    pub cannot_be_a_base: bool,
}

impl View for ParsedUrl {
    type V = (Seq<char>, bool);

    open spec fn view(&self) -> (Seq<char>, bool) {
        (self.text@, self.cannot_be_a_base)
    }
}

/// The result of `url::Url::parse` on `input`: the serialization of the
/// parsed URL paired with its cannot-be-a-base flag, or `None` where the
/// input is not an absolute URL.
pub uninterp spec fn url_parse(input: Seq<char>) -> Option<(Seq<char>, bool)>;

/// The serialization of what `url::Url::join` returns for the URL parsed
/// from `base` and the given reference; `None` where `base` is not an
/// absolute URL or the reference cannot be joined to it.
pub uninterp spec fn url_join(base: Seq<char>, reference: Seq<char>) -> Option<Seq<char>>;

/// The view of an optional parse result.
pub open spec fn parsed_view(parsed: Option<ParsedUrl>) -> Option<(Seq<char>, bool)> {
    match parsed {
        Some(u) => Some(u@),
        None => None,
    }
}

/// The view of an optional string.
pub open spec fn text_view(text: Option<String>) -> Option<Seq<char>> {
    match text {
        Some(t) => Some(t@),
        None => None,
    }
}

/// Calls `url::Url::parse`. Trusted: the parser is deterministic, so its
/// outcome on `input` is the value that `url_parse` names; the flag is read
/// with `Url::cannot_be_a_base` and the text is the URL's serialization.
#[verifier::external_body]
pub(crate) fn parse_url(input: &str) -> (parsed: Option<ParsedUrl>)
    ensures
        parsed_view(parsed) == url_parse(input@),
{
    match Url::parse(input) {
        Ok(u) => Some(ParsedUrl { cannot_be_a_base: u.cannot_be_a_base(), text: String::from(u) }),
        Err(_) => None,
    }
}

/// Parses `base` with `url::Url::parse` and calls `url::Url::join` on it.
/// Trusted: the outcome is the value that `url_join` names.
#[verifier::external_body]
fn join_url(base: &str, reference: &str) -> (joined: Option<String>)
    ensures
        text_view(joined) == url_join(base@, reference@),
{
    match Url::parse(base) {
        Ok(b) => match b.join(reference) {
            Ok(u) => Some(String::from(u)),
            Err(_) => None,
        },
        Err(_) => None,
    }
}

/// The resolution rule, over what the URL parser made of its inputs:
/// a candidate that is an absolute URL and can be a base is taken as it
/// is; otherwise the base must be an absolute URL and the candidate, which
/// must not be empty, is joined to it.
pub open spec fn resolution(
    candidate: Option<(Seq<char>, bool)>,
    base: Option<(Seq<char>, bool)>,
    candidate_is_empty: bool,
    joined: Option<Seq<char>>,
) -> Result<Seq<char>, ResolutionError> {
    match candidate {
        Some((text, false)) => Ok(text),
        _ => match (base, joined) {
            (None, _) => Err(ResolutionError::InvalidBase),
            (Some(_), Some(url)) if !candidate_is_empty => Ok(url),
            (Some(_), _) => Err(ResolutionError::InvalidCandidate),
        },
    }
}

/// The absolute URL that `candidate` denotes relative to `base`.
pub open spec fn resolve_spec(base: Seq<char>, candidate: Seq<char>) -> Result<
    Seq<char>,
    ResolutionError,
> {
    resolution(
        url_parse(candidate),
        url_parse(base),
        candidate.len() == 0,
        url_join(base, candidate),
    )
}

/// The view of a resolution result.
pub open spec fn resolved_view(r: Result<String, ResolutionError>) -> Result<
    Seq<char>,
    ResolutionError,
> {
    match r {
        Ok(u) => Ok(u@),
        Err(e) => Err(e),
    }
}

/// Applies the resolution rule to the parser's answers.
pub fn resolution_of(
    candidate: Option<ParsedUrl>,
    base: Option<ParsedUrl>,
    candidate_is_empty: bool,
    joined: Option<String>,
) -> (r: Result<String, ResolutionError>)
    ensures
        resolved_view(r) == resolution(
            parsed_view(candidate),
            parsed_view(base),
            candidate_is_empty,
            text_view(joined),
        ),
{
    if let Some(c) = candidate {
        if !c.cannot_be_a_base {
            return Ok(c.text);
        }
    }
    if base.is_none() {
        return Err(ResolutionError::InvalidBase);
    }
    if candidate_is_empty {
        return Err(ResolutionError::InvalidCandidate);
    }
    match joined {
        Some(u) => Ok(u),
        None => Err(ResolutionError::InvalidCandidate),
    }
}

/// Resolves `candidate` against `base` into an absolute URL.
pub fn resolve(base: &str, candidate: &str) -> (r: Result<String, ResolutionError>)
    ensures
        resolved_view(r) == resolve_spec(base@, candidate@),
{
    resolution_of(
        parse_url(candidate),
        parse_url(base),
        candidate.is_empty(),
        join_url(base, candidate),
    )
}

} // verus!

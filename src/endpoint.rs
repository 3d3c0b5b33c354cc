use vstd::prelude::*;

use crate::error::ConnectorURLError;
use crate::option_view;

verus! {

/// What the path of the URL written `url` ends in: none when the text is
/// not a URL; `Some(None)` when the path has no segments, because it is
/// opaque (as in `mailto:a@b`) or empty (as in `foo://host`); else its last
/// path segment.
pub uninterp spec fn last_path_segment_of(url: Seq<char>) -> Option<Option<Seq<char>>>;

/// The URL written `url` with `segment` appended to its path; none when the
/// text is not a URL or the URL is cannot-be-a-base.
pub uninterp spec fn with_segment_of(url: Seq<char>, segment: Seq<char>) -> Option<Seq<char>>;

/// The URL that `reference` denotes relative to the URL written `base`; none
/// when either cannot be parsed.
pub uninterp spec fn joined_of(base: Seq<char>, reference: Seq<char>) -> Option<Seq<char>>;

/// Whether `base` is a URL whose path has no segments.
pub open spec fn has_no_segments(base: Seq<char>) -> bool {
    last_path_segment_of(base) == Some(None::<Seq<char>>)
}

/// Whether `base` is a hierarchical URL whose path ends in a non-empty
/// segment, that is, has no trailing slash.
pub open spec fn lacks_trailing_slash(base: Seq<char>) -> bool {
    match last_path_segment_of(base) {
        Some(Some(segment)) => segment.len() > 0,
        _ => false,
    }
}

/// Whether `base` is a URL that must be brought to end in an empty segment
/// before a path is resolved against it: its path has no segments, or its
/// last segment is not empty.
pub open spec fn needs_extension(base: Seq<char>) -> bool {
    has_no_segments(base) || lacks_trailing_slash(base)
}

/// Whether `base` is a URL that must, and cannot, be brought to end in an
/// empty segment: appending one fails, as it does for an opaque path.
pub open spec fn cannot_be_extended(base: Seq<char>) -> bool {
    needs_extension(base) && with_segment_of(base, Seq::empty()) is None
}

/// The endpoint URL of `path` under `base`: the base is first brought to end
/// in an empty segment, so that its last segment is kept, then `path` is
/// resolved against it. There is none when `base` is not a URL or cannot
/// be so extended.
pub open spec fn endpoint_of(base: Seq<char>, path: Seq<char>) -> Option<Seq<char>> {
    if last_path_segment_of(base) is None {
        None
    } else if needs_extension(base) {
        match with_segment_of(base, Seq::empty()) {
            Some(directory) => joined_of(directory, path),
            None => None,
        }
    } else {
        joined_of(base, path)
    }
}

/// Relies on url's `Url::parse` and `Url::path_segments`: the parser's error
/// for a text that is not a URL, no segment for a cannot-be-a-base URL, else
/// the last path segment.
#[verifier::external_body]
fn last_path_segment(url: &str) -> (r: Result<Option<String>, url::ParseError>)
    ensures
        match r {
            Ok(last) => last_path_segment_of(url@) == Some(option_view(last)),
            Err(_) => last_path_segment_of(url@) is None,
        },
{
    let parsed = url::Url::parse(url)?;
    Ok(parsed.path_segments().and_then(|mut segments| segments.next_back()).map(|s| s.to_string()))
}

/// Relies on url's `Url::path_segments_mut` and `PathSegmentsMut::push`,
/// which appends a segment; an empty one appended becomes the last.
#[verifier::external_body]
fn push_segment(url: &str, segment: &str) -> (r: Option<String>)
    ensures
        option_view(r) == with_segment_of(url@, segment@),
        segment@.len() == 0 && r is Some ==> last_path_segment_of(r->0@) == Some(
            Some(Seq::<char>::empty()),
        ),
{
    let mut parsed = url::Url::parse(url).ok()?;
    parsed.path_segments_mut().ok()?.push(segment);
    Some(parsed.into())
}

/// Relies on url's `Url::join`: resolution of a reference against a base.
#[verifier::external_body]
fn join_url(base: &str, reference: &str) -> (r: Result<String, url::ParseError>)
    ensures
        match r {
            Ok(s) => joined_of(base@, reference@) == Some(s@),
            Err(_) => joined_of(base@, reference@) is None,
        },
{
    let parsed = url::Url::parse(base)?;
    let joined = parsed.join(reference)?;
    Ok(joined.into())
}

/// Whether a base whose path ends in `last_segment` must have an empty
/// segment appended before a path is resolved against it: whether its path
/// has no segment, or a last one that is not empty.
pub fn needs_trailing_slash(last_segment: &Option<String>) -> (r: bool)
    ensures
        r == (last_segment matches Some(segment) ==> segment@.len() > 0),
{
    match last_segment {
        Some(segment) => !segment.as_str().is_empty(),
        None => true,
    }
}

fn resolve(base: &str, path: &str) -> (r: Result<String, ConnectorURLError>)
    ensures
        match r {
            Ok(s) => joined_of(base@, path@) == Some(s@),
            Err(e) => joined_of(base@, path@) is None && e is URLParseError,
        },
{
    match join_url(base, path) {
        Ok(s) => Ok(s),
        Err(e) => Err(ConnectorURLError::URLParseError(e)),
    }
}

/// The endpoint URL of `path` under the base URL `url`, whether or not the
/// base ends in a slash: `http://h/ndc` and `http://h/ndc/` both give
/// `http://h/ndc/capabilities` for `capabilities`. An opaque base, such as
/// `mailto:a@b`, has no path to extend, while an empty path, as in
/// `foo://host`, is extended; a text that is not a URL, or a path that
/// cannot be resolved, gives the parser's error.
pub fn append_path(url: &str, path: &str) -> (r: Result<String, ConnectorURLError>)
    ensures
        match r {
            Ok(s) => endpoint_of(url@, path@) == Some(s@),
            Err(ConnectorURLError::URLCannotBeABase()) => cannot_be_extended(url@),
            Err(ConnectorURLError::URLParseError(_)) => endpoint_of(url@, path@) is None
                && !cannot_be_extended(url@),
        },
        r is Ok <==> endpoint_of(url@, path@) is Some,
        needs_extension(url@) ==> (with_segment_of(url@, Seq::empty()) matches Some(directory)
            ==> last_path_segment_of(directory) == Some(Some(Seq::<char>::empty()))),
{
    let last = match last_path_segment(url) {
        Ok(last) => last,
        Err(e) => {
            return Err(ConnectorURLError::URLParseError(e));
        },
    };
    if needs_trailing_slash(&last) {
        let empty = "";
        proof {
            reveal_strlit("");
        }
        assert(empty@ == Seq::<char>::empty());
        match push_segment(url, empty) {
            Some(directory) => resolve(directory.as_str(), path),
            None => Err(ConnectorURLError::URLCannotBeABase()),
        }
    } else {
        resolve(url, path)
    }
}

/// Appending a path to a base without a trailing slash, or without path
/// segments, gives the same endpoint as appending it to that base with an
/// empty segment, that is a trailing slash, added; `append_path` states the
/// last two requirements of every such base.
pub proof fn lemma_trailing_slash_irrelevant(base: Seq<char>, directory: Seq<char>, path: Seq<char>)
    requires
        needs_extension(base),
        with_segment_of(base, Seq::empty()) == Some(directory),
        last_path_segment_of(directory) == Some(Some(Seq::<char>::empty())),
    ensures
        endpoint_of(base, path) == endpoint_of(directory, path),
        endpoint_of(directory, path) == joined_of(directory, path),
{
}

} // verus!

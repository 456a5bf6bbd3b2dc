//! Deriving the latest version from the artifact name and the current
//! version from persisted state or an explicit override.

use vstd::prelude::*;

verus! {

use crate::error::BedrockUpdaterError;
use crate::version::VersionString;
use crate::version::spec_parse;

/// The view of an optional text.
pub open spec fn opt_text_view(text: Option<String>) -> Option<Seq<char>> {
    match text {
        Some(t) => Some(t@),
        None => None,
    }
}

/// What resolving the current version yields: the override when one is
/// given, the persisted text otherwise, and a hard error when neither
/// exists.
pub open spec fn spec_resolve_current(
    persisted: Option<Seq<char>>,
    first_version: Option<Seq<char>>,
) -> Result<VersionString, BedrockUpdaterError> {
    match first_version {
        Some(text) => spec_parse(text),
        None => match persisted {
            Some(text) => spec_parse(text),
            None => Err(BedrockUpdaterError::NoCurrentVersion),
        },
    }
}

/// What resolving both versions yields: the current version first, then
/// the latest from the artifact's file name; either failure
/// short-circuits the pair.
pub open spec fn spec_resolve_pair(
    file_name: Seq<char>,
    persisted: Option<Seq<char>>,
    first_version: Option<Seq<char>>,
) -> Result<(VersionString, VersionString), BedrockUpdaterError> {
    match spec_resolve_current(persisted, first_version) {
        Err(e) => Err(e),
        Ok(current) => match spec_parse(file_name) {
            Err(e) => Err(e),
            Ok(latest) => Ok((current, latest)),
        },
    }
}

/// The latest version of the server, derived from the artifact's file
/// name (the URL's path), which contains the version string.
pub fn resolve_latest(file_name: &str) -> (r: Result<VersionString, BedrockUpdaterError>)
    ensures
        r == spec_parse(file_name@),
{
    VersionString::parse(file_name)
}

/// The current version of the server, from the persisted record text or
/// an explicit override.
///
/// The first component of the result is the text that must be written
/// to the version record before anything else is done with the result:
/// present exactly when an override is given, and then always the
/// override's text, whatever was persisted before.  The override is
/// authoritative even when a persisted text exists.
pub fn resolve_current(persisted: &Option<String>, first_version: &Option<String>) -> (r: (
    Option<String>,
    Result<VersionString, BedrockUpdaterError>,
))
    ensures
        r.1 == spec_resolve_current(opt_text_view(*persisted), opt_text_view(*first_version)),
        first_version matches Some(text) ==> r.0 matches Some(w) && w@ == text@,
        first_version is None ==> r.0 is None,
        first_version is None && persisted is None ==> r.1 == Err::<VersionString, _>(
            BedrockUpdaterError::NoCurrentVersion,
        ),
{
    match (first_version, persisted) {
        (Some(text), _) => (Some(text.clone()), VersionString::parse(text.as_str())),
        (None, Some(text)) => (None, VersionString::parse(text.as_str())),
        (None, None) => (None, Err(BedrockUpdaterError::NoCurrentVersion)),
    }
}

/// Both resolutions in one step.  The first component of the result is
/// the record write owed to an override, as in [`resolve_current`]; the
/// second pairs the current and latest versions, the current
/// resolution's failure taking precedence.
pub fn resolve(file_name: &str, persisted: &Option<String>, first_version: &Option<String>) -> (r:
    (Option<String>, Result<(VersionString, VersionString), BedrockUpdaterError>))
    ensures
        r.1 == spec_resolve_pair(
            file_name@,
            opt_text_view(*persisted),
            opt_text_view(*first_version),
        ),
        first_version matches Some(text) ==> r.0 matches Some(w) && w@ == text@,
        first_version is None ==> r.0 is None,
{
    let (write, current_res) = resolve_current(persisted, first_version);
    match current_res {
        Err(e) => (write, Err(e)),
        Ok(current) => match resolve_latest(file_name) {
            Err(e) => (write, Err(e)),
            Ok(latest) => (write, Ok((current, latest))),
        },
    }
}

} // verus!

//! The error kinds that a pipeline cycle can end with.

use vstd::prelude::*;

verus! {

/// Every failure of one update cycle, as a tagged kind.  Kinds are never
/// collapsed: the caller that drives the pipeline can demote some of them
/// (such as [`BedrockUpdaterError::NoCurrentVersion`]) to warnings while
/// treating the rest as errors.
#[derive(Clone, Copy, Debug, PartialEq, Eq, Structural)]
pub enum BedrockUpdaterError {
    /// The page or archive fetch failed at the transport level.
    RequestError,
    /// The platform selector is not a valid CSS selector group.
    SelectorParseError,
    /// No element on the page matches the platform selector.
    NoDownloadElement,
    /// More than one element matches: the page shape changed, so no
    /// element is silently picked.
    TooManyDownloadElements,
    /// The single matching element carries no readable link attribute.
    NoDownloadLinkAttr,
    /// The link of the matching element is not a parseable absolute URL.
    CannotParseUrl,
    /// A staged entry has no representable file name.
    NoFileName,
    /// No four-component version substring occurs in the text.
    NoVersionString,
    /// A version substring occurs but a component does not fit an
    /// unsigned 64-bit integer.
    UnparseableVersion,
    /// A filesystem operation (create, list, copy a file, write the
    /// record, remove staging) failed.
    FileNotFound,
    /// The persisted version record is not valid UTF-8.
    FromUtf8Error,
    /// No persisted version and no override: the operator must seed the
    /// record once.
    NoCurrentVersion,
    /// The server directory does not exist.
    NoServerPath,
    /// Expanding the downloaded archive failed; the live tree was not
    /// touched.
    ServerZipExtractFailed,
    /// Recursively merging a staged directory failed.
    UpdateCopyError,
}

impl BedrockUpdaterError {
    /// A short description of the error, for callers that report it.
    pub fn describe(&self) -> (r: &'static str)
        ensures
            r@.len() > 0,
    {
        let r = match self {
            BedrockUpdaterError::RequestError => "request failed",
            BedrockUpdaterError::SelectorParseError => "could not parse the platform selector",
            BedrockUpdaterError::NoDownloadElement => "no download element found",
            BedrockUpdaterError::TooManyDownloadElements => "too many download elements found, this probably means the page changed",
            BedrockUpdaterError::NoDownloadLinkAttr => "no href attribute found",
            BedrockUpdaterError::CannotParseUrl => "could not parse the download url",
            BedrockUpdaterError::NoFileName => "file name terminates in ..",
            BedrockUpdaterError::NoVersionString => "could not find version string in filename",
            BedrockUpdaterError::UnparseableVersion => "could not parse version number",
            BedrockUpdaterError::FileNotFound => "file not found",
            BedrockUpdaterError::FromUtf8Error => "string is not valid utf-8",
            BedrockUpdaterError::NoCurrentVersion => "unable to find version in file, use --set-first-version",
            BedrockUpdaterError::NoServerPath => "server path does not exist",
            BedrockUpdaterError::ServerZipExtractFailed => "server zip extraction failed. did the download link download the correct file?",
            BedrockUpdaterError::UpdateCopyError => "could not copy contents of update files",
        };
        proof {
            reveal_strlit("request failed");
            reveal_strlit("could not parse the platform selector");
            reveal_strlit("no download element found");
            reveal_strlit("too many download elements found, this probably means the page changed");
            reveal_strlit("no href attribute found");
            reveal_strlit("could not parse the download url");
            reveal_strlit("file name terminates in ..");
            reveal_strlit("could not find version string in filename");
            reveal_strlit("could not parse version number");
            reveal_strlit("file not found");
            reveal_strlit("string is not valid utf-8");
            reveal_strlit("unable to find version in file, use --set-first-version");
            reveal_strlit("server path does not exist");
            reveal_strlit("server zip extraction failed. did the download link download the correct file?");
            reveal_strlit("could not copy contents of update files");
        }
        r
    }
}

} // verus!

//! The update pipeline as a state machine.
//!
//! One update cycle walks the machine from [`PipelineState::Idle`] to a
//! [`PipelineState::Done`] outcome.  The machine makes every decision of
//! the cycle; the caller performs the I/O: it executes each
//! [`PipelineAction`] the machine emits (fetch, check, read, write,
//! download, extract, list, copy, remove) and reports what happened as
//! the next [`PipelineEvent`].  The machine holds no state across
//! cycles: every cycle re-derives the current and latest versions from
//! scratch.

use vstd::prelude::*;

verus! {

use crate::error::BedrockUpdaterError;
use crate::installer::MergeAction;
use crate::installer::MergeActionModel;
use crate::installer::StagedEntry;
use crate::installer::actions_view;
use crate::installer::blacklist_view;
use crate::installer::entries_view;
use crate::installer::plan_merge;
use crate::installer::spec_plan;
use crate::link::DownloadReference;
use crate::link::find_download_link;
use crate::link::find_rel;
use crate::version::VersionOrder;
use crate::version::VersionString;
use crate::version::spec_compare;
use crate::version::spec_matched_text;
use crate::version::spec_parse;
use crate::version::version_text;

/// The configuration of a pipeline: where the page is, how the download
/// element is selected on it, which file names an update must not
/// overwrite, and the optional one-time version override.
pub struct PipelineConfig {
    /// The vendor download page.
    pub page_url: String,
    /// The CSS selector group that must match exactly one download
    /// element on the page.
    pub selector: String,
    /// The protected file names: operator-owned configuration that an
    /// update never overwrites when it already exists.
    pub blacklist: Vec<String>,
    /// When present, the authoritative current version; it is written
    /// to the version record before any comparison.
    pub first_version: Option<String>,
}

/// Where one update cycle stands.  States other than `Idle` and `Done`
/// name the action the caller is currently performing.
pub enum PipelineState {
    /// No cycle is running.
    Idle,
    /// The page fetch is out.
    Fetching,
    /// The server directory existence check is out.
    CheckingServerDir { reference: DownloadReference },
    /// The version record read is out.
    ReadingRecord { reference: DownloadReference },
    /// The override is being written to the version record.
    WritingFirstVersion { reference: DownloadReference },
    /// The archive download is out; the caller keeps the bytes.
    Downloading { latest: VersionString, latest_text: String },
    /// The staging directory is being created.
    CreatingStaging { latest: VersionString, latest_text: String },
    /// The archive is being expanded into the staging tree.
    Extracting { latest: VersionString, latest_text: String },
    /// The staging tree's immediate entries are being listed.
    ListingEntries { latest: VersionString, latest_text: String },
    /// The planned copies are being performed; `actions[next - 1]` is
    /// the one currently out.
    Merging { latest: VersionString, latest_text: String, actions: Vec<MergeAction>, next: usize },
    /// All copies succeeded; the new version is being written to the
    /// record, the durable signal that the update completed.
    WritingVersion { latest: VersionString },
    /// The staging tree is being removed.
    RemovingStaging { latest: VersionString },
    /// The cycle ended.
    Done { outcome: CycleOutcome },
}

/// How a cycle ended.
#[derive(Clone, Copy, Debug, PartialEq, Eq, Structural)]
pub enum CycleOutcome {
    /// The current version equals the latest; nothing was done.
    UpToDate,
    /// The current version is ahead of the latest: most likely a
    /// preview install.  Informational, never a downgrade.
    AheadOfRemote,
    /// The new version was merged in and recorded.
    Updated { latest: VersionString },
    /// The cycle failed; nothing after the failing step was attempted.
    Failed { error: BedrockUpdaterError },
}

/// What the caller reports back to the machine.
pub enum PipelineEvent {
    /// Begin a cycle.
    Start,
    /// The page fetch returned this HTML text.
    PageFetched { html: String },
    /// The page fetch failed at the transport level.
    FetchFailed,
    /// Whether the server directory exists.
    ServerDirChecked { exists: bool },
    /// The version record's text, or nothing when the record cannot be
    /// read.
    RecordRead { text: Option<String> },
    /// The version record exists but is not valid UTF-8.
    RecordUnreadable,
    /// The pending record write succeeded.
    RecordWritten,
    /// The pending record write failed.
    RecordWriteFailed,
    /// The archive download completed; the caller holds the bytes.
    Downloaded,
    /// The archive download failed at the transport level.
    DownloadFailed,
    /// The staging directory exists now.
    StagingCreated,
    /// Creating the staging directory failed.
    StagingCreateFailed,
    /// The archive was expanded into the staging tree.
    Extracted,
    /// Expanding the archive failed; the staging tree may hold partial
    /// contents but the live tree was not touched.
    ExtractFailed,
    /// The immediate entries of the staging tree.
    EntriesListed { entries: Vec<StagedEntry> },
    /// Listing the staging tree failed.
    ListFailed,
    /// The pending copy or merge succeeded.
    MergeStepDone,
    /// The pending copy or merge failed.
    MergeStepFailed,
    /// The staging tree was removed.
    StagingRemoved,
    /// Removing the staging tree failed.
    StagingRemoveFailed,
}

/// What the machine asks the caller to do next.
pub enum PipelineAction {
    /// Fetch the page at `url` and report `PageFetched` or
    /// `FetchFailed`.
    FetchPage { url: String },
    /// Report whether the server directory exists.
    CheckServerDir,
    /// Read the version record and report its text.
    ReadRecord,
    /// Write `text` to the version record, replacing any previous
    /// content.
    WriteRecord { text: String },
    /// Download the archive at `url` and keep its bytes.
    Download { url: String },
    /// Create the staging directory and its parents.
    CreateStaging,
    /// Expand the downloaded archive into the staging tree, stripping a
    /// single common leading path component.
    ExtractArchive,
    /// List the immediate entries of the staging tree.
    ListEntries,
    /// Copy the staged plain file `name` into the installation tree,
    /// overwriting any existing file there.
    CopyFile { name: String },
    /// Recursively merge the staged directory `name` into the
    /// installation tree, overwriting conflicting files, without first
    /// deleting the destination.
    MergeDir { name: String },
    /// Remove the staging tree entirely.
    RemoveStaging,
}

/// The vendor download page for the server distribution.
pub open spec fn spec_default_page_url() -> Seq<char> {
    "https://www.minecraft.net/en-us/download/server/bedrock"@
}

/// The selector for the Linux server download element.  It should be
/// updated as the page changes.
pub open spec fn spec_default_selector() -> Seq<char> {
    "a.downloadlink[data-platform=serverBedrockLinux]"@
}

/// The stock protected file names: the operator-owned permission list,
/// allow-list and server properties.
pub open spec fn spec_default_blacklist() -> Seq<Seq<char>> {
    seq!["permissions.json"@, "allowlist.json"@, "server.properties"@]
}

impl PipelineConfig {
    /// The stock configuration: the vendor page, the Linux platform
    /// selector, the stock protected files, and the given one-time
    /// override.
    pub fn new(first_version: Option<String>) -> (c: PipelineConfig)
        ensures
            c.page_url@ == spec_default_page_url(),
            c.selector@ == spec_default_selector(),
            blacklist_view(c.blacklist) == spec_default_blacklist(),
            c.first_version == first_version,
    {
        let mut blacklist: Vec<String> = Vec::new();
        blacklist.push("permissions.json".to_owned());
        blacklist.push("allowlist.json".to_owned());
        blacklist.push("server.properties".to_owned());
        proof {
            assert(blacklist_view(blacklist) =~= spec_default_blacklist());
        }
        PipelineConfig {
            page_url: "https://www.minecraft.net/en-us/download/server/bedrock".to_owned(),
            selector: "a.downloadlink[data-platform=serverBedrockLinux]".to_owned(),
            blacklist,
            first_version,
        }
    }
}

/// The failed terminal state for `error`.
pub open spec fn spec_failed(error: BedrockUpdaterError) -> PipelineState {
    PipelineState::Done { outcome: CycleOutcome::Failed { error } }
}

/// Whether `a` performs `m`.
pub open spec fn action_matches(a: PipelineAction, m: MergeActionModel) -> bool {
    match m {
        MergeActionModel::CopyFile { name } => a matches PipelineAction::CopyFile { name: n } && n@
            == name,
        MergeActionModel::MergeDir { name } => a matches PipelineAction::MergeDir { name: n } && n@
            == name,
    }
}

/// The error a failed merge step is reported as: a failed file copy is
/// a filesystem error, a failed directory merge a copy error.
pub open spec fn merge_fail_kind(m: MergeActionModel) -> BedrockUpdaterError {
    match m {
        MergeActionModel::CopyFile { .. } => BedrockUpdaterError::FileNotFound,
        MergeActionModel::MergeDir { .. } => BedrockUpdaterError::UpdateCopyError,
    }
}

/// What analyzing the fetched page yields: exactly the outcome that
/// [`find_rel`] owes for this page and the configured selector — the
/// one reference on the good page shape, the one matching error on
/// every other, so each page decides its continuation.
pub open spec fn page_rel(
    html: Seq<char>,
    selector: Seq<char>,
    s2: PipelineState,
    a: Option<PipelineAction>,
) -> bool {
    match s2 {
        PipelineState::CheckingServerDir { reference } => {
            &&& a == Some(PipelineAction::CheckServerDir)
            &&& find_rel(html, selector, Ok(reference))
        },
        PipelineState::Done { outcome: CycleOutcome::Failed { error } } => {
            &&& a is None
            &&& find_rel(html, selector, Err(error))
        },
        _ => false,
    }
}

/// What resolving and comparing the versions yields, given the
/// reference and the current version's text: a version-parse failure
/// of the current text first, then of the path, then the ordering
/// decision.  Only a strictly newer remote version starts a download;
/// a current version ahead of the remote never triggers a downgrade.
pub open spec fn resolution_rel(
    url: Seq<char>,
    path: Seq<char>,
    current_text: Seq<char>,
    s2: PipelineState,
    a: Option<PipelineAction>,
) -> bool {
    match spec_parse(current_text) {
        Err(e) => s2 == spec_failed(e) && a is None,
        Ok(current) => match spec_parse(path) {
            Err(e) => s2 == spec_failed(e) && a is None,
            Ok(latest) => match spec_compare(current, latest) {
                VersionOrder::Equal => s2 == PipelineState::Done {
                    outcome: CycleOutcome::UpToDate,
                } && a is None,
                VersionOrder::Greater => s2 == PipelineState::Done {
                    outcome: CycleOutcome::AheadOfRemote,
                } && a is None,
                VersionOrder::Less => {
                    &&& s2 matches PipelineState::Downloading { latest: l, latest_text: t } && l
                        == latest && t@ == spec_matched_text(path)
                    &&& a matches Some(PipelineAction::Download { url: u }) && u@ == url
                },
            },
        },
    }
}

/// What one merge advance yields: the next planned action while one
/// remains, and otherwise the version-record write, which therefore
/// happens only after every planned copy succeeded.
pub open spec fn merge_advance_rel(
    latest: VersionString,
    latest_text: Seq<char>,
    actions: Seq<MergeActionModel>,
    next: int,
    s2: PipelineState,
    a: Option<PipelineAction>,
) -> bool {
    if next < actions.len() {
        &&& s2 matches PipelineState::Merging {
            latest: l,
            latest_text: t,
            actions: acts,
            next: n,
        } && l == latest && t@ == latest_text && actions_view(acts) == actions && n == next + 1
        &&& a matches Some(act) && action_matches(act, actions[next])
    } else {
        &&& s2 matches PipelineState::WritingVersion { latest: l } && l == latest
        &&& a matches Some(PipelineAction::WriteRecord { text }) && text@ == latest_text
    }
}

/// The transition relation of the machine: what `step` yields for every
/// state and event.  Pairs not named leave the state unchanged and emit
/// nothing; `Done` is terminal.
pub open spec fn step_rel(
    s: PipelineState,
    cfg: PipelineConfig,
    e: PipelineEvent,
    s2: PipelineState,
    a: Option<PipelineAction>,
) -> bool {
    match (s, e) {
        (PipelineState::Idle, PipelineEvent::Start) => {
            &&& s2 == PipelineState::Fetching
            &&& a matches Some(PipelineAction::FetchPage { url }) && url@ == cfg.page_url@
        },
        (PipelineState::Fetching, PipelineEvent::PageFetched { html }) => page_rel(
            html@,
            cfg.selector@,
            s2,
            a,
        ),
        (PipelineState::Fetching, PipelineEvent::FetchFailed) => s2 == spec_failed(
            BedrockUpdaterError::RequestError,
        ) && a is None,
        (
            PipelineState::CheckingServerDir { reference },
            PipelineEvent::ServerDirChecked { exists },
        ) => {
            if exists {
                &&& s2 matches PipelineState::ReadingRecord { reference: r2 } && r2.url@
                    == reference.url@ && r2.path@ == reference.path@
                &&& a == Some(PipelineAction::ReadRecord)
            } else {
                s2 == spec_failed(BedrockUpdaterError::NoServerPath) && a is None
            }
        },
        (PipelineState::ReadingRecord { reference }, PipelineEvent::RecordRead { text }) => {
            match cfg.first_version {
                Some(first) => {
                    &&& s2 matches PipelineState::WritingFirstVersion { reference: r2 } && r2.url@
                        == reference.url@ && r2.path@ == reference.path@
                    &&& a matches Some(PipelineAction::WriteRecord { text: w }) && w@ == first@
                },
                None => match text {
                    Some(t) => resolution_rel(reference.url@, reference.path@, t@, s2, a),
                    None => s2 == spec_failed(BedrockUpdaterError::NoCurrentVersion) && a is None,
                },
            }
        },
        (PipelineState::ReadingRecord { reference }, PipelineEvent::RecordUnreadable) => s2
            == spec_failed(BedrockUpdaterError::FromUtf8Error) && a is None,
        (PipelineState::WritingFirstVersion { reference }, PipelineEvent::RecordWritten) => {
            match cfg.first_version {
                Some(first) => resolution_rel(reference.url@, reference.path@, first@, s2, a),
                None => s2 == PipelineState::WritingFirstVersion { reference } && a is None,
            }
        },
        (PipelineState::WritingFirstVersion { reference }, PipelineEvent::RecordWriteFailed) => s2
            == spec_failed(BedrockUpdaterError::FileNotFound) && a is None,
        (PipelineState::Downloading { latest, latest_text }, PipelineEvent::Downloaded) => {
            &&& s2 matches PipelineState::CreatingStaging { latest: l, latest_text: t } && l
                == latest && t@ == latest_text@
            &&& a == Some(PipelineAction::CreateStaging)
        },
        (PipelineState::Downloading { latest, latest_text }, PipelineEvent::DownloadFailed) => s2
            == spec_failed(BedrockUpdaterError::RequestError) && a is None,
        (PipelineState::CreatingStaging { latest, latest_text }, PipelineEvent::StagingCreated) => {
            &&& s2 matches PipelineState::Extracting { latest: l, latest_text: t } && l == latest
                && t@ == latest_text@
            &&& a == Some(PipelineAction::ExtractArchive)
        },
        (
            PipelineState::CreatingStaging { latest, latest_text },
            PipelineEvent::StagingCreateFailed,
        ) => s2 == spec_failed(BedrockUpdaterError::FileNotFound) && a is None,
        (PipelineState::Extracting { latest, latest_text }, PipelineEvent::Extracted) => {
            &&& s2 matches PipelineState::ListingEntries { latest: l, latest_text: t } && l
                == latest && t@ == latest_text@
            &&& a == Some(PipelineAction::ListEntries)
        },
        (PipelineState::Extracting { latest, latest_text }, PipelineEvent::ExtractFailed) => s2
            == spec_failed(BedrockUpdaterError::ServerZipExtractFailed) && a is None,
        (
            PipelineState::ListingEntries { latest, latest_text },
            PipelineEvent::EntriesListed { entries },
        ) => {
            if exists|k: int| 0 <= k < entries@.len() && (#[trigger] entries@[k]).name is None {
                s2 == spec_failed(BedrockUpdaterError::NoFileName) && a is None
            } else {
                merge_advance_rel(
                    latest,
                    latest_text@,
                    spec_plan(blacklist_view(cfg.blacklist), entries_view(entries)),
                    0,
                    s2,
                    a,
                )
            }
        },
        (PipelineState::ListingEntries { latest, latest_text }, PipelineEvent::ListFailed) => s2
            == spec_failed(BedrockUpdaterError::FileNotFound) && a is None,
        (
            PipelineState::Merging { latest, latest_text, actions, next },
            PipelineEvent::MergeStepDone,
        ) => {
            if next <= actions@.len() {
                merge_advance_rel(
                    latest,
                    latest_text@,
                    actions_view(actions),
                    next as int,
                    s2,
                    a,
                )
            } else {
                s2 == PipelineState::Merging { latest, latest_text, actions, next } && a is None
            }
        },
        (
            PipelineState::Merging { latest, latest_text, actions, next },
            PipelineEvent::MergeStepFailed,
        ) => {
            if 1 <= next <= actions@.len() {
                s2 == spec_failed(merge_fail_kind(actions_view(actions)[next - 1])) && a is None
            } else {
                s2 == PipelineState::Merging { latest, latest_text, actions, next } && a is None
            }
        },
        (PipelineState::WritingVersion { latest }, PipelineEvent::RecordWritten) => {
            &&& s2 == PipelineState::RemovingStaging { latest }
            &&& a == Some(PipelineAction::RemoveStaging)
        },
        (PipelineState::WritingVersion { latest }, PipelineEvent::RecordWriteFailed) => s2
            == spec_failed(BedrockUpdaterError::FileNotFound) && a is None,
        (PipelineState::RemovingStaging { latest }, PipelineEvent::StagingRemoved) => s2
            == PipelineState::Done { outcome: CycleOutcome::Updated { latest } } && a is None,
        (PipelineState::RemovingStaging { latest }, PipelineEvent::StagingRemoveFailed) => s2
            == spec_failed(BedrockUpdaterError::FileNotFound) && a is None,
        (s1, _) => s2 == s1 && a is None,
    }
}

/// The pipeline action performing one planned merge action.
fn merge_action_to_pipeline(m: &MergeAction) -> (r: PipelineAction)
    ensures
        action_matches(r, m@),
{
    match m {
        MergeAction::CopyFile { name } => PipelineAction::CopyFile { name: name.clone() },
        MergeAction::MergeDir { name } => PipelineAction::MergeDir { name: name.clone() },
    }
}

/// Emits the next planned action, or the version-record write once all
/// of them are done.
fn advance_merge(
    latest: VersionString,
    latest_text: String,
    actions: Vec<MergeAction>,
    next: usize,
) -> (r: (PipelineState, Option<PipelineAction>))
    requires
        next <= actions@.len(),
    ensures
        merge_advance_rel(latest, latest_text@, actions_view(actions), next as int, r.0, r.1),
{
    if next < actions.len() {
        let act = merge_action_to_pipeline(&actions[next]);
        (
            PipelineState::Merging { latest, latest_text, actions, next: next + 1 },
            Some(act),
        )
    } else {
        (
            PipelineState::WritingVersion { latest },
            Some(PipelineAction::WriteRecord { text: latest_text }),
        )
    }
}

/// Parses both versions, compares them, and decides the cycle: done
/// when up to date or ahead, the download when behind.
fn advance_resolution(reference: DownloadReference, current_text: &str) -> (r: (
    PipelineState,
    Option<PipelineAction>,
))
    ensures
        resolution_rel(reference.url@, reference.path@, current_text@, r.0, r.1),
{
    let current = match VersionString::parse(current_text) {
        Err(e) => {
            return (PipelineState::Done { outcome: CycleOutcome::Failed { error: e } }, None);
        },
        Ok(current) => current,
    };
    let latest = match VersionString::parse(reference.path.as_str()) {
        Err(e) => {
            return (PipelineState::Done { outcome: CycleOutcome::Failed { error: e } }, None);
        },
        Ok(latest) => latest,
    };
    match current.compare(&latest) {
        VersionOrder::Equal => (PipelineState::Done { outcome: CycleOutcome::UpToDate }, None),
        VersionOrder::Greater => (
            PipelineState::Done { outcome: CycleOutcome::AheadOfRemote },
            None,
        ),
        VersionOrder::Less => match version_text(reference.path.as_str()) {
            Some(text) => (
                PipelineState::Downloading { latest, latest_text: text },
                Some(PipelineAction::Download { url: reference.url }),
            ),
            None => {
                // Unreachable: the latest version parsed, so the path
                // holds a version substring.
                proof {
                    assert(false);
                }
                (PipelineState::Done { outcome: CycleOutcome::UpToDate }, None)
            },
        },
    }
}

/// One transition of the machine: consumes the state and the event,
/// yields the next state and the action the caller must perform, as
/// [`step_rel`] states.
pub fn step(state: PipelineState, config: &PipelineConfig, event: PipelineEvent) -> (r: (
    PipelineState,
    Option<PipelineAction>,
))
    ensures
        step_rel(state, *config, event, r.0, r.1),
{
    match (state, event) {
        (PipelineState::Idle, PipelineEvent::Start) => (
            PipelineState::Fetching,
            Some(PipelineAction::FetchPage { url: config.page_url.clone() }),
        ),
        (PipelineState::Fetching, PipelineEvent::PageFetched { html }) => {
            match find_download_link(html.as_str(), config.selector.as_str()) {
                Err(e) => (PipelineState::Done { outcome: CycleOutcome::Failed { error: e } }, None),
                Ok(reference) => (
                    PipelineState::CheckingServerDir { reference },
                    Some(PipelineAction::CheckServerDir),
                ),
            }
        },
        (PipelineState::Fetching, PipelineEvent::FetchFailed) => (
            PipelineState::Done {
                outcome: CycleOutcome::Failed { error: BedrockUpdaterError::RequestError },
            },
            None,
        ),
        (
            PipelineState::CheckingServerDir { reference },
            PipelineEvent::ServerDirChecked { exists },
        ) => {
            if exists {
                (
                    PipelineState::ReadingRecord { reference },
                    Some(PipelineAction::ReadRecord),
                )
            } else {
                (
                    PipelineState::Done {
                        outcome: CycleOutcome::Failed { error: BedrockUpdaterError::NoServerPath },
                    },
                    None,
                )
            }
        },
        (PipelineState::ReadingRecord { reference }, PipelineEvent::RecordRead { text }) => {
            match &config.first_version {
                Some(first) => (
                    PipelineState::WritingFirstVersion { reference },
                    Some(PipelineAction::WriteRecord { text: first.clone() }),
                ),
                None => match text {
                    Some(t) => advance_resolution(reference, t.as_str()),
                    None => (
                        PipelineState::Done {
                            outcome: CycleOutcome::Failed {
                                error: BedrockUpdaterError::NoCurrentVersion,
                            },
                        },
                        None,
                    ),
                },
            }
        },
        (PipelineState::ReadingRecord { reference: _ }, PipelineEvent::RecordUnreadable) => (
            PipelineState::Done {
                outcome: CycleOutcome::Failed { error: BedrockUpdaterError::FromUtf8Error },
            },
            None,
        ),
        (PipelineState::WritingFirstVersion { reference }, PipelineEvent::RecordWritten) => {
            match &config.first_version {
                Some(first) => advance_resolution(reference, first.as_str()),
                None => (PipelineState::WritingFirstVersion { reference }, None),
            }
        },
        (PipelineState::WritingFirstVersion { reference: _ }, PipelineEvent::RecordWriteFailed) => (
            PipelineState::Done {
                outcome: CycleOutcome::Failed { error: BedrockUpdaterError::FileNotFound },
            },
            None,
        ),
        (PipelineState::Downloading { latest, latest_text }, PipelineEvent::Downloaded) => (
            PipelineState::CreatingStaging { latest, latest_text },
            Some(PipelineAction::CreateStaging),
        ),
        (PipelineState::Downloading { latest: _, latest_text: _ }, PipelineEvent::DownloadFailed)
            => (
            PipelineState::Done {
                outcome: CycleOutcome::Failed { error: BedrockUpdaterError::RequestError },
            },
            None,
        ),
        (PipelineState::CreatingStaging { latest, latest_text }, PipelineEvent::StagingCreated) => (
            PipelineState::Extracting { latest, latest_text },
            Some(PipelineAction::ExtractArchive),
        ),
        (
            PipelineState::CreatingStaging { latest: _, latest_text: _ },
            PipelineEvent::StagingCreateFailed,
        ) => (
            PipelineState::Done {
                outcome: CycleOutcome::Failed { error: BedrockUpdaterError::FileNotFound },
            },
            None,
        ),
        (PipelineState::Extracting { latest, latest_text }, PipelineEvent::Extracted) => (
            PipelineState::ListingEntries { latest, latest_text },
            Some(PipelineAction::ListEntries),
        ),
        (PipelineState::Extracting { latest: _, latest_text: _ }, PipelineEvent::ExtractFailed)
            => (
            PipelineState::Done {
                outcome: CycleOutcome::Failed {
                    error: BedrockUpdaterError::ServerZipExtractFailed,
                },
            },
            None,
        ),
        (
            PipelineState::ListingEntries { latest, latest_text },
            PipelineEvent::EntriesListed { entries },
        ) => {
            match plan_merge(&config.blacklist, &entries) {
                Err(e) => (PipelineState::Done { outcome: CycleOutcome::Failed { error: e } }, None),
                Ok(actions) => advance_merge(latest, latest_text, actions, 0),
            }
        },
        (PipelineState::ListingEntries { latest: _, latest_text: _ }, PipelineEvent::ListFailed)
            => (
            PipelineState::Done {
                outcome: CycleOutcome::Failed { error: BedrockUpdaterError::FileNotFound },
            },
            None,
        ),
        (
            PipelineState::Merging { latest, latest_text, actions, next },
            PipelineEvent::MergeStepDone,
        ) => {
            if next <= actions.len() {
                advance_merge(latest, latest_text, actions, next)
            } else {
                (PipelineState::Merging { latest, latest_text, actions, next }, None)
            }
        },
        (
            PipelineState::Merging { latest, latest_text, actions, next },
            PipelineEvent::MergeStepFailed,
        ) => {
            if 1 <= next && next <= actions.len() {
                let error = match &actions[next - 1] {
                    MergeAction::CopyFile { name: _ } => BedrockUpdaterError::FileNotFound,
                    MergeAction::MergeDir { name: _ } => BedrockUpdaterError::UpdateCopyError,
                };
                (PipelineState::Done { outcome: CycleOutcome::Failed { error } }, None)
            } else {
                (PipelineState::Merging { latest, latest_text, actions, next }, None)
            }
        },
        (PipelineState::WritingVersion { latest }, PipelineEvent::RecordWritten) => (
            PipelineState::RemovingStaging { latest },
            Some(PipelineAction::RemoveStaging),
        ),
        (PipelineState::WritingVersion { latest: _ }, PipelineEvent::RecordWriteFailed) => (
            PipelineState::Done {
                outcome: CycleOutcome::Failed { error: BedrockUpdaterError::FileNotFound },
            },
            None,
        ),
        (PipelineState::RemovingStaging { latest }, PipelineEvent::StagingRemoved) => (
            PipelineState::Done { outcome: CycleOutcome::Updated { latest } },
            None,
        ),
        (PipelineState::RemovingStaging { latest: _ }, PipelineEvent::StagingRemoveFailed) => (
            PipelineState::Done {
                outcome: CycleOutcome::Failed { error: BedrockUpdaterError::FileNotFound },
            },
            None,
        ),
        (s1, _) => (s1, None),
    }
}

/// A write into the live installation tree is asked for only while the
/// machine executes a computed merge plan: out of the listing of the
/// staged entries or out of a completed earlier copy, never before the
/// archive was extracted into staging and planned.
pub proof fn lemma_tree_writes_only_while_merging(
    s: PipelineState,
    cfg: PipelineConfig,
    e: PipelineEvent,
    s2: PipelineState,
    a: Option<PipelineAction>,
)
    requires
        step_rel(s, cfg, e, s2, a),
        a matches Some(act) && (act matches PipelineAction::CopyFile { .. } || act matches
            PipelineAction::MergeDir { .. }),
    ensures
        s matches PipelineState::ListingEntries { .. } || s matches PipelineState::Merging { .. },
{
}

/// The version record is written for two reasons only: the operator's
/// override, before any comparison, with exactly the override's text;
/// or the freshly merged version, with exactly its matched text, and
/// then only once every planned copy has succeeded.  A failed or
/// partial merge never advances the record.
pub proof fn lemma_record_write_sources(
    s: PipelineState,
    cfg: PipelineConfig,
    e: PipelineEvent,
    s2: PipelineState,
    a: Option<PipelineAction>,
)
    requires
        step_rel(s, cfg, e, s2, a),
        a matches Some(PipelineAction::WriteRecord { text }),
    ensures
        ({
            let text = a->0->WriteRecord_text;
            ||| (s matches PipelineState::ReadingRecord { .. } && cfg.first_version matches Some(
                first,
            ) && text@ == first@)
            ||| (s matches PipelineState::ListingEntries { latest, latest_text } && text@
                == latest_text@ && s2 matches PipelineState::WritingVersion { .. })
            ||| (s matches PipelineState::Merging { latest, latest_text, actions, next } && text@
                == latest_text@ && next == actions@.len() && s2 matches
                PipelineState::WritingVersion { .. })
        }),
{
}

/// The merge-execution states are entered only out of a successful
/// extraction or out of themselves: in any run of the machine, the
/// staged entries are listed and copied only after the archive was
/// expanded into staging.
pub proof fn lemma_merge_states_follow_extraction(
    s: PipelineState,
    cfg: PipelineConfig,
    e: PipelineEvent,
    s2: PipelineState,
    a: Option<PipelineAction>,
)
    requires
        step_rel(s, cfg, e, s2, a),
        s2 matches PipelineState::ListingEntries { .. } || s2 matches PipelineState::Merging {
            ..
        },
    ensures
        s matches PipelineState::Extracting { .. } || s matches PipelineState::ListingEntries {
            ..
        } || s matches PipelineState::Merging { .. },
        s matches PipelineState::Extracting { .. } ==> e matches PipelineEvent::Extracted,
{
}

/// Over a whole run of the machine, the merge-execution states are
/// reached only after an extraction was reported successful.
pub proof fn lemma_merge_phase_follows_extraction(
    cfg: PipelineConfig,
    states: Seq<PipelineState>,
    events: Seq<PipelineEvent>,
    acts: Seq<Option<PipelineAction>>,
    n: int,
)
    requires
        states.len() == events.len() + 1,
        acts.len() == events.len(),
        states[0] matches PipelineState::Idle,
        forall|i: int| 0 <= i < events.len() ==> step_rel(
            states[i],
            cfg,
            #[trigger] events[i],
            states[i + 1],
            acts[i],
        ),
        0 <= n < states.len(),
        states[n] matches PipelineState::ListingEntries { .. } || states[n] matches
            PipelineState::Merging { .. },
    ensures
        exists|j: int| 0 <= j < n && (states[j] matches PipelineState::Extracting { .. }) && ((
        #[trigger] events[j]) matches PipelineEvent::Extracted),
    decreases n,
{
    lemma_merge_states_follow_extraction(states[n - 1], cfg, events[n - 1], states[n], acts[n - 1]);
    if states[n - 1] matches PipelineState::Extracting { .. } {
        assert(0 <= n - 1 < n && (states[n - 1] matches PipelineState::Extracting { .. }) && (
        events[n - 1] matches PipelineEvent::Extracted));
    } else {
        lemma_merge_phase_follows_extraction(cfg, states, events, acts, n - 1);
    }
}

/// Over a whole run of the machine, every copy into the live
/// installation tree was asked for only after the archive had been
/// reported extracted: a failed extraction leaves the live tree
/// untouched.
pub proof fn lemma_no_tree_write_before_extraction(
    cfg: PipelineConfig,
    states: Seq<PipelineState>,
    events: Seq<PipelineEvent>,
    acts: Seq<Option<PipelineAction>>,
    k: int,
)
    requires
        states.len() == events.len() + 1,
        acts.len() == events.len(),
        states[0] matches PipelineState::Idle,
        forall|i: int| 0 <= i < events.len() ==> step_rel(
            states[i],
            cfg,
            #[trigger] events[i],
            states[i + 1],
            acts[i],
        ),
        0 <= k < acts.len(),
        acts[k] matches Some(act) && (act matches PipelineAction::CopyFile { .. } || act matches
            PipelineAction::MergeDir { .. }),
    ensures
        exists|j: int| 0 <= j < k && (states[j] matches PipelineState::Extracting { .. }) && ((
        #[trigger] events[j]) matches PipelineEvent::Extracted),
{
    lemma_tree_writes_only_while_merging(states[k], cfg, events[k], states[k + 1], acts[k]);
    lemma_merge_phase_follows_extraction(cfg, states, events, acts, k);
}

/// The text the machine writes to the record after an update re-reads
/// as the version just installed: the next cycle against the same
/// remote artifact resolves to `Equal`, so an applied update is never
/// re-applied.
pub proof fn lemma_recorded_version_reads_back(
    url: Seq<char>,
    path: Seq<char>,
    current_text: Seq<char>,
    s2: PipelineState,
    a: Option<PipelineAction>,
)
    requires
        resolution_rel(url, path, current_text, s2, a),
        s2 matches PipelineState::Downloading { .. },
    ensures
        spec_parse(s2->Downloading_latest_text@) == Ok::<VersionString, BedrockUpdaterError>(
            s2->Downloading_latest,
        ),
        spec_parse(s2->Downloading_latest_text@) matches Ok(v) && spec_compare(
            v,
            s2->Downloading_latest,
        ) == VersionOrder::Equal,
{
    crate::version::lemma_matched_text_reparses(path);
}

/// A failed extraction ends the cycle at once with the extraction
/// error and asks nothing more of the caller: the live tree and the
/// version record stay as they were.
pub proof fn lemma_extract_failure_aborts(
    s: PipelineState,
    cfg: PipelineConfig,
    e: PipelineEvent,
    s2: PipelineState,
    a: Option<PipelineAction>,
)
    requires
        step_rel(s, cfg, e, s2, a),
        s matches PipelineState::Extracting { .. },
        e matches PipelineEvent::ExtractFailed,
    ensures
        s2 == spec_failed(BedrockUpdaterError::ServerZipExtractFailed),
        a is None,
{
}

} // verus!

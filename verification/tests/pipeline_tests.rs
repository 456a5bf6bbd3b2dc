use bedrock_updater::error::BedrockUpdaterError;
use bedrock_updater::installer::StagedEntry;
use bedrock_updater::pipeline::{
    CycleOutcome, PipelineAction, PipelineConfig, PipelineEvent, PipelineState, step,
};
use bedrock_updater::version::VersionString;

fn v(major: u64, minor: u64, patch: u64, build: u64) -> VersionString {
    VersionString { major, minor, patch, build }
}

fn page_with_link(href: &str) -> String {
    format!(
        "<html><body><a class=\"downloadlink\" data-platform=\"serverBedrockLinux\" \
         href=\"{}\">download</a></body></html>",
        href
    )
}

fn entry(name: &str, is_file: bool, in_target: bool) -> StagedEntry {
    StagedEntry { name: Some(name.to_string()), is_file, in_target }
}

/// Drives a fresh cycle up to the point where the version record was
/// read, returning the state that decides on the versions.
fn drive_to_record(config: &PipelineConfig, href: &str, record: Option<&str>) -> (
    PipelineState,
    Option<PipelineAction>,
) {
    let (state, action) = step(PipelineState::Idle, config, PipelineEvent::Start);
    match &action {
        Some(PipelineAction::FetchPage { url }) => {
            assert_eq!(url, "https://www.minecraft.net/en-us/download/server/bedrock");
        }
        _ => panic!("expected FetchPage"),
    }
    let (state, action) = step(
        state,
        config,
        PipelineEvent::PageFetched { html: page_with_link(href) },
    );
    assert!(matches!(action, Some(PipelineAction::CheckServerDir)));
    let (state, action) = step(state, config, PipelineEvent::ServerDirChecked { exists: true });
    assert!(matches!(action, Some(PipelineAction::ReadRecord)));
    step(
        state,
        config,
        PipelineEvent::RecordRead { text: record.map(|t| t.to_string()) },
    )
}

#[test]
fn cycle_updates_when_behind() {
    // Remote 1.21.0.3, record 1.20.0.1: the pipeline downloads,
    // merges, writes the new record and cleans up.
    let config = PipelineConfig::new(None);
    let href = "https://example.com/bin/bedrock-server-linux-x64-1.21.0.3.zip";
    let (state, action) = drive_to_record(&config, href, Some("1.20.0.1"));
    match &action {
        Some(PipelineAction::Download { url }) => assert_eq!(url, href),
        _ => panic!("expected Download"),
    }
    let (state, action) = step(state, &config, PipelineEvent::Downloaded);
    assert!(matches!(action, Some(PipelineAction::CreateStaging)));
    let (state, action) = step(state, &config, PipelineEvent::StagingCreated);
    assert!(matches!(action, Some(PipelineAction::ExtractArchive)));
    let (state, action) = step(state, &config, PipelineEvent::Extracted);
    assert!(matches!(action, Some(PipelineAction::ListEntries)));
    let entries = vec![
        entry("bedrock_server", true, true),
        entry("server.properties", true, true),
        entry("worlds", false, true),
    ];
    let (state, action) = step(state, &config, PipelineEvent::EntriesListed { entries });
    match &action {
        Some(PipelineAction::CopyFile { name }) => assert_eq!(name, "bedrock_server"),
        _ => panic!("expected CopyFile"),
    }
    let (state, action) = step(state, &config, PipelineEvent::MergeStepDone);
    match &action {
        Some(PipelineAction::MergeDir { name }) => assert_eq!(name, "worlds"),
        _ => panic!("expected MergeDir"),
    }
    let (state, action) = step(state, &config, PipelineEvent::MergeStepDone);
    match &action {
        Some(PipelineAction::WriteRecord { text }) => assert_eq!(text, "1.21.0.3"),
        _ => panic!("expected WriteRecord"),
    }
    let (state, action) = step(state, &config, PipelineEvent::RecordWritten);
    assert!(matches!(action, Some(PipelineAction::RemoveStaging)));
    let (state, action) = step(state, &config, PipelineEvent::StagingRemoved);
    assert!(action.is_none());
    match state {
        PipelineState::Done { outcome } => {
            assert_eq!(outcome, CycleOutcome::Updated { latest: v(1, 21, 0, 3) });
        }
        _ => panic!("expected Done"),
    }
}

#[test]
fn cycle_up_to_date_does_nothing() {
    // Remote 1.20.0.1, record 1.20.0.1: the cycle ends without any
    // further action.
    let config = PipelineConfig::new(None);
    let href = "https://example.com/bin/bedrock-server-linux-x64-1.20.0.1.zip";
    let (state, action) = drive_to_record(&config, href, Some("1.20.0.1"));
    assert!(action.is_none());
    match state {
        PipelineState::Done { outcome } => assert_eq!(outcome, CycleOutcome::UpToDate),
        _ => panic!("expected Done"),
    }
}

#[test]
fn recorded_version_is_up_to_date_next_cycle() {
    // The record an update writes is the matched text of the artifact
    // name; a following cycle against the same artifact must resolve
    // to UpToDate, never re-apply the update.
    let config = PipelineConfig::new(None);
    let href = "https://example.com/bin/bedrock-server-linux-x64-1.21.0.3.zip";
    let record =
        bedrock_updater::version::version_text("/bin/bedrock-server-linux-x64-1.21.0.3.zip")
            .unwrap();
    let (state, action) = drive_to_record(&config, href, Some(&record));
    assert!(action.is_none());
    match state {
        PipelineState::Done { outcome } => assert_eq!(outcome, CycleOutcome::UpToDate),
        _ => panic!("expected Done"),
    }
}

#[test]
fn cycle_ahead_of_remote_is_not_an_error() {
    // Remote 1.20.0.1, record 1.21.0.0: informational, no downgrade,
    // no error.
    let config = PipelineConfig::new(None);
    let href = "https://example.com/bin/bedrock-server-linux-x64-1.20.0.1.zip";
    let (state, action) = drive_to_record(&config, href, Some("1.21.0.0"));
    assert!(action.is_none());
    match state {
        PipelineState::Done { outcome } => assert_eq!(outcome, CycleOutcome::AheadOfRemote),
        _ => panic!("expected Done"),
    }
}

#[test]
fn extraction_failure_aborts_before_any_copy() {
    // Corrupt archive: the cycle ends with the extraction error and no
    // copy or record write was ever asked for.
    let config = PipelineConfig::new(None);
    let href = "https://example.com/bin/bedrock-server-linux-x64-1.21.0.3.zip";
    let (state, _) = drive_to_record(&config, href, Some("1.20.0.1"));
    let (state, _) = step(state, &config, PipelineEvent::Downloaded);
    let (state, _) = step(state, &config, PipelineEvent::StagingCreated);
    let (state, action) = step(state, &config, PipelineEvent::ExtractFailed);
    assert!(action.is_none());
    match state {
        PipelineState::Done { outcome } => {
            assert_eq!(
                outcome,
                CycleOutcome::Failed { error: BedrockUpdaterError::ServerZipExtractFailed }
            );
        }
        _ => panic!("expected Done"),
    }
}

#[test]
fn override_is_written_before_any_comparison() {
    // With an override the record is rewritten with exactly the
    // override's text, whatever was stored before.
    let config = PipelineConfig::new(Some("1.20.0.1".to_string()));
    let href = "https://example.com/bin/bedrock-server-linux-x64-1.21.0.3.zip";
    let (state, action) = drive_to_record(&config, href, Some("9.9.9.9"));
    match &action {
        Some(PipelineAction::WriteRecord { text }) => assert_eq!(text, "1.20.0.1"),
        _ => panic!("expected WriteRecord"),
    }
    assert!(matches!(state, PipelineState::WritingFirstVersion { .. }));
    let (_, action) = step(state, &config, PipelineEvent::RecordWritten);
    match &action {
        Some(PipelineAction::Download { url }) => assert_eq!(url, href),
        _ => panic!("expected Download"),
    }
}

#[test]
fn missing_record_without_override_fails() {
    let config = PipelineConfig::new(None);
    let href = "https://example.com/bin/bedrock-server-linux-x64-1.21.0.3.zip";
    let (state, action) = drive_to_record(&config, href, None);
    assert!(action.is_none());
    match state {
        PipelineState::Done { outcome } => {
            assert_eq!(
                outcome,
                CycleOutcome::Failed { error: BedrockUpdaterError::NoCurrentVersion }
            );
        }
        _ => panic!("expected Done"),
    }
}

#[test]
fn missing_server_directory_fails() {
    let config = PipelineConfig::new(None);
    let (state, _) = step(PipelineState::Idle, &config, PipelineEvent::Start);
    let (state, _) = step(
        state,
        &config,
        PipelineEvent::PageFetched {
            html: page_with_link("https://example.com/bin/srv-1.21.0.3.zip"),
        },
    );
    let (state, action) = step(state, &config, PipelineEvent::ServerDirChecked { exists: false });
    assert!(action.is_none());
    match state {
        PipelineState::Done { outcome } => {
            assert_eq!(outcome, CycleOutcome::Failed { error: BedrockUpdaterError::NoServerPath });
        }
        _ => panic!("expected Done"),
    }
}

#[test]
fn fetch_failure_aborts_the_cycle() {
    let config = PipelineConfig::new(None);
    let (state, _) = step(PipelineState::Idle, &config, PipelineEvent::Start);
    let (state, action) = step(state, &config, PipelineEvent::FetchFailed);
    assert!(action.is_none());
    match state {
        PipelineState::Done { outcome } => {
            assert_eq!(outcome, CycleOutcome::Failed { error: BedrockUpdaterError::RequestError });
        }
        _ => panic!("expected Done"),
    }
}

#[test]
fn page_without_download_element_fails() {
    let config = PipelineConfig::new(None);
    let (state, _) = step(PipelineState::Idle, &config, PipelineEvent::Start);
    let (state, action) = step(
        state,
        &config,
        PipelineEvent::PageFetched { html: "<html><body>nothing</body></html>".to_string() },
    );
    assert!(action.is_none());
    match state {
        PipelineState::Done { outcome } => {
            assert_eq!(
                outcome,
                CycleOutcome::Failed { error: BedrockUpdaterError::NoDownloadElement }
            );
        }
        _ => panic!("expected Done"),
    }
}

#[test]
fn unparseable_record_fails_with_version_error() {
    let config = PipelineConfig::new(None);
    let href = "https://example.com/bin/bedrock-server-linux-x64-1.21.0.3.zip";
    let (state, action) = drive_to_record(&config, href, Some("not-a-version"));
    assert!(action.is_none());
    match state {
        PipelineState::Done { outcome } => {
            assert_eq!(
                outcome,
                CycleOutcome::Failed { error: BedrockUpdaterError::NoVersionString }
            );
        }
        _ => panic!("expected Done"),
    }
}

#[test]
fn merge_failure_does_not_write_the_record() {
    // A failing copy ends the cycle with a filesystem error; the
    // version record write was never asked for.
    let config = PipelineConfig::new(None);
    let href = "https://example.com/bin/bedrock-server-linux-x64-1.21.0.3.zip";
    let (state, _) = drive_to_record(&config, href, Some("1.20.0.1"));
    let (state, _) = step(state, &config, PipelineEvent::Downloaded);
    let (state, _) = step(state, &config, PipelineEvent::StagingCreated);
    let (state, _) = step(state, &config, PipelineEvent::Extracted);
    let entries = vec![entry("bedrock_server", true, true)];
    let (state, action) = step(state, &config, PipelineEvent::EntriesListed { entries });
    assert!(matches!(action, Some(PipelineAction::CopyFile { .. })));
    let (state, action) = step(state, &config, PipelineEvent::MergeStepFailed);
    assert!(action.is_none());
    match state {
        PipelineState::Done { outcome } => {
            assert_eq!(outcome, CycleOutcome::Failed { error: BedrockUpdaterError::FileNotFound });
        }
        _ => panic!("expected Done"),
    }
}

#[test]
fn empty_staging_still_records_the_version() {
    // An archive with nothing at top level: no copies, but the version
    // record is still advanced and staging removed.
    let config = PipelineConfig::new(None);
    let href = "https://example.com/bin/bedrock-server-linux-x64-1.21.0.3.zip";
    let (state, _) = drive_to_record(&config, href, Some("1.20.0.1"));
    let (state, _) = step(state, &config, PipelineEvent::Downloaded);
    let (state, _) = step(state, &config, PipelineEvent::StagingCreated);
    let (state, _) = step(state, &config, PipelineEvent::Extracted);
    let (_, action) = step(state, &config, PipelineEvent::EntriesListed { entries: vec![] });
    match &action {
        Some(PipelineAction::WriteRecord { text }) => assert_eq!(text, "1.21.0.3"),
        _ => panic!("expected WriteRecord"),
    }
}

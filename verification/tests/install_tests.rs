use chadd_updater::download::{DownloadError, DownloadProgress, ProgressStatus};
use chadd_updater::install::{
    installer_file_name, step, InstallAction, InstallError, InstallEvent, InstallState,
    LaunchAttempt, HANDOFF_GRACE_SECS,
};

const URL: &str = "https://example.invalid/releases/download/v2.0/app-setup-x64.exe";

fn requested(url: &str) -> InstallEvent {
    InstallEvent::Requested(url.to_string())
}

fn spawn_failed(text: &str) -> InstallEvent {
    InstallEvent::SpawnFinished(Err(InstallError::SpawnFailed(text.to_string())))
}

fn busy() -> InstallAction {
    InstallAction::Reject { message: "An update is already being downloaded or installed.".to_string() }
}

#[test]
fn the_file_name_is_the_trailing_segment_of_the_address() {
    assert_eq!(installer_file_name(URL), "app-setup-x64.exe");
    assert_eq!(installer_file_name("file.exe"), "file.exe");
    assert_eq!(installer_file_name("a/b"), "b");
}

#[test]
fn an_address_without_trailing_segment_gets_the_fallback_name() {
    assert_eq!(installer_file_name("https://example.invalid/downloads/"), "update.exe");
    assert_eq!(installer_file_name(""), "update.exe");
    assert_eq!(installer_file_name("/"), "update.exe");
}

#[test]
fn a_request_starts_the_download() {
    let (state, action) = step(InstallState::Idle, requested(URL));
    assert_eq!(state, InstallState::Downloading);
    assert_eq!(
        action,
        InstallAction::StartDownload { url: URL.to_string(), file_name: "app-setup-x64.exe".to_string() }
    );
}

#[test]
fn a_finished_download_announces_and_starts_the_silent_install() {
    let (state, action) = step(InstallState::Downloading, InstallEvent::DownloadFinished(Ok(())));
    assert_eq!(state, InstallState::Installing(LaunchAttempt::Silent));
    assert_eq!(
        action,
        InstallAction::Launch {
            arguments: vec!["/SILENT".to_string()],
            announce: Some(DownloadProgress {
                downloaded: 0,
                total: 0,
                percentage: 100,
                status: ProgressStatus::Installing,
            }),
        }
    );
}

#[test]
fn a_started_installer_leads_to_the_hand_off() {
    for attempt in [LaunchAttempt::Silent, LaunchAttempt::Interactive] {
        let (state, action) = step(InstallState::Installing(attempt), InstallEvent::SpawnFinished(Ok(())));
        assert_eq!(state, InstallState::ProcessExit);
        assert_eq!(action, InstallAction::HandOff { grace_secs: 2 });
    }
    assert_eq!(HANDOFF_GRACE_SECS, 2);
}

#[test]
fn a_failed_silent_start_is_retried_without_arguments() {
    let (state, action) = step(InstallState::Installing(LaunchAttempt::Silent), spawn_failed("access denied"));
    assert_eq!(state, InstallState::Installing(LaunchAttempt::Interactive));
    assert_eq!(action, InstallAction::Launch { arguments: vec![], announce: None });
}

#[test]
fn a_failed_second_start_is_a_hard_error() {
    let (state, action) = step(InstallState::Installing(LaunchAttempt::Interactive), spawn_failed("not an executable"));
    assert_eq!(state, InstallState::Failed);
    assert_eq!(action, InstallAction::Fail {
            message: "Failed to start installer: not an executable".to_string(),
            discard_download: false,
        });
}

#[test]
fn a_failed_download_starts_nothing() {
    let network = InstallEvent::DownloadFinished(Err(DownloadError::Network("connection reset".to_string())));
    let (state, action) = step(InstallState::Downloading, network);
    assert_eq!(state, InstallState::Failed);
    assert_eq!(action, InstallAction::Fail { message: "Download failed: connection reset".to_string(), discard_download: true });
    let write = InstallEvent::DownloadFinished(Err(DownloadError::FileWrite("disk full".to_string())));
    let (state, action) = step(InstallState::Downloading, write);
    assert_eq!(state, InstallState::Failed);
    assert_eq!(action, InstallAction::Fail { message: "Download failed: disk full".to_string(), discard_download: true });
}

#[test]
fn a_second_request_in_flight_is_rejected() {
    let (state, _) = step(InstallState::Idle, requested(URL));
    let (after, action) = step(state, requested(URL));
    assert_eq!(after, InstallState::Downloading);
    assert_eq!(action, busy());
    for state in [
        InstallState::Downloading,
        InstallState::Installing(LaunchAttempt::Silent),
        InstallState::Installing(LaunchAttempt::Interactive),
        InstallState::ProcessExit,
    ] {
        let (after, action) = step(state, requested("https://example.invalid/other.exe"));
        assert_eq!(after, state);
        assert_eq!(action, busy());
    }
}

#[test]
fn after_a_failure_a_new_request_is_taken() {
    let (state, action) = step(InstallState::Failed, requested(URL));
    assert_eq!(state, InstallState::Downloading);
    assert_eq!(
        action,
        InstallAction::StartDownload { url: URL.to_string(), file_name: "app-setup-x64.exe".to_string() }
    );
}

#[test]
fn events_that_do_not_belong_are_ignored() {
    for state in [InstallState::Idle, InstallState::Failed, InstallState::ProcessExit, InstallState::Installing(LaunchAttempt::Silent)] {
        let (after, action) = step(state, InstallEvent::DownloadFinished(Ok(())));
        assert_eq!(after, state);
        assert_eq!(action, InstallAction::Ignore);
    }
    for state in [InstallState::Idle, InstallState::Failed, InstallState::ProcessExit, InstallState::Downloading] {
        let (after, action) = step(state, InstallEvent::SpawnFinished(Ok(())));
        assert_eq!(after, state);
        assert_eq!(action, InstallAction::Ignore);
        let (after, action) = step(state, spawn_failed("x"));
        assert_eq!(after, state);
        assert_eq!(action, InstallAction::Ignore);
    }
}

#[test]
fn the_whole_sequence_runs_to_the_hand_off() {
    let mut state = InstallState::Idle;
    let mut downloads = 0;
    let events = vec![
        requested(URL),
        requested(URL),
        InstallEvent::DownloadFinished(Ok(())),
        requested(URL),
        spawn_failed("blocked"),
        InstallEvent::SpawnFinished(Ok(())),
        requested(URL),
    ];
    for event in events {
        let (next, action) = step(state, event);
        if matches!(action, InstallAction::StartDownload { .. }) {
            downloads += 1;
        }
        state = next;
    }
    assert_eq!(state, InstallState::ProcessExit);
    assert_eq!(downloads, 1);
}

#[test]
fn an_install_error_shows_its_text() {
    assert_eq!(InstallError::SpawnFailed("no such file".to_string()).message(), "no such file");
}

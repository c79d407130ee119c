//! Download-and-install as a state machine. The host performs each action
//! (downloading, starting the installer, leaving the process) and hands
//! back what happened; this module decides what comes next.
//!
//! ```text
//! Idle -> Downloading -> Installing -> ProcessExit
//!              |              |
//!              +--> Failed <--+
//! ```
//!
//! One sequence is in flight at a time: a request that arrives while
//! another is being served is rejected and changes nothing.
//!
//! A download that fails leaves nothing behind: the failure tells the host
//! to remove what was written. An installer that was downloaded but could
//! not be started is kept.

use vstd::prelude::*;
use vstd::string::StringExecFns;
use crate::download::{
    download_error_text,
    installing_event,
    DownloadError,
    DownloadErrorView,
    DownloadProgress,
    ProgressStatus,
};
use crate::text::{last_piece, split};

verus! {

/// Seconds that the host lets the started installer run before it leaves
/// the process.
pub const HANDOFF_GRACE_SECS: u64 = 2;

/// How the installer is being started.
#[derive(Debug, Clone, Copy, PartialEq, Eq, Structural)]
pub enum LaunchAttempt {
    /// With the argument for an unattended install.
    Silent,
    /// Without arguments.
    Interactive,
}

/// Where a download-and-install sequence stands.
#[derive(Debug, Clone, Copy, PartialEq, Eq, Structural)]
pub enum InstallState {
    /// Nothing was requested yet.
    Idle,
    /// The asset is being downloaded.
    Downloading,
    /// The installer is being started.
    Installing(LaunchAttempt),
    /// The installer runs; the process is about to end. Nothing follows.
    ProcessExit,
    /// The sequence failed; the application keeps running.
    Failed,
}

/// Why the installer could not take over.
#[derive(Debug, Clone, PartialEq, Eq)]
pub enum InstallError {
    /// The installer could not be started, with or without arguments.
    SpawnFailed(String),
}

impl View for InstallError {
    type V = Seq<char>;

    open spec fn view(&self) -> Seq<char> {
        match self {
            InstallError::SpawnFailed(message) => message@,
        }
    }
}

impl InstallError {
    /// The text shown for this error.
    pub fn message(&self) -> (text: String)
        ensures
            text@ == self@,
    {
        match self {
            InstallError::SpawnFailed(message) => message.clone(),
        }
    }
}

/// What the host reports back.
#[derive(Debug, PartialEq, Eq)]
pub enum InstallEvent {
    /// The user asked to download and install from this address.
    Requested(String),
    /// The download ended.
    DownloadFinished(Result<(), DownloadError>),
    /// The attempt to start the installer ended.
    SpawnFinished(Result<(), InstallError>),
}

/// An event as the transition function sees it.
pub enum InstallEventView {
    Requested(Seq<char>),
    DownloadSucceeded,
    DownloadFailed(DownloadErrorView),
    SpawnSucceeded,
    SpawnFailed(Seq<char>),
}

impl View for InstallEvent {
    type V = InstallEventView;

    open spec fn view(&self) -> InstallEventView {
        match self {
            InstallEvent::Requested(url) => InstallEventView::Requested(url@),
            InstallEvent::DownloadFinished(Ok(_)) => InstallEventView::DownloadSucceeded,
            InstallEvent::DownloadFinished(Err(error)) => InstallEventView::DownloadFailed(error@),
            InstallEvent::SpawnFinished(Ok(_)) => InstallEventView::SpawnSucceeded,
            InstallEvent::SpawnFinished(Err(error)) => InstallEventView::SpawnFailed(error@),
        }
    }
}

/// What the host is to do next.
#[derive(Debug, Clone, PartialEq, Eq)]
pub enum InstallAction {
    /// Download `url` to the file `file_name` in the temporary directory.
    StartDownload { url: String, file_name: String },
    /// Emit `announce` if there is one, then start the downloaded file with
    /// these arguments.
    Launch { arguments: Vec<String>, announce: Option<DownloadProgress> },
    /// Wait `grace_secs` seconds, then leave the process at once.
    HandOff { grace_secs: u64 },
    /// Report the failure to the caller; the application keeps running.
    /// Where `discard_download` is set, remove the downloaded file first.
    Fail { message: String, discard_download: bool },
    /// Refuse the request: a sequence is in flight.
    Reject { message: String },
    /// Nothing to do: the event does not belong to the current state.
    Ignore,
}

/// An action, its texts as characters.
pub enum InstallActionView {
    StartDownload { url: Seq<char>, file_name: Seq<char> },
    Launch { arguments: Seq<Seq<char>>, announce: Option<DownloadProgress> },
    HandOff { grace_secs: u64 },
    Fail { message: Seq<char>, discard_download: bool },
    Reject { message: Seq<char> },
    Ignore,
}

impl View for InstallAction {
    type V = InstallActionView;

    open spec fn view(&self) -> InstallActionView {
        match self {
            InstallAction::StartDownload { url, file_name } => InstallActionView::StartDownload {
                url: url@,
                file_name: file_name@,
            },
            InstallAction::Launch { arguments, announce } => InstallActionView::Launch {
                arguments: Seq::new(arguments@.len(), |i: int| arguments@[i]@),
                announce: *announce,
            },
            InstallAction::HandOff { grace_secs } => InstallActionView::HandOff {
                grace_secs: *grace_secs,
            },
            InstallAction::Fail { message, discard_download } => InstallActionView::Fail {
                message: message@,
                discard_download: *discard_download,
            },
            InstallAction::Reject { message } => InstallActionView::Reject { message: message@ },
            InstallAction::Ignore => InstallActionView::Ignore,
        }
    }
}

/// The file that a download address is stored under: the text after its
/// last `/`, or `update.exe` where nothing follows the last `/`.
pub open spec fn file_name_for(url: Seq<char>) -> Seq<char> {
    let segment = split(url, '/').last();
    if segment.len() == 0 {
        "update.exe"@
    } else {
        segment
    }
}

/// A sequence is in flight, or the process is leaving: no request is taken.
pub open spec fn is_busy(state: InstallState) -> bool {
    state is Downloading || state is Installing || state is ProcessExit
}

/// The text of a rejected request.
pub open spec fn busy_text() -> Seq<char> {
    "An update is already being downloaded or installed."@
}

/// The snapshot that announces the installation.
pub open spec fn installing_snapshot() -> DownloadProgress {
    DownloadProgress { downloaded: 0, total: 0, percentage: 100, status: ProgressStatus::Installing }
}

/// The transition function: the next state and the action, for every
/// state and event.
pub open spec fn next(state: InstallState, event: InstallEventView) -> (
    InstallState,
    InstallActionView,
) {
    match (state, event) {
        (InstallState::Idle, InstallEventView::Requested(url))
        | (InstallState::Failed, InstallEventView::Requested(url)) => (
            InstallState::Downloading,
            InstallActionView::StartDownload { url, file_name: file_name_for(url) },
        ),
        (_, InstallEventView::Requested(_)) => (
            state,
            InstallActionView::Reject { message: busy_text() },
        ),
        (InstallState::Downloading, InstallEventView::DownloadSucceeded) => (
            InstallState::Installing(LaunchAttempt::Silent),
            InstallActionView::Launch {
                arguments: seq!["/SILENT"@],
                announce: Some(installing_snapshot()),
            },
        ),
        (InstallState::Downloading, InstallEventView::DownloadFailed(error)) => (
            InstallState::Failed,
            InstallActionView::Fail {
                message: "Download failed: "@ + download_error_text(error),
                discard_download: true,
            },
        ),
        (InstallState::Installing(_), InstallEventView::SpawnSucceeded) => (
            InstallState::ProcessExit,
            InstallActionView::HandOff { grace_secs: HANDOFF_GRACE_SECS },
        ),
        (
            InstallState::Installing(LaunchAttempt::Silent),
            InstallEventView::SpawnFailed(_),
        ) => (
            InstallState::Installing(LaunchAttempt::Interactive),
            InstallActionView::Launch { arguments: Seq::empty(), announce: None },
        ),
        (
            InstallState::Installing(LaunchAttempt::Interactive),
            InstallEventView::SpawnFailed(message),
        ) => (
            InstallState::Failed,
            InstallActionView::Fail {
                message: "Failed to start installer: "@ + message,
                discard_download: false,
            },
        ),
        _ => (state, InstallActionView::Ignore),
    }
}

/// The file name that the download at `url` is stored under.
pub fn installer_file_name(url: &str) -> (name: String)
    ensures
        name@ == file_name_for(url@),
{
    let segment = last_piece(url, '/');
    if segment.as_str().unicode_len() == 0 {
        "update.exe".to_owned()
    } else {
        segment
    }
}

/// One step of the sequence: takes the state and what the host reports,
/// gives the next state and what the host is to do.
pub fn step(state: InstallState, event: InstallEvent) -> (result: (InstallState, InstallAction))
    ensures
        (result.0, result.1@) == next(state, event@),
{
    match event {
        InstallEvent::Requested(url) => {
            match state {
                InstallState::Idle | InstallState::Failed => {
                    let file_name = installer_file_name(url.as_str());
                    (InstallState::Downloading, InstallAction::StartDownload { url, file_name })
                },
                _ => (
                    state,
                    InstallAction::Reject {
                        message: "An update is already being downloaded or installed.".to_owned(),
                    },
                ),
            }
        },
        InstallEvent::DownloadFinished(outcome) => {
            match state {
                InstallState::Downloading => {
                    match outcome {
                        Ok(_) => {
                            let mut arguments: Vec<String> = Vec::new();
                            arguments.push("/SILENT".to_owned());
                            let action = InstallAction::Launch {
                                arguments,
                                announce: Some(installing_event()),
                            };
                            assert(action@->Launch_arguments =~= seq!["/SILENT"@]);
                            (InstallState::Installing(LaunchAttempt::Silent), action)
                        },
                        Err(error) => {
                            let mut message = "Download failed: ".to_owned();
                            let reason = error.message();
                            message.append(reason.as_str());
                            (
                                InstallState::Failed,
                                InstallAction::Fail { message, discard_download: true },
                            )
                        },
                    }
                },
                _ => (state, InstallAction::Ignore),
            }
        },
        InstallEvent::SpawnFinished(outcome) => {
            match state {
                InstallState::Installing(attempt) => {
                    match outcome {
                        Ok(_) => (
                            InstallState::ProcessExit,
                            InstallAction::HandOff { grace_secs: HANDOFF_GRACE_SECS },
                        ),
                        Err(error) => {
                            match attempt {
                                LaunchAttempt::Silent => {
                                    let action = InstallAction::Launch {
                                        arguments: Vec::new(),
                                        announce: None,
                                    };
                                    assert(action@->Launch_arguments =~= Seq::<Seq<char>>::empty());
                                    (InstallState::Installing(LaunchAttempt::Interactive), action)
                                },
                                LaunchAttempt::Interactive => {
                                    let mut message = "Failed to start installer: ".to_owned();
                                    let reason = error.message();
                                    message.append(reason.as_str());
                                    (
                                        InstallState::Failed,
                                        InstallAction::Fail { message, discard_download: false },
                                    )
                                },
                            }
                        },
                    }
                },
                _ => (state, InstallAction::Ignore),
            }
        },
    }
}

/// The state reached from `start` after the first `n` events.
pub open spec fn state_after(start: InstallState, events: Seq<InstallEventView>, n: int)
    -> InstallState
    decreases n,
{
    if n <= 0 {
        start
    } else {
        next(state_after(start, events, n - 1), events[n - 1]).0
    }
}

/// The action that event `i` of a run leads to.
pub open spec fn action_at(start: InstallState, events: Seq<InstallEventView>, i: int)
    -> InstallActionView {
    next(state_after(start, events, i), events[i]).1
}

/// While a sequence is in flight every request is rejected and changes
/// nothing, whatever address it names.
pub proof fn lemma_busy_rejects(state: InstallState, url: Seq<char>)
    requires
        is_busy(state),
    ensures
        next(state, InstallEventView::Requested(url)) == (
            state,
            InstallActionView::Reject { message: busy_text() },
        ),
{
}

/// Of two requests in a row, the first starts a download and the second
/// is rejected: it neither starts a download nor changes the state.
pub proof fn lemma_second_request_rejected(first: Seq<char>, second: Seq<char>)
    ensures
        ({
            let (state, action) = next(InstallState::Idle, InstallEventView::Requested(first));
            &&& state == InstallState::Downloading
            &&& action == (InstallActionView::StartDownload {
                url: first,
                file_name: file_name_for(first),
            })
            &&& next(state, InstallEventView::Requested(second)) == (
                state,
                InstallActionView::Reject { message: busy_text() },
            )
        }),
{
}

/// A download is started only from a state with nothing in flight, and
/// starting one puts the sequence in flight.
pub proof fn lemma_download_starts_when_free(state: InstallState, event: InstallEventView)
    requires
        next(state, event).1 is StartDownload,
    ensures
        !is_busy(state),
        next(state, event).0 == InstallState::Downloading,
{
}

/// A sequence in flight stays in flight until it fails; once the process
/// is leaving, nothing changes any more.
pub proof fn lemma_busy_until_failed(state: InstallState, event: InstallEventView)
    requires
        is_busy(state),
    ensures
        is_busy(next(state, event).0) || next(state, event).0 == InstallState::Failed,
        state == InstallState::ProcessExit ==> next(state, event).0 == InstallState::ProcessExit,
{
}

/// The installer is started only after a download that succeeded, and the
/// process is left only after the installer was started.
pub proof fn lemma_order_of_actions(state: InstallState, event: InstallEventView)
    ensures
        next(state, event).1 is Launch ==> (state == InstallState::Downloading && event
            is DownloadSucceeded) || (state == InstallState::Installing(LaunchAttempt::Silent)
            && event is SpawnFailed),
        next(state, event).1 is HandOff ==> state is Installing && event is SpawnSucceeded,
        next(state, event).0 == InstallState::ProcessExit ==> state == InstallState::ProcessExit
            || next(state, event).1 is HandOff,
{
}

proof fn lemma_in_flight_between(
    start: InstallState,
    events: Seq<InstallEventView>,
    i: int,
    k: int,
)
    requires
        0 <= i < k <= events.len(),
        action_at(start, events, i) is StartDownload,
        forall|m: int| i < m <= k ==> state_after(start, events, m) != InstallState::Failed,
    ensures
        is_busy(state_after(start, events, k)),
    decreases k - i,
{
    if k == i + 1 {
        lemma_download_starts_when_free(state_after(start, events, i), events[i]);
    } else {
        lemma_in_flight_between(start, events, i, k - 1);
        lemma_busy_until_failed(state_after(start, events, k - 1), events[k - 1]);
    }
}

/// Downloads never interleave: in every run of events, from every state,
/// between two downloads that were started the sequence has failed, so
/// the first one was over before the second began.
pub proof fn lemma_single_flight(
    start: InstallState,
    events: Seq<InstallEventView>,
    i: int,
    j: int,
)
    requires
        0 <= i < j < events.len(),
        action_at(start, events, i) is StartDownload,
        action_at(start, events, j) is StartDownload,
    ensures
        exists|k: int| i < k <= j && state_after(start, events, k) == InstallState::Failed,
{
    if forall|m: int| i < m <= j ==> state_after(start, events, m) != InstallState::Failed {
        lemma_in_flight_between(start, events, i, j);
        lemma_download_starts_when_free(state_after(start, events, j), events[j]);
    }
}

} // verus!

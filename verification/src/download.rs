//! Progress accounting of a streamed download: the running byte count, the
//! snapshot reported after each chunk, and when the host should pause.

use vstd::prelude::*;

verus! {

/// The pause, in milliseconds, that the host makes when a chunk report asks
/// for one.
pub const THROTTLE_PAUSE_MILLIS: u64 = 50;

/// The byte count whose multiples ask for a pause: one mebibyte.
pub const THROTTLE_SPAN: u64 = 1048576;

/// What a progress snapshot is about.
#[derive(Debug, Clone, Copy, PartialEq, Eq, Structural)]
pub enum ProgressStatus {
    Downloading,
    Installing,
}

/// The label of each status.
pub open spec fn status_label(status: ProgressStatus) -> Seq<char> {
    match status {
        ProgressStatus::Downloading => "Downloading..."@,
        ProgressStatus::Installing => "Installing..."@,
    }
}

impl ProgressStatus {
    /// The label shown for this status.
    pub fn label(&self) -> (text: String)
        ensures
            text@ == status_label(*self),
    {
        match self {
            ProgressStatus::Downloading => "Downloading...".to_owned(),
            ProgressStatus::Installing => "Installing...".to_owned(),
        }
    }
}

/// A point-in-time snapshot of a transfer.
#[derive(Debug, Clone, Copy, PartialEq, Eq, Structural)]
pub struct DownloadProgress {
    /// Bytes transferred so far.
    pub downloaded: u64,
    /// Total expected bytes, 0 if unknown.
    pub total: u64,
    /// Whole percent transferred, 0 to 100; 0 while the total is unknown.
    pub percentage: u8,
    pub status: ProgressStatus,
}

/// Whole percent of `total` that `downloaded` amounts to: rounded down,
/// never above 100, and 0 when the total is unknown.
pub open spec fn percent_of(downloaded: nat, total: nat) -> nat {
    if total == 0 {
        0
    } else if downloaded >= total {
        100
    } else {
        downloaded * 100 / total
    }
}

/// The percentage is always within 0 to 100, reaches 100 exactly when a
/// known total is met, and never falls as the byte count grows.
pub proof fn lemma_percent_of_bounds(downloaded: nat, more: nat, total: nat)
    requires
        downloaded <= more,
    ensures
        percent_of(downloaded, total) <= 100,
        total > 0 ==> (percent_of(downloaded, total) == 100 <==> downloaded >= total),
        percent_of(downloaded, total) <= percent_of(more, total),
{
    if total > 0 {
        if downloaded < total {
            assert(downloaded * 100 / total < 100) by (nonlinear_arith)
                requires
                    downloaded < total,
                    total > 0,
            ;
        }
        if more < total {
            assert(downloaded * 100 / total <= more * 100 / total) by (nonlinear_arith)
                requires
                    downloaded <= more,
                    total > 0,
            ;
        }
    }
}

/// The snapshot reported while downloading, for a byte count and a total.
pub open spec fn downloading_snapshot(downloaded: u64, total: u64) -> DownloadProgress {
    DownloadProgress {
        downloaded,
        total,
        percentage: percent_of(downloaded as nat, total as nat) as u8,
        status: ProgressStatus::Downloading,
    }
}

/// Whether the host should pause after a chunk: the byte count sits on a
/// mebibyte boundary, or the declared total is met.
pub open spec fn pause_due(downloaded: u64, total: u64) -> bool {
    downloaded % THROTTLE_SPAN == 0 || downloaded == total
}

/// Whole percent of `total` that `downloaded` amounts to.
pub fn percentage(downloaded: u64, total: u64) -> (percent: u8)
    ensures
        percent == percent_of(downloaded as nat, total as nat),
{
    if total == 0 {
        0
    } else if downloaded >= total {
        100
    } else {
        proof {
            lemma_percent_of_bounds(downloaded as nat, downloaded as nat, total as nat);
        }
        let scaled: u128 = downloaded as u128 * 100;
        (scaled / total as u128) as u8
    }
}

/// The one snapshot that announces the installation: complete, with no
/// byte counts.
pub fn installing_event() -> (event: DownloadProgress)
    ensures
        event == (DownloadProgress {
            downloaded: 0,
            total: 0,
            percentage: 100,
            status: ProgressStatus::Installing,
        }),
{
    DownloadProgress { downloaded: 0, total: 0, percentage: 100, status: ProgressStatus::Installing }
}

/// What the host does after one chunk was written.
#[derive(Debug, Clone, Copy, PartialEq, Eq, Structural)]
pub struct ChunkReport {
    /// The snapshot to emit.
    pub progress: DownloadProgress,
    /// Whether to pause for `THROTTLE_PAUSE_MILLIS` before the next chunk.
    pub pause: bool,
}

/// The running state of one download.
#[derive(Debug, Clone, Copy, PartialEq, Eq, Structural)]
pub struct Download {
    /// Declared total, 0 if the response declared none.
    pub total: u64,
    /// Bytes written so far.
    pub downloaded: u64,
}

impl Download {
    /// Starts the accounting for a response with the given declared content
    /// length. A missing length is not an error: the total counts as 0.
    pub fn begin(content_length: Option<u64>) -> (download: Download)
        ensures
            download.downloaded == 0,
            download.total == match content_length {
                Some(n) => n,
                None => 0,
            },
    {
        let total: u64 = match content_length {
            Some(n) => n,
            None => 0,
        };
        Download { total, downloaded: 0 }
    }

    /// Accounts for one chunk of `chunk_len` bytes that was written to the
    /// destination, and says what to report for it.
    pub fn record_chunk(&mut self, chunk_len: u64) -> (report: ChunkReport)
        requires
            old(self).downloaded + chunk_len <= u64::MAX,
        ensures
            final(self).total == old(self).total,
            final(self).downloaded == old(self).downloaded + chunk_len,
            report.progress == downloading_snapshot(final(self).downloaded, final(self).total),
            report.pause == pause_due(final(self).downloaded, final(self).total),
    {
        self.downloaded = self.downloaded + chunk_len;
        let progress = DownloadProgress {
            downloaded: self.downloaded,
            total: self.total,
            percentage: percentage(self.downloaded, self.total),
            status: ProgressStatus::Downloading,
        };
        let pause = self.downloaded % THROTTLE_SPAN == 0 || self.downloaded == self.total;
        ChunkReport { progress, pause }
    }
}

/// The bytes held by the first `n` chunks.
pub open spec fn bytes_after(chunks: Seq<u64>, n: int) -> nat
    decreases n,
{
    if n <= 0 {
        0
    } else {
        bytes_after(chunks, n - 1) + chunks[n - 1] as nat
    }
}

/// The declared total of a response.
pub open spec fn declared_total(content_length: Option<u64>) -> u64 {
    match content_length {
        Some(n) => n,
        None => 0,
    }
}

/// The snapshots of a transfer that arrives in the given chunks: one per
/// chunk, each with the bytes up to and including that chunk.
pub open spec fn expected_events(content_length: Option<u64>, chunks: Seq<u64>) -> Seq<
    DownloadProgress,
> {
    Seq::new(
        chunks.len(),
        |i: int|
            downloading_snapshot(bytes_after(chunks, i + 1) as u64, declared_total(content_length)),
    )
}

/// More chunks never hold fewer bytes.
pub proof fn lemma_bytes_after_grows(chunks: Seq<u64>, i: int, j: int)
    requires
        i <= j,
    ensures
        bytes_after(chunks, i) <= bytes_after(chunks, j),
    decreases j - i,
{
    if i < j {
        lemma_bytes_after_grows(chunks, i, j - 1);
    }
}

/// Within one download, snapshots come in non-decreasing byte-count order,
/// and so do their percentages.
pub proof fn lemma_events_ordered(content_length: Option<u64>, chunks: Seq<u64>, i: int, j: int)
    requires
        bytes_after(chunks, chunks.len() as int) <= u64::MAX,
        0 <= i <= j < chunks.len(),
    ensures
        expected_events(content_length, chunks)[i].downloaded <= expected_events(
            content_length,
            chunks,
        )[j].downloaded,
        expected_events(content_length, chunks)[i].percentage <= expected_events(
            content_length,
            chunks,
        )[j].percentage,
{
    lemma_bytes_after_grows(chunks, i + 1, j + 1);
    lemma_bytes_after_grows(chunks, j + 1, chunks.len() as int);
    let total = declared_total(content_length) as nat;
    lemma_percent_of_bounds(bytes_after(chunks, i + 1), bytes_after(chunks, j + 1), total);
    lemma_percent_of_bounds(bytes_after(chunks, j + 1), bytes_after(chunks, j + 1), total);
}

/// A transfer that delivers exactly its declared, non-zero total ends with
/// a snapshot whose byte count is the total and whose percentage is 100.
pub proof fn lemma_final_event_complete(total: u64, chunks: Seq<u64>)
    requires
        total > 0,
        bytes_after(chunks, chunks.len() as int) == total,
    ensures
        chunks.len() > 0,
        expected_events(Some(total), chunks).last() == (DownloadProgress {
            downloaded: total,
            total,
            percentage: 100,
            status: ProgressStatus::Downloading,
        }),
{
}

/// The snapshots that a transfer in the given chunks reports, in order.
pub fn progress_events(content_length: Option<u64>, chunks: &Vec<u64>) -> (events: Vec<
    DownloadProgress,
>)
    requires
        bytes_after(chunks@, chunks.len() as int) <= u64::MAX,
    ensures
        events@ == expected_events(content_length, chunks@),
{
    let mut download = Download::begin(content_length);
    let mut events: Vec<DownloadProgress> = Vec::new();
    let mut i: usize = 0;
    while i < chunks.len()
        invariant
            i <= chunks.len(),
            bytes_after(chunks@, chunks.len() as int) <= u64::MAX,
            download.total == declared_total(content_length),
            download.downloaded == bytes_after(chunks@, i as int),
            events@ == expected_events(content_length, chunks@).take(i as int),
        decreases chunks.len() - i,
    {
        proof {
            lemma_bytes_after_grows(chunks@, i + 1, chunks.len() as int);
        }
        let report = download.record_chunk(chunks[i]);
        events.push(report.progress);
        i += 1;
    }
    events
}

/// Why a download failed. Nothing is retried: that is the caller's choice.
#[derive(Debug, Clone, PartialEq, Eq)]
pub enum DownloadError {
    /// The request failed, or the stream broke off; the text says how.
    Network(String),
    /// The destination could not be created or written; the text says how.
    FileWrite(String),
}

/// A download error, its text as characters.
pub enum DownloadErrorView {
    Network(Seq<char>),
    FileWrite(Seq<char>),
}

impl View for DownloadError {
    type V = DownloadErrorView;

    open spec fn view(&self) -> DownloadErrorView {
        match self {
            DownloadError::Network(message) => DownloadErrorView::Network(message@),
            DownloadError::FileWrite(message) => DownloadErrorView::FileWrite(message@),
        }
    }
}

/// The human-readable text of a download error.
pub open spec fn download_error_text(error: DownloadErrorView) -> Seq<char> {
    match error {
        DownloadErrorView::Network(message) => message,
        DownloadErrorView::FileWrite(message) => message,
    }
}

impl DownloadError {
    /// The text shown for this error.
    pub fn message(&self) -> (text: String)
        ensures
            text@ == download_error_text(self@),
    {
        match self {
            DownloadError::Network(message) => message.clone(),
            DownloadError::FileWrite(message) => message.clone(),
        }
    }
}

} // verus!

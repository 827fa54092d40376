//! The transfer engine: one resumable download of one item, with retries.
//!
//! `Transfer` decides; its caller acts. The caller feeds each thing that
//! happened as a `TransferEvent` and carries out the returned action:
//! - `Prepare`: poll the item's control source; feed `Signal` if a signal is
//!   waiting, else read the size of the partial file on disk and feed `Begin`;
//! - `Send`: create the destination directory and send the GET request, with
//!   `Range: bytes=<from>-` when `range_from` is set; feed `Response` or `Failed`;
//! - `Stream`: open the destination for appending (creating it if absent)
//!   and read the body; before each chunk poll the control source and feed
//!   `Signal`, `Chunk`, `StreamEnd` or `Failed`;
//! - `Write`: append the chunk just read; feed `Failed` if that fails;
//! - `Flush`: flush the file; feed `Flushed` or `Failed`;
//! - `Sleep`: wait that many seconds, then feed `Slept`;
//! - `Finish`: the item is done with this outcome.
//! Each step may also carry a progress report to publish. When the item is
//! done, `bytes_on_disk` is what to report to the manager.
use crate::model::{copy_opt_string, DownloadItem, DownloadProgress, DownloadStatus};
use crate::text::{decimal, push_char, push_decimal};
use vstd::prelude::*;

verus! {

/// Attempts made per item before it is given up.
pub const MAX_ATTEMPTS: u32 = 3;

/// Bytes written between two `downloading` reports (1 MiB).
pub const PROGRESS_STEP: u64 = 1048576;

/// The HTTP status that announces a range past the end of the resource.
pub const RANGE_NOT_SATISFIABLE: u16 = 416;

/// A cooperative control signal addressed to one running transfer.
#[derive(Clone, Copy, Debug, PartialEq, Eq, Structural)]
pub enum ControlSignal {
    Pause,
    Stop,
}

#[derive(Clone, Copy, Debug, PartialEq, Eq, Structural)]
pub enum Phase {
    /// About to start an attempt (a poll point).
    Ready,
    /// The request is out; waiting for the response head.
    AwaitingResponse,
    /// Reading the body and appending it to the destination.
    Streaming,
    /// The body is exhausted; waiting for the file to be flushed.
    Flushing,
    /// Waiting out the delay before the next attempt.
    BackingOff,
    /// Nothing more happens to this item.
    Finished,
}

#[derive(Clone, Copy, Debug, PartialEq, Eq, Structural)]
pub enum Outcome {
    Completed,
    Paused,
    Stopped,
    Failed,
}

#[derive(Clone, Copy, Debug, PartialEq, Eq, Structural)]
pub enum TransferEvent {
    /// A control signal was found at a poll point.
    Signal(ControlSignal),
    /// An attempt starts, with the size of the partial file on disk, if
    /// there is one.
    Begin { on_disk: Option<u64> },
    /// The response head arrived.
    Response { status: u16, content_length: Option<u64> },
    /// A chunk of the body of `len` bytes arrived.
    Chunk { len: u64 },
    /// The body is exhausted.
    StreamEnd,
    /// The destination file was flushed.
    Flushed,
    /// A transport, HTTP or file system operation failed.
    Failed,
    /// The back-off delay is over.
    Slept,
}

#[derive(Clone, Copy, Debug, PartialEq, Eq, Structural)]
pub enum TransferAction {
    /// The event was not expected in this phase and changed nothing.
    Idle,
    Prepare,
    Send { range_from: Option<u64> },
    Stream,
    Write { len: u64 },
    Flush,
    Sleep { secs: u64 },
    Finish(Outcome),
}

/// The numbers of a progress event; the caller adds the item's identity.
#[derive(Clone, Copy, Debug, PartialEq, Eq, Structural)]
pub struct Report {
    pub status: DownloadStatus,
    pub total: u64,
    pub current: u64,
}

#[derive(Clone, Copy, Debug, PartialEq, Eq, Structural)]
pub struct TransferStep {
    pub report: Option<Report>,
    pub action: TransferAction,
}

/// The state of one item's transfer.
#[derive(Clone, Copy, Debug, PartialEq, Eq, Structural)]
pub struct Transfer {
    pub phase: Phase,
    /// The attempt under way, from 1.
    pub attempt: u32,
    /// The offset recorded for the item when it was last paused; it decides
    /// where the first attempt resumes, and is used up by it.
    pub recorded: Option<u64>,
    /// Whether an attempt has begun, so that `current` counts what is on disk.
    pub began: bool,
    /// Bytes already on disk when the attempt started.
    pub offset: u64,
    /// Size of the whole file, once the response head told it.
    pub total: u64,
    /// Bytes on disk so far.
    pub current: u64,
    /// The value of `current` at the last `downloading` report.
    pub last_report: u64,
}

pub open spec fn pow2(n: nat) -> nat
    decreases n,
{
    if n == 0 {
        1
    } else {
        2 * pow2((n - 1) as nat)
    }
}

/// Seconds to wait after failed attempt `attempt`: 1, 2, 4, ...
pub open spec fn backoff_delay(attempt: u32) -> nat {
    pow2((attempt - 1) as nat)
}

/// Where an attempt resumes: a recorded offset wins over the file on disk.
pub open spec fn resume_offset(recorded: Option<u64>, on_disk: Option<u64>) -> u64 {
    match recorded {
        Some(o) => o,
        None => match on_disk {
            Some(d) => d,
            None => 0,
        },
    }
}

pub open spec fn is_success(status: u16) -> bool {
    200 <= status < 300
}

pub open spec fn reporting(status: DownloadStatus, total: u64, current: u64, action: TransferAction)
    -> TransferStep {
    TransferStep { report: Some(Report { status, total, current }), action }
}

pub open spec fn silent(action: TransferAction) -> TransferStep {
    TransferStep { report: None, action }
}

/// What a failed attempt leads to: a delay before the next one, or, after
/// the last one, a single `error` report.
pub open spec fn after_failure(t: Transfer) -> (Transfer, TransferStep) {
    if 1 <= t.attempt < MAX_ATTEMPTS {
        (
            Transfer { phase: Phase::BackingOff, ..t },
            silent(TransferAction::Sleep { secs: backoff_delay(t.attempt) as u64 }),
        )
    } else {
        (
            Transfer { phase: Phase::Finished, ..t },
            reporting(DownloadStatus::Error, 0, 0, TransferAction::Finish(Outcome::Failed)),
        )
    }
}

/// A control signal ends the transfer where it stands.
pub open spec fn on_signal(t: Transfer, s: ControlSignal) -> (Transfer, TransferStep) {
    let (status, outcome) = match s {
        ControlSignal::Pause => (DownloadStatus::Paused, Outcome::Paused),
        ControlSignal::Stop => (DownloadStatus::Stopped, Outcome::Stopped),
    };
    (
        Transfer { phase: Phase::Finished, ..t },
        reporting(status, t.total, t.current, TransferAction::Finish(outcome)),
    )
}

pub open spec fn on_begin(t: Transfer, on_disk: Option<u64>) -> (
    Transfer,
    TransferStep,
) {
    let o = resume_offset(t.recorded, on_disk);
    (
        Transfer {
            phase: Phase::AwaitingResponse,
            recorded: None,
            began: true,
            offset: o,
            current: o,
            last_report: o,
            ..t
        },
        silent(TransferAction::Send { range_from: if o > 0 { Some(o) } else { None } }),
    )
}

pub open spec fn on_response(t: Transfer, status: u16, content_length: Option<u64>) -> (
    Transfer,
    TransferStep,
) {
    let len: u64 = match content_length {
        Some(l) => l,
        None => 0,
    };
    if status == RANGE_NOT_SATISFIABLE {
        (
            Transfer { phase: Phase::Finished, total: t.offset, current: t.offset, ..t },
            reporting(
                DownloadStatus::Completed,
                t.offset,
                t.offset,
                TransferAction::Finish(Outcome::Completed),
            ),
        )
    } else if !is_success(status) || t.offset + len > u64::MAX {
        after_failure(t)
    } else {
        // The body holds the bytes after the offset.
        let total = (t.offset + len) as u64;
        (
            Transfer { phase: Phase::Streaming, total, ..t },
            reporting(DownloadStatus::Downloading, total, t.current, TransferAction::Stream),
        )
    }
}

pub open spec fn on_chunk(t: Transfer, len: u64) -> (Transfer, TransferStep) {
    if t.current + len > u64::MAX {
        after_failure(t)
    } else {
        let c = (t.current + len) as u64;
        if c - t.last_report >= PROGRESS_STEP {
            (
                Transfer { current: c, last_report: c, ..t },
                reporting(DownloadStatus::Downloading, t.total, c, TransferAction::Write { len }),
            )
        } else {
            (Transfer { current: c, ..t }, silent(TransferAction::Write { len }))
        }
    }
}

/// The transition function of the transfer engine.
pub open spec fn next(t: Transfer, e: TransferEvent) -> (Transfer, TransferStep) {
    let ignored = (t, silent(TransferAction::Idle));
    match t.phase {
        Phase::Ready => match e {
            TransferEvent::Signal(s) => on_signal(t, s),
            TransferEvent::Begin { on_disk } => on_begin(t, on_disk),
            _ => ignored,
        },
        Phase::AwaitingResponse => match e {
            TransferEvent::Response { status, content_length } => on_response(
                t,
                status,
                content_length,
            ),
            TransferEvent::Failed => after_failure(t),
            _ => ignored,
        },
        Phase::Streaming => match e {
            TransferEvent::Signal(s) => on_signal(t, s),
            TransferEvent::Chunk { len } => on_chunk(t, len),
            TransferEvent::StreamEnd => (
                Transfer { phase: Phase::Flushing, ..t },
                silent(TransferAction::Flush),
            ),
            TransferEvent::Failed => after_failure(t),
            _ => ignored,
        },
        Phase::Flushing => match e {
            TransferEvent::Flushed => (
                Transfer { phase: Phase::Finished, current: t.total, ..t },
                reporting(
                    DownloadStatus::Completed,
                    t.total,
                    t.total,
                    TransferAction::Finish(Outcome::Completed),
                ),
            ),
            TransferEvent::Failed => after_failure(t),
            _ => ignored,
        },
        Phase::BackingOff => match e {
            TransferEvent::Slept => if t.attempt < MAX_ATTEMPTS {
                (
                    Transfer { phase: Phase::Ready, attempt: (t.attempt + 1) as u32, ..t },
                    silent(TransferAction::Prepare),
                )
            } else {
                ignored
            },
            _ => ignored,
        },
        Phase::Finished => ignored,
    }
}

/// Seconds to wait after failed attempt `attempt`, while attempts remain.
pub fn backoff_secs(attempt: u32) -> (r: u64)
    requires
        1 <= attempt < MAX_ATTEMPTS,
    ensures
        r == backoff_delay(attempt),
{
    let mut r: u64 = 1;
    let mut i: u32 = 1;
    while i < attempt
        invariant
            1 <= i <= attempt < MAX_ATTEMPTS,
            r == pow2((i - 1) as nat),
            r <= i,
        decreases attempt - i,
    {
        assert(pow2(i as nat) == 2 * pow2((i - 1) as nat));
        r = r * 2;
        i = i + 1;
    }
    r
}

/// The value of the `Range` header that asks for the bytes from `from` on.
pub open spec fn range_value(from: u64) -> Seq<char> {
    "bytes="@ + decimal(from as nat) + seq!['-']
}

/// The `Range` header value for a `Send` action: none for a fresh download.
pub fn range_header(range_from: Option<u64>) -> (r: Option<String>)
    ensures
        match range_from {
            Some(o) => r is Some && r->Some_0@ == range_value(o),
            None => r is None,
        },
{
    match range_from {
        Some(o) => {
            let mut s = String::new();
            s.append("bytes=");
            push_decimal(&mut s, o);
            push_char(&mut s, '-');
            Some(s)
        },
        None => None,
    }
}

impl Report {
    /// The progress event of `item` that this report describes.
    pub fn for_item(&self, item: &DownloadItem) -> (r: DownloadProgress)
        ensures
            r.id == item.id,
            r.batch_id == item.batch_id,
            r.total == self.total,
            r.current == self.current,
            r.status == self.status,
    {
        DownloadProgress {
            id: item.id.clone(),
            batch_id: copy_opt_string(&item.batch_id),
            total: self.total,
            current: self.current,
            status: self.status,
        }
    }
}

impl Transfer {
    /// A transfer that has not started its first attempt, of an item whose
    /// offset `recorded` was recorded when it was last paused, if it was.
    pub open spec fn seeded(recorded: Option<u64>) -> Transfer {
        let o: u64 = match recorded {
            Some(o) => o,
            None => 0,
        };
        Transfer {
            phase: Phase::Ready,
            attempt: 1,
            recorded,
            began: false,
            offset: o,
            total: 0,
            current: o,
            last_report: o,
        }
    }

    pub open spec fn initial() -> Transfer {
        Transfer::seeded(None)
    }

    /// What is known to be on disk: nothing before the first attempt begins.
    pub open spec fn known_bytes(self) -> Option<u64> {
        if self.began {
            Some(self.current)
        } else {
            None
        }
    }

    /// A fresh transfer of an item with no recorded offset.
    pub fn new() -> (r: Transfer)
        ensures
            r == Transfer::initial(),
    {
        Transfer::resuming(None)
    }

    /// A fresh transfer of an item whose offset `recorded` was recorded when
    /// it was last paused, if it was.
    pub fn resuming(recorded: Option<u64>) -> (r: Transfer)
        ensures
            r == Transfer::seeded(recorded),
    {
        let o: u64 = match recorded {
            Some(o) => o,
            None => 0,
        };
        Transfer {
            phase: Phase::Ready,
            attempt: 1,
            recorded,
            began: false,
            offset: o,
            total: 0,
            current: o,
            last_report: o,
        }
    }

    /// The bytes on disk, once an attempt has begun; to be handed to
    /// `DownloadManager::task_finished`.
    pub fn bytes_on_disk(&self) -> (r: Option<u64>)
        ensures
            r == self.known_bytes(),
    {
        if self.began {
            Some(self.current)
        } else {
            None
        }
    }

    /// Whether the transfer has reached its end.
    pub fn is_finished(&self) -> (r: bool)
        ensures
            r == (self.phase == Phase::Finished),
    {
        self.phase == Phase::Finished
    }

    fn fail(&mut self) -> (r: TransferStep)
        ensures
            (*final(self), r) == after_failure(*old(self)),
    {
        if 1 <= self.attempt && self.attempt < MAX_ATTEMPTS {
            self.phase = Phase::BackingOff;
            let secs = backoff_secs(self.attempt);
            TransferStep { report: None, action: TransferAction::Sleep { secs } }
        } else {
            self.phase = Phase::Finished;
            TransferStep {
                report: Some(Report { status: DownloadStatus::Error, total: 0, current: 0 }),
                action: TransferAction::Finish(Outcome::Failed),
            }
        }
    }

    fn signal(&mut self, s: ControlSignal) -> (r: TransferStep)
        ensures
            (*final(self), r) == on_signal(*old(self), s),
    {
        let (status, outcome) = match s {
            ControlSignal::Pause => (DownloadStatus::Paused, Outcome::Paused),
            ControlSignal::Stop => (DownloadStatus::Stopped, Outcome::Stopped),
        };
        self.phase = Phase::Finished;
        TransferStep {
            report: Some(Report { status, total: self.total, current: self.current }),
            action: TransferAction::Finish(outcome),
        }
    }

    /// Feeds one event to the transfer and returns what to do next.
    pub fn step(&mut self, e: TransferEvent) -> (r: TransferStep)
        ensures
            (*final(self), r) == next(*old(self), e),
    {
        let ignored = TransferStep { report: None, action: TransferAction::Idle };
        match self.phase {
            Phase::Ready => match e {
                TransferEvent::Signal(s) => self.signal(s),
                TransferEvent::Begin { on_disk } => {
                    let o: u64 = match self.recorded {
                        Some(o) => o,
                        None => match on_disk {
                            Some(d) => d,
                            None => 0,
                        },
                    };
                    self.phase = Phase::AwaitingResponse;
                    self.recorded = None;
                    self.began = true;
                    self.offset = o;
                    self.current = o;
                    self.last_report = o;
                    let range_from = if o > 0 {
                        Some(o)
                    } else {
                        None
                    };
                    TransferStep { report: None, action: TransferAction::Send { range_from } }
                },
                _ => ignored,
            },
            Phase::AwaitingResponse => match e {
                TransferEvent::Response { status, content_length } => {
                    let len: u64 = match content_length {
                        Some(l) => l,
                        None => 0,
                    };
                    if status == RANGE_NOT_SATISFIABLE {
                        self.phase = Phase::Finished;
                        self.total = self.offset;
                        self.current = self.offset;
                        TransferStep {
                            report: Some(
                                Report {
                                    status: DownloadStatus::Completed,
                                    total: self.offset,
                                    current: self.offset,
                                },
                            ),
                            action: TransferAction::Finish(Outcome::Completed),
                        }
                    } else if status < 200 || status >= 300 || len > u64::MAX - self.offset {
                        self.fail()
                    } else {
                        self.phase = Phase::Streaming;
                        self.total = self.offset + len;
                        TransferStep {
                            report: Some(
                                Report {
                                    status: DownloadStatus::Downloading,
                                    total: self.total,
                                    current: self.current,
                                },
                            ),
                            action: TransferAction::Stream,
                        }
                    }
                },
                TransferEvent::Failed => self.fail(),
                _ => ignored,
            },
            Phase::Streaming => match e {
                TransferEvent::Signal(s) => self.signal(s),
                TransferEvent::Chunk { len } => {
                    if len > u64::MAX - self.current {
                        self.fail()
                    } else {
                        let c = self.current + len;
                        self.current = c;
                        if c >= self.last_report && c - self.last_report >= PROGRESS_STEP {
                            self.last_report = c;
                            TransferStep {
                                report: Some(
                                    Report {
                                        status: DownloadStatus::Downloading,
                                        total: self.total,
                                        current: c,
                                    },
                                ),
                                action: TransferAction::Write { len },
                            }
                        } else {
                            TransferStep { report: None, action: TransferAction::Write { len } }
                        }
                    }
                },
                TransferEvent::StreamEnd => {
                    self.phase = Phase::Flushing;
                    TransferStep { report: None, action: TransferAction::Flush }
                },
                TransferEvent::Failed => self.fail(),
                _ => ignored,
            },
            Phase::Flushing => match e {
                TransferEvent::Flushed => {
                    self.phase = Phase::Finished;
                    self.current = self.total;
                    TransferStep {
                        report: Some(
                            Report {
                                status: DownloadStatus::Completed,
                                total: self.total,
                                current: self.total,
                            },
                        ),
                        action: TransferAction::Finish(Outcome::Completed),
                    }
                },
                TransferEvent::Failed => self.fail(),
                _ => ignored,
            },
            Phase::BackingOff => match e {
                TransferEvent::Slept => {
                    if self.attempt < MAX_ATTEMPTS {
                        self.phase = Phase::Ready;
                        self.attempt = self.attempt + 1;
                        TransferStep { report: None, action: TransferAction::Prepare }
                    } else {
                        ignored
                    }
                },
                _ => ignored,
            },
            Phase::Finished => ignored,
        }
    }
}

} // verus!

use match_download::model::{DownloadItem, DownloadStatus};
use match_download::transfer::{
    backoff_secs, range_header, ControlSignal, Outcome, Phase, Report, Transfer, TransferAction,
    TransferEvent, TransferStep,
};

fn feed(t: &mut Transfer, events: &[TransferEvent]) -> Vec<TransferStep> {
    events.iter().map(|e| t.step(*e)).collect()
}

fn reports(steps: &[TransferStep]) -> Vec<Report> {
    steps.iter().filter_map(|s| s.report).collect()
}

fn written(steps: &[TransferStep]) -> u64 {
    steps
        .iter()
        .map(|s| match s.action {
            TransferAction::Write { len } => len,
            _ => 0,
        })
        .sum()
}

fn item_a() -> DownloadItem {
    DownloadItem {
        id: "a".to_string(),
        batch_id: None,
        url: "http://x/f.bin".to_string(),
        filename: "f.bin".to_string(),
        save_path: "/tmp/out".to_string(),
    }
}

fn report(status: DownloadStatus, total: u64, current: u64) -> Report {
    Report { status, total, current }
}

#[test]
fn fresh_download_reports_start_and_completion() {
    let mut t = Transfer::new();
    let first = t.step(TransferEvent::Begin { on_disk: None });
    assert_eq!(first.action, TransferAction::Send { range_from: None });
    assert_eq!(range_header(None), None);
    let mut events = vec![TransferEvent::Response { status: 200, content_length: Some(512000) }];
    for _ in 0..7 {
        events.push(TransferEvent::Chunk { len: 65536 });
    }
    events.push(TransferEvent::Chunk { len: 53248 });
    events.push(TransferEvent::StreamEnd);
    events.push(TransferEvent::Flushed);
    let steps = feed(&mut t, &events);
    assert_eq!(
        reports(&steps),
        vec![
            report(DownloadStatus::Downloading, 512000, 0),
            report(DownloadStatus::Completed, 512000, 512000),
        ]
    );
    assert_eq!(written(&steps), 512000);
    assert_eq!(steps.last().unwrap().action, TransferAction::Finish(Outcome::Completed));
    assert!(t.is_finished());
    let event = steps.last().unwrap().report.unwrap().for_item(&item_a());
    assert_eq!(event.id, "a");
    assert_eq!(event.batch_id, None);
    assert_eq!(event.total, 512000);
    assert_eq!(event.current, 512000);
    assert_eq!(event.status.as_str(), "completed");
}

#[test]
fn complete_file_gets_416_and_is_left_alone() {
    let mut t = Transfer::new();
    let steps = feed(
        &mut t,
        &[
            TransferEvent::Begin { on_disk: Some(512000) },
            TransferEvent::Response { status: 416, content_length: None },
        ],
    );
    assert_eq!(steps[0].action, TransferAction::Send { range_from: Some(512000) });
    assert_eq!(range_header(Some(512000)), Some("bytes=512000-".to_string()));
    assert_eq!(reports(&steps), vec![report(DownloadStatus::Completed, 512000, 512000)]);
    assert_eq!(written(&steps), 0);
    assert_eq!(steps[1].action, TransferAction::Finish(Outcome::Completed));
}

#[test]
fn partial_file_resumes_to_exact_total() {
    let mut t = Transfer::new();
    let steps = feed(
        &mut t,
        &[
            TransferEvent::Begin { on_disk: Some(300) },
            TransferEvent::Response { status: 206, content_length: Some(700) },
            TransferEvent::Chunk { len: 400 },
            TransferEvent::Chunk { len: 300 },
            TransferEvent::StreamEnd,
            TransferEvent::Flushed,
        ],
    );
    assert_eq!(steps[0].action, TransferAction::Send { range_from: Some(300) });
    assert_eq!(steps[1].action, TransferAction::Stream);
    assert_eq!(300 + written(&steps), 1000);
    assert_eq!(
        reports(&steps),
        vec![
            report(DownloadStatus::Downloading, 1000, 300),
            report(DownloadStatus::Completed, 1000, 1000),
        ]
    );
}

#[test]
fn recorded_offset_wins_over_file_size_on_the_first_attempt_only() {
    let mut t = Transfer::resuming(Some(10));
    assert_eq!(t.bytes_on_disk(), None);
    let s = t.step(TransferEvent::Begin { on_disk: Some(99) });
    assert_eq!(s.action, TransferAction::Send { range_from: Some(10) });
    assert_eq!(t.bytes_on_disk(), Some(10));
    t.step(TransferEvent::Failed);
    t.step(TransferEvent::Slept);
    let s = t.step(TransferEvent::Begin { on_disk: Some(99) });
    assert_eq!(s.action, TransferAction::Send { range_from: Some(99) });
}

#[test]
fn pause_before_first_attempt_reports_recorded_offset() {
    let mut t = Transfer::resuming(Some(4096));
    let s = t.step(TransferEvent::Signal(ControlSignal::Pause));
    assert_eq!(s.report, Some(report(DownloadStatus::Paused, 0, 4096)));
    assert_eq!(s.action, TransferAction::Finish(Outcome::Paused));
    assert_eq!(t.bytes_on_disk(), None);
}

#[test]
fn full_response_on_resume_keeps_written_bytes() {
    let mut t = Transfer::new();
    let steps = feed(
        &mut t,
        &[
            TransferEvent::Begin { on_disk: Some(300) },
            TransferEvent::Response { status: 200, content_length: Some(700) },
            TransferEvent::Chunk { len: 700 },
            TransferEvent::StreamEnd,
            TransferEvent::Flushed,
        ],
    );
    assert_eq!(steps[0].action, TransferAction::Send { range_from: Some(300) });
    assert_eq!(steps[1].action, TransferAction::Stream);
    assert_eq!(
        reports(&steps),
        vec![
            report(DownloadStatus::Downloading, 1000, 300),
            report(DownloadStatus::Completed, 1000, 1000),
        ]
    );
    assert_eq!(300 + written(&steps), 1000);
}

#[test]
fn server_error_is_tried_three_times_then_one_error() {
    let mut t = Transfer::new();
    let fail = TransferEvent::Response { status: 500, content_length: None };
    let begin = TransferEvent::Begin { on_disk: None };
    let steps = feed(
        &mut t,
        &[begin, fail, TransferEvent::Slept, begin, fail, TransferEvent::Slept, begin, fail],
    );
    let actions: Vec<TransferAction> = steps.iter().map(|s| s.action).collect();
    assert_eq!(
        actions,
        vec![
            TransferAction::Send { range_from: None },
            TransferAction::Sleep { secs: 1 },
            TransferAction::Prepare,
            TransferAction::Send { range_from: None },
            TransferAction::Sleep { secs: 2 },
            TransferAction::Prepare,
            TransferAction::Send { range_from: None },
            TransferAction::Finish(Outcome::Failed),
        ]
    );
    assert_eq!(reports(&steps), vec![report(DownloadStatus::Error, 0, 0)]);
    assert!(t.is_finished());
}

#[test]
fn transport_failure_mid_stream_retries_from_disk() {
    let mut t = Transfer::new();
    let steps = feed(
        &mut t,
        &[
            TransferEvent::Begin { on_disk: None },
            TransferEvent::Response { status: 200, content_length: Some(100) },
            TransferEvent::Chunk { len: 40 },
            TransferEvent::Failed,
            TransferEvent::Slept,
            TransferEvent::Begin { on_disk: Some(40) },
        ],
    );
    assert_eq!(steps[3].action, TransferAction::Sleep { secs: 1 });
    assert_eq!(steps[4].action, TransferAction::Prepare);
    assert_eq!(steps[5].action, TransferAction::Send { range_from: Some(40) });
    assert_eq!(t.attempt, 2);
}

#[test]
fn pause_mid_stream_ends_with_one_paused_report() {
    let mut t = Transfer::new();
    let steps = feed(
        &mut t,
        &[
            TransferEvent::Begin { on_disk: None },
            TransferEvent::Response { status: 200, content_length: Some(1000) },
            TransferEvent::Chunk { len: 250 },
            TransferEvent::Signal(ControlSignal::Pause),
            TransferEvent::Chunk { len: 250 },
            TransferEvent::StreamEnd,
            TransferEvent::Flushed,
        ],
    );
    assert_eq!(
        reports(&steps),
        vec![
            report(DownloadStatus::Downloading, 1000, 0),
            report(DownloadStatus::Paused, 1000, 250),
        ]
    );
    assert_eq!(steps[3].action, TransferAction::Finish(Outcome::Paused));
    assert_eq!(steps[4].action, TransferAction::Idle);
    assert_eq!(written(&steps), 250);
    assert_eq!(t.phase, Phase::Finished);
}

#[test]
fn stop_before_first_attempt_reports_stopped() {
    let mut t = Transfer::new();
    let s = t.step(TransferEvent::Signal(ControlSignal::Stop));
    assert_eq!(s.report, Some(report(DownloadStatus::Stopped, 0, 0)));
    assert_eq!(s.action, TransferAction::Finish(Outcome::Stopped));
}

#[test]
fn progress_is_reported_per_mebibyte() {
    let mut t = Transfer::new();
    let steps = feed(
        &mut t,
        &[
            TransferEvent::Begin { on_disk: None },
            TransferEvent::Response { status: 200, content_length: Some(3_000_000) },
            TransferEvent::Chunk { len: 600_000 },
            TransferEvent::Chunk { len: 600_000 },
            TransferEvent::Chunk { len: 600_000 },
            TransferEvent::Chunk { len: 600_000 },
        ],
    );
    assert_eq!(
        reports(&steps),
        vec![
            report(DownloadStatus::Downloading, 3_000_000, 0),
            report(DownloadStatus::Downloading, 3_000_000, 1_200_000),
            report(DownloadStatus::Downloading, 3_000_000, 2_400_000),
        ]
    );
}

#[test]
fn oversized_content_length_is_a_failure() {
    let mut t = Transfer::new();
    let steps = feed(
        &mut t,
        &[
            TransferEvent::Begin { on_disk: Some(10) },
            TransferEvent::Response { status: 206, content_length: Some(u64::MAX) },
        ],
    );
    assert_eq!(steps[1].action, TransferAction::Sleep { secs: 1 });
    assert_eq!(steps[1].report, None);
}

#[test]
fn unexpected_events_change_nothing() {
    let mut t = Transfer::new();
    let before = t;
    let s = t.step(TransferEvent::Chunk { len: 5 });
    assert_eq!(s.action, TransferAction::Idle);
    assert_eq!(t, before);
}

#[test]
fn backoff_doubles() {
    assert_eq!(backoff_secs(1), 1);
    assert_eq!(backoff_secs(2), 2);
}

#[test]
fn status_names() {
    assert_eq!(DownloadStatus::Pending.as_str(), "pending");
    assert_eq!(DownloadStatus::Downloading.as_str(), "downloading");
    assert_eq!(DownloadStatus::Paused.as_str(), "paused");
    assert_eq!(DownloadStatus::Stopped.as_str(), "stopped");
    assert_eq!(DownloadStatus::Error.as_str(), "error");
}

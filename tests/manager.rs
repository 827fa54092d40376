use match_download::manager::{DownloadManager, Launch};
use match_download::model::{DownloadItem, DownloadManagerState};
use match_download::registry::BatchError;
use match_download::transfer::{ControlSignal, Outcome, Transfer, TransferEvent};

fn item(id: &str, batch: Option<&str>) -> DownloadItem {
    DownloadItem {
        id: id.to_string(),
        batch_id: batch.map(|b| b.to_string()),
        url: format!("http://x/{}", id),
        filename: format!("{}.bin", id),
        save_path: "/tmp/out".to_string(),
    }
}

fn ids(launches: &[Launch]) -> Vec<String> {
    launches.iter().map(|l| l.item.id.clone()).collect()
}

#[test]
fn burst_never_exceeds_concurrency() {
    let limit = 4usize;
    let mut m = DownloadManager::new(limit);
    for k in 0..limit * 5 {
        m.add_task(item(&format!("i{}", k), None));
    }
    m.start_downloads();
    let mut running: Vec<u64> = m.dispatch().iter().map(|l| l.task).collect();
    let mut started = running.len();
    let mut acquired = running.len();
    let mut released = 0usize;
    assert_eq!(running.len(), limit);
    while let Some(task) = running.pop() {
        m.task_finished(task, Outcome::Completed, Some(0));
        released += 1;
        assert!(acquired - released <= limit);
        for l in m.dispatch() {
            running.push(l.task);
            started += 1;
            acquired += 1;
            assert!(acquired - released <= limit);
            assert!(m.in_flight() <= limit);
        }
    }
    assert_eq!(started, limit * 5);
    assert_eq!(m.in_flight(), 0);
    assert_eq!(m.queued(), 0);
}

#[test]
fn queue_is_dispatched_in_order_once_started() {
    let mut m = DownloadManager::new(2);
    m.add_task(item("a", None));
    m.add_task(item("b", None));
    m.add_task(item("c", None));
    assert_eq!(m.get_state(), DownloadManagerState::Idle);
    assert!(m.dispatch().is_empty());
    m.start_downloads();
    let l = m.dispatch();
    assert_eq!(ids(&l), vec!["a", "b"]);
    assert_eq!(l[0].recorded, None);
    assert_eq!(m.queued(), 1);
    assert_eq!(m.get_concurrency(), 2);
}

#[test]
fn pausing_one_batch_leaves_the_other_alone() {
    let mut m = DownloadManager::new(10);
    m.dispatch_batch(Some("A".to_string()), vec![item("a1", Some("A")), item("a2", Some("A"))]);
    m.dispatch_batch(Some("B".to_string()), vec![item("b1", Some("B")), item("b2", Some("B"))]);
    let l = m.dispatch();
    assert_eq!(ids(&l), vec!["a1", "a2", "b1", "b2"]);
    for x in &l {
        assert_eq!(m.poll_signal(x.task), None);
    }
    assert_eq!(m.pause_batch(&"A".to_string()), Ok(()));
    assert_eq!(m.poll_signal(l[0].task), Some(ControlSignal::Pause));
    assert_eq!(m.poll_signal(l[1].task), Some(ControlSignal::Pause));
    assert_eq!(m.poll_signal(l[2].task), None);
    assert_eq!(m.poll_signal(l[3].task), None);
}

#[test]
fn resumed_batch_redispatches_every_retained_item() {
    let mut m = DownloadManager::new(2);
    let b = "B".to_string();
    m.dispatch_batch(
        Some(b.clone()),
        vec![item("x", Some("B")), item("y", Some("B")), item("z", Some("B"))],
    );
    let first = m.dispatch();
    assert_eq!(ids(&first), vec!["x", "y"]);
    assert_eq!(m.pause_batch(&b), Ok(()));
    for l in &first {
        assert_eq!(m.poll_signal(l.task), Some(ControlSignal::Pause));
        m.task_finished(l.task, Outcome::Paused, Some(10));
    }
    assert!(m.dispatch().is_empty());
    let kept = m.snapshot_items_for_resume(&b).unwrap();
    assert_eq!(kept.len(), 3);
    assert_eq!(m.resume_batch(&b), Ok(()));
    let mut seen = Vec::new();
    let mut running = m.dispatch();
    while !running.is_empty() {
        for l in &running {
            seen.push(l.item.id.clone());
            assert_eq!(l.recorded, None);
            m.task_finished(l.task, Outcome::Completed, Some(0));
        }
        running = m.dispatch();
    }
    assert_eq!(seen, vec!["x", "y", "z"]);
}

#[test]
fn paused_batch_waiting_for_a_permit_starts_nothing() {
    let mut m = DownloadManager::new(1);
    let b = "B".to_string();
    m.dispatch_batch(Some(b.clone()), vec![item("x", Some("B")), item("y", Some("B"))]);
    let first = m.dispatch();
    assert_eq!(ids(&first), vec!["x"]);
    assert_eq!(m.pause_batch(&b), Ok(()));
    m.task_finished(first[0].task, Outcome::Paused, Some(5));
    assert!(m.dispatch().is_empty());
}

#[test]
fn unknown_batch_is_not_found() {
    let mut m = DownloadManager::new(1);
    let b = "nope".to_string();
    assert_eq!(m.pause_batch(&b), Err(BatchError::NotFound));
    assert_eq!(m.stop_batch(&b), Err(BatchError::NotFound));
    assert_eq!(m.resume_batch(&b), Err(BatchError::NotFound));
    assert!(m.snapshot_items_for_resume(&b).is_err());
}

#[test]
fn stopped_batch_is_removed_and_its_transfers_stopped() {
    let mut m = DownloadManager::new(4);
    let b = "B".to_string();
    m.dispatch_batch(Some(b.clone()), vec![item("x", Some("B"))]);
    let l = m.dispatch();
    assert_eq!(m.stop_batch(&b), Ok(()));
    assert_eq!(m.poll_signal(l[0].task), Some(ControlSignal::Stop));
    assert_eq!(m.resume_batch(&b), Err(BatchError::NotFound));
}

#[test]
fn global_pause_is_seen_by_queue_transfers_and_resumes_from_offset() {
    let mut m = DownloadManager::new(1);
    m.add_task(item("a", None));
    m.add_task(item("b", None));
    m.start_downloads();
    let l = m.dispatch();
    assert_eq!(ids(&l), vec!["a"]);
    m.pause();
    assert_eq!(m.get_state(), DownloadManagerState::Paused);
    assert_eq!(m.poll_signal(l[0].task), Some(ControlSignal::Pause));
    m.task_finished(l[0].task, Outcome::Paused, Some(4096));
    assert!(m.dispatch().is_empty());
    assert!(m.resume());
    assert!(!m.resume());
    let again = m.dispatch();
    assert_eq!(ids(&again), vec!["a"]);
    assert_eq!(again[0].recorded, Some(4096));
    m.task_finished(again[0].task, Outcome::Completed, Some(8192));
    let next = m.dispatch();
    assert_eq!(ids(&next), vec!["b"]);
    assert_eq!(next[0].recorded, None);
}

#[test]
fn pause_before_first_attempt_keeps_the_recorded_offset() {
    let mut m = DownloadManager::new(1);
    m.add_task(item("a", None));
    m.start_downloads();
    let l = m.dispatch();
    m.pause();
    m.task_finished(l[0].task, Outcome::Paused, Some(4096));
    assert!(m.resume());
    let again = m.dispatch();
    assert_eq!(again[0].recorded, Some(4096));
    m.pause();
    let mut t = Transfer::resuming(again[0].recorded);
    let step = t.step(TransferEvent::Signal(ControlSignal::Pause));
    assert_eq!(step.report.unwrap().current, 4096);
    m.task_finished(again[0].task, Outcome::Paused, t.bytes_on_disk());
    assert!(m.resume());
    let third = m.dispatch();
    assert_eq!(ids(&third), vec!["a"]);
    assert_eq!(third[0].recorded, Some(4096));
}

#[test]
fn global_stop_cancels_queue_transfers_only() {
    let mut m = DownloadManager::new(3);
    m.add_task(item("q1", None));
    m.add_task(item("q2", None));
    m.add_task(item("q3", None));
    m.start_downloads();
    let q = m.dispatch();
    assert_eq!(q.len(), 3);
    m.task_finished(q[2].task, Outcome::Completed, Some(0));
    m.dispatch_batch(None, vec![item("d", None)]);
    let d = m.dispatch();
    assert_eq!(ids(&d), vec!["d"]);
    let cancelled = m.stop();
    assert_eq!(cancelled, vec![q[0].task, q[1].task]);
    assert_eq!(m.get_state(), DownloadManagerState::Stopped);
    assert_eq!(m.in_flight(), 1);
    assert_eq!(m.queued(), 0);
    assert_eq!(m.poll_signal(q[0].task), Some(ControlSignal::Stop));
    assert_eq!(m.poll_signal(d[0].task), None);
}

#[test]
fn one_off_items_run_without_a_started_queue() {
    let mut m = DownloadManager::new(2);
    m.dispatch_batch(None, vec![item("d1", None), item("d2", None), item("d3", None)]);
    assert_eq!(ids(&m.dispatch()), vec!["d1", "d2"]);
}

#[test]
fn pause_of_an_idle_queue_changes_nothing() {
    let mut m = DownloadManager::new(2);
    m.pause();
    assert_eq!(m.get_state(), DownloadManagerState::Idle);
    m.start_downloads();
    assert_eq!(m.get_state(), DownloadManagerState::Running);
}

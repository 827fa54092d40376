//! Properties of whole runs of the transfer engine.
use crate::model::DownloadStatus;
use crate::transfer::{
    is_success, next, pow2, reporting, resume_offset, silent, Outcome, Phase, Report, Transfer,
    TransferAction, TransferEvent, TransferStep, RANGE_NOT_SATISFIABLE,
};
use vstd::prelude::*;

verus! {

/// The state reached and the steps returned when `es` is fed, in order, to `t`.
pub open spec fn run(t: Transfer, es: Seq<TransferEvent>) -> (Transfer, Seq<TransferStep>)
    decreases es.len(),
{
    if es.len() == 0 {
        (t, Seq::empty())
    } else {
        let (t1, steps) = run(t, es.drop_last());
        let (t2, st) = next(t1, es.last());
        (t2, steps.push(st))
    }
}

/// The statuses published along a sequence of steps.
pub open spec fn reported(steps: Seq<TransferStep>) -> Seq<DownloadStatus>
    decreases steps.len(),
{
    if steps.len() == 0 {
        Seq::empty()
    } else {
        let rest = reported(steps.drop_last());
        match steps.last().report {
            Some(r) => rest.push(r.status),
            None => rest,
        }
    }
}

/// The number of bytes that a sequence of steps appends to the destination.
pub open spec fn written(steps: Seq<TransferStep>) -> int
    decreases steps.len(),
{
    if steps.len() == 0 {
        0
    } else {
        written(steps.drop_last()) + match steps.last().action {
            TransferAction::Write { len } => len as int,
            _ => 0int,
        }
    }
}

pub open spec fn sum_lens(chunks: Seq<u64>) -> int
    decreases chunks.len(),
{
    if chunks.len() == 0 {
        0
    } else {
        sum_lens(chunks.drop_last()) + chunks.last()
    }
}

pub open spec fn chunk_events(chunks: Seq<u64>) -> Seq<TransferEvent> {
    chunks.map_values(|c: u64| TransferEvent::Chunk { len: c })
}

/// `downloading` reports only; then, once the transfer is finished, exactly
/// one terminal status as the last report.
pub open spec fn status_shape(s: Seq<DownloadStatus>, finished: bool) -> bool {
    if finished {
        &&& s.len() > 0
        &&& s.last().is_terminal()
        &&& forall|i: int| 0 <= i < s.len() - 1 ==> s[i] == DownloadStatus::Downloading
    } else {
        forall|i: int| 0 <= i < s.len() ==> s[i] == DownloadStatus::Downloading
    }
}

/// Whatever happens to an item, what it publishes is a run of `downloading`
/// reports closed, once it is finished, by exactly one terminal status
/// (`completed`, `stopped`, `paused` or `error`), and nothing after it.
pub proof fn lemma_status_sequence(recorded: Option<u64>, events: Seq<TransferEvent>)
    ensures
        status_shape(
            reported(run(Transfer::seeded(recorded), events).1),
            run(Transfer::seeded(recorded), events).0.phase == Phase::Finished,
        ),
    decreases events.len(),
{
    if events.len() > 0 {
        lemma_status_sequence(recorded, events.drop_last());
        let (t1, steps) = run(Transfer::seeded(recorded), events.drop_last());
        let s1 = reported(steps);
        let (t2, st) = next(t1, events.last());
        let s2 = reported(steps.push(st));
        assert(steps.push(st).drop_last() =~= steps);
        if t1.phase == Phase::Finished {
            assert(s2 == s1);
        } else {
            match st.report {
                Some(r) => {
                    assert(s2 == s1.push(r.status));
                    if t2.phase == Phase::Finished {
                        assert(r.status.is_terminal());
                    } else {
                        assert(r.status == DownloadStatus::Downloading);
                    }
                },
                None => {
                    assert(s2 == s1);
                    assert(t2.phase != Phase::Finished);
                },
            }
        }
    }
}

/// Feeding `a` then `b` is feeding `a + b`.
pub proof fn lemma_run_append(t: Transfer, a: Seq<TransferEvent>, b: Seq<TransferEvent>)
    ensures
        run(t, a + b) == (run(run(t, a).0, b).0, run(t, a).1 + run(run(t, a).0, b).1),
    decreases b.len(),
{
    if b.len() == 0 {
        assert(a + b =~= a);
        assert(run(t, a).1 + Seq::<TransferStep>::empty() =~= run(t, a).1);
    } else {
        lemma_run_append(t, a, b.drop_last());
        assert((a + b).drop_last() =~= a + b.drop_last());
        assert((a + b).last() == b.last());
        let m = run(t, a).0;
        let st = next(run(m, b.drop_last()).0, b.last()).1;
        assert(run(t, a).1 + run(m, b.drop_last()).1.push(st) =~= (run(t, a).1 + run(
            m,
            b.drop_last(),
        ).1).push(st));
    }
}

proof fn lemma_written_append(a: Seq<TransferStep>, b: Seq<TransferStep>)
    ensures
        written(a + b) == written(a) + written(b),
    decreases b.len(),
{
    if b.len() == 0 {
        assert(a + b =~= a);
    } else {
        lemma_written_append(a, b.drop_last());
        assert((a + b).drop_last() =~= a + b.drop_last());
    }
}

proof fn lemma_reported_append(a: Seq<TransferStep>, b: Seq<TransferStep>)
    ensures
        reported(a + b) == reported(a) + reported(b),
    decreases b.len(),
{
    if b.len() == 0 {
        assert(a + b =~= a);
        assert(reported(a) + Seq::<DownloadStatus>::empty() =~= reported(a));
    } else {
        lemma_reported_append(a, b.drop_last());
        assert((a + b).drop_last() =~= a + b.drop_last());
        match b.last().report {
            Some(r) => {
                assert(reported(a) + reported(b.drop_last()).push(r.status) =~= (reported(a)
                    + reported(b.drop_last())).push(r.status));
            },
            None => {},
        }
    }
}

/// While streaming, a run of chunks that fits in a `u64` is appended whole,
/// publishes only `downloading` reports, and leaves the transfer streaming.
proof fn lemma_stream_chunks(t: Transfer, chunks: Seq<u64>)
    requires
        t.phase == Phase::Streaming,
        t.current + sum_lens(chunks) <= u64::MAX,
    ensures
        run(t, chunk_events(chunks)).0.phase == Phase::Streaming,
        run(t, chunk_events(chunks)).0.current == t.current + sum_lens(chunks),
        run(t, chunk_events(chunks)).0.total == t.total,
        run(t, chunk_events(chunks)).0.attempt == t.attempt,
        written(run(t, chunk_events(chunks)).1) == sum_lens(chunks),
        forall|i: int|
            0 <= i < reported(run(t, chunk_events(chunks)).1).len() ==> reported(
                run(t, chunk_events(chunks)).1,
            )[i] == DownloadStatus::Downloading,
    decreases chunks.len(),
{
    if chunks.len() > 0 {
        assert(chunk_events(chunks).drop_last() =~= chunk_events(chunks.drop_last()));
        assert(sum_lens(chunks.drop_last()) >= 0) by {
            lemma_sum_lens_nonneg(chunks.drop_last());
        }
        lemma_stream_chunks(t, chunks.drop_last());
        let (t1, steps) = run(t, chunk_events(chunks.drop_last()));
        let st = next(t1, chunk_events(chunks).last()).1;
        assert(steps.push(st).drop_last() =~= steps);
    }
}

proof fn lemma_sum_lens_nonneg(chunks: Seq<u64>)
    ensures
        sum_lens(chunks) >= 0,
    decreases chunks.len(),
{
    if chunks.len() > 0 {
        lemma_sum_lens_nonneg(chunks.drop_last());
    }
}

proof fn lemma_run_one(t: Transfer, e: TransferEvent)
    ensures
        run(t, seq![e]) == (next(t, e).0, seq![next(t, e).1]),
{
    assert(seq![e].drop_last() =~= Seq::<TransferEvent>::empty());
    assert(run(t, Seq::<TransferEvent>::empty()) == (t, Seq::<TransferStep>::empty()));
    assert(Seq::<TransferStep>::empty().push(next(t, e).1) =~= seq![next(t, e).1]);
}

proof fn lemma_run_two(t: Transfer, e1: TransferEvent, e2: TransferEvent)
    ensures
        run(t, seq![e1, e2]) == (
            next(next(t, e1).0, e2).0,
            seq![next(t, e1).1, next(next(t, e1).0, e2).1],
        ),
{
    lemma_run_one(t, e1);
    assert(seq![e1, e2].drop_last() =~= seq![e1]);
    assert(seq![next(t, e1).1].push(next(next(t, e1).0, e2).1) =~= seq![
        next(t, e1).1,
        next(next(t, e1).0, e2).1,
    ]);
}

proof fn lemma_two_steps(a: TransferStep, b: TransferStep)
    ensures
        written(seq![a, b]) == written(seq![a]) + written(seq![b]),
        reported(seq![a, b]) == reported(seq![a]) + reported(seq![b]),
        written(seq![a]) == match a.action {
            TransferAction::Write { len } => len as int,
            _ => 0int,
        },
        reported(seq![a]) == match a.report {
            Some(r) => seq![r.status],
            None => Seq::<DownloadStatus>::empty(),
        },
        written(seq![b]) == match b.action {
            TransferAction::Write { len } => len as int,
            _ => 0int,
        },
        reported(seq![b]) == match b.report {
            Some(r) => seq![r.status],
            None => Seq::<DownloadStatus>::empty(),
        },
{
    assert(seq![a, b] =~= seq![a] + seq![b]);
    lemma_written_append(seq![a], seq![b]);
    lemma_reported_append(seq![a], seq![b]);
    assert(seq![a].drop_last() =~= Seq::<TransferStep>::empty());
    assert(seq![b].drop_last() =~= Seq::<TransferStep>::empty());
    assert(written(Seq::<TransferStep>::empty()) == 0);
    assert(reported(Seq::<TransferStep>::empty()) == Seq::<DownloadStatus>::empty());
    match a.report {
        Some(r) => {
            assert(Seq::<DownloadStatus>::empty().push(r.status) =~= seq![r.status]);
        },
        None => {},
    }
    match b.report {
        Some(r) => {
            assert(Seq::<DownloadStatus>::empty().push(r.status) =~= seq![r.status]);
        },
        None => {},
    }
}

/// The events of resuming with `on_disk` bytes found on disk, with the
/// server answering `206 Partial Content` and sending `chunks`.
pub open spec fn partial_resume_events(on_disk: Option<u64>, remaining: u64, chunks: Seq<u64>) -> Seq<
    TransferEvent,
> {
    seq![
        TransferEvent::Begin { on_disk },
        TransferEvent::Response { status: 206, content_length: Some(remaining) },
    ] + chunk_events(chunks) + seq![TransferEvent::StreamEnd, TransferEvent::Flushed]
}

/// Resuming an item with `n` of `total` bytes written (the offset recorded
/// at its last pause, or else the size of the file on disk), against a server
/// that answers `206 Partial Content` with the `total - n` remaining bytes,
/// asks for the range from `n`, appends exactly `total - n` bytes after them,
/// so that the file ends with exactly `total` bytes, and ends with
/// `completed` at `current == total`.
pub proof fn lemma_partial_resume_completes(
    recorded: Option<u64>,
    on_disk: Option<u64>,
    total: u64,
    chunks: Seq<u64>,
)
    requires
        resume_offset(recorded, on_disk) <= total,
        sum_lens(chunks) == total - resume_offset(recorded, on_disk),
    ensures
        ({
            let n = resume_offset(recorded, on_disk);
            let (t, steps) = run(
                Transfer::seeded(recorded),
                partial_resume_events(on_disk, (total - n) as u64, chunks),
            );
            &&& steps[0].action == TransferAction::Send {
                range_from: if n > 0 {
                    Some(n)
                } else {
                    None
                },
            }
            &&& steps[1].report == Some(
                Report { status: DownloadStatus::Downloading, total, current: n },
            )
            &&& n + written(steps) == total
            &&& t.phase == Phase::Finished
            &&& steps.last() == reporting(
                DownloadStatus::Completed,
                total,
                total,
                TransferAction::Finish(Outcome::Completed),
            )
        }),
{
    let n = resume_offset(recorded, on_disk);
    let rem = (total - n) as u64;
    let e1 = TransferEvent::Begin { on_disk };
    let e2 = TransferEvent::Response { status: 206, content_length: Some(rem) };
    let head = seq![e1, e2];
    let tail = seq![TransferEvent::StreamEnd, TransferEvent::Flushed];
    let init = Transfer::seeded(recorded);
    // The head: request the range, then start streaming with `total` known.
    lemma_run_two(init, e1, e2);
    let r0 = run(init, head);
    let t0 = r0.0;
    lemma_two_steps(r0.1[0], r0.1[1]);
    assert(r0.1 =~= seq![r0.1[0], r0.1[1]]);
    assert(t0.phase == Phase::Streaming && t0.current == n && t0.total == total);
    assert(written(r0.1) == 0);
    // The body.
    lemma_stream_chunks(t0, chunks);
    let r1 = run(t0, chunk_events(chunks));
    lemma_run_append(init, head, chunk_events(chunks));
    lemma_written_append(r0.1, r1.1);
    // The end of the stream and the flush.
    lemma_run_two(r1.0, TransferEvent::StreamEnd, TransferEvent::Flushed);
    let r2 = run(r1.0, tail);
    lemma_two_steps(r2.1[0], r2.1[1]);
    assert(r2.1 =~= seq![r2.1[0], r2.1[1]]);
    assert(written(r2.1) == 0);
    lemma_run_append(init, head + chunk_events(chunks), tail);
    lemma_written_append(r0.1 + r1.1, r2.1);
    assert(partial_resume_events(on_disk, rem, chunks) == head + chunk_events(chunks) + tail);
    assert((r0.1 + r1.1 + r2.1)[0] == r0.1[0]);
    assert((r0.1 + r1.1 + r2.1)[1] == r0.1[1]);
}

/// Resuming an item with `n` bytes written (recorded, or else found on
/// disk), against a server that answers `416 Range Not Satisfiable`, writes
/// nothing and publishes one report: `completed` with `current == total == n`.
pub proof fn lemma_unsatisfiable_range_completes(
    recorded: Option<u64>,
    on_disk: Option<u64>,
    content_length: Option<u64>,
)
    ensures
        ({
            let n = resume_offset(recorded, on_disk);
            let (t, steps) = run(
                Transfer::seeded(recorded),
                seq![
                    TransferEvent::Begin { on_disk },
                    TransferEvent::Response { status: 416, content_length },
                ],
            );
            &&& written(steps) == 0
            &&& t.phase == Phase::Finished
            &&& reported(steps) == seq![DownloadStatus::Completed]
            &&& steps.last() == reporting(
                DownloadStatus::Completed,
                n,
                n,
                TransferAction::Finish(Outcome::Completed),
            )
        }),
{
    let e1 = TransferEvent::Begin { on_disk };
    let e2 = TransferEvent::Response { status: 416, content_length };
    lemma_run_two(Transfer::seeded(recorded), e1, e2);
    let steps = run(Transfer::seeded(recorded), seq![e1, e2]).1;
    lemma_two_steps(steps[0], steps[1]);
    assert(steps =~= seq![steps[0], steps[1]]);
    assert(Seq::<DownloadStatus>::empty() + seq![DownloadStatus::Completed] =~= seq![
        DownloadStatus::Completed,
    ]);
}


/// Any success answer but `416` carries the bytes after the resume offset `n`:
/// the bytes already written are kept, the body is appended after them, the
/// total is `n` plus the announced length, and the first report is
/// `downloading` at `n` of that total.
pub proof fn lemma_success_keeps_written_bytes(
    recorded: Option<u64>,
    on_disk: Option<u64>,
    status: u16,
    len: u64,
)
    requires
        is_success(status),
        status != RANGE_NOT_SATISFIABLE,
        resume_offset(recorded, on_disk) + len <= u64::MAX,
    ensures
        ({
            let n = resume_offset(recorded, on_disk);
            let (t, steps) = run(
                Transfer::seeded(recorded),
                seq![
                    TransferEvent::Begin { on_disk },
                    TransferEvent::Response { status, content_length: Some(len) },
                ],
            );
            &&& t.phase == Phase::Streaming
            &&& t.offset == n
            &&& t.current == n
            &&& t.total == n + len
            &&& steps.last() == reporting(
                DownloadStatus::Downloading,
                (n + len) as u64,
                n,
                TransferAction::Stream,
            )
        }),
{
    lemma_run_two(
        Transfer::seeded(recorded),
        TransferEvent::Begin { on_disk },
        TransferEvent::Response { status, content_length: Some(len) },
    );
}

/// The step that finishes a transfer publishes the terminal status that
/// matches its outcome: `completed`, `paused`, `stopped`, or, when the
/// attempts are used up, `error`.
pub proof fn lemma_terminal_matches_outcome(t: Transfer, e: TransferEvent)
    requires
        t.phase != Phase::Finished,
        next(t, e).0.phase == Phase::Finished,
    ensures
        ({
            let st = next(t, e).1;
            &&& st.report is Some
            &&& st.action is Finish
            &&& st.report.unwrap().status == match st.action {
                TransferAction::Finish(Outcome::Completed) => DownloadStatus::Completed,
                TransferAction::Finish(Outcome::Paused) => DownloadStatus::Paused,
                TransferAction::Finish(Outcome::Stopped) => DownloadStatus::Stopped,
                _ => DownloadStatus::Error,
            }
        }),
{
}

/// The range that an attempt opened by `b` asks for.
pub open spec fn range_of(b: TransferEvent) -> Option<u64> {
    match b {
        TransferEvent::Begin { on_disk } => {
            let o = resume_offset(None, on_disk);
            if o > 0 {
                Some(o)
            } else {
                None
            }
        },
        _ => None,
    }
}

/// Three attempts, each opened by `b1`, `b2`, `b3`, each answered with the
/// failing `status`, with the back-off delays between them.
pub open spec fn always_failing_events(
    b1: TransferEvent,
    b2: TransferEvent,
    b3: TransferEvent,
    status: u16,
    content_length: Option<u64>,
) -> Seq<TransferEvent> {
    let resp = TransferEvent::Response { status, content_length };
    seq![b1, resp, TransferEvent::Slept, b2, resp, TransferEvent::Slept, b3, resp]
}

/// An item whose server always answers with an error status is requested
/// exactly three times, with delays of 1 s and then 2 s between the
/// attempts, and publishes a single `error` report at the end.
pub proof fn lemma_retries_exhausted(
    b1: TransferEvent,
    b2: TransferEvent,
    b3: TransferEvent,
    status: u16,
    content_length: Option<u64>,
)
    requires
        b1 is Begin,
        b2 is Begin,
        b3 is Begin,
        !is_success(status),
        status != RANGE_NOT_SATISFIABLE,
    ensures
        ({
            let (t, steps) = run(
                Transfer::initial(),
                always_failing_events(b1, b2, b3, status, content_length),
            );
            &&& steps == seq![
                silent(TransferAction::Send { range_from: range_of(b1) }),
                silent(TransferAction::Sleep { secs: 1 }),
                silent(TransferAction::Prepare),
                silent(TransferAction::Send { range_from: range_of(b2) }),
                silent(TransferAction::Sleep { secs: 2 }),
                silent(TransferAction::Prepare),
                silent(TransferAction::Send { range_from: range_of(b3) }),
                reporting(DownloadStatus::Error, 0, 0, TransferAction::Finish(Outcome::Failed)),
            ]
            &&& reported(steps) == seq![DownloadStatus::Error]
            &&& t.phase == Phase::Finished
        }),
{
    let resp = TransferEvent::Response { status, content_length };
    let p1 = seq![b1, resp];
    let p2 = seq![TransferEvent::Slept, b2];
    let p3 = seq![resp, TransferEvent::Slept];
    let p4 = seq![b3, resp];
    let init = Transfer::initial();
    assert(pow2(0) == 1);
    assert(pow2(1) == 2);
    lemma_run_two(init, b1, resp);
    let r1 = run(init, p1);
    lemma_run_two(r1.0, TransferEvent::Slept, b2);
    let r2 = run(r1.0, p2);
    lemma_run_two(r2.0, resp, TransferEvent::Slept);
    let r3 = run(r2.0, p3);
    lemma_run_two(r3.0, b3, resp);
    let r4 = run(r3.0, p4);
    lemma_run_append(init, p1, p2);
    lemma_run_append(init, p1 + p2, p3);
    lemma_run_append(init, p1 + p2 + p3, p4);
    assert(always_failing_events(b1, b2, b3, status, content_length) =~= p1 + p2 + p3 + p4);
    let steps = r1.1 + r2.1 + r3.1 + r4.1;
    assert(steps =~= seq![
        silent(TransferAction::Send { range_from: range_of(b1) }),
        silent(TransferAction::Sleep { secs: 1 }),
        silent(TransferAction::Prepare),
        silent(TransferAction::Send { range_from: range_of(b2) }),
        silent(TransferAction::Sleep { secs: 2 }),
        silent(TransferAction::Prepare),
        silent(TransferAction::Send { range_from: range_of(b3) }),
        reporting(DownloadStatus::Error, 0, 0, TransferAction::Finish(Outcome::Failed)),
    ]);
    lemma_two_steps(r1.1[0], r1.1[1]);
    lemma_two_steps(r2.1[0], r2.1[1]);
    lemma_two_steps(r3.1[0], r3.1[1]);
    lemma_two_steps(r4.1[0], r4.1[1]);
    assert(r1.1 =~= seq![r1.1[0], r1.1[1]]);
    assert(r2.1 =~= seq![r2.1[0], r2.1[1]]);
    assert(r3.1 =~= seq![r3.1[0], r3.1[1]]);
    assert(r4.1 =~= seq![r4.1[0], r4.1[1]]);
    lemma_reported_append(r1.1, r2.1);
    lemma_reported_append(r1.1 + r2.1, r3.1);
    lemma_reported_append(r1.1 + r2.1 + r3.1, r4.1);
    assert(Seq::<DownloadStatus>::empty() + Seq::<DownloadStatus>::empty() =~= Seq::<
        DownloadStatus,
    >::empty());
    assert(Seq::<DownloadStatus>::empty() + seq![DownloadStatus::Error] =~= seq![
        DownloadStatus::Error,
    ]);
}

} // verus!

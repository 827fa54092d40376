//! Properties of the global manager that span several operations.
use crate::manager::{
    dispatched, drained, finished, pick, recorded_in, signal_batch, Launch, ManagerView, Pick,
    SourceView,
};
use crate::model::{DownloadItem, DownloadManagerState, DownloadStatus};
use crate::registry::{first_runnable, BatchLifecycle, BatchView};
use crate::transfer::{next, ControlSignal, Outcome, Phase, Report, Transfer, TransferEvent};
use vstd::prelude::*;

verus! {

/// The manager after `pause_batch` on the batch at position `i`.
pub open spec fn after_pause_batch(v: ManagerView, i: int) -> ManagerView {
    ManagerView {
        batches: v.batches.update(i, v.batches[i].paused()),
        active: signal_batch(v.active, v.batches[i].id, ControlSignal::Pause),
        ..v
    }
}

/// The manager after `resume_batch` on the batch at position `i`.
pub open spec fn after_resume_batch(v: ManagerView, i: int) -> ManagerView {
    ManagerView { batches: v.batches.update(i, v.batches[i].resumed()), ..v }
}

/// However many items wait, dispatch starts no more transfers than there are
/// free permits, so the transfers in flight never exceed `concurrency`.
pub proof fn lemma_dispatch_within_permits(v: ManagerView)
    requires
        v.active.len() <= v.concurrency,
    ensures
        drained(v).1.len() <= v.concurrency - v.active.len(),
        drained(v).0.active.len() == v.active.len() + drained(v).1.len(),
        drained(v).0.active.len() <= v.concurrency,
    decreases v.concurrency - v.active.len(),
{
    if !(v.active.len() >= v.concurrency || pick(v) is Nothing) {
        lemma_dispatch_within_permits(dispatched(v).0);
    }
}

/// A transfer launched with the offset recorded for its item, and paused
/// before its first attempt begins, reports `paused` at that offset and hands
/// back no byte count; the manager then keeps the recorded offset as it was.
pub proof fn lemma_pause_before_begin_keeps_offset(v: ManagerView, task: u64)
    requires
        v.wf(),
        v.has_task(task),
    ensures
        ({
            let id = v.active[v.task_index(task)].item.id@;
            let recorded = recorded_in(v.offsets, id);
            let (t1, st) = next(
                Transfer::seeded(recorded),
                TransferEvent::Signal(ControlSignal::Pause),
            );
            &&& st.report == Some(
                Report {
                    status: DownloadStatus::Paused,
                    total: 0,
                    current: match recorded {
                        Some(o) => o,
                        None => 0,
                    },
                },
            )
            &&& t1.known_bytes() is None
            &&& finished(v, task, Outcome::Paused, t1.known_bytes()).offsets == v.offsets
        }),
{
}

/// With the global queue idle or empty, no one-off item waiting, no other
/// batch with work, and a free permit for each of its remaining items, a
/// running batch has all its remaining items handed out by dispatch, in order.
pub proof fn lemma_batch_drained(v: ManagerView, i: int)
    requires
        0 <= i < v.batches.len(),
        v.batches[i].lifecycle == BatchLifecycle::Running,
        v.batches[i].cursor <= v.batches[i].items.len(),
        !(v.state == DownloadManagerState::Running && v.queue.len() > 0),
        v.direct.len() == 0,
        forall|j: int| 0 <= j < v.batches.len() && j != i ==> !(#[trigger] v.batches[j]).has_work(),
        v.active.len() + (v.batches[i].items.len() - v.batches[i].cursor) <= v.concurrency,
        v.next_task + (v.batches[i].items.len() - v.batches[i].cursor) < u64::MAX,
    ensures
        drained(v).1.map_values(|l: Launch| l.item) == v.batches[i].items.subrange(
            v.batches[i].cursor as int,
            v.batches[i].items.len() as int,
        ),
        drained(v).0.batches[i].cursor == v.batches[i].items.len(),
    decreases v.batches[i].items.len() - v.batches[i].cursor,
{
    let b = v.batches[i];
    crate::registry::lemma_first_runnable_from(v.batches, 0);
    if b.cursor == b.items.len() {
        assert(first_runnable(v.batches) is None);
        assert(pick(v) is Nothing);
        assert(b.items.subrange(b.cursor as int, b.items.len() as int) =~= Seq::<
            DownloadItem,
        >::empty());
        assert(drained(v).1.map_values(|l: Launch| l.item) =~= Seq::<DownloadItem>::empty());
    } else {
        assert(first_runnable(v.batches) == Some(i));
        assert(pick(v) == Pick::Batch(i));
        let v1 = dispatched(v).0;
        let l = dispatched(v).1.unwrap();
        assert(v1.batches[i].cursor == b.cursor + 1);
        assert forall|j: int| 0 <= j < v1.batches.len() && j != i implies !(
        #[trigger] v1.batches[j]).has_work() by {
            assert(v1.batches[j] == v.batches[j]);
        }
        lemma_batch_drained(v1, i);
        let rest = drained(v1).1;
        assert(drained(v).1 == seq![l] + rest);
        assert(drained(v).1.map_values(|l: Launch| l.item) =~= seq![l.item] + rest.map_values(
            |l: Launch| l.item,
        ));
        assert(b.items.subrange(b.cursor as int, b.items.len() as int) =~= seq![
            b.items[b.cursor as int],
        ] + b.items.subrange(b.cursor + 1int, b.items.len() as int));
    }
}

/// Pausing a batch of K items and resuming it, while nothing else competes
/// for the free permits, has dispatch hand out all K items again, in their
/// order, whether or not they had started before the pause.
pub proof fn lemma_resume_dispatches_all(v: ManagerView, i: int)
    requires
        v.wf(),
        0 <= i < v.batches.len(),
        ({
            let v3 = after_resume_batch(after_pause_batch(v, i), i);
            &&& !(v3.state == DownloadManagerState::Running && v3.queue.len() > 0)
            &&& v3.direct.len() == 0
            &&& forall|j: int|
                0 <= j < v3.batches.len() && j != i ==> !(#[trigger] v3.batches[j]).has_work()
            &&& v3.active.len() + v.batches[i].items.len() <= v3.concurrency
            &&& v3.next_task + v.batches[i].items.len() < u64::MAX
        }),
    ensures
        drained(after_resume_batch(after_pause_batch(v, i), i)).1.map_values(|l: Launch| l.item)
            == v.batches[i].items,
{
    let v3 = after_resume_batch(after_pause_batch(v, i), i);
    lemma_resume_after_pause(v, i);
    lemma_batch_drained(v3, i);
}

/// Pausing batch `a` leaves alone every transfer that is not of `a` (of
/// another batch, of the global queue, or a one-off): it finds at its poll
/// points what it found before. A transfer of `a` that had no signal finds
/// `Pause` at its next poll point, and there, whether it is between attempts
/// or streaming, it publishes `paused` with its current byte counts.
pub proof fn lemma_pause_isolates_batches(v: ManagerView, i: int, task: u64, t: Transfer)
    requires
        v.wf(),
        0 <= i < v.batches.len(),
        v.has_task(task),
    ensures
        ({
            let a = v.batches[i].id;
            let v2 = after_pause_batch(v, i);
            let k = v.task_index(task);
            &&& v2.has_task(task)
            &&& v.active[k].source != SourceView::Batch(a) ==> v2.signal_of(task) == v.signal_of(
                task,
            )
            &&& v.active[k].source == SourceView::Batch(a) && v.active[k].signal is None
                ==> v2.signal_of(task) == Some(ControlSignal::Pause)
            &&& (t.phase == Phase::Ready || t.phase == Phase::Streaming) ==> next(
                t,
                TransferEvent::Signal(ControlSignal::Pause),
            ).1.report == Some(
                Report { status: DownloadStatus::Paused, total: t.total, current: t.current },
            )
        }),
{
    let a = v.batches[i].id;
    let v2 = after_pause_batch(v, i);
    let k = v.task_index(task);
    assert(v2.active.len() == v.active.len());
    assert(v2.active[k].task == task);
    assert(v2.has_task(task));
    let k2 = v2.task_index(task);
    assert(v2.active[k2].task == task);
    assert(v2.active[k2].task == v.active[k2].task);
    if k2 != k {
        assert(v.active[k2].task != v.active[k].task);
    }
}

/// Pausing a batch and then resuming it sets it running again from the first
/// of the items it was registered with; no other batch, nor the global queue
/// or its lifecycle, changes.
pub proof fn lemma_resume_after_pause(v: ManagerView, i: int)
    requires
        v.wf(),
        0 <= i < v.batches.len(),
    ensures
        ({
            let v3 = after_resume_batch(after_pause_batch(v, i), i);
            &&& v3.batches[i] == (BatchView {
                lifecycle: BatchLifecycle::Running,
                cursor: 0,
                ..v.batches[i]
            })
            &&& forall|j: int| 0 <= j < v.batches.len() && j != i ==> v3.batches[j] == v.batches[j]
            &&& v3.queue == v.queue
            &&& v3.state == v.state
        }),
{
}

/// A paused batch hands out nothing: dispatch leaves it as it is and starts
/// no transfer of it.
pub proof fn lemma_paused_batch_not_dispatched(v: ManagerView, i: int)
    requires
        v.wf(),
        0 <= i < v.batches.len(),
        v.batches[i].lifecycle == BatchLifecycle::Paused,
    ensures
        dispatched(v).0.batches[i] == v.batches[i],
        dispatched(v).1 is Some ==> dispatched(v).0.active.last().source != SourceView::Batch(
            v.batches[i].id,
        ),
{
    crate::registry::lemma_first_runnable_from(v.batches, 0);
    match pick(v) {
        Pick::Batch(j) => {
            assert(v.batches[j].has_work());
            assert(j != i);
            assert(v.batches[j].id != v.batches[i].id);
        },
        _ => {},
    }
}

} // verus!

//! The global manager: the lifecycle of the global queue, the bound on
//! concurrent transfers, dispatch from the queue and from batches, and the
//! control mailboxes of the transfers in flight.
//!
//! A transfer holds one of the `concurrency` permits from its launch until the
//! caller reports it finished (or until `stop` cancels it), so no more than
//! `concurrency` transfers ever run at once. Dispatch takes an item only at
//! the moment a permit is free and only from a source that is running at that
//! moment, so a pause takes effect even while every permit is held.
use crate::model::{DownloadItem, DownloadManagerState};
use crate::registry::{
    first_runnable, has_batch, registered, BatchError, BatchRegistry, BatchView,
};
use crate::transfer::{ControlSignal, Outcome};
use vstd::prelude::*;

verus! {

/// Where a transfer's item came from.
pub enum TaskSource {
    /// The global queue.
    Queue,
    /// The batch of that identifier.
    Batch(String),
    /// A one-off dispatch outside any batch.
    Direct,
}

pub enum SourceView {
    Queue,
    Batch(Seq<char>),
    Direct,
}

impl View for TaskSource {
    type V = SourceView;

    open spec fn view(&self) -> SourceView {
        match self {
            TaskSource::Queue => SourceView::Queue,
            TaskSource::Batch(id) => SourceView::Batch(id@),
            TaskSource::Direct => SourceView::Direct,
        }
    }
}

/// A transfer in flight.
pub struct ActiveTask {
    pub task: u64,
    pub item: DownloadItem,
    pub source: TaskSource,
    /// The control signal posted to it, if any.
    pub signal: Option<ControlSignal>,
}

pub struct TaskView {
    pub task: u64,
    pub item: DownloadItem,
    pub source: SourceView,
    pub signal: Option<ControlSignal>,
}

impl View for ActiveTask {
    type V = TaskView;

    open spec fn view(&self) -> TaskView {
        TaskView { task: self.task, item: self.item, source: self.source@, signal: self.signal }
    }
}

impl TaskSource {
    pub fn duplicate(&self) -> (r: TaskSource)
        ensures
            r@ == self@,
    {
        match self {
            TaskSource::Queue => TaskSource::Queue,
            TaskSource::Batch(id) => TaskSource::Batch(id.clone()),
            TaskSource::Direct => TaskSource::Direct,
        }
    }

    /// Whether the source is the batch `id`.
    pub fn is_batch(&self, id: &String) -> (r: bool)
        ensures
            r == (self@ == SourceView::Batch(id@)),
    {
        match self {
            TaskSource::Batch(b) => *b == *id,
            _ => false,
        }
    }
}

impl ActiveTask {
    /// A copy of the task, with `signal` in place of its own.
    pub fn with_signal(&self, signal: Option<ControlSignal>) -> (r: ActiveTask)
        ensures
            r@ == (TaskView { signal, ..self@ }),
    {
        ActiveTask {
            task: self.task,
            item: self.item.duplicate(),
            source: self.source.duplicate(),
            signal,
        }
    }
}

/// Bytes already written for an item of the global queue that was paused.
pub struct ResumeOffset {
    pub id: String,
    pub bytes: u64,
}

impl View for ResumeOffset {
    type V = (Seq<char>, u64);

    open spec fn view(&self) -> (Seq<char>, u64) {
        (self.id@, self.bytes)
    }
}

/// A transfer to start now: its task number, its item, and the offset
/// recorded for the item, if any.
pub struct Launch {
    pub task: u64,
    pub item: DownloadItem,
    pub recorded: Option<u64>,
}

pub struct ManagerView {
    pub concurrency: nat,
    pub state: DownloadManagerState,
    pub queue: Seq<DownloadItem>,
    pub direct: Seq<DownloadItem>,
    pub batches: Seq<BatchView>,
    pub active: Seq<TaskView>,
    pub offsets: Seq<(Seq<char>, u64)>,
    pub next_task: u64,
}

/// The offset last recorded for item `id`.
pub open spec fn recorded_in(offsets: Seq<(Seq<char>, u64)>, id: Seq<char>) -> Option<u64>
    decreases offsets.len(),
{
    if offsets.len() == 0 {
        None
    } else if offsets.last().0 == id {
        Some(offsets.last().1)
    } else {
        recorded_in(offsets.drop_last(), id)
    }
}

pub open spec fn forget(offsets: Seq<(Seq<char>, u64)>, id: Seq<char>) -> Seq<(Seq<char>, u64)> {
    offsets.filter(|o: (Seq<char>, u64)| o.0 != id)
}

/// Posts `s` to every transfer of batch `id` that has no signal yet.
pub open spec fn signal_batch(active: Seq<TaskView>, id: Seq<char>, s: ControlSignal) -> Seq<
    TaskView,
> {
    active.map_values(
        |t: TaskView|
            if t.source == SourceView::Batch(id) && t.signal is None {
                TaskView { signal: Some(s), ..t }
            } else {
                t
            },
    )
}

pub open spec fn is_queue_task(t: TaskView) -> bool {
    t.source == SourceView::Queue
}

impl ManagerView {
    pub open spec fn wf(self) -> bool {
        &&& self.active.len() <= self.concurrency
        &&& crate::registry::batches_wf(self.batches)
        &&& forall|i: int| 0 <= i < self.active.len() ==> self.active[i].task < self.next_task
        &&& forall|i: int, j: int|
            0 <= i < self.active.len() && 0 <= j < self.active.len() && i != j
                ==> self.active[i].task != self.active[j].task
    }

    pub open spec fn has_task(self, task: u64) -> bool {
        exists|i: int| 0 <= i < self.active.len() && self.active[i].task == task
    }

    pub open spec fn task_index(self, task: u64) -> int {
        choose|i: int| 0 <= i < self.active.len() && self.active[i].task == task
    }

    /// The control signal that transfer `task` finds at a poll point: for an
    /// item of the global queue, the global lifecycle decides; for any other,
    /// the signal posted to it; a transfer no longer tracked is stopped.
    pub open spec fn signal_of(self, task: u64) -> Option<ControlSignal> {
        if self.has_task(task) {
            let t = self.active[self.task_index(task)];
            match t.source {
                SourceView::Queue => match self.state {
                    DownloadManagerState::Paused => Some(ControlSignal::Pause),
                    DownloadManagerState::Stopped => Some(ControlSignal::Stop),
                    _ => None,
                },
                _ => t.signal,
            }
        } else {
            Some(ControlSignal::Stop)
        }
    }
}

/// Which source the next dispatch takes from.
pub enum Pick {
    Nothing,
    Queue,
    Batch(int),
    Direct,
}

/// The next dispatch: none while every permit is held; else the head of the
/// global queue while it runs, else the next item of the first running batch
/// with items left, else the next one-off item.
pub open spec fn pick(v: ManagerView) -> Pick {
    if v.active.len() >= v.concurrency || v.next_task == u64::MAX {
        Pick::Nothing
    } else if v.state == DownloadManagerState::Running && v.queue.len() > 0 {
        Pick::Queue
    } else if first_runnable(v.batches) is Some {
        Pick::Batch(first_runnable(v.batches).unwrap())
    } else if v.direct.len() > 0 {
        Pick::Direct
    } else {
        Pick::Nothing
    }
}

pub open spec fn launched(v: ManagerView, item: DownloadItem, source: SourceView) -> Seq<TaskView> {
    v.active.push(TaskView { task: v.next_task, item, source, signal: None })
}

/// The manager after one dispatch, and the transfer it starts.
pub open spec fn dispatched(v: ManagerView) -> (ManagerView, Option<Launch>) {
    match pick(v) {
        Pick::Nothing => (v, None),
        Pick::Queue => {
            let item = v.queue[0];
            (
                ManagerView {
                    queue: v.queue.drop_first(),
                    active: launched(v, item, SourceView::Queue),
                    next_task: (v.next_task + 1) as u64,
                    ..v
                },
                Some(Launch { task: v.next_task, item, recorded: recorded_in(v.offsets, item.id@) }),
            )
        },
        Pick::Batch(i) => {
            let b = v.batches[i];
            let item = b.items[b.cursor as int];
            (
                ManagerView {
                    batches: v.batches.update(i, BatchView { cursor: b.cursor + 1, ..b }),
                    active: launched(v, item, SourceView::Batch(b.id)),
                    next_task: (v.next_task + 1) as u64,
                    ..v
                },
                Some(Launch { task: v.next_task, item, recorded: None }),
            )
        },
        Pick::Direct => {
            let item = v.direct[0];
            (
                ManagerView {
                    direct: v.direct.drop_first(),
                    active: launched(v, item, SourceView::Direct),
                    next_task: (v.next_task + 1) as u64,
                    ..v
                },
                Some(Launch { task: v.next_task, item, recorded: None }),
            )
        },
    }
}

/// Dispatch repeated until it starts nothing more: the manager then, and the
/// transfers started, in order.
pub open spec fn drained(v: ManagerView) -> (ManagerView, Seq<Launch>)
    decreases v.concurrency - v.active.len(),
{
    if v.active.len() >= v.concurrency || pick(v) is Nothing {
        (v, Seq::empty())
    } else {
        let (v1, l) = dispatched(v);
        let (v2, ls) = drained(v1);
        (v2, seq![l.unwrap()] + ls)
    }
}

/// The manager after transfer `task` reports `outcome` with `bytes` on disk
/// (none known when no attempt began). The transfer gives back its permit. An
/// item of the global queue that was paused goes back to the head of the
/// queue, with its offset recorded when it is known and the earlier record
/// kept otherwise; one that completed has its recorded offset dropped.
pub open spec fn finished(v: ManagerView, task: u64, outcome: Outcome, bytes: Option<u64>) -> ManagerView {
    if v.has_task(task) {
        let i = v.task_index(task);
        let t = v.active[i];
        let rest = ManagerView { active: v.active.remove(i), ..v };
        if t.source == SourceView::Queue && outcome == Outcome::Paused {
            ManagerView {
                queue: seq![t.item] + v.queue,
                offsets: match bytes {
                    Some(b) => forget(v.offsets, t.item.id@).push((t.item.id@, b)),
                    None => v.offsets,
                },
                ..rest
            }
        } else if t.source == SourceView::Queue && outcome == Outcome::Completed {
            ManagerView { offsets: forget(v.offsets, t.item.id@), ..rest }
        } else {
            rest
        }
    } else {
        v
    }
}

pub struct DownloadManager {
    concurrency: usize,
    state: DownloadManagerState,
    queue: Vec<DownloadItem>,
    direct: Vec<DownloadItem>,
    batches: BatchRegistry,
    active: Vec<ActiveTask>,
    offsets: Vec<ResumeOffset>,
    next_task: u64,
}

impl View for DownloadManager {
    type V = ManagerView;

    closed spec fn view(&self) -> ManagerView {
        ManagerView {
            concurrency: self.concurrency as nat,
            state: self.state,
            queue: self.queue@,
            direct: self.direct@,
            batches: self.batches@,
            active: self.active@.map_values(|t: ActiveTask| t@),
            offsets: self.offsets@.map_values(|o: ResumeOffset| o@),
            next_task: self.next_task,
        }
    }
}

impl DownloadManager {
    /// An idle manager that runs at most `concurrency` transfers at once.
    pub fn new(concurrency: usize) -> (r: DownloadManager)
        ensures
            r@ == (ManagerView {
                concurrency: concurrency as nat,
                state: DownloadManagerState::Idle,
                queue: Seq::empty(),
                direct: Seq::empty(),
                batches: Seq::empty(),
                active: Seq::empty(),
                offsets: Seq::empty(),
                next_task: 0,
            }),
            r@.wf(),
    {
        let r = DownloadManager {
            concurrency,
            state: DownloadManagerState::Idle,
            queue: Vec::new(),
            direct: Vec::new(),
            batches: BatchRegistry::new(),
            active: Vec::new(),
            offsets: Vec::new(),
            next_task: 0,
        };
        assert(r@.active =~= Seq::<TaskView>::empty());
        assert(r@.offsets =~= Seq::<(Seq<char>, u64)>::empty());
        r
    }

    pub fn get_concurrency(&self) -> (r: usize)
        ensures
            r == self@.concurrency,
    {
        self.concurrency
    }

    pub fn get_state(&self) -> (r: DownloadManagerState)
        ensures
            r == self@.state,
    {
        self.state
    }

    /// The number of transfers in flight, each holding one permit.
    pub fn in_flight(&self) -> (r: usize)
        requires
            self@.wf(),
        ensures
            r == self@.active.len(),
    {
        self.active.len()
    }

    /// The number of items waiting in the global queue.
    pub fn queued(&self) -> (r: usize)
        ensures
            r == self@.queue.len(),
    {
        self.queue.len()
    }

    /// Appends `item` to the global queue; it runs once the queue does.
    pub fn add_task(&mut self, item: DownloadItem)
        requires
            old(self)@.wf(),
        ensures
            final(self)@ == (ManagerView { queue: old(self)@.queue.push(item), ..old(self)@ }),
            final(self)@.wf(),
    {
        self.queue.push(item);
    }

    /// Sets the global queue running.
    pub fn start_downloads(&mut self)
        requires
            old(self)@.wf(),
        ensures
            final(self)@ == (ManagerView { state: DownloadManagerState::Running, ..old(self)@ }),
            final(self)@.wf(),
    {
        self.state = DownloadManagerState::Running;
    }

    /// Pauses a running global queue. Its transfers see the pause at their
    /// next poll point.
    pub fn pause(&mut self)
        requires
            old(self)@.wf(),
        ensures
            final(self)@ == (ManagerView {
                state: if old(self)@.state == DownloadManagerState::Running {
                    DownloadManagerState::Paused
                } else {
                    old(self)@.state
                },
                ..old(self)@
            }),
            final(self)@.wf(),
    {
        if self.state == DownloadManagerState::Running {
            self.state = DownloadManagerState::Paused;
        }
    }

    /// Sets a paused global queue running again; says whether it was paused.
    pub fn resume(&mut self) -> (r: bool)
        requires
            old(self)@.wf(),
        ensures
            r == (old(self)@.state == DownloadManagerState::Paused),
            final(self)@ == (ManagerView {
                state: if r {
                    DownloadManagerState::Running
                } else {
                    old(self)@.state
                },
                ..old(self)@
            }),
            final(self)@.wf(),
    {
        if self.state == DownloadManagerState::Paused {
            self.state = DownloadManagerState::Running;
            true
        } else {
            false
        }
    }

    /// Hands `items` to dispatch: as the batch `batch_id`, registered at once
    /// as running (in place of any earlier batch of that identifier), or, with
    /// no identifier, as one-off items.
    pub fn dispatch_batch(&mut self, batch_id: Option<String>, items: Vec<DownloadItem>)
        requires
            old(self)@.wf(),
        ensures
            final(self)@.wf(),
            final(self)@ == (match batch_id {
                Some(id) => ManagerView {
                    batches: registered(old(self)@.batches, id@, items@),
                    ..old(self)@
                },
                None => ManagerView { direct: old(self)@.direct + items@, ..old(self)@ },
            }),
    {
        match batch_id {
            Some(id) => {
                self.batches.register(id, items);
            },
            None => {
                let mut items = items;
                let ghost d = self.direct@;
                let ghost its = items@;
                self.direct.append(&mut items);
                assert(self.direct@ =~= d + its);
            },
        }
    }

    /// The items that batch `id` was registered with.
    pub fn snapshot_items_for_resume(&self, id: &String) -> (r: Result<Vec<DownloadItem>, BatchError>)
        requires
            self@.wf(),
        ensures
            r is Ok <==> has_batch(self@.batches, id@),
            forall|i: int|
                0 <= i < self@.batches.len() && self@.batches[i].id == id@ ==> r is Ok
                    && r->Ok_0@ == self@.batches[i].items,
    {
        self.batches.snapshot_items_for_resume(id)
    }
    /// Pauses batch `id`: dispatch through its items ends, and every transfer
    /// of the batch that has no signal yet is sent `Pause`. Transfers of other
    /// batches and of the global queue are left as they were.
    pub fn pause_batch(&mut self, id: &String) -> (r: Result<(), BatchError>)
        requires
            old(self)@.wf(),
        ensures
            final(self)@.wf(),
            r is Ok <==> has_batch(old(self)@.batches, id@),
            r is Err ==> final(self)@ == old(self)@,
            forall|i: int|
                0 <= i < old(self)@.batches.len() && old(self)@.batches[i].id == id@ ==> final(self)@ == (ManagerView {
                    batches: old(self)@.batches.update(i, old(self)@.batches[i].paused()),
                    active: signal_batch(old(self)@.active, id@, ControlSignal::Pause),
                    ..old(self)@
                }),
    {
        match self.batches.mark_paused(id) {
            Ok(()) => {
                self.post_to_batch(id, ControlSignal::Pause);
                Ok(())
            },
            Err(e) => Err(e),
        }
    }

    /// Stops batch `id`: its entry is removed, and every transfer of the batch
    /// that has no signal yet is sent `Stop`.
    pub fn stop_batch(&mut self, id: &String) -> (r: Result<(), BatchError>)
        requires
            old(self)@.wf(),
        ensures
            final(self)@.wf(),
            r is Ok <==> has_batch(old(self)@.batches, id@),
            r is Err ==> final(self)@ == old(self)@,
            forall|i: int|
                0 <= i < old(self)@.batches.len() && old(self)@.batches[i].id == id@ ==> final(self)@ == (ManagerView {
                    batches: old(self)@.batches.remove(i),
                    active: signal_batch(old(self)@.active, id@, ControlSignal::Stop),
                    ..old(self)@
                }),
    {
        match self.batches.mark_stopped(id) {
            Ok(()) => {
                self.post_to_batch(id, ControlSignal::Stop);
                Ok(())
            },
            Err(e) => Err(e),
        }
    }

    /// Resumes a paused batch `id`: dispatch starts over through all the items
    /// it was registered with. A running batch is left as it is.
    pub fn resume_batch(&mut self, id: &String) -> (r: Result<(), BatchError>)
        requires
            old(self)@.wf(),
        ensures
            final(self)@.wf(),
            r is Ok <==> has_batch(old(self)@.batches, id@),
            r is Err ==> final(self)@ == old(self)@,
            forall|i: int|
                0 <= i < old(self)@.batches.len() && old(self)@.batches[i].id == id@ ==> final(self)@ == (ManagerView {
                    batches: old(self)@.batches.update(i, old(self)@.batches[i].resumed()),
                    ..old(self)@
                }),
    {
        self.batches.mark_resuming(id)
    }

    fn post_to_batch(&mut self, id: &String, s: ControlSignal)
        requires
            old(self)@.wf(),
        ensures
            final(self)@.wf(),
            final(self)@ == (ManagerView {
                active: signal_batch(old(self)@.active, id@, s),
                ..old(self)@
            }),
    {
        let ghost v0 = self@;
        let mut fresh: Vec<ActiveTask> = Vec::new();
        let mut j: usize = 0;
        while j < self.active.len()
            invariant
                self@ == v0,
                j <= self.active@.len(),
                fresh@.len() == j,
                forall|k: int|
                    0 <= k < j ==> #[trigger] fresh@[k]@ == signal_batch(v0.active, id@, s)[k],
            decreases self.active@.len() - j,
        {
            let t = &self.active[j];
            let hit = t.source.is_batch(id) && t.signal.is_none();
            let signal = if hit {
                Some(s)
            } else {
                t.signal
            };
            assert(v0.active[j as int] == t@);
            fresh.push(t.with_signal(signal));
            j = j + 1;
        }
        self.active = fresh;
        assert(self@.active =~= signal_batch(v0.active, id@, s));
    }

    /// The offset recorded for item `id`.
    fn recorded_offset(&self, id: &String) -> (r: Option<u64>)
        ensures
            r == recorded_in(self@.offsets, id@),
    {
        let ghost offs = self@.offsets;
        let mut i: usize = self.offsets.len();
        assert(offs.subrange(0, i as int) =~= offs);
        while i > 0
            invariant
                i <= offs.len(),
                offs == self@.offsets,
                recorded_in(offs, id@) == recorded_in(offs.subrange(0, i as int), id@),
            decreases i,
        {
            let o = &self.offsets[i - 1];
            assert(offs.subrange(0, i as int).drop_last() =~= offs.subrange(0, i - 1));
            assert(offs.subrange(0, i as int).last() == o@);
            if o.id == *id {
                return Some(o.bytes);
            }
            i = i - 1;
        }
        assert(offs.subrange(0, 0) =~= Seq::<(Seq<char>, u64)>::empty());
        None
    }

    /// Drops the offset recorded for item `id`.
    fn forget_offset(&mut self, id: &String)
        requires
            old(self)@.wf(),
        ensures
            final(self)@.wf(),
            final(self)@ == (ManagerView { offsets: forget(old(self)@.offsets, id@), ..old(self)@ }),
    {
        let ghost v0 = self@;
        let mut kept: Vec<ResumeOffset> = Vec::new();
        let mut i: usize = 0;
        while i < self.offsets.len()
            invariant
                self@ == v0,
                i <= v0.offsets.len(),
                kept@.map_values(|o: ResumeOffset| o@) == forget(
                    v0.offsets.subrange(0, i as int),
                    id@,
                ),
            decreases v0.offsets.len() - i,
        {
            let o = &self.offsets[i];
            let ghost sub1 = v0.offsets.subrange(0, i + 1);
            assert(sub1.drop_last() =~= v0.offsets.subrange(0, i as int));
            assert(sub1.last() == o@);
            reveal(Seq::filter);
            assert(forget(sub1, id@) == if sub1.last().0 != id@ {
                forget(sub1.drop_last(), id@).push(sub1.last())
            } else {
                forget(sub1.drop_last(), id@)
            });
            if o.id != *id {
                let ghost before = kept@;
                kept.push(ResumeOffset { id: o.id.clone(), bytes: o.bytes });
                assert(kept@.map_values(|o: ResumeOffset| o@) =~= before.map_values(
                    |o: ResumeOffset| o@,
                ).push(o@));
            }
            i = i + 1;
        }
        assert(v0.offsets.subrange(0, i as int) =~= v0.offsets);
        self.offsets = kept;
    }

    /// The control signal that transfer `task` finds at a poll point.
    pub fn poll_signal(&self, task: u64) -> (r: Option<ControlSignal>)
        requires
            self@.wf(),
        ensures
            r == self@.signal_of(task),
    {
        match self.find_task(task) {
            Some(j) => {
                let t = &self.active[j];
                match t.source {
                    TaskSource::Queue => match self.state {
                        DownloadManagerState::Paused => Some(ControlSignal::Pause),
                        DownloadManagerState::Stopped => Some(ControlSignal::Stop),
                        _ => None,
                    },
                    _ => t.signal,
                }
            },
            None => Some(ControlSignal::Stop),
        }
    }

    fn find_task(&self, task: u64) -> (r: Option<usize>)
        requires
            self@.wf(),
        ensures
            r is Some <==> self@.has_task(task),
            r matches Some(j) ==> j < self@.active.len() && j == self@.task_index(task)
                && self@.active[j as int].task == task,
    {
        let mut j: usize = 0;
        while j < self.active.len()
            invariant
                self@.wf(),
                j <= self@.active.len(),
                forall|k: int| 0 <= k < j ==> self@.active[k].task != task,
            decreases self@.active.len() - j,
        {
            if self.active[j].task == task {
                assert(self@.active[j as int].task == task);
                assert(self@.has_task(task));
                let ghost i = self@.task_index(task);
                assert(self@.active[i].task == task);
                proof {
                    if i != j as int {
                        assert(self@.active[i].task != self@.active[j as int].task);
                    }
                }
                return Some(j);
            }
            j = j + 1;
        }
        None
    }
    /// Starts at most one transfer: see `pick` for which.
    pub fn dispatch_one(&mut self) -> (r: Option<Launch>)
        requires
            old(self)@.wf(),
        ensures
            final(self)@.wf(),
            (final(self)@, r) == dispatched(old(self)@),
    {
        let ghost v0 = self@;
        if self.active.len() >= self.concurrency || self.next_task == u64::MAX {
            return None;
        }
        let task = self.next_task;
        if self.state == DownloadManagerState::Running && self.queue.len() > 0 {
            let item = self.queue.remove(0);
            let recorded = self.recorded_offset(&item.id);
            self.active.push(
                ActiveTask { task, item: item.duplicate(), source: TaskSource::Queue, signal: None },
            );
            self.next_task = task + 1;
            assert(self@.queue =~= v0.queue.drop_first());
            assert(self@.active =~= launched(v0, item, SourceView::Queue));
            return Some(Launch { task, item, recorded });
        }
        proof {
            crate::registry::lemma_first_runnable_from(v0.batches, 0);
        }
        match self.batches.find_runnable() {
            Some(i) => {
                let item = self.batches.take_next(i);
                let bid = self.batches.id_at(i);
                self.active.push(
                    ActiveTask {
                        task,
                        item: item.duplicate(),
                        source: TaskSource::Batch(bid),
                        signal: None,
                    },
                );
                self.next_task = task + 1;
                assert(self@.active =~= launched(v0, item, SourceView::Batch(v0.batches[i as int].id)));
                Some(Launch { task, item, recorded: None })
            },
            None => {
                if self.direct.len() > 0 {
                    let item = self.direct.remove(0);
                    self.active.push(
                        ActiveTask {
                            task,
                            item: item.duplicate(),
                            source: TaskSource::Direct,
                            signal: None,
                        },
                    );
                    self.next_task = task + 1;
                    assert(self@.direct =~= v0.direct.drop_first());
                    assert(self@.active =~= launched(v0, item, SourceView::Direct));
                    Some(Launch { task, item, recorded: None })
                } else {
                    None
                }
            },
        }
    }

    /// Starts transfers until every permit is held or nothing runnable is
    /// left, and returns them in the order they were started.
    pub fn dispatch(&mut self) -> (r: Vec<Launch>)
        requires
            old(self)@.wf(),
        ensures
            final(self)@.wf(),
            (final(self)@, r@) == drained(old(self)@),
            pick(final(self)@) is Nothing,
            final(self)@.active.len() <= final(self)@.concurrency,
            final(self)@.active.len() == old(self)@.active.len() + r@.len(),
            final(self)@.active.subrange(0, old(self)@.active.len() as int) == old(self)@.active,
            forall|k: int|
                0 <= k < r@.len() ==> {
                    let t = #[trigger] final(self)@.active[old(self)@.active.len() + k];
                    t.task == r@[k].task && t.item == r@[k].item && t.signal is None
                },
            final(self)@.state == old(self)@.state,
            final(self)@.concurrency == old(self)@.concurrency,
    {
        let ghost v0 = self@;
        let mut r: Vec<Launch> = Vec::new();
        let mut done = false;
        while !done
            invariant
                self@.wf(),
                done ==> pick(self@) is Nothing,
                drained(v0) == (drained(self@).0, r@ + drained(self@).1),
                self@.active.len() == v0.active.len() + r@.len(),
                self@.active.subrange(0, v0.active.len() as int) == v0.active,
                forall|k: int|
                    0 <= k < r@.len() ==> {
                        let t = #[trigger] self@.active[v0.active.len() + k];
                        t.task == r@[k].task && t.item == r@[k].item && t.signal is None
                    },
                self@.state == v0.state,
                self@.concurrency == v0.concurrency,
            decreases self@.concurrency - self@.active.len() + if done {
                0int
            } else {
                1int
            },
        {
            let ghost before = self@;
            match self.dispatch_one() {
                Some(l) => {
                    assert(drained(before) == (drained(self@).0, seq![l] + drained(self@).1));
                    assert(r@.push(l) + drained(self@).1 =~= r@ + (seq![l] + drained(self@).1));
                    assert(self@.active == before.active.push(self@.active.last()));
                    assert(self@.active.subrange(0, v0.active.len() as int) =~= before.active.subrange(
                        0,
                        v0.active.len() as int,
                    ));
                    r.push(l);
                },
                None => {
                    done = true;
                },
            }
        }
        assert(r@ + Seq::<Launch>::empty() =~= r@);
        r
    }

    /// Records that transfer `task` ended with `outcome` and `bytes` on disk
    /// (`None` when it ended before an attempt began), which gives back its
    /// permit.
    pub fn task_finished(&mut self, task: u64, outcome: Outcome, bytes: Option<u64>)
        requires
            old(self)@.wf(),
        ensures
            final(self)@.wf(),
            final(self)@ == finished(old(self)@, task, outcome, bytes),
            outcome == Outcome::Paused && bytes is None ==> final(self)@.offsets == old(
                self,
            )@.offsets,
    {
        let ghost v0 = self@;
        match self.find_task(task) {
            Some(j) => {
                let t = self.active.remove(j);
                assert(self@.active =~= v0.active.remove(j as int));
                proof {
                    let a = self@.active;
                    assert forall|x: int, y: int|
                        0 <= x < a.len() && 0 <= y < a.len() && x != y implies a[x].task
                        != a[y].task by {
                        let x0 = if x < j {
                            x
                        } else {
                            x + 1
                        };
                        let y0 = if y < j {
                            y
                        } else {
                            y + 1
                        };
                        assert(a[x] == v0.active[x0] && a[y] == v0.active[y0]);
                    }
                    assert forall|x: int| 0 <= x < a.len() implies a[x].task < v0.next_task by {
                        let x0 = if x < j {
                            x
                        } else {
                            x + 1
                        };
                        assert(a[x] == v0.active[x0]);
                    }
                }
                let from_queue = match t.source {
                    TaskSource::Queue => true,
                    _ => false,
                };
                if from_queue && outcome == Outcome::Paused {
                    match bytes {
                        Some(b) => {
                            self.forget_offset(&t.item.id);
                            let ghost offs = self@.offsets;
                            self.offsets.push(ResumeOffset { id: t.item.id.clone(), bytes: b });
                            assert(self@.offsets =~= offs.push((t.item.id@, b)));
                        },
                        None => {},
                    }
                    let ghost q = self@.queue;
                    self.queue.insert(0, t.item);
                    assert(self@.queue =~= seq![t@.item] + q);
                } else if from_queue && outcome == Outcome::Completed {
                    self.forget_offset(&t.item.id);
                }
            },
            None => {},
        }
    }

    /// Stops the global queue: it is emptied, and every transfer taken from
    /// it is cancelled, giving back its permit. Returns the cancelled
    /// transfers, for the caller to abort.
    pub fn stop(&mut self) -> (r: Vec<u64>)
        requires
            old(self)@.wf(),
        ensures
            final(self)@.wf(),
            final(self)@ == (ManagerView {
                state: DownloadManagerState::Stopped,
                queue: Seq::empty(),
                active: old(self)@.active.filter(|t: TaskView| !is_queue_task(t)),
                ..old(self)@
            }),
            r@ == old(self)@.active.filter(|t: TaskView| is_queue_task(t)).map_values(
                |t: TaskView| t.task,
            ),
    {
        let ghost v0 = self@;
        let mut kept: Vec<ActiveTask> = Vec::new();
        let mut cancelled: Vec<u64> = Vec::new();
        let mut i: usize = 0;
        while i < self.active.len()
            invariant
                self@ == v0,
                i <= v0.active.len(),
                kept@.map_values(|t: ActiveTask| t@) == v0.active.subrange(0, i as int).filter(
                    |t: TaskView| !is_queue_task(t),
                ),
                cancelled@ == v0.active.subrange(0, i as int).filter(
                    |t: TaskView| is_queue_task(t),
                ).map_values(|t: TaskView| t.task),
                v0.wf(),
                kept@.len() <= i,
                forall|x: int|
                    0 <= x < kept@.len() ==> exists|k: int|
                        0 <= k < i && #[trigger] kept@[x]@ == v0.active[k],
                forall|x: int, y: int|
                    0 <= x < kept@.len() && 0 <= y < kept@.len() && x != y ==> kept@[x].task
                        != kept@[y].task,
            decreases v0.active.len() - i,
        {
            let t = &self.active[i];
            let ghost sub1 = v0.active.subrange(0, i + 1);
            assert(sub1.drop_last() =~= v0.active.subrange(0, i as int));
            assert(sub1.last() == t@);
            proof {
                reveal(Seq::filter);
            }
            let from_queue = match t.source {
                TaskSource::Queue => true,
                _ => false,
            };
            if from_queue {
                cancelled.push(t.task);
                assert(v0.active.subrange(0, i + 1).filter(|t: TaskView| is_queue_task(t)) == v0.active.subrange(0, i as int).filter(|t: TaskView| is_queue_task(t)).push(t@));
                assert(cancelled@ =~= v0.active.subrange(0, i + 1).filter(
                    |t: TaskView| is_queue_task(t),
                ).map_values(|t: TaskView| t.task));
            } else {
                let ghost before = kept@;
                assert forall|x: int| 0 <= x < before.len() implies before[x].task != t.task by {
                    let k = choose|k: int| 0 <= k < i && before[x]@ == v0.active[k];
                    assert(v0.active[k].task != v0.active[i as int].task);
                }
                kept.push(t.with_signal(t.signal));
                assert(kept@[kept@.len() - 1]@ == v0.active[i as int]);
                assert(v0.active.subrange(0, i + 1).filter(|t: TaskView| !is_queue_task(t)) == v0.active.subrange(0, i as int).filter(|t: TaskView| !is_queue_task(t)).push(t@));
                assert(kept@.map_values(|t: ActiveTask| t@) =~= before.map_values(
                    |t: ActiveTask| t@,
                ).push(t@));
            }
            i = i + 1;
        }
        assert(v0.active.subrange(0, i as int) =~= v0.active);
        self.active = kept;
        self.queue = Vec::new();
        self.state = DownloadManagerState::Stopped;
        proof {
            let a = self@.active;
            assert(self@.queue =~= Seq::<DownloadItem>::empty());
            assert forall|x: int| 0 <= x < a.len() implies a[x].task < v0.next_task by {
                let k = choose|k: int| 0 <= k < v0.active.len() && kept@[x]@ == v0.active[k];
            }
        }
        cancelled
    }
}

} // verus!

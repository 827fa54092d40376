//! The batch registry: per batch identifier, its lifecycle, the items it was
//! created with (kept so that it can be resumed), and how far dispatch has
//! come through them.
use crate::model::{copy_items, DownloadItem};
use vstd::prelude::*;

verus! {

#[derive(Clone, Copy, Debug, PartialEq, Eq, Structural)]
pub enum BatchLifecycle {
    Running,
    Paused,
}

/// The error of an operation on a batch that the registry does not hold.
#[derive(Clone, Copy, Debug, PartialEq, Eq, Structural)]
pub enum BatchError {
    NotFound,
}

pub struct BatchEntry {
    pub id: String,
    pub lifecycle: BatchLifecycle,
    /// Every item of the batch, in dispatch order.
    pub items: Vec<DownloadItem>,
    /// The index of the next item to dispatch.
    pub cursor: usize,
}

pub struct BatchView {
    pub id: Seq<char>,
    pub lifecycle: BatchLifecycle,
    pub items: Seq<DownloadItem>,
    pub cursor: nat,
}

impl View for BatchEntry {
    type V = BatchView;

    open spec fn view(&self) -> BatchView {
        BatchView {
            id: self.id@,
            lifecycle: self.lifecycle,
            items: self.items@,
            cursor: self.cursor as nat,
        }
    }
}

impl BatchView {
    /// Running, with items not yet dispatched.
    pub open spec fn has_work(self) -> bool {
        self.lifecycle == BatchLifecycle::Running && self.cursor < self.items.len()
    }

    /// Paused: dispatch through its items has ended.
    pub open spec fn paused(self) -> BatchView {
        BatchView { lifecycle: BatchLifecycle::Paused, cursor: self.items.len(), ..self }
    }

    /// Running again, from the first of its items.
    pub open spec fn resumed(self) -> BatchView {
        if self.lifecycle == BatchLifecycle::Paused {
            BatchView { lifecycle: BatchLifecycle::Running, cursor: 0, ..self }
        } else {
            self
        }
    }
}

pub open spec fn fresh_batch(id: Seq<char>, items: Seq<DownloadItem>) -> BatchView {
    BatchView { id, lifecycle: BatchLifecycle::Running, items, cursor: 0 }
}

pub open spec fn has_batch(s: Seq<BatchView>, id: Seq<char>) -> bool {
    exists|i: int| 0 <= i < s.len() && s[i].id == id
}

pub open spec fn batches_wf(s: Seq<BatchView>) -> bool {
    &&& forall|i: int, j: int| 0 <= i < s.len() && 0 <= j < s.len() && i != j ==> s[i].id != s[j].id
    &&& forall|i: int| 0 <= i < s.len() ==> s[i].cursor <= s[i].items.len()
}

/// The registry after `register(id, items)`: a fresh running entry, in place
/// of any earlier entry of that id.
pub open spec fn registered(s: Seq<BatchView>, id: Seq<char>, items: Seq<DownloadItem>) -> Seq<
    BatchView,
> {
    if has_batch(s, id) {
        let i = choose|i: int| 0 <= i < s.len() && s[i].id == id;
        s.update(i, fresh_batch(id, items))
    } else {
        s.push(fresh_batch(id, items))
    }
}

/// The first batch at or after position `k` that has items to dispatch.
pub open spec fn first_runnable_from(s: Seq<BatchView>, k: int) -> Option<int>
    decreases s.len() - k,
{
    if k < 0 || k >= s.len() {
        None
    } else if s[k].has_work() {
        Some(k)
    } else {
        first_runnable_from(s, k + 1)
    }
}

/// The first batch that has items to dispatch.
pub open spec fn first_runnable(s: Seq<BatchView>) -> Option<int> {
    first_runnable_from(s, 0)
}

pub proof fn lemma_first_runnable_from(s: Seq<BatchView>, k: int)
    requires
        0 <= k,
    ensures
        first_runnable_from(s, k) is Some ==> k <= first_runnable_from(s, k).unwrap() < s.len()
            && s[first_runnable_from(s, k).unwrap()].has_work(),
        first_runnable_from(s, k) is None ==> forall|j: int| k <= j < s.len() ==> !s[j].has_work(),
    decreases s.len() - k,
{
    if k < s.len() && !s[k].has_work() {
        lemma_first_runnable_from(s, k + 1);
    }
}

pub struct BatchRegistry {
    pub entries: Vec<BatchEntry>,
}

impl View for BatchRegistry {
    type V = Seq<BatchView>;

    open spec fn view(&self) -> Seq<BatchView> {
        self.entries@.map_values(|e: BatchEntry| e@)
    }
}

impl BatchRegistry {
    pub open spec fn wf(&self) -> bool {
        batches_wf(self@)
    }

    pub fn new() -> (r: BatchRegistry)
        ensures
            r@ == Seq::<BatchView>::empty(),
            r.wf(),
    {
        let r = BatchRegistry { entries: Vec::new() };
        assert(r@ =~= Seq::<BatchView>::empty());
        r
    }

    /// The position of the batch `id`, if the registry holds it.
    pub fn find(&self, id: &String) -> (r: Option<usize>)
        requires
            self.wf(),
        ensures
            r is Some <==> has_batch(self@, id@),
            r is Some ==> r.unwrap() < self@.len() && self@[r.unwrap() as int].id == id@,
    {
        let mut i: usize = 0;
        while i < self.entries.len()
            invariant
                i <= self.entries@.len(),
                forall|j: int| 0 <= j < i ==> self@[j].id != id@,
            decreases self.entries@.len() - i,
        {
            if self.entries[i].id == *id {
                return Some(i);
            }
            i = i + 1;
        }
        None
    }

    /// Records the batch `id` as running with `items`, replacing any earlier
    /// entry of that id.
    pub fn register(&mut self, id: String, items: Vec<DownloadItem>)
        requires
            old(self).wf(),
        ensures
            final(self).wf(),
            final(self)@ == registered(old(self)@, id@, items@),
    {
        let ghost s = self@;
        let entry = BatchEntry { id: id, lifecycle: BatchLifecycle::Running, items, cursor: 0 };
        match self.find(&entry.id) {
            Some(i) => {
                self.entries.set(i, entry);
                assert(self@ =~= s.update(i as int, fresh_batch(id@, items@)));
            },
            None => {
                self.entries.push(entry);
                assert(self@ =~= s.push(fresh_batch(id@, items@)));
            },
        }
        assert(batches_wf(self@));
    }

    /// Marks the batch `id` paused, which ends dispatch through its items.
    pub fn mark_paused(&mut self, id: &String) -> (r: Result<(), BatchError>)
        requires
            old(self).wf(),
        ensures
            final(self).wf(),
            r is Ok <==> has_batch(old(self)@, id@),
            r is Err ==> final(self)@ == old(self)@,
            forall|i: int|
                0 <= i < old(self)@.len() && old(self)@[i].id == id@ ==> final(self)@ == old(
                    self,
                )@.update(i, old(self)@[i].paused()),
    {
        match self.find(id) {
            Some(i) => {
                let ghost s = self@;
                let n = self.entries[i].items.len();
                let mut e = self.entries.remove(i);
                e.lifecycle = BatchLifecycle::Paused;
                e.cursor = n;
                self.entries.insert(i, e);
                assert(self@ =~= s.update(i as int, s[i as int].paused()));
                Ok(())
            },
            None => Err(BatchError::NotFound),
        }
    }

    /// Sets a paused batch `id` running again from its first item.
    pub fn mark_resuming(&mut self, id: &String) -> (r: Result<(), BatchError>)
        requires
            old(self).wf(),
        ensures
            final(self).wf(),
            r is Ok <==> has_batch(old(self)@, id@),
            r is Err ==> final(self)@ == old(self)@,
            forall|i: int|
                0 <= i < old(self)@.len() && old(self)@[i].id == id@ ==> final(self)@ == old(
                    self,
                )@.update(i, old(self)@[i].resumed()),
    {
        match self.find(id) {
            Some(i) => {
                let ghost s = self@;
                if self.entries[i].lifecycle == BatchLifecycle::Paused {
                    let mut e = self.entries.remove(i);
                    e.lifecycle = BatchLifecycle::Running;
                    e.cursor = 0;
                    self.entries.insert(i, e);
                }
                assert(self@ =~= s.update(i as int, s[i as int].resumed()));
                Ok(())
            },
            None => Err(BatchError::NotFound),
        }
    }

    /// Removes the batch `id`.
    pub fn mark_stopped(&mut self, id: &String) -> (r: Result<(), BatchError>)
        requires
            old(self).wf(),
        ensures
            final(self).wf(),
            r is Ok <==> has_batch(old(self)@, id@),
            r is Err ==> final(self)@ == old(self)@,
            forall|i: int|
                0 <= i < old(self)@.len() && old(self)@[i].id == id@ ==> final(self)@ == old(
                    self,
                )@.remove(i),
    {
        match self.find(id) {
            Some(i) => {
                let ghost s = self@;
                self.entries.remove(i);
                assert(self@ =~= s.remove(i as int));
                assert(batches_wf(self@)) by {
                    assert forall|a: int, b: int|
                        0 <= a < self@.len() && 0 <= b < self@.len() && a != b implies self@[a].id
                        != self@[b].id by {
                        let a0 = if a < i {
                            a
                        } else {
                            a + 1
                        };
                        let b0 = if b < i {
                            b
                        } else {
                            b + 1
                        };
                        assert(self@[a] == s[a0] && self@[b] == s[b0]);
                    }
                }
                Ok(())
            },
            None => Err(BatchError::NotFound),
        }
    }

    /// The items that the batch `id` was registered with, unchanged.
    pub fn snapshot_items_for_resume(&self, id: &String) -> (r: Result<
        Vec<DownloadItem>,
        BatchError,
    >)
        requires
            self.wf(),
        ensures
            r is Ok <==> has_batch(self@, id@),
            forall|i: int|
                0 <= i < self@.len() && self@[i].id == id@ ==> r is Ok && r->Ok_0@
                    == self@[i].items,
    {
        match self.find(id) {
            Some(i) => Ok(copy_items(&self.entries[i].items)),
            None => Err(BatchError::NotFound),
        }
    }

    /// The lifecycle of the batch `id`, if the registry holds it.
    pub fn lifecycle_of(&self, id: &String) -> (r: Option<BatchLifecycle>)
        requires
            self.wf(),
        ensures
            r is Some <==> has_batch(self@, id@),
            forall|i: int|
                0 <= i < self@.len() && self@[i].id == id@ ==> r == Some(self@[i].lifecycle),
    {
        match self.find(id) {
            Some(i) => Some(self.entries[i].lifecycle),
            None => None,
        }
    }
    /// The position of the first batch that has items to dispatch.
    pub fn find_runnable(&self) -> (r: Option<usize>)
        requires
            self.wf(),
        ensures
            r matches Some(i) ==> first_runnable(self@) == Some(i as int),
            r is None ==> first_runnable(self@) is None,
    {
        let mut i: usize = 0;
        while i < self.entries.len()
            invariant
                i <= self.entries@.len(),
                first_runnable(self@) == first_runnable_from(self@, i as int),
            decreases self.entries@.len() - i,
        {
            if self.entries[i].lifecycle == BatchLifecycle::Running && self.entries[i].cursor
                < self.entries[i].items.len() {
                return Some(i);
            }
            i = i + 1;
        }
        None
    }

    /// The identifier of the batch at position `i`.
    pub fn id_at(&self, i: usize) -> (r: String)
        requires
            i < self@.len(),
        ensures
            r@ == self@[i as int].id,
    {
        assert(self.entries@[i as int]@ == self@[i as int]);
        self.entries[i].id.clone()
    }

    /// Hands out the next item of the batch at position `i`.
    pub fn take_next(&mut self, i: usize) -> (r: DownloadItem)
        requires
            old(self).wf(),
            i < old(self)@.len(),
            old(self)@[i as int].has_work(),
        ensures
            final(self).wf(),
            r == old(self)@[i as int].items[old(self)@[i as int].cursor as int],
            final(self)@ == old(self)@.update(
                i as int,
                BatchView { cursor: old(self)@[i as int].cursor + 1, ..old(self)@[i as int] },
            ),
    {
        let ghost s = self@;
        let mut e = self.entries.remove(i);
        assert(e@ == s[i as int]);
        let n = e.items.len();
        assert(e.cursor < n);
        let item = e.items[e.cursor].duplicate();
        e.cursor = e.cursor + 1;
        self.entries.insert(i, e);
        assert(self@ =~= s.update(i as int, BatchView { cursor: s[i as int].cursor + 1, ..s[i as int] }));
        item
    }
}

} // verus!

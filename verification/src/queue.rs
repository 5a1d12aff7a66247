//! Model of the orchestrator's task queue, as the work loop relies on
//! it: at most one queued task per registration id, tasks become visible
//! at their scheduled time, and dispense atomically reserves the oldest
//! visible task.

use vstd::prelude::*;

use crate::work::{Action, DispenseError, PeekError, Task};

verus! {

/// One queued task, keyed by its registration id.
#[derive(Clone, Copy, PartialEq, Eq, Structural, Debug)]
pub struct QueueEntry {
    pub id: u64,
    pub task: Task,
}

/// An entry is visible at time `t` iff its schedule has been reached.
pub open spec fn visible(e: QueueEntry, t: u64) -> bool {
    e.task.not_before <= t
}

/// Some entry of `s` is visible at time `t`.
pub open spec fn has_visible(s: Seq<QueueEntry>, t: u64) -> bool {
    exists|i: int| 0 <= i < s.len() && visible(#[trigger] s[i], t)
}

/// Dispense picked entry `i` of `s`: it is visible and no visible entry
/// is scheduled earlier.
pub open spec fn picked(s: Seq<QueueEntry>, t: u64, i: int) -> bool {
    &&& 0 <= i < s.len()
    &&& visible(s[i], t)
    &&& forall|j: int|
        0 <= j < s.len() && visible(#[trigger] s[j], t) ==> s[i].task.not_before
            <= s[j].task.not_before
}

/// The queue: entries with pairwise distinct registration ids.
pub struct TaskQueue {
    entries: Vec<QueueEntry>,
}

impl TaskQueue {
    pub closed spec fn entries(&self) -> Seq<QueueEntry> {
        self.entries@
    }

    /// At most one queued task per registration id.
    pub closed spec fn wf(&self) -> bool {
        forall|i: int, j: int|
            0 <= i < j < self.entries@.len() ==> (#[trigger] self.entries@[i]).id != (
            #[trigger] self.entries@[j]).id
    }

    pub fn new() -> (q: TaskQueue)
        ensures
            q.wf(),
            q.entries() =~= Seq::<QueueEntry>::empty(),
    {
        TaskQueue { entries: Vec::new() }
    }

    /// How many tasks are queued.
    pub fn task_count(&self) -> (r: usize)
        ensures
            r == self.entries().len(),
    {
        self.entries.len()
    }

    /// Schedules (or reschedules) the task of a registration. Any entry
    /// the id already had is replaced, so one id holds one task.
    pub fn queue(&mut self, id: u64, action: Action, not_before: u64)
        requires
            old(self).wf(),
        ensures
            final(self).wf(),
            final(self).entries().len() >= 1,
            final(self).entries().last() == (QueueEntry {
                id,
                task: Task { action, not_before },
            }),
            forall|k: int|
                0 <= k < final(self).entries().len() - 1 ==> (#[trigger] final(self).entries()[k]).id
                    != id,
            if exists|i: int|
                0 <= i < old(self).entries().len() && (#[trigger] old(self).entries()[i]).id
                    == id {
                exists|i: int|
                    0 <= i < old(self).entries().len() && (#[trigger] old(self).entries()[i]).id
                        == id && final(self).entries() == old(self).entries().remove(i).push(
                        QueueEntry { id, task: Task { action, not_before } },
                    )
            } else {
                final(self).entries() == old(self).entries().push(
                    QueueEntry { id, task: Task { action, not_before } },
                )
            },
    {
        let entry = QueueEntry { id, task: Task { action, not_before } };
        let mut i: usize = 0;
        while i < self.entries.len()
            invariant
                i <= self.entries@.len(),
                *self == *old(self),
                old(self).wf(),
                entry == (QueueEntry { id, task: Task { action, not_before } }),
                forall|j: int| 0 <= j < i ==> (#[trigger] self.entries@[j]).id != id,
            decreases self.entries@.len() - i,
        {
            if self.entries[i].id == id {
                let ghost o = old(self).entries();
                let ghost k = i as int;
                self.entries.remove(i);
                self.entries.push(entry);
                proof {
                    let n = self.entries@;
                    let m = o.remove(k);
                    assert(n == m.push(entry));
                    assert(o[k].id == id);
                    assert forall|p: int, q: int| 0 <= p < q < n.len() implies (#[trigger] n[p]).id
                        != (#[trigger] n[q]).id by {
                        let p0: int = if p < k {
                            p
                        } else {
                            p + 1
                        };
                        assert(n[p] == m[p] && m[p] == o[p0]);
                        if q < n.len() - 1 {
                            let q0: int = if q < k {
                                q
                            } else {
                                q + 1
                            };
                            assert(n[q] == m[q] && m[q] == o[q0]);
                            assert(o[p0].id != o[q0].id);
                        } else {
                            assert(n[q] == entry && n[q].id == id);
                            if p0 < k {
                                assert(o[p0].id != o[k].id);
                            } else {
                                assert(o[k].id != o[p0].id);
                            }
                        }
                    }
                    assert forall|p: int| 0 <= p < n.len() - 1 implies (#[trigger] n[p]).id
                        != id by {
                        let p0: int = if p < k {
                            p
                        } else {
                            p + 1
                        };
                        assert(n[p] == m[p] && m[p] == o[p0]);
                        if p0 < k {
                            assert(o[p0].id != o[k].id);
                        } else {
                            assert(o[k].id != o[p0].id);
                        }
                    }
                    assert(n.last() == entry);
                }
                return ;
            }
            i += 1;
        }
        self.entries.push(entry);
    }

    /// The cheap query of the loop: is any work visible now?
    pub fn peek(&self, now: u64) -> (r: Result<(), PeekError>)
        ensures
            r is Ok <==> has_visible(self.entries(), now),
            r is Err ==> r->Err_0 == PeekError::NoTasksAvailable,
    {
        let mut i: usize = 0;
        while i < self.entries.len()
            invariant
                i <= self.entries@.len(),
                forall|j: int| 0 <= j < i ==> !visible(#[trigger] self.entries@[j], now),
            decreases self.entries@.len() - i,
        {
            if self.entries[i].task.not_before <= now {
                assert(visible(self.entries@[i as int], now));
                return Ok(());
            }
            i += 1;
        }
        Err(PeekError::NoTasksAvailable)
    }

    /// Atomically reserves the oldest visible task: the entry leaves the
    /// queue and is handed to exactly one caller.
    pub fn dispense(&mut self, now: u64) -> (r: Result<(u64, Task), DispenseError>)
        requires
            old(self).wf(),
        ensures
            final(self).wf(),
            r is Err ==> r->Err_0 == DispenseError::NoTasksAvailable && *final(self) == *old(self)
                && !has_visible(old(self).entries(), now),
            r is Ok ==> exists|i: int|
                #[trigger] picked(old(self).entries(), now, i) && old(self).entries()[i].id == r->Ok_0.0
                    && old(self).entries()[i].task == r->Ok_0.1 && final(self).entries() == old(
                    self,
                ).entries().remove(i),
            r is Ok <==> has_visible(old(self).entries(), now),
    {
        let mut best: usize = 0;
        let mut found = false;
        let mut i: usize = 0;
        while i < self.entries.len()
            invariant
                i <= self.entries@.len(),
                *self == *old(self),
                old(self).wf(),
                found ==> best < i && visible(self.entries@[best as int], now),
                found ==> forall|j: int|
                    0 <= j < i && visible(#[trigger] self.entries@[j], now)
                        ==> self.entries@[best as int].task.not_before
                        <= self.entries@[j].task.not_before,
                !found ==> forall|j: int| 0 <= j < i ==> !visible(#[trigger] self.entries@[j], now),
            decreases self.entries@.len() - i,
        {
            let e = &self.entries[i];
            if e.task.not_before <= now {
                if !found || e.task.not_before < self.entries[best].task.not_before {
                    best = i;
                    found = true;
                }
            }
            i += 1;
        }
        if !found {
            return Err(DispenseError::NoTasksAvailable);
        }
        let ghost o = old(self).entries();
        let ghost k = best as int;
        let picked_entry = self.entries.remove(best);
        proof {
            assert(picked(o, now, k));
            assert(visible(o[k], now));
            let n = self.entries@;
            assert(n == o.remove(k));
            assert forall|p: int, q: int| 0 <= p < q < n.len() implies (#[trigger] n[p]).id != (
            #[trigger] n[q]).id by {
                let p0: int = if p < k {
                    p
                } else {
                    p + 1
                };
                let q0: int = if q < k {
                    q
                } else {
                    q + 1
                };
                assert(n[p] == o[p0] && n[q] == o[q0]);
                assert(o[p0].id != o[q0].id);
            }
            assert(picked(o, now, k) && o[k].id == picked_entry.id && o[k].task
                == picked_entry.task && n == o.remove(k));
        }
        Ok((picked_entry.id, picked_entry.task))
    }
}

/// Law: at most one dispenser receives a task. If exactly one entry is
/// visible at time `t`, then once a dispense has removed it, nothing is
/// visible: a concurrent second dispense observes no tasks.
pub proof fn lemma_at_most_one_in_flight(s: Seq<QueueEntry>, t: u64, i: int)
    requires
        0 <= i < s.len(),
        visible(s[i], t),
        forall|j: int| 0 <= j < s.len() && j != i ==> !visible(#[trigger] s[j], t),
    ensures
        !has_visible(s.remove(i), t),
{
    let n = s.remove(i);
    assert forall|k: int| 0 <= k < n.len() implies !visible(#[trigger] n[k], t) by {
        let k0: int = if k < i {
            k
        } else {
            k + 1
        };
        assert(n[k] == s[k0]);
    }
}

} // verus!

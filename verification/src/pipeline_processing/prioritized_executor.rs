//! The bookkeeping of the prioritized reactor: which task a free worker
//! resumes next.
//!
//! Tasks are cooperative. A worker runs a task until the task suspends or
//! completes, then asks for the next one. Of the tasks that are ready, the
//! one with the lowest priority key goes first, and of several with the
//! same key the one that was spawned first.

use crate::pipeline_processing::processing_context::Priority;
use vstd::prelude::*;

verus! {

/// Where a task stands.
#[derive(Clone, Copy, Debug, PartialEq, Eq, Structural)]
pub enum TaskState {
    /// Waiting for a worker.
    Ready,
    /// On a worker.
    Running,
    /// Waiting for an event outside the reactor.
    Suspended,
}

/// A task the reactor knows of.
#[derive(Clone, Copy, Debug)]
pub struct Task {
    /// The number under which the task was spawned; later tasks have
    /// higher numbers.
    pub id: u64,
    /// The priority the task was spawned with, which it keeps for life.
    pub priority: Priority,
    pub state: TaskState,
}

/// Whether `a` is to be resumed before `b` when both are ready.
pub open spec fn runs_before(a: Task, b: Task) -> bool {
    a.priority@ < b.priority@ || (a.priority@ == b.priority@ && a.id < b.id)
}

/// Whether `tasks[chosen]` is the task a free worker resumes: it is ready,
/// and no ready task is to be resumed before it.
pub open spec fn is_next(tasks: Seq<Task>, chosen: int) -> bool {
    &&& 0 <= chosen < tasks.len()
    &&& tasks[chosen].state == TaskState::Ready
    &&& forall|j: int|
        0 <= j < tasks.len() && (#[trigger] tasks[j]).state == TaskState::Ready ==> !runs_before(
            tasks[j],
            tasks[chosen],
        )
}

/// Whether no task is ready.
pub open spec fn none_ready(tasks: Seq<Task>) -> bool {
    forall|j: int| 0 <= j < tasks.len() ==> (#[trigger] tasks[j]).state != TaskState::Ready
}

/// The position of the task with number `id`, if the reactor knows it.
pub open spec fn position_of(tasks: Seq<Task>, id: u64, position: Option<usize>) -> bool {
    match position {
        Some(i) => i < tasks.len() && tasks[i as int].id == id,
        None => forall|j: int| 0 <= j < tasks.len() ==> (#[trigger] tasks[j]).id != id,
    }
}

/// Whether the reactor knows a task with number `id` that is in `state`.
pub open spec fn task_in_state(tasks: Seq<Task>, id: u64, state: TaskState) -> bool {
    exists|i: int| 0 <= i < tasks.len() && (#[trigger] tasks[i]).id == id && tasks[i].state == state
}

/// The task at a position, in another state.
pub open spec fn in_state(task: Task, state: TaskState) -> Task {
    Task { id: task.id, priority: task.priority, state }
}

/// The tasks of a reactor and the width of its worker pool.
#[derive(Debug)]
pub struct PrioritizedReactor {
    tasks: Vec<Task>,
    next_id: u64,
    num_threads: usize,
}

impl View for PrioritizedReactor {
    type V = Seq<Task>;

    /// The tasks that are neither completed nor cancelled, in the order in
    /// which they were spawned.
    closed spec fn view(&self) -> Seq<Task> {
        self.tasks@
    }
}

impl PrioritizedReactor {
    /// The number the next task will be spawned under.
    pub closed spec fn spec_next_id(&self) -> u64 {
        self.next_id
    }

    pub closed spec fn spec_num_threads(&self) -> usize {
        self.num_threads
    }

    /// Tasks are listed by rising number, and every number is spent.
    pub open spec fn wf(&self) -> bool {
        &&& forall|i: int, j: int|
            0 <= i < j < self@.len() ==> (#[trigger] self@[i]).id < (#[trigger] self@[j]).id
        &&& forall|i: int| 0 <= i < self@.len() ==> (#[trigger] self@[i]).id < self.spec_next_id()
    }

    /// A reactor without tasks for a pool of `num_threads` workers.
    pub fn start(num_threads: usize) -> (reactor: Self)
        ensures
            reactor.wf(),
            reactor@.len() == 0,
            reactor.spec_next_id() == 0,
            reactor.spec_num_threads() == num_threads,
    {
        PrioritizedReactor { tasks: Vec::new(), next_id: 0, num_threads }
    }

    /// The width of the worker pool.
    pub fn num_threads(&self) -> (threads: usize)
        ensures
            threads == self.spec_num_threads(),
    {
        self.num_threads
    }

    /// Number of tasks that are neither completed nor cancelled.
    pub fn len(&self) -> (len: usize)
        ensures
            len == self@.len(),
    {
        self.tasks.len()
    }

    /// Takes in a new task, ready to run, and says under which number.
    /// A reactor that has spent all its numbers takes in no more tasks.
    pub fn spawn_with_priority(&mut self, priority: Priority) -> (id: Option<u64>)
        requires
            old(self).wf(),
        ensures
            final(self).wf(),
            final(self).spec_num_threads() == old(self).spec_num_threads(),
            match id {
                Some(id) => {
                    &&& id == old(self).spec_next_id()
                    &&& id < u64::MAX
                    &&& final(self).spec_next_id() == id + 1
                    &&& final(self)@ == old(self)@.push(
                        Task { id, priority, state: TaskState::Ready },
                    )
                },
                None => {
                    &&& old(self).spec_next_id() == u64::MAX
                    &&& final(self).spec_next_id() == u64::MAX
                    &&& final(self)@ == old(self)@
                },
            },
    {
        let id = self.next_id;
        if id == u64::MAX {
            return None;
        }
        self.tasks.push(Task { id, priority, state: TaskState::Ready });
        self.next_id = id + 1;
        Some(id)
    }

    /// Where the task with number `id` is listed.
    fn find(&self, id: u64) -> (position: Option<usize>)
        ensures
            position_of(self@, id, position),
    {
        let mut i: usize = 0;
        while i < self.tasks.len()
            invariant
                i <= self.tasks.len(),
                forall|j: int| 0 <= j < i ==> (#[trigger] self.tasks@[j]).id != id,
            decreases self.tasks.len() - i,
        {
            if self.tasks[i].id == id {
                return Some(i);
            }
            i = i + 1;
        }
        None
    }

    /// Hands the next task to a free worker and marks it as running.
    ///
    /// The task handed out is ready, and no other ready task has a lower
    /// priority key, nor the same key and an earlier number.
    pub fn next_task(&mut self) -> (task: Option<Task>)
        requires
            old(self).wf(),
        ensures
            final(self).wf(),
            final(self).spec_next_id() == old(self).spec_next_id(),
            final(self).spec_num_threads() == old(self).spec_num_threads(),
            match task {
                Some(t) => exists|chosen: int|
                    {
                        &&& #[trigger] is_next(old(self)@, chosen)
                        &&& t == in_state(old(self)@[chosen], TaskState::Running)
                        &&& final(self)@ == old(self)@.update(chosen, t)
                    },
                None => none_ready(old(self)@) && final(self)@ == old(self)@,
            },
    {
        let mut best: Option<usize> = None;
        let mut i: usize = 0;
        while i < self.tasks.len()
            invariant
                i <= self.tasks.len(),
                match best {
                    Some(b) => {
                        &&& b < i
                        &&& self.tasks@[b as int].state == TaskState::Ready
                        &&& forall|j: int|
                            0 <= j < i && (#[trigger] self.tasks@[j]).state == TaskState::Ready
                                ==> !runs_before(self.tasks@[j], self.tasks@[b as int])
                    },
                    None => forall|j: int|
                        0 <= j < i ==> (#[trigger] self.tasks@[j]).state != TaskState::Ready,
                },
            decreases self.tasks.len() - i,
        {
            let candidate = self.tasks[i];
            match candidate.state {
                TaskState::Ready => {
                    match best {
                        Some(b) => {
                            let current = self.tasks[b];
                            if candidate.priority < current.priority || (candidate.priority
                                == current.priority && candidate.id < current.id) {
                                best = Some(i);
                            }
                        },
                        None => {
                            best = Some(i);
                        },
                    }
                },
                _ => {},
            }
            i = i + 1;
        }
        match best {
            Some(b) => {
                let chosen = self.tasks[b];
                let running = Task {
                    id: chosen.id,
                    priority: chosen.priority,
                    state: TaskState::Running,
                };
                self.tasks.set(b, running);
                proof {
                    assert(is_next(old(self)@, b as int));
                }
                Some(running)
            },
            None => None,
        }
    }

    /// Puts the task with number `id` into `state` if it is in state
    /// `from`, and says whether it did.
    fn transition(&mut self, id: u64, from: TaskState, state: TaskState) -> (moved: bool)
        requires
            old(self).wf(),
        ensures
            final(self).wf(),
            final(self).spec_next_id() == old(self).spec_next_id(),
            final(self).spec_num_threads() == old(self).spec_num_threads(),
            moved == task_in_state(old(self)@, id, from),
            moved ==> exists|i: int|
                {
                    &&& 0 <= i < old(self)@.len()
                    &&& (#[trigger] old(self)@[i]).id == id
                    &&& old(self)@[i].state == from
                    &&& final(self)@ == old(self)@.update(i, in_state(old(self)@[i], state))
                },
            !moved ==> {
                &&& final(self)@ == old(self)@
                &&& forall|i: int|
                    0 <= i < old(self)@.len() && (#[trigger] old(self)@[i]).id == id ==> old(
                        self,
                    )@[i].state != from
            },
    {
        match self.find(id) {
            Some(i) => {
                let task = self.tasks[i];
                if task.state == from {
                    self.tasks.set(i, Task { id: task.id, priority: task.priority, state });
                    true
                } else {
                    proof {
                        assert forall|k: int|
                            0 <= k < self@.len() && (#[trigger] self@[k]).id == id implies self@[k].state
                            != from by {
                            if k < i {
                                assert(self@[k].id < self@[i as int].id);
                            } else if k > i {
                                assert(self@[i as int].id < self@[k].id);
                            }
                        }
                    }
                    false
                }
            },
            None => false,
        }
    }

    /// Notes that the running task `id` waits for an outside event, and
    /// says whether it did: it does so exactly when the task is running.
    /// A task that is not running, or that the reactor does not know,
    /// leaves the reactor as it was.
    pub fn suspend(&mut self, id: u64) -> (moved: bool)
        requires
            old(self).wf(),
        ensures
            final(self).wf(),
            final(self).spec_next_id() == old(self).spec_next_id(),
            final(self).spec_num_threads() == old(self).spec_num_threads(),
            moved == task_in_state(old(self)@, id, TaskState::Running),
            moved ==> exists|i: int|
                {
                    &&& 0 <= i < old(self)@.len()
                    &&& (#[trigger] old(self)@[i]).id == id
                    &&& old(self)@[i].state == TaskState::Running
                    &&& final(self)@ == old(self)@.update(
                        i,
                        in_state(old(self)@[i], TaskState::Suspended),
                    )
                },
            !moved ==> final(self)@ == old(self)@,
    {
        self.transition(id, TaskState::Running, TaskState::Suspended)
    }

    /// Makes the suspended task `id` ready again, with the priority and
    /// the number it has had since it was spawned, and says whether it
    /// did: it does so exactly when the task is suspended. A task that is
    /// not suspended, or that the reactor does not know, leaves the
    /// reactor as it was.
    pub fn wake(&mut self, id: u64) -> (moved: bool)
        requires
            old(self).wf(),
        ensures
            final(self).wf(),
            final(self).spec_next_id() == old(self).spec_next_id(),
            final(self).spec_num_threads() == old(self).spec_num_threads(),
            moved == task_in_state(old(self)@, id, TaskState::Suspended),
            moved ==> exists|i: int|
                {
                    &&& 0 <= i < old(self)@.len()
                    &&& (#[trigger] old(self)@[i]).id == id
                    &&& old(self)@[i].state == TaskState::Suspended
                    &&& final(self)@ == old(self)@.update(
                        i,
                        in_state(old(self)@[i], TaskState::Ready),
                    )
                },
            !moved ==> final(self)@ == old(self)@,
    {
        self.transition(id, TaskState::Suspended, TaskState::Ready)
    }

    /// Forgets the task `id`, whatever its state: it has completed, or its
    /// handle was dropped.
    pub fn remove(&mut self, id: u64) -> (removed: Option<Task>)
        requires
            old(self).wf(),
        ensures
            final(self).wf(),
            final(self).spec_next_id() == old(self).spec_next_id(),
            final(self).spec_num_threads() == old(self).spec_num_threads(),
            match removed {
                Some(task) => exists|i: int|
                    {
                        &&& 0 <= i < old(self)@.len()
                        &&& #[trigger] old(self)@[i] == task
                        &&& task.id == id
                        &&& final(self)@ == old(self)@.remove(i)
                    },
                None => final(self)@ == old(self)@ && position_of(old(self)@, id, None),
            },
    {
        match self.find(id) {
            Some(i) => {
                let task = self.tasks.remove(i);
                Some(task)
            },
            None => None,
        }
    }
}

/// Of two ready tasks, the one with the lower priority key is never kept
/// waiting for the other: a worker that asks for a task while both are
/// ready is not handed the one with the higher key.
pub proof fn lemma_lower_key_first(tasks: Seq<Task>, a: int, b: int, chosen: int)
    requires
        0 <= a < tasks.len(),
        0 <= b < tasks.len(),
        tasks[a].state == TaskState::Ready,
        tasks[b].state == TaskState::Ready,
        tasks[a].priority@ < tasks[b].priority@,
        is_next(tasks, chosen),
    ensures
        chosen != b,
{
    if chosen == b {
        assert(runs_before(tasks[a], tasks[chosen]));
    }
}

/// Of two ready tasks with the same priority key, the one spawned first
/// is handed out first.
pub proof fn lemma_ties_are_fifo(tasks: Seq<Task>, a: int, b: int, chosen: int)
    requires
        0 <= a < tasks.len(),
        0 <= b < tasks.len(),
        tasks[a].state == TaskState::Ready,
        tasks[b].state == TaskState::Ready,
        tasks[a].priority@ == tasks[b].priority@,
        tasks[a].id < tasks[b].id,
        is_next(tasks, chosen),
    ensures
        chosen != b,
{
    if chosen == b {
        assert(runs_before(tasks[a], tasks[chosen]));
    }
}

} // verus!

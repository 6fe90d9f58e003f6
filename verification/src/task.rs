//! Tasks and the queue of tasks that are ready to run.

use std::collections::VecDeque;
use std::sync::Arc;
use vstd::prelude::*;

verus! {

/// The status of a task.
#[derive(Copy, Clone, Debug, PartialEq, Eq, Structural)]
pub enum TaskStatus {
    /// Not initialised yet.
    UnInit,
    /// Ready to run.
    Ready,
    /// Running.
    Running,
    /// Exited.
    Exited,
}

/// The registers that a task switch saves.
#[derive(Copy, Clone, Debug)]
pub struct TaskContext {
    /// Return address.
    pub ra: usize,
    /// Stack pointer.
    pub sp: usize,
    /// Callee-saved registers.
    pub s: [usize; 12],
}

/// How often a task has made each system call: a hash map of the `hashbrown`
/// crate from system-call number to count. Verus does not look inside; the
/// contents are spoken of through [`syscall_counts`].
#[verifier::external_body]
pub struct SyscallTimes {
    inner: hashbrown::HashMap<usize, u32>,
}

/// What a [`SyscallTimes`] holds: the count of each system call that has one.
pub uninterp spec fn syscall_counts(times: SyscallTimes) -> Map<usize, u32>;

/// The counts of a task that has made no system call.
pub open spec fn no_counts() -> Map<usize, u32> {
    Map::empty()
}

impl SyscallTimes {
    /// `hashbrown::HashMap::new`: a map that holds nothing.
    #[verifier::external_body]
    pub(crate) fn empty() -> (times: SyscallTimes)
        ensures
            syscall_counts(times) == no_counts(),
    {
        SyscallTimes { inner: hashbrown::HashMap::new() }
    }

    /// `hashbrown::HashMap::get`: the count stored for `id`, if there is one.
    #[verifier::external_body]
    pub(crate) fn get(&self, id: usize) -> (count: Option<u32>)
        ensures
            count == (if syscall_counts(*self).dom().contains(id) {
                Some(syscall_counts(*self)[id])
            } else {
                None
            }),
    {
        self.inner.get(&id).copied()
    }

    /// `hashbrown::HashMap::insert`: afterwards `id` has the count `count`,
    /// and every other number has the count it had.
    #[verifier::external_body]
    pub(crate) fn insert(&mut self, id: usize, count: u32)
        ensures
            syscall_counts(*final(self)) == syscall_counts(*old(self)).insert(id, count),
    {
        self.inner.insert(id, count);
    }
}

impl Clone for SyscallTimes {
    /// `Clone` of `hashbrown::HashMap`: a map that holds the same counts.
    #[verifier::external_body]
    fn clone(&self) -> (copy: SyscallTimes)
        ensures
            syscall_counts(copy) == syscall_counts(*self),
    {
        SyscallTimes { inner: self.inner.clone() }
    }
}

/// The count that `counts` holds for the system call `id`: zero where it
/// holds none.
pub open spec fn count_of(counts: Map<usize, u32>, id: usize) -> u32 {
    if counts.dom().contains(id) {
        counts[id]
    } else {
        0
    }
}

/// The control block of a task.
pub struct TaskControlBlock {
    /// The status of the task.
    pub task_status: TaskStatus,
    /// The saved registers.
    pub task_cx: TaskContext,
    /// Count of each system call the task has made.
    pub syscall_times: SyscallTimes,
    /// When the task first ran, in microseconds.
    pub first_start_time: Option<usize>,
    /// The stride of the task: the queue hands out the lowest first.
    pub stride: usize,
}

impl Clone for TaskControlBlock {
    fn clone(&self) -> (copy: TaskControlBlock)
        ensures
            copy.task_status == self.task_status,
            copy.task_cx == self.task_cx,
            copy.first_start_time == self.first_start_time,
            copy.stride == self.stride,
            syscall_counts(copy.syscall_times) == syscall_counts(self.syscall_times),
    {
        TaskControlBlock {
            task_status: self.task_status,
            task_cx: self.task_cx,
            syscall_times: self.syscall_times.clone(),
            first_start_time: self.first_start_time,
            stride: self.stride,
        }
    }
}

impl TaskControlBlock {
    /// A task that has not run yet and has made no system call.
    pub fn new(task_cx: TaskContext, stride: usize) -> (task: TaskControlBlock)
        ensures
            task.task_status == TaskStatus::UnInit,
            task.task_cx == task_cx,
            task.first_start_time is None,
            task.stride == stride,
            syscall_counts(task.syscall_times) == no_counts(),
    {
        TaskControlBlock {
            task_status: TaskStatus::UnInit,
            task_cx,
            syscall_times: SyscallTimes::empty(),
            first_start_time: None,
            stride,
        }
    }

    /// Counts one more call of the system call `id`. A count that has
    /// reached the largest number stays there.
    pub fn record_syscall(&mut self, id: usize)
        ensures
            syscall_counts(final(self).syscall_times) == syscall_counts(
                old(self).syscall_times,
            ).insert(
                id,
                if count_of(syscall_counts(old(self).syscall_times), id) < u32::MAX {
                    (count_of(syscall_counts(old(self).syscall_times), id) + 1) as u32
                } else {
                    u32::MAX
                },
            ),
            final(self).task_status == old(self).task_status,
            final(self).task_cx == old(self).task_cx,
            final(self).first_start_time == old(self).first_start_time,
            final(self).stride == old(self).stride,
    {
        let seen: u32 = match self.syscall_times.get(id) {
            Some(n) => n,
            None => 0,
        };
        let next: u32 = if seen < u32::MAX {
            seen + 1
        } else {
            seen
        };
        self.syscall_times.insert(id, next);
    }
}

/// `m` is the place of the task that the queue hands out next: the first
/// among those with the lowest stride.
pub open spec fn first_lowest(queue: Seq<Arc<TaskControlBlock>>, m: int) -> bool {
    &&& 0 <= m < queue.len()
    &&& forall|j: int| 0 <= j < queue.len() ==> queue[m].stride <= (#[trigger] queue[j]).stride
    &&& forall|j: int| 0 <= j < m ==> queue[m].stride < (#[trigger] queue[j]).stride
}

/// The tasks that are ready to run, in the order in which they were added.
pub struct TaskManager {
    pub ready_queue: VecDeque<Arc<TaskControlBlock>>,
}

impl TaskManager {
    /// An empty queue.
    pub fn new() -> (manager: TaskManager)
        ensures
            manager.ready_queue@.len() == 0,
    {
        TaskManager { ready_queue: VecDeque::new() }
    }

    /// Puts a task at the back of the queue.
    pub fn add(&mut self, task: Arc<TaskControlBlock>)
        ensures
            final(self).ready_queue@ == old(self).ready_queue@.push(task),
    {
        self.ready_queue.push_back(task);
    }

    /// Takes out the task with the lowest stride; among several, the one
    /// that was added first. The others keep their order.
    pub fn fetch(&mut self) -> (task: Option<Arc<TaskControlBlock>>)
        ensures
            old(self).ready_queue@.len() == 0 ==> task is None && final(self).ready_queue@ == old(
                self,
            ).ready_queue@,
            old(self).ready_queue@.len() > 0 ==> exists|m: int|
                first_lowest(old(self).ready_queue@, m) && task == Some(
                    #[trigger] old(self).ready_queue@[m],
                ) && final(self).ready_queue@ == old(self).ready_queue@.remove(m),
    {
        if self.ready_queue.len() == 0 {
            return None;
        }
        let mut min_index: usize = 0;
        let mut min_stride: usize = self.ready_queue[0].stride;
        let mut i: usize = 1;
        while i < self.ready_queue.len()
            invariant
                1 <= i <= self.ready_queue@.len(),
                self.ready_queue == old(self).ready_queue,
                0 <= min_index < i,
                min_stride == self.ready_queue@[min_index as int].stride,
                forall|j: int| 0 <= j < i ==> min_stride <= (#[trigger] self.ready_queue@[j]).stride,
                forall|j: int|
                    0 <= j < min_index ==> min_stride < (#[trigger] self.ready_queue@[j]).stride,
            decreases self.ready_queue@.len() - i,
        {
            let stride: usize = self.ready_queue[i].stride;
            if min_stride > stride {
                min_index = i;
                min_stride = stride;
            }
            i = i + 1;
        }
        assert(first_lowest(old(self).ready_queue@, min_index as int));
        self.ready_queue.remove(min_index)
    }
}

} // verus!

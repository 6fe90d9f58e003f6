//! What the process-management system calls decide and compute. The kernel
//! around them reads the clock, switches tasks and maps memory; the results
//! of that work come in as arguments.

use crate::task::{count_of, syscall_counts, TaskControlBlock, TaskStatus};
use vstd::prelude::*;

verus! {

/// Number of system calls that a task's counts are reported for.
pub const MAX_SYSCALL_NUM: usize = 500;

/// Size in bytes of a page of memory.
pub const PAGE_SIZE: usize = 4096;

/// Microseconds in a second.
pub const USEC_PER_SEC: usize = 1_000_000;

/// Microseconds in a millisecond.
pub const USEC_PER_MSEC: usize = 1000;

/// A point in time as seconds and microseconds.
#[derive(Clone, Copy, Debug, PartialEq, Eq, Structural)]
pub struct TimeVal {
    pub sec: usize,
    pub usec: usize,
}

/// What a task is told about itself.
pub struct TaskInfo {
    /// The status of the task.
    pub status: TaskStatus,
    /// How often the task has made each system call.
    pub syscall_times: Vec<u32>,
    /// How long the task has been running, in milliseconds.
    pub time: usize,
}

/// The access that a mapping grants, as the bits of a page-table entry.
#[derive(Clone, Copy, Debug, PartialEq, Eq, Structural)]
pub struct MapPermission {
    pub bits: u8,
}

/// Readable.
pub const PERM_R: u8 = 2;

/// Writable.
pub const PERM_W: u8 = 4;

/// Executable.
pub const PERM_X: u8 = 8;

/// Accessible in user mode.
pub const PERM_U: u8 = 16;

/// Whether an address lies on a page boundary.
pub open spec fn page_aligned(addr: usize) -> bool {
    addr % PAGE_SIZE == 0
}

/// Whether `prot` is a protection that can be mapped: of its bits only the
/// lowest three may be set, and one of them must be.
pub open spec fn prot_valid(prot: usize) -> bool {
    1 <= prot <= 7
}

/// The permission bits that a mapping with protection `prot` gets: user
/// access always, read access for bit 0, and both write and execute access
/// for bit 1. Bit 2 grants nothing.
pub open spec fn prot_bits(prot: usize) -> int {
    PERM_U + (if prot % 2 == 1 {
        PERM_R as int
    } else {
        0
    }) + (if (prot / 2) % 2 == 1 {
        PERM_W + PERM_X
    } else {
        0
    })
}

/// The task gives up the processor. The call always succeeds.
pub fn sys_yield() -> (status: isize)
    ensures
        status == 0,
{
    0
}

/// Stores the time `us`, given in microseconds, as seconds and microseconds.
pub fn sys_get_time(ts: &mut TimeVal, _tz: usize, us: usize) -> (status: isize)
    ensures
        status == 0,
        final(ts).sec == us / USEC_PER_SEC,
        final(ts).usec == us % USEC_PER_SEC,
{
    ts.sec = us / USEC_PER_SEC;
    ts.usec = us % USEC_PER_SEC;
    0
}

/// Reports on the running task at the time `now_us`: that it is running,
/// how often it has made each system call, and for how many milliseconds it
/// has run. Fails with -1, storing nothing, for a task that has not started.
pub fn sys_task_info(ti: &mut TaskInfo, now_us: usize, task: &TaskControlBlock) -> (status: isize)
    requires
        task.first_start_time matches Some(start) ==> start <= now_us,
    ensures
        task.first_start_time is None ==> status == -1 && *final(ti) == *old(ti),
        task.first_start_time matches Some(start) ==> (status == 0 && final(ti).status
            == TaskStatus::Running && final(ti).time == (now_us - start) / (USEC_PER_MSEC as int)
            && final(ti).syscall_times@.len() == MAX_SYSCALL_NUM && forall|id: int|
            0 <= id < MAX_SYSCALL_NUM ==> (#[trigger] final(ti).syscall_times@[id]) == count_of(
                syscall_counts(task.syscall_times),
                id as usize,
            )),
{
    let start: usize = match task.first_start_time {
        Some(x) => x,
        None => {
            return -1;
        },
    };
    let mut syscall_times: Vec<u32> = Vec::new();
    let mut id: usize = 0;
    while id < MAX_SYSCALL_NUM
        invariant
            id <= MAX_SYSCALL_NUM,
            syscall_times@.len() == id,
            forall|k: int|
                0 <= k < id ==> (#[trigger] syscall_times@[k]) == count_of(
                    syscall_counts(task.syscall_times),
                    k as usize,
                ),
        decreases MAX_SYSCALL_NUM - id,
    {
        let count: u32 = match task.syscall_times.get(id) {
            Some(n) => n,
            None => 0,
        };
        syscall_times.push(count);
        id = id + 1;
    }
    ti.status = TaskStatus::Running;
    ti.syscall_times = syscall_times;
    ti.time = (now_us - start) / USEC_PER_MSEC;
    0
}

/// Decides on a request to map `len` bytes at `start` with protection
/// `prot`. An invalid protection or an address off a page boundary is
/// refused with -1; otherwise the permission to map with is returned.
pub fn sys_mmap(start: usize, len: usize, prot: usize) -> (decision: Result<MapPermission, isize>)
    ensures
        !prot_valid(prot) || !page_aligned(start) ==> decision == Err::<MapPermission, isize>(-1isize),
        prot_valid(prot) && page_aligned(start) ==> (decision matches Ok(permission)
            && permission.bits == prot_bits(prot)),
{
    if prot > 7 {
        return Err(-1);
    }
    if prot == 0 {
        return Err(-1);
    }
    let mut bits: u8 = PERM_U;
    if prot % 2 == 1 {
        bits = bits + PERM_R;
    }
    if (prot / 2) % 2 == 1 {
        bits = bits + PERM_W;
    }
    if (prot / 2) % 2 == 1 {
        bits = bits + PERM_X;
    }
    if start % PAGE_SIZE != 0 {
        return Err(-1);
    }
    Ok(MapPermission { bits })
}

/// Decides on a request to unmap `len` bytes at `start`: an address off a
/// page boundary is refused with -1; otherwise the range to unmap is returned.
pub fn sys_munmap(start: usize, len: usize) -> (decision: Result<(usize, usize), isize>)
    ensures
        page_aligned(start) ==> decision == Ok::<(usize, usize), isize>((start, len)),
        !page_aligned(start) ==> decision == Err::<(usize, usize), isize>(-1isize),
{
    if start % PAGE_SIZE != 0 {
        return Err(-1);
    }
    Ok((start, len))
}

/// The result of a request to move the end of the data segment: the former
/// end where the move was made, -1 where it was refused.
pub fn sys_sbrk(_size: i32, old_brk: Option<usize>) -> (status: isize)
    ensures
        match old_brk {
            Some(brk) => status == brk as isize,
            None => status == -1,
        },
{
    match old_brk {
        Some(brk) => #[verifier::truncate]
        (brk as isize),
        None => -1,
    }
}

} // verus!

use easy_fs::syscall::{
    sys_get_time, sys_mmap, sys_munmap, sys_sbrk, sys_task_info, sys_yield, MapPermission,
    TaskInfo, TimeVal, MAX_SYSCALL_NUM,
};
use easy_fs::task::{TaskContext, TaskControlBlock, TaskManager, TaskStatus};
use std::sync::Arc;

fn task(stride: usize) -> TaskControlBlock {
    TaskControlBlock::new(TaskContext { ra: 0, sp: 0, s: [0; 12] }, stride)
}

#[test]
fn yield_succeeds() {
    assert_eq!(sys_yield(), 0);
}

#[test]
fn time_is_split_into_seconds_and_microseconds() {
    let mut ts = TimeVal { sec: 0, usec: 0 };
    assert_eq!(sys_get_time(&mut ts, 0, 1_234_567), 0);
    assert_eq!(ts, TimeVal { sec: 1, usec: 234_567 });
    assert_eq!(sys_get_time(&mut ts, 0, 999_999), 0);
    assert_eq!(ts, TimeVal { sec: 0, usec: 999_999 });
}

#[test]
fn mmap_refuses_bad_protection() {
    assert_eq!(sys_mmap(0x1000, 4096, 0), Err(-1));
    assert_eq!(sys_mmap(0x1000, 4096, 8), Err(-1));
    assert_eq!(sys_mmap(0x1000, 4096, 0x13), Err(-1));
}

#[test]
fn mmap_refuses_unaligned_start() {
    assert_eq!(sys_mmap(0x1001, 4096, 3), Err(-1));
    assert_eq!(sys_munmap(0x1fff, 4096), Err(-1));
}

#[test]
fn mmap_permission_follows_the_protection() {
    assert_eq!(sys_mmap(0x1000, 4096, 1), Ok(MapPermission { bits: 18 }));
    assert_eq!(sys_mmap(0x1000, 4096, 2), Ok(MapPermission { bits: 28 }));
    assert_eq!(sys_mmap(0x1000, 4096, 3), Ok(MapPermission { bits: 30 }));
    assert_eq!(sys_mmap(0x1000, 4096, 4), Ok(MapPermission { bits: 16 }));
    assert_eq!(sys_mmap(0, 1, 7), Ok(MapPermission { bits: 30 }));
}

#[test]
fn munmap_hands_the_range_on() {
    assert_eq!(sys_munmap(0x2000, 8192), Ok((0x2000, 8192)));
}

#[test]
fn sbrk_reports_the_former_break() {
    assert_eq!(sys_sbrk(16, Some(0x8000)), 0x8000);
    assert_eq!(sys_sbrk(-16, None), -1);
}

#[test]
fn task_info_reports_counts_and_time() {
    let mut t = task(0);
    t.first_start_time = Some(1_000);
    t.record_syscall(64);
    t.record_syscall(64);
    t.record_syscall(93);
    t.record_syscall(700);
    let mut ti = TaskInfo { status: TaskStatus::UnInit, syscall_times: Vec::new(), time: 0 };
    assert_eq!(sys_task_info(&mut ti, 5_999, &t), 0);
    assert!(ti.status == TaskStatus::Running);
    assert_eq!(ti.time, 4);
    assert_eq!(ti.syscall_times.len(), MAX_SYSCALL_NUM);
    assert_eq!(ti.syscall_times[64], 2);
    assert_eq!(ti.syscall_times[93], 1);
    assert_eq!(ti.syscall_times[0], 0);
}

#[test]
fn task_info_fails_before_the_first_start() {
    let t = task(0);
    let mut ti = TaskInfo { status: TaskStatus::UnInit, syscall_times: vec![3], time: 9 };
    assert_eq!(sys_task_info(&mut ti, 5_000, &t), -1);
    assert!(ti.status == TaskStatus::UnInit);
    assert_eq!(ti.syscall_times, vec![3]);
    assert_eq!(ti.time, 9);
}

#[test]
fn fetch_takes_the_lowest_stride() {
    let mut m = TaskManager::new();
    assert!(m.fetch().is_none());
    m.add(Arc::new(task(30)));
    m.add(Arc::new(task(10)));
    m.add(Arc::new(task(20)));
    m.add(Arc::new(task(10)));
    let first = m.fetch().unwrap();
    assert_eq!(first.stride, 10);
    let left: Vec<usize> = m.ready_queue.iter().map(|t| t.stride).collect();
    assert_eq!(left, vec![30, 20, 10]);
    assert_eq!(m.fetch().unwrap().stride, 10);
    assert_eq!(m.fetch().unwrap().stride, 20);
    assert_eq!(m.fetch().unwrap().stride, 30);
    assert!(m.fetch().is_none());
}

#[test]
fn fetch_takes_the_first_of_equal_strides() {
    let mut m = TaskManager::new();
    let mut a = task(5);
    a.first_start_time = Some(1);
    let mut b = task(5);
    b.first_start_time = Some(2);
    m.add(Arc::new(a));
    m.add(Arc::new(b));
    assert_eq!(m.fetch().unwrap().first_start_time, Some(1));
    assert_eq!(m.fetch().unwrap().first_start_time, Some(2));
}

#[test]
fn cloned_task_keeps_its_counts() {
    let mut t = task(7);
    t.first_start_time = Some(10);
    t.record_syscall(3);
    let mut copy = t.clone();
    copy.record_syscall(3);
    let mut ti = TaskInfo { status: TaskStatus::UnInit, syscall_times: Vec::new(), time: 0 };
    assert_eq!(sys_task_info(&mut ti, 10, &copy), 0);
    assert_eq!(ti.syscall_times[3], 2);
    assert_eq!(ti.time, 0);
    assert_eq!(sys_task_info(&mut ti, 2_010, &t), 0);
    assert_eq!(ti.syscall_times[3], 1);
    assert_eq!(ti.time, 2);
    assert_eq!(copy.stride, 7);
}

//! Inode handles that share one filesystem behind a spin lock. Each
//! operation holds the lock from its first step to its last, so at most one
//! of them works on the registry at any time.
//!
//! What the lock holds when it is taken depends on the other holders, so an
//! operation first tests what the operation on the registry demands, and
//! reports a [`Fatal`] condition where the test fails.

use crate::fallible::{
    clear_outcome, create_outcome, find_outcome, linkat_outcome, ls_outcome, read_outcome,
    stat_outcome, unlinkat_outcome, write_outcome, Fatal,
};
use crate::efs::FileSystem;
use crate::vfs::{root_inode, Inode, Stat};
use std::sync::Arc;
use vstd::prelude::*;

verus! {

/// The spin lock of the `spin` crate.
#[verifier::external_type_specification]
#[verifier::external_body]
#[verifier::reject_recursive_types(T)]
pub struct ExMutex<T: ?Sized>(spin::Mutex<T>);

/// The guard that holds a spin lock until it is dropped.
#[verifier::external_type_specification]
#[verifier::external_body]
#[verifier::reject_recursive_types(T)]
pub struct ExMutexGuard<'a, T: 'a + ?Sized>(spin::MutexGuard<'a, T>);

/// `spin::Mutex::new`: a lock around `fs`, for handles to share.
#[verifier::external_body]
fn guard_fs(fs: FileSystem) -> (lock: spin::Mutex<FileSystem>) {
    spin::Mutex::new(fs)
}

/// `spin::Mutex::lock`: waits for the lock and returns its guard. What the
/// lock holds is whatever its last holder left there. The call does not
/// return while another guard of the same lock is alive; every operation
/// here takes the lock once and drops its guard at its end.
#[verifier::external_body]
fn lock_fs<'a>(lock: &'a spin::Mutex<FileSystem>) -> (guard: spin::MutexGuard<'a, FileSystem>) {
    lock.lock()
}

/// `DerefMut` of `spin::MutexGuard`: the registry that the held lock guards.
#[verifier::external_body]
fn locked_fs<'a, 'b>(guard: &'a mut spin::MutexGuard<'b, FileSystem>) -> (fs: &'a mut FileSystem) {
    &mut **guard
}

/// `Arc::clone`: another reference to the same lock.
#[verifier::external_body]
fn share_lock(lock: &Arc<spin::Mutex<FileSystem>>) -> (shared: Arc<spin::Mutex<FileSystem>>)
    ensures
        shared == *lock,
{
    Arc::clone(lock)
}

/// A handle on one object of a filesystem that other handles share.
pub struct SharedInode {
    pub inode: Inode,
    pub fs: Arc<spin::Mutex<FileSystem>>,
}

/// Mounts a fresh filesystem with the given areas and returns the handle on
/// its root directory; nothing where the areas do not fit the block numbers.
pub fn mount(inode_area_blocks: u32, data_area_blocks: u32) -> (root: Option<SharedInode>)
    ensures
        root is Some <==> 1 <= inode_area_blocks <= u32::MAX / 4 && 2 + inode_area_blocks
            + data_area_blocks <= u32::MAX,
        root matches Some(r) ==> r.inode == (Inode { block_id: 2, block_offset: 0, inode_id: 0 }),
{
    if inode_area_blocks < 1 || inode_area_blocks > u32::MAX / 4 {
        return None;
    }
    if data_area_blocks > u32::MAX - 2 - inode_area_blocks {
        return None;
    }
    let fs: FileSystem = FileSystem::new(inode_area_blocks, data_area_blocks);
    let inode: Inode = root_inode(&fs);
    Some(SharedInode { inode, fs: Arc::new(guard_fs(fs)) })
}

/// A result with each shared handle replaced by the inode handle it holds.
pub open spec fn bare(found: Result<Option<SharedInode>, Fatal>) -> Result<Option<Inode>, Fatal> {
    match found {
        Ok(Some(h)) => Ok(Some(h.inode)),
        Ok(None) => Ok(None),
        Err(f) => Err(f),
    }
}

impl SharedInode {
    /// The handle on `inode` that shares this handle's filesystem.
    fn sibling(&self, inode: Inode) -> (other: SharedInode)
        ensures
            other.inode == inode,
            other.fs == self.fs,
    {
        SharedInode { inode, fs: share_lock(&self.fs) }
    }

    /// Finds the object that `name` resolves to in this directory: the
    /// outcome is that of `try_find` for this handle's inode and `name` on the
    /// registry that the lock held, and a handle that is found shares the lock.
    pub fn find(&self, name: &str) -> (found: Result<Option<SharedInode>, Fatal>)
        ensures
            found matches Ok(Some(h)) ==> h.fs == self.fs,
            exists|held: FileSystem| #[trigger]
                find_outcome(self.inode, name@, &held, bare(found)),
    {
        let mut guard = lock_fs(&self.fs);
        let fs = locked_fs(&mut guard);
        let ghost held = *fs;
        let found = match self.inode.try_find(name, fs) {
            Ok(Some(inode)) => Ok(Some(self.sibling(inode))),
            Ok(None) => Ok(None),
            Err(f) => Err(f),
        };
        proof {
            assert(find_outcome(self.inode, name@, &held, bare(found)));
        }
        found
    }

    /// Creates an empty file named `name` in this directory, unless the name
    /// is taken: the outcome is that of `try_create` for this handle's inode
    /// and `name` on the registry that the lock held, and a handle that is
    /// created shares the lock.
    pub fn create(&self, name: &str) -> (created: Result<Option<SharedInode>, Fatal>)
        ensures
            created matches Ok(Some(h)) ==> h.fs == self.fs,
            exists|before: FileSystem, after: FileSystem| #[trigger]
                create_outcome(self.inode, name@, &before, &after, bare(created)),
    {
        let mut guard = lock_fs(&self.fs);
        let fs = locked_fs(&mut guard);
        let ghost before = *fs;
        let made = self.inode.try_create(name, fs);
        let ghost after = *fs;
        let created = match made {
            Ok(Some(inode)) => Ok(Some(self.sibling(inode))),
            Ok(None) => Ok(None),
            Err(f) => Err(f),
        };
        proof {
            assert(create_outcome(self.inode, name@, &before, &after, bare(created)));
        }
        created
    }

    /// Lists the live names of this directory: the outcome is that of
    /// `try_ls` for this handle's inode on the registry that the lock held.
    pub fn ls(&self) -> (names: Result<Vec<String>, Fatal>)
        ensures
            exists|held: FileSystem| #[trigger] ls_outcome(self.inode, &held, names),
    {
        let mut guard = lock_fs(&self.fs);
        let fs = locked_fs(&mut guard);
        let ghost held = *fs;
        let names = self.inode.try_ls(fs);
        proof {
            assert(ls_outcome(self.inode, &held, names));
        }
        names
    }

    /// Links `old_name` to `new_name`. Equal names fail with -1 before the
    /// lock is taken. For different names the outcome is that of `try_linkat`
    /// for this handle's inode and the two names on the registry that the
    /// lock held.
    pub fn linkat(&self, old_name: &str, new_name: &str) -> (status: Result<isize, Fatal>)
        ensures
            old_name@ == new_name@ ==> status == Ok::<isize, Fatal>(-1isize),
            status matches Ok(s) ==> s == 0 || s == -1,
            old_name@ != new_name@ ==> exists|before: FileSystem, after: FileSystem| #[trigger]
                linkat_outcome(self.inode, old_name@, new_name@, &before, &after, status),
    {
        if crate::dirent::same_name(old_name, new_name) {
            return Ok(-1);
        }
        let mut guard = lock_fs(&self.fs);
        let fs = locked_fs(&mut guard);
        let ghost before = *fs;
        let status = self.inode.try_linkat(old_name, new_name, fs);
        let ghost after = *fs;
        proof {
            assert(linkat_outcome(self.inode, old_name@, new_name@, &before, &after, status));
        }
        status
    }

    /// Unlinks `old_name`: the outcome is that of `try_unlinkat` for this
    /// handle's inode and `old_name` on the registry that the lock held.
    pub fn unlinkat(&self, old_name: &str) -> (status: Result<isize, Fatal>)
        ensures
            status matches Ok(s) ==> s == 0 || s == -1,
            exists|before: FileSystem, after: FileSystem| #[trigger]
                unlinkat_outcome(self.inode, old_name@, &before, &after, status),
    {
        let mut guard = lock_fs(&self.fs);
        let fs = locked_fs(&mut guard);
        let ghost before = *fs;
        let status = self.inode.try_unlinkat(old_name, fs);
        let ghost after = *fs;
        proof {
            assert(unlinkat_outcome(self.inode, old_name@, &before, &after, status));
        }
        status
    }

    /// Reads from this file at `offset` into `buf`: the outcome is that of
    /// `try_read_at` for this handle's inode, `offset` and `buf` on the
    /// registry that the lock held. So the bytes of `buf` behind those that
    /// were read stay as they were.
    pub fn read_at(&self, offset: usize, buf: &mut Vec<u8>) -> (n: Result<usize, Fatal>)
        ensures
            final(buf)@.len() == old(buf)@.len(),
            n matches Ok(count) ==> count <= old(buf)@.len() && forall|i: int|
                count <= i < old(buf)@.len() ==> final(buf)@[i] == old(buf)@[i],
            n is Err ==> final(buf)@ == old(buf)@,
            exists|held: FileSystem| #[trigger]
                read_outcome(self.inode, offset as int, old(buf)@, final(buf)@, &held, n),
    {
        let mut guard = lock_fs(&self.fs);
        let fs = locked_fs(&mut guard);
        let ghost held = *fs;
        let n = self.inode.try_read_at(offset, buf, fs);
        proof {
            assert(read_outcome(self.inode, offset as int, old(buf)@, buf@, &held, n));
        }
        n
    }

    /// Writes `buf` into this file at `offset`: the outcome is that of
    /// `try_write_at` for this handle's inode, `offset` and `buf` on the
    /// registry that the lock held. So all of `buf` is written or nothing is,
    /// and a range that ends behind the largest size is refused.
    pub fn write_at(&self, offset: usize, buf: &[u8]) -> (n: Result<usize, Fatal>)
        ensures
            n matches Ok(count) ==> count == buf@.len(),
            offset + buf@.len() > u32::MAX ==> n is Err,
            exists|before: FileSystem, after: FileSystem| #[trigger]
                write_outcome(self.inode, offset as int, buf@, &before, &after, n),
    {
        let mut guard = lock_fs(&self.fs);
        let fs = locked_fs(&mut guard);
        let ghost before = *fs;
        let n = self.inode.try_write_at(offset, buf, fs);
        let ghost after = *fs;
        proof {
            assert(write_outcome(self.inode, offset as int, buf@, &before, &after, n));
        }
        n
    }

    /// Empties this inode and frees its blocks: the outcome is that of
    /// `try_clear` for this handle's inode on the registry that the lock
    /// held. The only failure is a corrupt registry or a foreign handle.
    pub fn clear(&self) -> (done: Result<(), Fatal>)
        ensures
            done is Err ==> done == Err::<(), Fatal>(Fatal::Corrupt),
            exists|before: FileSystem, after: FileSystem| #[trigger]
                clear_outcome(self.inode, &before, &after, done),
    {
        let mut guard = lock_fs(&self.fs);
        let fs = locked_fs(&mut guard);
        let ghost before = *fs;
        let done = self.inode.try_clear(fs);
        let ghost after = *fs;
        proof {
            assert(clear_outcome(self.inode, &before, &after, done));
        }
        done
    }

    /// A snapshot of this inode's type, number and link count: the outcome
    /// is that of `try_stat` for this handle's inode on the registry that the
    /// lock held.
    pub fn stat(&self) -> (st: Result<Stat, Fatal>)
        ensures
            st matches Ok(s) ==> s.inode_id == self.inode.inode_id && s.is_dir != s.is_file,
            st is Err ==> st == Err::<Stat, Fatal>(Fatal::Corrupt),
            exists|held: FileSystem| #[trigger] stat_outcome(self.inode, &held, st),
    {
        let mut guard = lock_fs(&self.fs);
        let fs = locked_fs(&mut guard);
        let ghost held = *fs;
        let st = self.inode.try_stat(fs);
        proof {
            assert(stat_outcome(self.inode, &held, st));
        }
        st
    }
}

} // verus!

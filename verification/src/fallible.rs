//! The operations of an inode on a registry of which nothing is known: each
//! first tests what the operation demands, and reports a [`Fatal`] condition,
//! changing nothing, where the test fails.

use crate::dirent::{live_names, lookup, same_name};
use crate::disk::{blocks_spanned, clamped_len, filled, DiskInode, DiskInodeType};
use crate::efs::FileSystem;
use crate::vfs::{
    after_clear, after_create, after_linkat, after_unlinkat, after_write_at, can_append,
    handle_of, link_count, Inode, Stat,
};
use vstd::prelude::*;

verus! {

/// A condition that no operation recovers from.
#[derive(Clone, Copy, Debug, PartialEq, Eq, Structural)]
pub enum Fatal {
    /// The registry is inconsistent, or the handle is not one of its inodes,
    /// or a name resolves to an inode without a link.
    Corrupt,
    /// A directory operation on a file, or a file operation on a directory.
    WrongType,
    /// No inode or data block is left, or a size or count is at its limit.
    Exhausted,
}

/// What stops every operation of the handle `this` on `fs`: an inconsistent
/// registry or a handle that is not its own; and, where the operation wants
/// an inode of the type `want`, an inode of the other type.
pub open spec fn handle_fault(this: Inode, fs: &FileSystem, want: Option<DiskInodeType>) -> Option<
    Fatal,
> {
    if !fs.wf() || !this.valid(fs) {
        Some(Fatal::Corrupt)
    } else if want is Some && fs.inodes@[this.inode_id as int].kind != want.unwrap() {
        Some(Fatal::WrongType)
    } else {
        None
    }
}

/// What stops `create`: a fault of the handle, or, where the name is free,
/// no inode or no room for the record.
pub open spec fn create_fault(this: Inode, name: Seq<char>, fs: &FileSystem) -> Option<Fatal> {
    if handle_fault(this, fs, Some(DiskInodeType::Directory)) is Some {
        handle_fault(this, fs, Some(DiskInodeType::Directory))
    } else if lookup(fs.dir(this.inode_id as int), name) is None && !(fs.inode_available()
        && can_append(fs, this.inode_id as int)) {
        Some(Fatal::Exhausted)
    } else {
        None
    }
}

/// What stops `linkat` of two different names: a fault of the handle, or,
/// where the old name resolves, no room for the record or a link count at
/// its limit.
pub open spec fn linkat_fault(this: Inode, old_name: Seq<char>, fs: &FileSystem) -> Option<Fatal> {
    if handle_fault(this, fs, Some(DiskInodeType::Directory)) is Some {
        handle_fault(this, fs, Some(DiskInodeType::Directory))
    } else {
        match lookup(fs.dir(this.inode_id as int), old_name) {
            Some(id) if !can_append(fs, this.inode_id as int) || link_count(fs, id)
                >= u32::MAX => Some(Fatal::Exhausted),
            _ => None,
        }
    }
}

/// What stops `unlinkat`: a fault of the handle, or a name that resolves to
/// an inode without a link.
pub open spec fn unlinkat_fault(this: Inode, old_name: Seq<char>, fs: &FileSystem) -> Option<Fatal> {
    if handle_fault(this, fs, Some(DiskInodeType::Directory)) is Some {
        handle_fault(this, fs, Some(DiskInodeType::Directory))
    } else {
        match lookup(fs.dir(this.inode_id as int), old_name) {
            Some(id) if link_count(fs, id) == 0 => Some(Fatal::Corrupt),
            _ => None,
        }
    }
}

/// What stops `write_at`: a fault of the handle, a range that ends behind
/// the largest size, or too few blocks for the growth.
pub open spec fn write_fault(this: Inode, offset: int, len: int, fs: &FileSystem) -> Option<Fatal> {
    if handle_fault(this, fs, Some(DiskInodeType::File)) is Some {
        handle_fault(this, fs, Some(DiskInodeType::File))
    } else if offset + len > u32::MAX || fs.blocks_available() < blocks_spanned(offset + len)
        - blocks_spanned(fs.inodes@[this.inode_id as int].size as int) {
        Some(Fatal::Exhausted)
    } else {
        None
    }
}

/// `found` is what `find` of `name` through the handle `this` gives on the
/// registry `fs`: the fault of the handle, or else the handle on the inode
/// that the name resolves to.
pub open spec fn find_outcome(
    this: Inode,
    name: Seq<char>,
    fs: &FileSystem,
    found: Result<Option<Inode>, Fatal>,
) -> bool {
    match handle_fault(this, fs, Some(DiskInodeType::Directory)) {
        Some(f) => found == Err::<Option<Inode>, Fatal>(f),
        None => found == Ok::<Option<Inode>, Fatal>(
            match lookup(fs.dir(this.inode_id as int), name) {
                Some(id) => Some(handle_of(fs, id)),
                None => None,
            },
        ),
    }
}

/// `names` is what `ls` through the handle `this` gives on the registry
/// `fs`: the fault of the handle, or else the live names of the directory.
pub open spec fn ls_outcome(this: Inode, fs: &FileSystem, names: Result<Vec<String>, Fatal>) -> bool {
    match handle_fault(this, fs, Some(DiskInodeType::Directory)) {
        Some(f) => names == Err::<Vec<String>, Fatal>(f),
        None => names matches Ok(v) && v@.len() == live_names(fs.dir(this.inode_id as int)).len()
            && forall|k: int|
            0 <= k < v@.len() ==> (#[trigger] v@[k])@ == live_names(
                fs.dir(this.inode_id as int),
            )[k],
    }
}

/// `created` and `after` are what `create` of `name` through the handle
/// `this` makes of the registry `before`: a fault and no change, or else
/// what `create` does.
pub open spec fn create_outcome(
    this: Inode,
    name: Seq<char>,
    before: &FileSystem,
    after: &FileSystem,
    created: Result<Option<Inode>, Fatal>,
) -> bool {
    match create_fault(this, name, before) {
        Some(f) => created == Err::<Option<Inode>, Fatal>(f) && *after == *before,
        None => created matches Ok(c) && after_create(this, name, before, after, c),
    }
}

/// `status` and `after` are what `linkat` of `old_name` to `new_name` through
/// the handle `this` makes of the registry `before`: -1 and no change for
/// equal names, whatever the registry holds; for different names a fault and
/// no change, or else what `linkat` does.
pub open spec fn linkat_outcome(
    this: Inode,
    old_name: Seq<char>,
    new_name: Seq<char>,
    before: &FileSystem,
    after: &FileSystem,
    status: Result<isize, Fatal>,
) -> bool {
    if old_name == new_name {
        status == Ok::<isize, Fatal>(-1isize) && *after == *before
    } else {
        match linkat_fault(this, old_name, before) {
            Some(f) => status == Err::<isize, Fatal>(f) && *after == *before,
            None => status matches Ok(s) && after_linkat(
                this,
                old_name,
                new_name,
                before,
                after,
                s,
            ),
        }
    }
}

/// `st` is what `stat` through the handle `this` gives on the registry
/// `fs`: the fault of the handle, or else the type, number and link count of
/// its inode.
pub open spec fn stat_outcome(this: Inode, fs: &FileSystem, st: Result<Stat, Fatal>) -> bool {
    match handle_fault(this, fs, None) {
        Some(f) => st == Err::<Stat, Fatal>(f),
        None => st == Ok::<Stat, Fatal>(
            (Stat {
                is_dir: fs.inodes@[this.inode_id as int].kind == DiskInodeType::Directory,
                is_file: fs.inodes@[this.inode_id as int].kind == DiskInodeType::File,
                inode_id: this.inode_id,
                hard_link: fs.inodes@[this.inode_id as int].hard_link,
            }),
        ),
    }
}

/// `status` and `after` are what `unlinkat` of `old_name` through the handle
/// `this` makes of the registry `before`: a fault and no change, or else
/// what `unlinkat` does.
pub open spec fn unlinkat_outcome(
    this: Inode,
    old_name: Seq<char>,
    before: &FileSystem,
    after: &FileSystem,
    status: Result<isize, Fatal>,
) -> bool {
    match unlinkat_fault(this, old_name, before) {
        Some(f) => status == Err::<isize, Fatal>(f) && *after == *before,
        None => status matches Ok(s) && after_unlinkat(this, old_name, before, after, s),
    }
}

/// `n` and `filled_buf` are what `read_at` at `offset` through the handle
/// `this` gives on the registry `fs` for the buffer `buf`: a fault and the
/// buffer as it was, or else the clamped count and the buffer with that many
/// bytes of the file at its front.
pub open spec fn read_outcome(
    this: Inode,
    offset: int,
    buf: Seq<u8>,
    filled_buf: Seq<u8>,
    fs: &FileSystem,
    n: Result<usize, Fatal>,
) -> bool {
    match handle_fault(this, fs, Some(DiskInodeType::File)) {
        Some(f) => n == Err::<usize, Fatal>(f) && filled_buf == buf,
        None => n matches Ok(count) && count == clamped_len(
            fs.inodes@[this.inode_id as int].size as int,
            offset,
            buf.len() as int,
        ) && filled_buf == filled(
            buf,
            fs.inodes@[this.inode_id as int].data@,
            offset,
            count as int,
        ),
    }
}

/// `n` and `after` are what `write_at` of `src` at `offset` through the
/// handle `this` makes of the registry `before`: a fault and no change, or
/// else what `write_at` does.
pub open spec fn write_outcome(
    this: Inode,
    offset: int,
    src: Seq<u8>,
    before: &FileSystem,
    after: &FileSystem,
    n: Result<usize, Fatal>,
) -> bool {
    match write_fault(this, offset, src.len() as int, before) {
        Some(f) => n == Err::<usize, Fatal>(f) && *after == *before,
        None => n matches Ok(count) && after_write_at(this, offset, src, before, after, count),
    }
}

/// `done` and `after` are what `clear` through the handle `this` makes of
/// the registry `before`: a fault and no change, or else what `clear` does.
pub open spec fn clear_outcome(
    this: Inode,
    before: &FileSystem,
    after: &FileSystem,
    done: Result<(), Fatal>,
) -> bool {
    match handle_fault(this, before, None) {
        Some(f) => done == Err::<(), Fatal>(f) && *after == *before,
        None => done is Ok && after_clear(this, before, after),
    }
}

impl Inode {
    /// Tests what every operation of the handle demands of `fs`.
    pub fn fault(&self, fs: &FileSystem, want: Option<DiskInodeType>) -> (fault: Option<Fatal>)
        ensures
            fault == handle_fault(*self, fs, want),
    {
        if !fs.is_consistent() || !self.is_valid(fs) {
            return Some(Fatal::Corrupt);
        }
        let node: &DiskInode = self.read_disk_inode(fs);
        match want {
            Some(DiskInodeType::Directory) => if !node.is_dir() {
                return Some(Fatal::WrongType);
            },
            Some(DiskInodeType::File) => if !node.is_file() {
                return Some(Fatal::WrongType);
            },
            None => {},
        }
        None
    }

    /// `find` on any registry.
    pub fn try_find(&self, name: &str, fs: &FileSystem) -> (found: Result<Option<Inode>, Fatal>)
        ensures
            find_outcome(*self, name@, fs, found),
    {
        match self.fault(fs, Some(DiskInodeType::Directory)) {
            Some(f) => Err(f),
            None => Ok(self.find(name, fs)),
        }
    }

    /// `ls` on any registry.
    pub fn try_ls(&self, fs: &FileSystem) -> (names: Result<Vec<String>, Fatal>)
        ensures
            ls_outcome(*self, fs, names),
    {
        match self.fault(fs, Some(DiskInodeType::Directory)) {
            Some(f) => Err(f),
            None => Ok(self.ls(fs)),
        }
    }

    /// `create` on any registry.
    pub fn try_create(&self, name: &str, fs: &mut FileSystem) -> (created: Result<
        Option<Inode>,
        Fatal,
    >)
        ensures
            create_outcome(*self, name@, old(fs), final(fs), created),
    {
        match self.fault(fs, Some(DiskInodeType::Directory)) {
            Some(f) => {
                return Err(f);
            },
            None => {},
        }
        if self.find(name, fs).is_none() && !(fs.has_inode() && self.has_room(fs)) {
            return Err(Fatal::Exhausted);
        }
        Ok(self.create(name, fs))
    }

    /// `linkat` on any registry. Equal names fail with -1 whatever the
    /// registry holds.
    pub fn try_linkat(&self, old_name: &str, new_name: &str, fs: &mut FileSystem) -> (status: Result<
        isize,
        Fatal,
    >)
        ensures
            linkat_outcome(*self, old_name@, new_name@, old(fs), final(fs), status),
    {
        if same_name(old_name, new_name) {
            return Ok(-1);
        }
        match self.fault(fs, Some(DiskInodeType::Directory)) {
            Some(f) => {
                return Err(f);
            },
            None => {},
        }
        match self.find(old_name, fs) {
            Some(target) => {
                if !self.has_room(fs) || target.read_disk_inode(fs).hard_link == u32::MAX {
                    return Err(Fatal::Exhausted);
                }
            },
            None => {},
        }
        Ok(self.linkat(old_name, new_name, fs))
    }

    /// `unlinkat` on any registry.
    pub fn try_unlinkat(&self, old_name: &str, fs: &mut FileSystem) -> (status: Result<isize, Fatal>)
        ensures
            unlinkat_outcome(*self, old_name@, old(fs), final(fs), status),
    {
        match self.fault(fs, Some(DiskInodeType::Directory)) {
            Some(f) => {
                return Err(f);
            },
            None => {},
        }
        match self.find(old_name, fs) {
            Some(target) => {
                if target.read_disk_inode(fs).hard_link == 0 {
                    return Err(Fatal::Corrupt);
                }
            },
            None => {},
        }
        Ok(self.unlinkat(old_name, fs))
    }

    /// `read_at` on any registry.
    pub fn try_read_at(&self, offset: usize, buf: &mut Vec<u8>, fs: &FileSystem) -> (n: Result<
        usize,
        Fatal,
    >)
        ensures
            read_outcome(*self, offset as int, old(buf)@, final(buf)@, fs, n),
    {
        match self.fault(fs, Some(DiskInodeType::File)) {
            Some(f) => Err(f),
            None => Ok(self.read_at(offset, buf, fs)),
        }
    }

    /// `write_at` on any registry.
    pub fn try_write_at(&self, offset: usize, buf: &[u8], fs: &mut FileSystem) -> (n: Result<
        usize,
        Fatal,
    >)
        ensures
            write_outcome(*self, offset as int, buf@, old(fs), final(fs), n),
    {
        match self.fault(fs, Some(DiskInodeType::File)) {
            Some(f) => {
                return Err(f);
            },
            None => {},
        }
        if offset > u32::MAX as usize || buf.len() > u32::MAX as usize - offset {
            return Err(Fatal::Exhausted);
        }
        let end: u32 = (offset + buf.len()) as u32;
        let size: u32 = self.read_disk_inode(fs).size;
        if end > size && !fs.has_blocks(DiskInode::total_blocks(end) - DiskInode::total_blocks(size)) {
            return Err(Fatal::Exhausted);
        }
        Ok(self.write_at(offset, buf, fs))
    }

    /// `clear` on any registry.
    pub fn try_clear(&self, fs: &mut FileSystem) -> (done: Result<(), Fatal>)
        ensures
            clear_outcome(*self, old(fs), final(fs), done),
    {
        match self.fault(fs, None) {
            Some(f) => {
                return Err(f);
            },
            None => {},
        }
        self.clear(fs);
        Ok(())
    }

    /// `stat` on any registry.
    pub fn try_stat(&self, fs: &FileSystem) -> (st: Result<Stat, Fatal>)
        ensures
            stat_outcome(*self, fs, st),
    {
        match self.fault(fs, None) {
            Some(f) => Err(f),
            None => Ok(self.stat(fs)),
        }
    }
}

} // verus!

//! The filesystem registry: the table of inode records and the allocator of
//! inode slots and data blocks.

use crate::dirent::{refers_below, Record};
use crate::disk::{DiskInode, DiskInodeType, DISK_INODE_SZ, INODES_PER_BLOCK};
use vstd::prelude::*;

verus! {

/// One mounted filesystem. Blocks `inode_area_start .. data_area_start` hold
/// the inode table, blocks `data_area_start .. data_area_end` hold data.
/// Inode numbers are handed out in order, so the table holds the records of
/// the inodes `0 .. inodes.len()`; inode 0 is the root directory.
pub struct FileSystem {
    pub inode_area_start: u32,
    pub data_area_start: u32,
    pub data_area_end: u32,
    /// The lowest data block that was never handed out.
    pub next_block: u32,
    /// The data blocks that were handed back, last one on top.
    pub free_blocks: Vec<u32>,
    pub inodes: Vec<DiskInode>,
    /// Whether a change is pending: one made since the last `sync_all`.
    pub dirty: bool,
}

impl FileSystem {
    /// Number of inode records that the inode area has room for.
    pub open spec fn inode_capacity(&self) -> int {
        (self.data_area_start - self.inode_area_start) * (INODES_PER_BLOCK as int)
    }

    /// The areas are in order and the inode table fits its area.
    pub open spec fn layout_wf(&self) -> bool {
        &&& self.inode_area_start <= self.data_area_start
        &&& self.data_area_start <= self.next_block
        &&& self.next_block <= self.data_area_end
        &&& 1 <= self.inodes@.len() <= self.inode_capacity() <= u32::MAX
    }

    /// The registry is consistent: the layout is, the root is a directory,
    /// every inode record is well formed, and every directory record refers
    /// to an inode of the table.
    pub open spec fn wf(&self) -> bool {
        &&& self.layout_wf()
        &&& self.inodes@[0].kind == DiskInodeType::Directory
        &&& forall|i: int|
            0 <= i < self.inodes@.len() ==> (#[trigger] self.inodes@[i]).wf() && refers_below(
                self.inodes@[i].records(),
                self.inodes@.len() as int,
            )
    }

    /// The records of the directory with inode number `id`.
    pub open spec fn dir(&self, id: int) -> Seq<Record> {
        self.inodes@[id].records()
    }

    /// Number of data blocks that can still be handed out.
    pub open spec fn blocks_available(&self) -> int {
        self.free_blocks@.len() + self.data_area_end - self.next_block
    }

    /// The blocks that the next `n` allocations hand out, in that order: the
    /// blocks that were handed back, last one first, and then fresh ones in
    /// rising order.
    pub open spec fn handed_out(&self, n: int) -> Seq<u32> {
        Seq::new(
            n as nat,
            |k: int| if k < self.free_blocks@.len() {
                self.free_blocks@[self.free_blocks@.len() - 1 - k]
            } else {
                (self.next_block + k - self.free_blocks@.len()) as u32
            },
        )
    }

    /// `after` has the allocator of `self` after `n` allocations of a data
    /// block.
    pub open spec fn allocated(&self, after: &FileSystem, n: int) -> bool {
        if n <= self.free_blocks@.len() {
            after.free_blocks@ =~= self.free_blocks@.take(self.free_blocks@.len() - n)
                && after.next_block == self.next_block
        } else {
            after.free_blocks@.len() == 0 && after.next_block == self.next_block + n
                - self.free_blocks@.len()
        }
    }

    /// Whether another inode can be handed out.
    pub open spec fn inode_available(&self) -> bool {
        self.inodes@.len() < self.inode_capacity()
    }

    /// Where the record of inode `inode_id` lies: its block, and the byte
    /// offset in that block.
    pub open spec fn inode_pos(&self, inode_id: u32) -> (int, int) {
        (
            self.inode_area_start + inode_id as int / INODES_PER_BLOCK as int,
            (inode_id as int % INODES_PER_BLOCK as int) * DISK_INODE_SZ as int,
        )
    }

    /// Two registries have the same areas.
    pub open spec fn same_layout(&self, other: &FileSystem) -> bool {
        &&& self.inode_area_start == other.inode_area_start
        &&& self.data_area_start == other.data_area_start
        &&& self.data_area_end == other.data_area_end
    }

    /// A filesystem with an inode area of `inode_area_blocks` blocks behind
    /// two blocks of metadata, a data area of `data_area_blocks` blocks behind
    /// it, and an empty root directory.
    pub fn new(inode_area_blocks: u32, data_area_blocks: u32) -> (fs: FileSystem)
        requires
            1 <= inode_area_blocks <= u32::MAX / INODES_PER_BLOCK,
            2 + inode_area_blocks + data_area_blocks <= u32::MAX,
        ensures
            fs.wf(),
            fs.inode_area_start == 2,
            fs.data_area_start == 2 + inode_area_blocks,
            fs.data_area_end == 2 + inode_area_blocks + data_area_blocks,
            fs.blocks_available() == data_area_blocks,
            fs.inodes@.len() == 1,
            fs.dir(0).len() == 0,
            fs.inodes@[0].hard_link == 1,
            !fs.dirty,
    {
        let mut inodes: Vec<DiskInode> = Vec::new();
        inodes.push(DiskInode::fresh(DiskInodeType::Directory));
        let data_area_start: u32 = 2 + inode_area_blocks;
        FileSystem {
            inode_area_start: 2,
            data_area_start,
            data_area_end: data_area_start + data_area_blocks,
            next_block: data_area_start,
            free_blocks: Vec::new(),
            inodes,
            dirty: false,
        }
    }

    /// Whether the registry is consistent.
    pub fn is_consistent(&self) -> (ok: bool)
        ensures
            ok == self.wf(),
    {
        if self.inode_area_start > self.data_area_start || self.data_area_start > self.next_block
            || self.next_block > self.data_area_end {
            return false;
        }
        let n: usize = self.inodes.len();
        let span: u32 = self.data_area_start - self.inode_area_start;
        let capacity: u64 = (span as u64) * 4;
        if n < 1 || n as u64 > capacity || capacity > u32::MAX as u64 {
            return false;
        }
        if !self.inodes[0].is_dir() {
            return false;
        }
        let mut i: usize = 0;
        while i < n
            invariant
                i <= n,
                n == self.inodes@.len(),
                forall|j: int|
                    0 <= j < i ==> (#[trigger] self.inodes@[j]).wf() && refers_below(
                        self.inodes@[j].records(),
                        n as int,
                    ),
            decreases n - i,
        {
            if !self.inodes[i].is_consistent(n) {
                return false;
            }
            i = i + 1;
        }
        true
    }

    /// Whether the allocator can still hand out `n` data blocks.
    pub fn has_blocks(&self, n: u32) -> (ok: bool)
        requires
            self.layout_wf(),
        ensures
            ok == (self.blocks_available() >= n),
    {
        let fresh: u32 = self.data_area_end - self.next_block;
        fresh >= n || self.free_blocks.len() as u64 >= (n - fresh) as u64
    }

    /// Whether the allocator can still hand out an inode.
    pub fn has_inode(&self) -> (ok: bool)
        requires
            self.layout_wf(),
        ensures
            ok == self.inode_available(),
    {
        let span: u32 = self.data_area_start - self.inode_area_start;
        (self.inodes.len() as u64) < (span as u64) * 4
    }

    /// Where the record of inode `inode_id` lies. The position depends on the
    /// number and the layout alone.
    pub fn get_disk_inode_pos(&self, inode_id: u32) -> (pos: (u32, usize))
        requires
            self.layout_wf(),
            inode_id < self.inode_capacity(),
        ensures
            (pos.0 as int, pos.1 as int) == self.inode_pos(inode_id),
    {
        (
            self.inode_area_start + inode_id / INODES_PER_BLOCK,
            ((inode_id % INODES_PER_BLOCK) as usize) * DISK_INODE_SZ,
        )
    }

    /// The slot of the inode table that lies at the given position.
    pub fn slot_at(&self, block_id: usize, block_offset: usize) -> (slot: usize)
        requires
            self.layout_wf(),
            exists|id: u32|
                id < self.inodes@.len() && self.inode_pos(id) == (
                    block_id as int,
                    block_offset as int,
                ),
        ensures
            slot < self.inodes@.len(),
            forall|id: u32|
                self.inode_pos(id) == (block_id as int, block_offset as int) ==> id == slot,
    {
        proof {
            let id = choose|id: u32|
                id < self.inodes@.len() && self.inode_pos(id) == (
                    block_id as int,
                    block_offset as int,
                );
            assert(block_id - self.inode_area_start == id as int / 4);
            assert(block_offset as int / 128 == id as int % 4);
        }
        (block_id - self.inode_area_start as usize) * (INODES_PER_BLOCK as usize) + block_offset
            / DISK_INODE_SZ
    }

    /// Hands out the next inode number and gives it a blank record.
    pub fn alloc_inode(&mut self) -> (id: u32)
        requires
            old(self).wf(),
            old(self).inode_available(),
        ensures
            final(self).wf(),
            id == old(self).inodes@.len(),
            final(self).inodes@.len() == old(self).inodes@.len() + 1,
            forall|i: int|
                0 <= i < old(self).inodes@.len() ==> final(self).inodes@[i] == old(
                    self,
                ).inodes@[i],
            final(self).inodes@[id as int].kind == DiskInodeType::File,
            final(self).inodes@[id as int].size == 0,
            final(self).same_layout(old(self)),
            final(self).next_block == old(self).next_block,
            final(self).free_blocks == old(self).free_blocks,
            final(self).dirty,
    {
        let id: u32 = self.inodes.len() as u32;
        self.inodes.push(DiskInode::fresh(DiskInodeType::File));
        self.dirty = true;
        assert forall|i: int| 0 <= i < self.inodes@.len() implies (#[trigger] self.inodes@[i]).wf()
            && refers_below(self.inodes@[i].records(), self.inodes@.len() as int) by {
            if i < old(self).inodes@.len() {
                assert(self.inodes@[i] == old(self).inodes@[i]);
                assert(refers_below(old(self).inodes@[i].records(), old(self).inodes@.len() as int));
            }
        }
        id
    }

    /// Hands out a data block: the one handed back last, or where none is
    /// waiting, the lowest that was never handed out.
    pub fn alloc_data(&mut self) -> (block: u32)
        requires
            old(self).layout_wf(),
            old(self).blocks_available() > 0,
        ensures
            final(self).blocks_available() == old(self).blocks_available() - 1,
            old(self).free_blocks@.len() > 0 ==> block == old(self).free_blocks@.last()
                && final(self).free_blocks@ == old(self).free_blocks@.drop_last()
                && final(self).next_block == old(self).next_block,
            old(self).free_blocks@.len() == 0 ==> block == old(self).next_block
                && final(self).free_blocks@ == old(self).free_blocks@ && final(self).next_block
                == old(self).next_block + 1,
            final(self).inodes == old(self).inodes,
            final(self).same_layout(old(self)),
            final(self).layout_wf(),
            final(self).dirty,
    {
        self.dirty = true;
        match self.free_blocks.pop() {
            Some(block) => block,
            None => {
                let block: u32 = self.next_block;
                self.next_block = block + 1;
                block
            },
        }
    }

    /// Takes a data block back.
    pub fn dealloc_data(&mut self, block: u32)
        ensures
            final(self).free_blocks@ == old(self).free_blocks@.push(block),
            final(self).next_block == old(self).next_block,
            final(self).inodes == old(self).inodes,
            final(self).same_layout(old(self)),
            final(self).dirty,
    {
        self.free_blocks.push(block);
        self.dirty = true;
    }

    /// Settles the pending changes: afterwards none is pending. Nothing else
    /// of the registry changes.
    pub fn sync_all(&mut self)
        ensures
            !final(self).dirty,
            final(self).inodes == old(self).inodes,
            final(self).free_blocks == old(self).free_blocks,
            final(self).next_block == old(self).next_block,
            final(self).same_layout(old(self)),
            final(self).wf() == old(self).wf(),
            final(self).blocks_available() == old(self).blocks_available(),
    {
        self.dirty = false;
    }
}

} // verus!

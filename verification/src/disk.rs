//! The inode record: type, size, link count, the data blocks it owns and its
//! contents. The blocks of an inode are held as one flat list, in the order
//! in which the allocator handed them out.

use crate::dirent::{records_of, refers_below, DirEntry, Record, DIRENT_INVALID_INODE_ID, DIRENT_SZ};
use vstd::prelude::*;

verus! {

/// Size in bytes of one storage block.
pub const BLOCK_SZ: u32 = 512;

/// Size in bytes of one inode record on disk.
pub const DISK_INODE_SZ: usize = 128;

/// Number of inode records that one block holds.
pub const INODES_PER_BLOCK: u32 = 4;

/// What an inode is.
#[derive(Clone, Copy, Debug, PartialEq, Eq, Structural)]
pub enum DiskInodeType {
    File,
    Directory,
}

/// The inode record: type, logical size, link count, the data blocks it
/// owns, and its contents. A file holds bytes; a directory holds records of
/// `DIRENT_SZ` bytes each, so its size is a multiple of that width.
pub struct DiskInode {
    pub size: u32,
    pub hard_link: u32,
    pub kind: DiskInodeType,
    pub blocks: Vec<u32>,
    pub data: Vec<u8>,
    pub entries: Vec<DirEntry>,
}

/// Number of blocks that `size` bytes span.
pub open spec fn blocks_spanned(size: int) -> int {
    (size + BLOCK_SZ - 1) / (BLOCK_SZ as int)
}

/// Number of bytes that a read of `want` bytes at `offset` yields from
/// contents of `size` bytes: the request clamped to the end of the contents.
pub open spec fn clamped_len(size: int, offset: int, want: int) -> int {
    if offset >= size {
        0
    } else if offset + want <= size {
        want
    } else {
        size - offset
    }
}

/// `data` with `src` written over it from `offset` on. The length is kept.
pub open spec fn overwritten(data: Seq<u8>, offset: int, src: Seq<u8>) -> Seq<u8> {
    Seq::new(
        data.len(),
        |i: int| if offset <= i < offset + src.len() {
            src[i - offset]
        } else {
            data[i]
        },
    )
}

/// `buf` with its first `n` bytes replaced by those of `data` from `offset` on.
pub open spec fn filled(buf: Seq<u8>, data: Seq<u8>, offset: int, n: int) -> Seq<u8> {
    Seq::new(
        buf.len(),
        |i: int| if i < n {
            data[offset + i]
        } else {
            buf[i]
        },
    )
}

/// `n` zero bytes.
pub open spec fn zeros(n: int) -> Seq<u8> {
    Seq::new(n as nat, |i: int| 0u8)
}

/// `n` blank directory records.
pub open spec fn blanks(n: int) -> Seq<Record> {
    Seq::new(n as nat, |i: int| (Seq::<char>::empty(), DIRENT_INVALID_INODE_ID))
}

impl DiskInode {
    /// The directory records of the inode (none for a file).
    pub open spec fn records(&self) -> Seq<Record> {
        records_of(self.entries@)
    }

    /// The inode owns as many blocks as its size spans, and its contents
    /// have the length that its size states.
    pub open spec fn wf(&self) -> bool {
        &&& self.blocks@.len() == blocks_spanned(self.size as int)
        &&& match self.kind {
            DiskInodeType::Directory => self.entries@.len() * DIRENT_SZ == self.size
                && self.data@.len() == 0,
            DiskInodeType::File => self.data@.len() == self.size && self.entries@.len() == 0,
        }
    }

    /// Whether the record is well formed and each of its directory records
    /// refers to an inode below `bound`.
    pub fn is_consistent(&self, bound: usize) -> (ok: bool)
        ensures
            ok == (self.wf() && refers_below(self.records(), bound as int)),
    {
        if self.blocks.len() as u64 != DiskInode::total_blocks(self.size) as u64 {
            return false;
        }
        match self.kind {
            DiskInodeType::File => {
                if self.data.len() as u64 != self.size as u64 || self.entries.len() != 0 {
                    return false;
                }
            },
            DiskInodeType::Directory => {
                if self.data.len() != 0 || self.entries.len() as u64 > u32::MAX as u64
                    || (self.entries.len() as u64) * (DIRENT_SZ as u64) != self.size as u64 {
                    return false;
                }
            },
        }
        let mut k: usize = 0;
        while k < self.entries.len()
            invariant
                k <= self.entries@.len(),
                forall|j: int| 0 <= j < k ==> (#[trigger] self.records()[j]).1 < bound,
            decreases self.entries@.len() - k,
        {
            if self.entries[k].inode_id as u64 >= bound as u64 {
                assert(self.records()[k as int].1 >= bound);
                return false;
            }
            k = k + 1;
        }
        true
    }

    /// A fresh inode of the given type: empty, with one link.
    pub fn fresh(kind: DiskInodeType) -> (node: DiskInode)
        ensures
            node.wf(),
            node.kind == kind,
            node.size == 0,
            node.hard_link == 1,
            node.blocks@.len() == 0,
            node.data@.len() == 0,
            node.entries@.len() == 0,
    {
        DiskInode {
            size: 0,
            hard_link: 1,
            kind,
            blocks: Vec::new(),
            data: Vec::new(),
            entries: Vec::new(),
        }
    }

    /// Resets the record to a fresh inode of the given type.
    pub fn initialize(&mut self, kind: DiskInodeType)
        ensures
            final(self).wf(),
            final(self).kind == kind,
            final(self).size == 0,
            final(self).hard_link == 1,
            final(self).blocks@.len() == 0,
            final(self).data@.len() == 0,
            final(self).entries@.len() == 0,
    {
        *self = DiskInode::fresh(kind);
    }

    pub fn is_dir(&self) -> (r: bool)
        ensures
            r == (self.kind == DiskInodeType::Directory),
    {
        match self.kind {
            DiskInodeType::Directory => true,
            DiskInodeType::File => false,
        }
    }

    pub fn is_file(&self) -> (r: bool)
        ensures
            r == (self.kind == DiskInodeType::File),
    {
        match self.kind {
            DiskInodeType::Directory => false,
            DiskInodeType::File => true,
        }
    }

    /// Number of blocks that `size` bytes span.
    pub fn total_blocks(size: u32) -> (n: u32)
        ensures
            n == blocks_spanned(size as int),
    {
        if size % BLOCK_SZ == 0 {
            size / BLOCK_SZ
        } else {
            size / BLOCK_SZ + 1
        }
    }

    /// Number of blocks to add for the inode to grow to `new_size`.
    pub fn blocks_num_needed(&self, new_size: u32) -> (n: u32)
        requires
            new_size >= self.size,
        ensures
            n == blocks_spanned(new_size as int) - blocks_spanned(self.size as int),
    {
        DiskInode::total_blocks(new_size) - DiskInode::total_blocks(self.size)
    }

    /// Grows the inode to `new_size` and hands it the blocks for the added
    /// range. A file is extended by zero bytes, a directory by blank records.
    pub fn increase_size(&mut self, new_size: u32, new_blocks: Vec<u32>)
        requires
            old(self).wf(),
            new_size >= old(self).size,
            new_blocks@.len() == blocks_spanned(new_size as int) - blocks_spanned(
                old(self).size as int,
            ),
            old(self).kind == DiskInodeType::Directory ==> new_size as int % DIRENT_SZ as int == 0,
        ensures
            final(self).wf(),
            final(self).size == new_size,
            final(self).kind == old(self).kind,
            final(self).hard_link == old(self).hard_link,
            final(self).blocks@ == old(self).blocks@ + new_blocks@,
            final(self).data@ == old(self).data@ + zeros(
                if old(self).kind == DiskInodeType::File {
                    new_size - old(self).size
                } else {
                    0
                },
            ),
            final(self).records() == old(self).records() + blanks(
                if old(self).kind == DiskInodeType::Directory {
                    (new_size - old(self).size) / DIRENT_SZ as int
                } else {
                    0
                },
            ),
    {
        let ghost added = new_blocks@;
        let mut new_blocks = new_blocks;
        self.blocks.append(&mut new_blocks);
        match self.kind {
            DiskInodeType::File => {
                let mut at: u32 = self.size;
                while at < new_size
                    invariant
                        old(self).size <= at <= new_size,
                        self.data@ == old(self).data@ + zeros(at - old(self).size),
                        self.entries == old(self).entries,
                        self.blocks@ == old(self).blocks@ + added,
                        self.kind == old(self).kind,
                        self.hard_link == old(self).hard_link,
                    decreases new_size - at,
                {
                    self.data.push(0u8);
                    at = at + 1;
                    assert(self.data@ == old(self).data@ + zeros(at - old(self).size));
                }
                assert(self.data@ == old(self).data@ + zeros(new_size - old(self).size));
                assert(self.records() == old(self).records() + blanks(0));
            },
            DiskInodeType::Directory => {
                let ghost before = self.records();
                let mut at: u32 = self.size;
                while at < new_size
                    invariant
                        old(self).size <= at <= new_size,
                        at as int % DIRENT_SZ as int == 0,
                        new_size as int % DIRENT_SZ as int == 0,
                        self.entries@.len() * DIRENT_SZ == at,
                        self.records() == before + blanks((at - old(self).size) / DIRENT_SZ as int),
                        self.data == old(self).data,
                        self.blocks@ == old(self).blocks@ + added,
                        self.kind == old(self).kind,
                        self.hard_link == old(self).hard_link,
                    decreases new_size - at,
                {
                    let ghost was = self.records();
                    self.entries.push(DirEntry::empty());
                    at = at + DIRENT_SZ as u32;
                    assert(self.records() == was.push((Seq::<char>::empty(), DIRENT_INVALID_INODE_ID)));
                    assert(self.records() == before + blanks(
                        (at - old(self).size) / DIRENT_SZ as int,
                    ));
                }
                assert(self.data@ == old(self).data@ + zeros(0));
            },
        }
        self.size = new_size;
    }

    /// Copies into `buf` the bytes of a file from `offset` on, as many as
    /// `buf` holds and the file has. Returns how many were copied; the rest
    /// of `buf` is left as it was.
    pub fn read_at(&self, offset: usize, buf: &mut Vec<u8>) -> (n: usize)
        requires
            self.wf(),
            self.kind == DiskInodeType::File,
        ensures
            n == clamped_len(self.size as int, offset as int, old(buf)@.len() as int),
            final(buf)@ == filled(old(buf)@, self.data@, offset as int, n as int),
    {
        let size: usize = self.data.len();
        let n: usize = if offset >= size {
            0
        } else if buf.len() <= size - offset {
            buf.len()
        } else {
            size - offset
        };
        let mut i: usize = 0;
        while i < n
            invariant
                i <= n,
                size == self.data@.len(),
                offset + n <= size || n == 0,
                n <= buf@.len(),
                buf@.len() == old(buf)@.len(),
                forall|k: int| 0 <= k < i ==> buf@[k] == self.data@[offset + k],
                forall|k: int| i <= k < buf@.len() ==> buf@[k] == old(buf)@[k],
            decreases n - i,
        {
            let byte: u8 = self.data[offset + i];
            buf.set(i, byte);
            i = i + 1;
        }
        assert(buf@ == filled(old(buf)@, self.data@, offset as int, n as int));
        n
    }

    /// Writes `buf` over the bytes of a file from `offset` on, as far as the
    /// file reaches. Returns how many bytes were written. The size is kept.
    pub fn write_at(&mut self, offset: usize, buf: &[u8]) -> (n: usize)
        requires
            old(self).wf(),
            old(self).kind == DiskInodeType::File,
        ensures
            final(self).wf(),
            n == clamped_len(old(self).size as int, offset as int, buf@.len() as int),
            final(self).data@ == overwritten(old(self).data@, offset as int, buf@.take(n as int)),
            final(self).size == old(self).size,
            final(self).kind == old(self).kind,
            final(self).hard_link == old(self).hard_link,
            final(self).blocks == old(self).blocks,
            final(self).entries == old(self).entries,
    {
        let size: usize = self.data.len();
        let n: usize = if offset >= size {
            0
        } else if buf.len() <= size - offset {
            buf.len()
        } else {
            size - offset
        };
        let mut i: usize = 0;
        while i < n
            invariant
                i <= n,
                size == self.data@.len(),
                offset + n <= size || n == 0,
                n <= buf@.len(),
                self.data@.len() == old(self).data@.len(),
                self.data@ == overwritten(old(self).data@, offset as int, buf@.take(i as int)),
                self.size == old(self).size,
                self.kind == old(self).kind,
                self.hard_link == old(self).hard_link,
                self.blocks == old(self).blocks,
                self.entries == old(self).entries,
            decreases n - i,
        {
            let byte: u8 = buf[i];
            self.data.set(offset + i, byte);
            i = i + 1;
            assert(self.data@ == overwritten(old(self).data@, offset as int, buf@.take(i as int)));
        }
        n
    }

    /// Number of records that a directory holds, tombstones included.
    pub fn record_count(&self) -> (n: usize)
        requires
            self.wf(),
            self.kind == DiskInodeType::Directory,
        ensures
            n == self.records().len(),
            n == self.size as int / DIRENT_SZ as int,
    {
        (self.size as usize) / DIRENT_SZ
    }

    /// The record at position `i` of a directory.
    pub fn record(&self, i: usize) -> (e: &DirEntry)
        requires
            i < self.records().len(),
        ensures
            e@ == self.records()[i as int],
    {
        &self.entries[i]
    }

    /// Overwrites the record at position `i` of a directory.
    pub fn write_record(&mut self, i: usize, e: DirEntry)
        requires
            old(self).wf(),
            i < old(self).records().len(),
        ensures
            final(self).wf(),
            final(self).records() == old(self).records().update(i as int, e@),
            final(self).size == old(self).size,
            final(self).kind == old(self).kind,
            final(self).hard_link == old(self).hard_link,
            final(self).blocks == old(self).blocks,
            final(self).data == old(self).data,
    {
        self.entries.set(i, e);
        assert(self.records() == old(self).records().update(i as int, e@));
    }

    /// Empties the inode and returns the blocks it owned, in the order in
    /// which it got them.
    pub fn clear_size(&mut self) -> (freed: Vec<u32>)
        requires
            old(self).wf(),
        ensures
            final(self).wf(),
            freed@ == old(self).blocks@,
            final(self).size == 0,
            final(self).blocks@.len() == 0,
            final(self).data@.len() == 0,
            final(self).entries@.len() == 0,
            final(self).kind == old(self).kind,
            final(self).hard_link == old(self).hard_link,
    {
        let mut freed: Vec<u32> = Vec::new();
        freed.append(&mut self.blocks);
        self.size = 0;
        self.data.clear();
        self.entries.clear();
        freed
    }
}

} // verus!

//! The inode handle and its operations: lookup, creation, listing, linking,
//! unlinking, reading, writing, clearing and stat.

use crate::dirent::{
    lemma_lookup_prefix, lemma_lookup_sound, live_names, lookup, refers_below, same_name,
    tombstoned, DirEntry, Record, DIRENT_INVALID_INODE_ID, DIRENT_SZ,
};
use crate::disk::{
    blanks, blocks_spanned, clamped_len, filled, overwritten, zeros, DiskInode, DiskInodeType,
};
use crate::efs::FileSystem;
use vstd::prelude::*;

verus! {

/// A handle on one filesystem object: the position of its inode record and
/// its inode number. Two handles on the same object are equal.
#[derive(Clone, Copy, Debug, PartialEq, Eq, Structural)]
pub struct Inode {
    pub block_id: usize,
    pub block_offset: usize,
    pub inode_id: u32,
}

/// What `stat` reports of an inode.
#[derive(Clone, Copy, Debug, PartialEq, Eq, Structural)]
pub struct Stat {
    /// Whether it is a directory.
    pub is_dir: bool,
    /// Whether it is a regular file.
    pub is_file: bool,
    /// Its inode number.
    pub inode_id: u32,
    /// Number of directory records that refer to it.
    pub hard_link: u32,
}

/// The handle on inode `id` of `fs`.
pub open spec fn handle_of(fs: &FileSystem, id: u32) -> Inode {
    Inode {
        block_id: fs.inode_pos(id).0 as usize,
        block_offset: fs.inode_pos(id).1 as usize,
        inode_id: id,
    }
}

/// Whether a directory of `fs` can take one more record: its size stays
/// within the size field, and the allocator has the blocks for it.
pub open spec fn can_append(fs: &FileSystem, dir: int) -> bool {
    let size = fs.inodes@[dir].size as int;
    &&& size + DIRENT_SZ <= u32::MAX
    &&& fs.blocks_available() >= blocks_spanned(size + DIRENT_SZ) - blocks_spanned(size)
}

/// `after` is `before` grown to `new_size`: a file by zero bytes, a directory
/// by blank records. Type and link count are kept.
pub open spec fn grown(before: DiskInode, after: DiskInode, new_size: u32) -> bool {
    &&& after.size == new_size
    &&& after.kind == before.kind
    &&& after.hard_link == before.hard_link
    &&& after.data@ == before.data@ + zeros(
        if before.kind == DiskInodeType::File {
            new_size - before.size
        } else {
            0
        },
    )
    &&& after.records() == before.records() + blanks(
        if before.kind == DiskInodeType::Directory {
            (new_size - before.size) / DIRENT_SZ as int
        } else {
            0
        },
    )
}

/// The inode in slot `slot` of `after` owns the blocks it owned in `before`
/// and behind them those that the allocator handed out for its growth, in
/// the order in which they were handed out; the allocator of `after` is that
/// of `before` after as many allocations.
pub open spec fn took_blocks(before: &FileSystem, after: &FileSystem, slot: int) -> bool {
    let n = after.inodes@[slot].blocks@.len() - before.inodes@[slot].blocks@.len();
    &&& n >= 0
    &&& after.inodes@[slot].blocks@ =~= before.inodes@[slot].blocks@ + before.handed_out(n)
    &&& before.allocated(after, n)
}

/// `after` is the file `before` with `src` written at `offset`: it reaches
/// to the end of the written range at least, the bytes between its former end
/// and the range are zero, and type and link count are kept.
pub open spec fn written(before: DiskInode, after: DiskInode, offset: int, src: Seq<u8>) -> bool {
    let end = offset + src.len();
    let size = if end > before.size {
        end
    } else {
        before.size as int
    };
    &&& after.size == size
    &&& after.kind == before.kind
    &&& after.hard_link == before.hard_link
    &&& after.data@ == overwritten(before.data@ + zeros(size - before.size), offset, src)
}

/// `after` is `before` with its contents gone: size zero, no block, no byte
/// and no record. Type and link count are kept.
pub open spec fn emptied(before: DiskInode, after: DiskInode) -> bool {
    &&& after.size == 0
    &&& after.kind == before.kind
    &&& after.hard_link == before.hard_link
    &&& after.blocks@.len() == 0
    &&& after.data@.len() == 0
    &&& after.records().len() == 0
}

/// The link count of inode `id` of `fs`.
pub open spec fn link_count(fs: &FileSystem, id: u32) -> int {
    if id < fs.inodes@.len() {
        fs.inodes@[id as int].hard_link as int
    } else {
        0
    }
}

/// Number of blocks that a directory of `size` bytes needs for one more record.
pub open spec fn blocks_for_record(size: int) -> int {
    blocks_spanned(size + DIRENT_SZ) - blocks_spanned(size)
}

/// `after` is the directory `before` with the record `r` behind its last
/// record. Type and link count are kept.
pub open spec fn appended(before: DiskInode, after: DiskInode, r: Record) -> bool {
    &&& after.records() =~= before.records().push(r)
    &&& after.data@ =~= before.data@
    &&& after.size == before.size + DIRENT_SZ
    &&& after.kind == before.kind
    &&& after.hard_link == before.hard_link
}

/// Two inode records agree in everything but the link count.
pub open spec fn same_contents(a: DiskInode, b: DiskInode) -> bool {
    &&& a.size == b.size
    &&& a.kind == b.kind
    &&& a.blocks == b.blocks
    &&& a.data == b.data
    &&& a.entries == b.entries
}

/// What removing the name `name` from a directory does to one inode record.
/// The target of the name loses one link; where that was its last, it is
/// emptied. The directory, unless it was just emptied as the target, has its
/// live records of that name tombstoned. Nothing else changes.
pub open spec fn unlinked(
    before: DiskInode,
    after: DiskInode,
    is_target: bool,
    is_dir: bool,
    name: Seq<char>,
) -> bool {
    let gone = is_target && before.hard_link == 1;
    &&& after.kind == before.kind
    &&& after.hard_link == before.hard_link - (if is_target {
        1int
    } else {
        0int
    })
    &&& after.records() =~= (if gone {
        Seq::<Record>::empty()
    } else if is_dir {
        tombstoned(before.records(), name)
    } else {
        before.records()
    })
    &&& after.data@ =~= (if gone {
        Seq::<u8>::empty()
    } else {
        before.data@
    })
    &&& after.size == (if gone {
        0
    } else {
        before.size
    })
    &&& !gone ==> after.blocks == before.blocks
    &&& gone ==> after.blocks@.len() == 0
}

/// A registry stays consistent when one inode record is replaced by a well
/// formed one of the same type whose records refer to inodes of the table.
pub proof fn lemma_wf_after_update(before: &FileSystem, after: &FileSystem, slot: int)
    requires
        before.wf(),
        after.layout_wf(),
        0 <= slot < before.inodes@.len(),
        after.inodes@.len() == before.inodes@.len(),
        forall|j: int|
            0 <= j < before.inodes@.len() && j != slot ==> after.inodes@[j] == before.inodes@[j],
        after.inodes@[slot].wf(),
        after.inodes@[slot].kind == before.inodes@[slot].kind,
        refers_below(after.inodes@[slot].records(), after.inodes@.len() as int),
    ensures
        after.wf(),
{
    assert forall|i: int| 0 <= i < after.inodes@.len() implies (#[trigger] after.inodes@[i]).wf()
        && refers_below(after.inodes@[i].records(), after.inodes@.len() as int) by {
        if i != slot {
            assert(before.inodes@[i].wf());
        }
    }
}

/// What `create` of `name` in the directory `this` makes of `before`.
pub open spec fn after_create(
    this: Inode,
    name: Seq<char>,
    before: &FileSystem,
    after: &FileSystem,
    created: Option<Inode>,
) -> bool {
    &&& after.wf()
    &&& after.same_layout(before)
    &&& (match lookup(before.dir(this.inode_id as int), name) {
            Some(_) => created is None && *after == *before,
            None => {
                let new_id = before.inodes@.len() as u32;
                &&& !after.dirty
                &&& created == Some(handle_of(after, new_id))
                &&& handle_of(after, new_id).valid_file(after)
                &&& after.inodes@.len() == before.inodes@.len() + 1
                &&& after.inodes@[new_id as int].size == 0
                &&& after.inodes@[new_id as int].hard_link == 1
                &&& appended(
                    before.inodes@[this.inode_id as int],
                    after.inodes@[this.inode_id as int],
                    (name, new_id),
                )
                &&& took_blocks(before, after, this.inode_id as int)
                &&& forall|j: int|
                    0 <= j < before.inodes@.len() && j != this.inode_id ==> after.inodes@[j]
                        == before.inodes@[j]
                &&& after.blocks_available() == before.blocks_available()
                    - blocks_for_record(before.inodes@[this.inode_id as int].size as int)
            },
        })
}

/// What `linkat` of `old_name` to `new_name` in the directory `this` makes of
/// `before`.
pub open spec fn after_linkat(
    this: Inode,
    old_name: Seq<char>,
    new_name: Seq<char>,
    before: &FileSystem,
    after: &FileSystem,
    status: isize,
) -> bool {
    &&& old_name == new_name ==> status == -1 && *after == *before
    &&& old_name != new_name ==> after.wf() && after.same_layout(before) && after.inodes@.len()
        == before.inodes@.len()
    &&& old_name != new_name ==> (match lookup(before.dir(this.inode_id as int), old_name) {
            Some(id) => {
                &&& status == 0
                &&& !after.dirty
                &&& after.dir(this.inode_id as int) == before.dir(
                    this.inode_id as int,
                ).push((new_name, id))
                &&& after.inodes@[this.inode_id as int].size
                    == before.inodes@[this.inode_id as int].size + DIRENT_SZ
                &&& took_blocks(before, after, this.inode_id as int)
                &&& forall|j: int|
                    0 <= j < before.inodes@.len() ==> (#[trigger] after.inodes@[j]).hard_link
                        == before.inodes@[j].hard_link + (if j == id {
                        1int
                    } else {
                        0int
                    }) && after.inodes@[j].kind == before.inodes@[j].kind
                        && after.inodes@[j].data@ == before.inodes@[j].data@
                &&& forall|j: int|
                    0 <= j < before.inodes@.len() && j != this.inode_id ==> same_contents(
                        #[trigger] after.inodes@[j],
                        before.inodes@[j],
                    )
                &&& after.blocks_available() == before.blocks_available()
                    - blocks_for_record(before.inodes@[this.inode_id as int].size as int)
            },
            None => status == -1 && *after == *before,
        })
}

/// What `unlinkat` of `old_name` in the directory `this` makes of `before`.
pub open spec fn after_unlinkat(
    this: Inode,
    old_name: Seq<char>,
    before: &FileSystem,
    after: &FileSystem,
    status: isize,
) -> bool {
    &&& after.wf()
    &&& after.same_layout(before)
    &&& after.inodes@.len() == before.inodes@.len()
    &&& after.next_block == before.next_block
    &&& (match lookup(before.dir(this.inode_id as int), old_name) {
            Some(id) => {
                let gone = before.inodes@[id as int].hard_link == 1;
                &&& status == 0
                &&& !after.dirty
                &&& forall|j: int|
                    0 <= j < before.inodes@.len() ==> unlinked(
                        before.inodes@[j],
                        #[trigger] after.inodes@[j],
                        j == id,
                        j == this.inode_id,
                        old_name,
                    )
                &&& after.free_blocks@ =~= before.free_blocks@ + (if gone {
                    before.inodes@[id as int].blocks@
                } else {
                    Seq::<u32>::empty()
                })
            },
            None => status == -1 && *after == *before,
        })
}

/// What `write_at` of `src` at `offset` into the file `this` makes of `before`.
pub open spec fn after_write_at(
    this: Inode,
    offset: int,
    src: Seq<u8>,
    before: &FileSystem,
    after: &FileSystem,
    n: usize,
) -> bool {
    &&& after.wf()
    &&& !after.dirty
    &&& after.same_layout(before)
    &&& after.inodes@.len() == before.inodes@.len()
    &&& (forall|j: int|
            0 <= j < before.inodes@.len() && j != this.inode_id ==> after.inodes@[j]
                == before.inodes@[j])
    &&& n == src.len()
    &&& (written(
            before.inodes@[this.inode_id as int],
            after.inodes@[this.inode_id as int],
            offset,
            src,
        ))
    &&& took_blocks(before, after, this.inode_id as int)
    &&& (after.blocks_available() == before.blocks_available() - (blocks_spanned(
            after.inodes@[this.inode_id as int].size as int,
        ) - blocks_spanned(before.inodes@[this.inode_id as int].size as int)))
}

/// What `clear` of the inode `this` makes of `before`.
pub open spec fn after_clear(
    this: Inode,
    before: &FileSystem,
    after: &FileSystem,
) -> bool {
    &&& after.wf()
    &&& !after.dirty
    &&& after.same_layout(before)
    &&& after.inodes@.len() == before.inodes@.len()
    &&& (forall|j: int|
            0 <= j < before.inodes@.len() && j != this.inode_id ==> after.inodes@[j]
                == before.inodes@[j])
    &&& emptied(before.inodes@[this.inode_id as int], after.inodes@[this.inode_id as int])
    &&& after.free_blocks@ == before.free_blocks@ + before.inodes@[this.inode_id as int].blocks@
    &&& (after.free_blocks@.len() == before.free_blocks@.len() + blocks_spanned(
            before.inodes@[this.inode_id as int].size as int,
        ))
    &&& after.next_block == before.next_block
}

/// The handle on the root directory of `fs`.
pub fn root_inode(fs: &FileSystem) -> (root: Inode)
    requires
        fs.wf(),
    ensures
        root == handle_of(fs, 0),
        root.valid_dir(fs),
{
    let (block_id, block_offset) = fs.get_disk_inode_pos(0);
    Inode::new(block_id, block_offset, 0)
}

impl Inode {
    /// The handle is that of an inode of `fs`.
    pub open spec fn valid(&self, fs: &FileSystem) -> bool {
        &&& self.inode_id < fs.inodes@.len()
        &&& *self == handle_of(fs, self.inode_id)
    }

    /// The handle is that of a directory of `fs`.
    pub open spec fn valid_dir(&self, fs: &FileSystem) -> bool {
        self.valid(fs) && fs.inodes@[self.inode_id as int].kind == DiskInodeType::Directory
    }

    /// The handle is that of a regular file of `fs`.
    pub open spec fn valid_file(&self, fs: &FileSystem) -> bool {
        self.valid(fs) && fs.inodes@[self.inode_id as int].kind == DiskInodeType::File
    }

    /// Whether the handle is that of an inode of `fs`.
    pub fn is_valid(&self, fs: &FileSystem) -> (ok: bool)
        requires
            fs.layout_wf(),
        ensures
            ok == self.valid(fs),
    {
        if self.inode_id as u64 >= fs.inodes.len() as u64 {
            return false;
        }
        let (block_id, block_offset) = fs.get_disk_inode_pos(self.inode_id);
        self.block_id as u64 == block_id as u64 && self.block_offset == block_offset
    }

    /// Whether this directory can take one more record.
    pub fn has_room(&self, fs: &FileSystem) -> (ok: bool)
        requires
            fs.wf(),
            self.valid(fs),
        ensures
            ok == can_append(fs, self.inode_id as int),
    {
        let size: u32 = self.read_disk_inode(fs).size;
        let width: u32 = DIRENT_SZ as u32;
        if size > u32::MAX - width {
            return false;
        }
        let needed: u32 = DiskInode::total_blocks(size + width) - DiskInode::total_blocks(size);
        fs.has_blocks(needed)
    }

    /// A handle on the inode `inode_id`, whose record lies at `block_offset`
    /// in block `block_id`.
    pub fn new(block_id: u32, block_offset: usize, inode_id: u32) -> (inode: Inode)
        ensures
            inode.block_id == block_id,
            inode.block_offset == block_offset,
            inode.inode_id == inode_id,
    {
        Inode { block_id: block_id as usize, block_offset, inode_id }
    }

    /// The slot of the inode table that the handle's position names.
    fn slot(&self, fs: &FileSystem) -> (slot: usize)
        requires
            fs.layout_wf(),
            self.valid(fs),
        ensures
            slot == self.inode_id,
    {
        fs.slot_at(self.block_id, self.block_offset)
    }

    /// The inode record of the handle, for reading.
    pub fn read_disk_inode<'a>(&self, fs: &'a FileSystem) -> (node: &'a DiskInode)
        requires
            fs.layout_wf(),
            self.valid(fs),
        ensures
            *node == fs.inodes@[self.inode_id as int],
    {
        let slot: usize = self.slot(fs);
        &fs.inodes[slot]
    }

    /// The inode that `name` resolves to in the directory `disk_inode`: that
    /// of the first live record with that name.
    pub fn find_inode_id(&self, name: &str, disk_inode: &DiskInode) -> (found: Option<u32>)
        requires
            disk_inode.wf(),
            disk_inode.kind == DiskInodeType::Directory,
        ensures
            found == lookup(disk_inode.records(), name@),
    {
        let file_count: usize = disk_inode.record_count();
        let ghost dir = disk_inode.records();
        let mut i: usize = 0;
        while i < file_count
            invariant
                i <= file_count,
                file_count == dir.len(),
                dir == disk_inode.records(),
                lookup(dir.take(i as int), name@) is None,
            decreases file_count - i,
        {
            let dirent: &DirEntry = disk_inode.record(i);
            proof {
                assert(dir.take(i + 1).drop_last() == dir.take(i as int));
            }
            if same_name(dirent.name(), name) && dirent.inode_id() != DIRENT_INVALID_INODE_ID {
                proof {
                    lemma_lookup_prefix(dir, i + 1, name@);
                }
                return Some(dirent.inode_id());
            }
            i = i + 1;
        }
        proof {
            assert(dir.take(file_count as int) == dir);
        }
        None
    }

    /// The handle on the object that `name` resolves to in this directory,
    /// or nothing where no live record has that name.
    pub fn find(&self, name: &str, fs: &FileSystem) -> (found: Option<Inode>)
        requires
            fs.wf(),
            self.valid_dir(fs),
        ensures
            match lookup(fs.dir(self.inode_id as int), name@) {
                Some(id) => found == Some(handle_of(fs, id)) && handle_of(fs, id).valid(fs),
                None => found is None,
            },
    {
        let disk_inode: &DiskInode = self.read_disk_inode(fs);
        match self.find_inode_id(name, disk_inode) {
            Some(inode_id) => {
                proof {
                    lemma_lookup_sound(disk_inode.records(), name@);
                }
                let (block_id, block_offset) = fs.get_disk_inode_pos(inode_id);
                Some(Inode::new(block_id, block_offset, inode_id))
            },
            None => None,
        }
    }

    /// The names of the live records of this directory, in directory order.
    /// A name that two live records carry is listed twice.
    pub fn ls(&self, fs: &FileSystem) -> (names: Vec<String>)
        requires
            fs.wf(),
            self.valid_dir(fs),
        ensures
            names@.len() == live_names(fs.dir(self.inode_id as int)).len(),
            forall|k: int|
                0 <= k < names@.len() ==> (#[trigger] names@[k])@ == live_names(
                    fs.dir(self.inode_id as int),
                )[k],
    {
        let disk_inode: &DiskInode = self.read_disk_inode(fs);
        let file_count: usize = disk_inode.record_count();
        let ghost dir = disk_inode.records();
        let mut v: Vec<String> = Vec::new();
        let mut i: usize = 0;
        while i < file_count
            invariant
                i <= file_count,
                file_count == dir.len(),
                dir == disk_inode.records(),
                v@.len() == live_names(dir.take(i as int)).len(),
                forall|k: int|
                    0 <= k < v@.len() ==> (#[trigger] v@[k])@ == live_names(dir.take(i as int))[k],
            decreases file_count - i,
        {
            let dirent: &DirEntry = disk_inode.record(i);
            proof {
                assert(dir.take(i + 1).drop_last() == dir.take(i as int));
            }
            if dirent.inode_id() != DIRENT_INVALID_INODE_ID {
                v.push(dirent.name().to_owned());
            }
            i = i + 1;
        }
        proof {
            assert(dir.take(file_count as int) == dir);
        }
        v
    }

    /// Appends the record `(name, inode_id)` to this directory, which grows
    /// by one record.
    fn append_record(&self, name: &str, inode_id: u32, slot: usize, fs: &mut FileSystem)
        requires
            old(fs).wf(),
            slot < old(fs).inodes@.len(),
            old(fs).inodes@[slot as int].kind == DiskInodeType::Directory,
            inode_id < old(fs).inodes@.len(),
            can_append(old(fs), slot as int),
        ensures
            final(fs).wf(),
            final(fs).same_layout(old(fs)),
            final(fs).inodes@.len() == old(fs).inodes@.len(),
            forall|j: int|
                0 <= j < old(fs).inodes@.len() && j != slot ==> final(fs).inodes@[j] == old(fs).inodes@[j],
            appended(old(fs).inodes@[slot as int], final(fs).inodes@[slot as int], (name@, inode_id)),
            took_blocks(old(fs), final(fs), slot as int),
            final(fs).blocks_available() == old(fs).blocks_available() - blocks_for_record(
                old(fs).inodes@[slot as int].size as int,
            ),
    {
        let file_count: usize = fs.inodes[slot].record_count();
        let new_size: usize = (file_count + 1) * DIRENT_SZ;
        self.increase_size(new_size as u32, slot, fs);
        let ghost mid = *fs;
        let dirent: DirEntry = DirEntry::new(name, inode_id);
        fs.inodes[slot].write_record(file_count, dirent);
        fs.dirty = true;
        proof {
            let before = old(fs).inodes@[slot as int].records();
            let after = fs.inodes@[slot as int].records();
            assert(mid.inodes@[slot as int].records() == before + blanks(1));
            assert(after == before.push((name@, inode_id)));
            assert forall|i: int| 0 <= i < after.len() implies (#[trigger] after[i]).1
                < fs.inodes@.len() by {
                if i < before.len() {
                    assert(after[i] == before[i]);
                }
            }
            lemma_wf_after_update(&mid, fs, slot as int);
        }
    }

    /// Creates an empty regular file named `name` in this directory and
    /// returns its handle, with no change left pending. Where a live record
    /// already has that name, nothing is allocated or changed and nothing is
    /// returned.
    pub fn create(&self, name: &str, fs: &mut FileSystem) -> (created: Option<Inode>)
        requires
            old(fs).wf(),
            self.valid_dir(old(fs)),
            lookup(old(fs).dir(self.inode_id as int), name@) is None ==> old(fs).inode_available()
                && can_append(old(fs), self.inode_id as int),
        ensures
            after_create(*self, name@, old(fs), final(fs), created),
    {
        let slot: usize = self.slot(fs);
        if self.find_inode_id(name, &fs.inodes[slot]).is_some() {
            return None;
        }
        let new_inode_id: u32 = fs.alloc_inode();
        let ghost allocated = *fs;
        let (new_inode_block_id, new_inode_block_offset) = fs.get_disk_inode_pos(new_inode_id);
        let new_slot: usize = fs.slot_at(new_inode_block_id as usize, new_inode_block_offset);
        fs.inodes[new_slot].initialize(DiskInodeType::File);
        fs.dirty = true;
        proof {
            assert(fs.inodes@[new_slot as int].records().len() == 0);
            lemma_wf_after_update(&allocated, fs, new_slot as int);
        }
        self.append_record(name, new_inode_id, slot, fs);
        fs.sync_all();
        let (block_id, block_offset) = fs.get_disk_inode_pos(new_inode_id);
        Some(Inode::new(block_id, block_offset, new_inode_id))
    }

    /// Gives the object that `old_name` resolves to a second name in this
    /// directory, and counts the new link. Fails with -1, changing nothing,
    /// where the two names are equal or `old_name` does not resolve. Equal
    /// names fail before anything is looked at, so nothing is asked of the
    /// handle or the registry then. Whether `new_name` is already in use is
    /// not looked at. No change is left pending when the call returns.
    pub fn linkat(&self, old_name: &str, new_name: &str, fs: &mut FileSystem) -> (status: isize)
        requires
            old_name@ != new_name@ ==> old(fs).wf() && self.valid_dir(old(fs)),
            old_name@ != new_name@ ==> (lookup(old(fs).dir(self.inode_id as int), old_name@) matches Some(
                id,
            ) ==> can_append(old(fs), self.inode_id as int) && link_count(old(fs), id) < u32::MAX),
        ensures
            after_linkat(*self, old_name@, new_name@, old(fs), final(fs), status),
    {
        if same_name(old_name, new_name) {
            return -1;
        }
        let slot: usize = self.slot(fs);
        let old_inode_id: u32 = match self.find_inode_id(old_name, &fs.inodes[slot]) {
            Some(x) => x,
            None => {
                return -1;
            },
        };
        proof {
            lemma_lookup_sound(fs.inodes@[slot as int].records(), old_name@);
        }
        let (old_inode_block_id, old_inode_block_offset) = fs.get_disk_inode_pos(old_inode_id);
        let old_slot: usize = fs.slot_at(old_inode_block_id as usize, old_inode_block_offset);
        let links: u32 = fs.inodes[old_slot].hard_link;
        fs.inodes[old_slot].hard_link = links + 1;
        fs.dirty = true;
        let ghost counted = *fs;
        proof {
            assert(fs.inodes@[old_slot as int].records() == old(fs).inodes@[old_slot as int].records());
            lemma_wf_after_update(old(fs), fs, old_slot as int);
        }
        self.append_record(new_name, old_inode_id, slot, fs);
        fs.sync_all();
        0
    }

    /// Removes the name `old_name` from this directory. Fails with -1,
    /// changing nothing, where the name does not resolve. Otherwise the link
    /// count of the object it resolves to drops by one, once, and every live
    /// record with that name becomes a tombstone in place. An object whose
    /// count reaches zero is emptied and its blocks go back to the allocator.
    /// No change is left pending when the call returns.
    pub fn unlinkat(&self, old_name: &str, fs: &mut FileSystem) -> (status: isize)
        requires
            old(fs).wf(),
            self.valid_dir(old(fs)),
            lookup(old(fs).dir(self.inode_id as int), old_name@) matches Some(id) ==> link_count(
                old(fs),
                id,
            ) >= 1,
        ensures
            after_unlinkat(*self, old_name@, old(fs), final(fs), status),
    {
        let slot: usize = self.slot(fs);
        let old_inode_id: u32 = match self.find_inode_id(old_name, &fs.inodes[slot]) {
            Some(x) => x,
            None => {
                return -1;
            },
        };
        proof {
            lemma_lookup_sound(fs.inodes@[slot as int].records(), old_name@);
        }
        let (old_inode_block_id, old_inode_block_offset) = fs.get_disk_inode_pos(old_inode_id);
        let old_slot: usize = fs.slot_at(old_inode_block_id as usize, old_inode_block_offset);
        let links: u32 = fs.inodes[old_slot].hard_link;
        fs.inodes[old_slot].hard_link = links - 1;
        fs.dirty = true;
        let old_inode_hard_link: u32 = fs.inodes[old_slot].hard_link;
        let ghost counted = *fs;
        proof {
            assert(fs.inodes@[old_slot as int].records() == old(fs).inodes@[old_slot as int].records());
            lemma_wf_after_update(old(fs), fs, old_slot as int);
        }
        let ghost dir = fs.inodes@[slot as int].records();
        let file_count: usize = fs.inodes[slot].record_count();
        let mut i: usize = 0;
        while i < file_count
            invariant
                i <= file_count,
                file_count == dir.len(),
                slot < fs.inodes@.len(),
                fs.wf(),
                fs.same_layout(old(fs)),
                fs.next_block == old(fs).next_block,
                fs.free_blocks == old(fs).free_blocks,
                fs.inodes@.len() == counted.inodes@.len(),
                forall|j: int|
                    0 <= j < fs.inodes@.len() && j != slot ==> fs.inodes@[j] == counted.inodes@[j],
                fs.inodes@[slot as int].size == counted.inodes@[slot as int].size,
                fs.inodes@[slot as int].kind == DiskInodeType::Directory,
                fs.inodes@[slot as int].hard_link == counted.inodes@[slot as int].hard_link,
                fs.inodes@[slot as int].blocks == counted.inodes@[slot as int].blocks,
                fs.inodes@[slot as int].data == counted.inodes@[slot as int].data,
                fs.inodes@[slot as int].records().len() == dir.len(),
                forall|k: int|
                    0 <= k < dir.len() ==> (#[trigger] fs.inodes@[slot as int].records()[k]) == (if k
                        < i {
                        tombstoned(dir, old_name@)[k]
                    } else {
                        dir[k]
                    }),
            decreases file_count - i,
        {
            let ghost round = *fs;
            let hit: bool = {
                let dirent: &DirEntry = fs.inodes[slot].record(i);
                same_name(dirent.name(), old_name) && dirent.inode_id() != DIRENT_INVALID_INODE_ID
            };
            if hit {
                let dirent: DirEntry = DirEntry::new(old_name, DIRENT_INVALID_INODE_ID);
                fs.inodes[slot].write_record(i, dirent);
                fs.dirty = true;
                proof {
                    let after = fs.inodes@[slot as int].records();
                    assert forall|k: int| 0 <= k < after.len() implies (#[trigger] after[k]).1
                        < fs.inodes@.len() by {
                        if k != i {
                            assert(after[k] == round.inodes@[slot as int].records()[k]);
                        }
                    }
                    lemma_wf_after_update(&round, fs, slot as int);
                }
            }
            i = i + 1;
        }
        proof {
            assert(fs.inodes@[slot as int].records() == tombstoned(dir, old_name@));
            assert(dir == old(fs).inodes@[slot as int].records());
        }
        let ghost swept = *fs;
        if old_inode_hard_link == 0 {
            let file_inode: Inode = Inode::new(
                old_inode_block_id,
                old_inode_block_offset,
                old_inode_id,
            );
            file_inode.clear(fs);
        }
        fs.sync_all();
        proof {
            assert forall|j: int| 0 <= j < old(fs).inodes@.len() implies unlinked(
                old(fs).inodes@[j],
                #[trigger] fs.inodes@[j],
                j == old_inode_id,
                j == self.inode_id,
                old_name@,
            ) by {
                if j != slot {
                    assert(swept.inodes@[j] == counted.inodes@[j]);
                }
                if j != old_slot {
                    assert(counted.inodes@[j] == old(fs).inodes@[j]);
                }
            }
        }
        0
    }

    /// Reads from a file: copies into `buf` the bytes from `offset` on, as
    /// many as `buf` holds and the file has, and returns how many.
    pub fn read_at(&self, offset: usize, buf: &mut Vec<u8>, fs: &FileSystem) -> (n: usize)
        requires
            fs.wf(),
            self.valid_file(fs),
        ensures
            n == clamped_len(
                fs.inodes@[self.inode_id as int].size as int,
                offset as int,
                old(buf)@.len() as int,
            ),
            final(buf)@ == filled(
                old(buf)@,
                fs.inodes@[self.inode_id as int].data@,
                offset as int,
                n as int,
            ),
    {
        self.read_disk_inode(fs).read_at(offset, buf)
    }

    /// Grows the inode in slot `slot` to `new_size`, with blocks taken from
    /// the allocator one by one. Nothing happens where `new_size` does not
    /// exceed the inode's size: an inode never shrinks here.
    pub fn increase_size(&self, new_size: u32, slot: usize, fs: &mut FileSystem)
        requires
            old(fs).wf(),
            slot < old(fs).inodes@.len(),
            new_size > old(fs).inodes@[slot as int].size ==> old(fs).blocks_available()
                >= blocks_spanned(new_size as int) - blocks_spanned(
                old(fs).inodes@[slot as int].size as int,
            ) && (old(fs).inodes@[slot as int].kind == DiskInodeType::Directory ==> new_size as int
                % DIRENT_SZ as int == 0),
        ensures
            final(fs).wf(),
            final(fs).same_layout(old(fs)),
            final(fs).inodes@.len() == old(fs).inodes@.len(),
            forall|j: int|
                0 <= j < old(fs).inodes@.len() && j != slot ==> final(fs).inodes@[j] == old(fs).inodes@[j],
            new_size <= old(fs).inodes@[slot as int].size ==> *final(fs) == *old(fs),
            new_size > old(fs).inodes@[slot as int].size ==> grown(
                old(fs).inodes@[slot as int],
                final(fs).inodes@[slot as int],
                new_size,
            ) && final(fs).blocks_available() == old(fs).blocks_available() - (blocks_spanned(
                new_size as int,
            ) - blocks_spanned(old(fs).inodes@[slot as int].size as int)),
            new_size > old(fs).inodes@[slot as int].size ==> took_blocks(
                old(fs),
                final(fs),
                slot as int,
            ),
    {
        if new_size <= fs.inodes[slot].size {
            return ;
        }
        let blocks_needed: u32 = fs.inodes[slot].blocks_num_needed(new_size);
        let mut v: Vec<u32> = Vec::new();
        let mut taken: u32 = 0;
        while taken < blocks_needed
            invariant
                taken <= blocks_needed,
                v@.len() == taken,
                fs.inodes == old(fs).inodes,
                fs.same_layout(old(fs)),
                fs.layout_wf(),
                fs.blocks_available() == old(fs).blocks_available() - taken,
                old(fs).blocks_available() >= blocks_needed,
                old(fs).layout_wf(),
                v@ == old(fs).handed_out(taken as int),
                old(fs).allocated(fs, taken as int),
            decreases blocks_needed - taken,
        {
            let block: u32 = fs.alloc_data();
            v.push(block);
            taken = taken + 1;
            assert(v@ == old(fs).handed_out(taken as int));
        }
        let ghost before = fs.inodes@[slot as int];
        fs.inodes[slot].increase_size(new_size, v);
        fs.dirty = true;
        proof {
            let after = fs.inodes@[slot as int];
            assert forall|i: int| 0 <= i < after.records().len() implies (
            #[trigger] after.records()[i]).1 < fs.inodes@.len() by {
                if i < before.records().len() {
                    assert(after.records()[i] == before.records()[i]);
                }
            }
            lemma_wf_after_update(old(fs), fs, slot as int);
        }
    }

    /// Writes `buf` into a file at `offset`, growing the file first where the
    /// range ends behind its size, and leaves no change pending. Returns the
    /// number of bytes written, which is the length of `buf`.
    pub fn write_at(&self, offset: usize, buf: &[u8], fs: &mut FileSystem) -> (n: usize)
        requires
            old(fs).wf(),
            self.valid_file(old(fs)),
            offset + buf@.len() <= u32::MAX,
            old(fs).blocks_available() >= blocks_spanned(offset + buf@.len()) - blocks_spanned(
                old(fs).inodes@[self.inode_id as int].size as int,
            ),
        ensures
            after_write_at(*self, offset as int, buf@, old(fs), final(fs), n),
    {
        let slot: usize = self.slot(fs);
        let ghost before = fs.inodes@[slot as int];
        self.increase_size((offset + buf.len()) as u32, slot, fs);
        let ghost mid = *fs;
        let n: usize = fs.inodes[slot].write_at(offset, buf);
        fs.dirty = true;
        proof {
            assert(buf@.take(n as int) == buf@);
            assert(fs.inodes@[slot as int].records() == mid.inodes@[slot as int].records());
            lemma_wf_after_update(&mid, fs, slot as int);
        }
        fs.sync_all();
        n
    }

    /// Empties the inode and hands every block it owned back to the
    /// allocator: as many as its size spanned. No change is left pending when
    /// the call returns.
    pub fn clear(&self, fs: &mut FileSystem)
        requires
            old(fs).wf(),
            self.valid(old(fs)),
        ensures
            after_clear(*self, old(fs), final(fs)),
    {
        let slot: usize = self.slot(fs);
        let data_blocks_dealloc: Vec<u32> = fs.inodes[slot].clear_size();
        let ghost mid = *fs;
        proof {
            assert(fs.inodes@[slot as int].records().len() == 0);
            lemma_wf_after_update(old(fs), fs, slot as int);
        }
        let mut k: usize = 0;
        while k < data_blocks_dealloc.len()
            invariant
                k <= data_blocks_dealloc@.len(),
                fs.inodes == mid.inodes,
                fs.same_layout(old(fs)),
                fs.next_block == old(fs).next_block,
                fs.free_blocks@ == old(fs).free_blocks@ + data_blocks_dealloc@.take(k as int),
            decreases data_blocks_dealloc@.len() - k,
        {
            fs.dealloc_data(data_blocks_dealloc[k]);
            k = k + 1;
            assert(data_blocks_dealloc@.take(k as int) == data_blocks_dealloc@.take(k - 1).push(
                data_blocks_dealloc@[k - 1],
            ));
        }
        proof {
            assert(data_blocks_dealloc@.take(k as int) == data_blocks_dealloc@);
        }
        fs.sync_all();
    }

    /// A snapshot of the inode's type, number and link count.
    pub fn stat(&self, fs: &FileSystem) -> (st: Stat)
        requires
            fs.wf(),
            self.valid(fs),
        ensures
            st.is_dir == (fs.inodes@[self.inode_id as int].kind == DiskInodeType::Directory),
            st.is_file == (fs.inodes@[self.inode_id as int].kind == DiskInodeType::File),
            st.inode_id == self.inode_id,
            st.hard_link == fs.inodes@[self.inode_id as int].hard_link,
    {
        let disk_inode: &DiskInode = self.read_disk_inode(fs);
        Stat {
            is_dir: disk_inode.is_dir(),
            is_file: disk_inode.is_file(),
            inode_id: self.inode_id,
            hard_link: disk_inode.hard_link,
        }
    }
}

} // verus!

//! Directory records and the mathematical model of a directory.

use vstd::prelude::*;

verus! {

/// Width in bytes of one directory record on disk.
pub const DIRENT_SZ: usize = 32;

/// The inode number that marks a directory record as deleted. It is the
/// number of the root directory, which no record ever refers to.
pub const DIRENT_INVALID_INODE_ID: u32 = 0;

/// The model of one directory record: its name and the inode it refers to.
pub type Record = (Seq<char>, u32);

/// One directory record: a name bound to an inode number.
pub struct DirEntry {
    pub name: String,
    pub inode_id: u32,
}

impl View for DirEntry {
    type V = Record;

    open spec fn view(&self) -> Record {
        (self.name@, self.inode_id)
    }
}

/// A record is live when it is not a tombstone.
pub open spec fn live(r: Record) -> bool {
    r.1 != DIRENT_INVALID_INODE_ID
}

/// A record answers a lookup of `name` when it is live and carries that name.
pub open spec fn answers(r: Record, name: Seq<char>) -> bool {
    r.0 == name && live(r)
}

/// The records of a directory, as a sequence of models.
pub open spec fn records_of(entries: Seq<DirEntry>) -> Seq<Record> {
    Seq::new(entries.len(), |i: int| entries[i]@)
}

/// The inode that `name` resolves to: that of the first live record with
/// that name, in directory order.
pub open spec fn lookup(dir: Seq<Record>, name: Seq<char>) -> Option<u32>
    decreases dir.len(),
{
    if dir.len() == 0 {
        None
    } else {
        match lookup(dir.drop_last(), name) {
            Some(id) => Some(id),
            None => if answers(dir.last(), name) {
                Some(dir.last().1)
            } else {
                None
            },
        }
    }
}

/// The names of the live records, in directory order, duplicates kept.
pub open spec fn live_names(dir: Seq<Record>) -> Seq<Seq<char>>
    decreases dir.len(),
{
    if dir.len() == 0 {
        Seq::empty()
    } else if live(dir.last()) {
        live_names(dir.drop_last()).push(dir.last().0)
    } else {
        live_names(dir.drop_last())
    }
}

/// The directory after every live record named `name` has been overwritten
/// by a tombstone of the same name. Nothing moves and nothing is removed.
pub open spec fn tombstoned(dir: Seq<Record>, name: Seq<char>) -> Seq<Record> {
    Seq::new(
        dir.len(),
        |i: int| if answers(dir[i], name) {
            (name, DIRENT_INVALID_INODE_ID)
        } else {
            dir[i]
        },
    )
}

/// Every record of the directory refers to an inode below `bound`.
pub open spec fn refers_below(dir: Seq<Record>, bound: int) -> bool {
    forall|i: int| 0 <= i < dir.len() ==> (#[trigger] dir[i]).1 < bound
}

/// A lookup that succeeds in a prefix of a directory gives the same answer in
/// the whole directory.
pub proof fn lemma_lookup_prefix(dir: Seq<Record>, k: int, name: Seq<char>)
    requires
        0 <= k <= dir.len(),
        lookup(dir.take(k), name) is Some,
    ensures
        lookup(dir, name) == lookup(dir.take(k), name),
    decreases dir.len(),
{
    if k < dir.len() {
        assert(dir.drop_last().take(k) == dir.take(k));
        lemma_lookup_prefix(dir.drop_last(), k, name);
    } else {
        assert(dir.take(k) == dir);
    }
}

/// A lookup fails exactly when no record answers it, and an answer is the
/// number of a live record with that name.
pub proof fn lemma_lookup_sound(dir: Seq<Record>, name: Seq<char>)
    ensures
        lookup(dir, name) is None <==> forall|i: int|
            0 <= i < dir.len() ==> !answers(#[trigger] dir[i], name),
        lookup(dir, name) matches Some(id) ==> id != DIRENT_INVALID_INODE_ID && exists|i: int|
            0 <= i < dir.len() && answers(#[trigger] dir[i], name) && dir[i].1 == id,
    decreases dir.len(),
{
    if dir.len() > 0 {
        let front = dir.drop_last();
        lemma_lookup_sound(front, name);
        assert(forall|i: int| 0 <= i < front.len() ==> front[i] == dir[i]);
        if lookup(front, name) is Some {
            let i = choose|i: int|
                0 <= i < front.len() && answers(#[trigger] front[i], name) && front[i].1 == lookup(
                    front,
                    name,
                ).unwrap();
            assert(answers(dir[i], name));
        } else if answers(dir.last(), name) {
            assert(answers(dir[dir.len() - 1], name));
        } else {
            assert forall|i: int| 0 <= i < dir.len() implies !answers(#[trigger] dir[i], name) by {
                if i < front.len() {
                    assert(!answers(front[i], name));
                }
            }
        }
    }
}

/// The name comparison of the standard library, `str::eq`: two string slices
/// are equal exactly when they hold the same characters.
#[verifier::external_body]
pub(crate) fn same_name(a: &str, b: &str) -> (same: bool)
    ensures
        same == (a@ == b@),
{
    a == b
}

impl DirEntry {
    /// The blank record that fresh directory space holds: no name, and the
    /// tombstone number.
    pub fn empty() -> (e: DirEntry)
        ensures
            e@ == (Seq::<char>::empty(), DIRENT_INVALID_INODE_ID),
    {
        DirEntry { name: String::new(), inode_id: DIRENT_INVALID_INODE_ID }
    }

    /// A record that binds `name` to `inode_id`.
    pub fn new(name: &str, inode_id: u32) -> (e: DirEntry)
        ensures
            e@ == (name@, inode_id),
    {
        DirEntry { name: name.to_owned(), inode_id }
    }

    /// The name of the record.
    pub fn name(&self) -> (n: &str)
        ensures
            n@ == self@.0,
    {
        self.name.as_str()
    }

    /// The inode number of the record.
    pub fn inode_id(&self) -> (id: u32)
        ensures
            id == self@.1,
    {
        self.inode_id
    }
}

} // verus!

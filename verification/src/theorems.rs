//! What holds of directories and files across several operations. Each
//! theorem is stated over the models that the contracts of the operations
//! use, so it applies to any run of them.

use crate::dirent::{
    lemma_lookup_sound, live, live_names, lookup, refers_below, tombstoned, Record,
    DIRENT_INVALID_INODE_ID,
};
use crate::disk::{blocks_spanned, clamped_len, filled, DiskInode, DiskInodeType};
use crate::efs::FileSystem;
use crate::vfs::{
    after_clear, after_create, after_linkat, after_unlinkat, after_write_at, handle_of,
    link_count, unlinked, written, Inode,
};
use vstd::prelude::*;

verus! {

/// The directory after files with the names `names` were created in it one
/// after the other, the first of them getting the inode number `first`.
pub open spec fn after_creates(dir: Seq<Record>, names: Seq<Seq<char>>, first: int) -> Seq<Record>
    decreases names.len(),
{
    if names.len() == 0 {
        dir
    } else {
        after_creates(dir, names.drop_last(), first).push(
            (names.last(), (first + names.len() - 1) as u32),
        )
    }
}

/// No two of the names are equal.
pub open spec fn distinct(names: Seq<Seq<char>>) -> bool {
    forall|a: int, b: int| 0 <= a < b < names.len() ==> names[a] != names[b]
}

/// Appending a live record gives its name that record's inode where the name
/// did not resolve before, and changes the answer for no other name.
pub proof fn theorem_append_resolves(dir: Seq<Record>, name: Seq<char>, id: u32, other: Seq<char>)
    requires
        id != DIRENT_INVALID_INODE_ID,
    ensures
        lookup(dir, name) is None ==> lookup(dir.push((name, id)), name) == Some(id),
        lookup(dir, name) is Some ==> lookup(dir.push((name, id)), name) == lookup(dir, name),
        other != name ==> lookup(dir.push((name, id)), other) == lookup(dir, other),
{
    assert(dir.push((name, id)).drop_last() == dir);
}

/// A name that resolves in a directory resolves to an inode that one of its
/// records refers to; so where every record refers below `bound`, a file
/// created with the number `bound` shares its inode with no other name.
pub proof fn theorem_fresh_inode_is_unshared(dir: Seq<Record>, bound: int, other: Seq<char>)
    requires
        refers_below(dir, bound),
    ensures
        lookup(dir, other) matches Some(id) ==> id < bound,
{
    lemma_lookup_sound(dir, other);
}

/// After files with distinct names, none of which resolved before, were
/// created one after the other, each name resolves to the inode that its
/// file was given: the `i`-th to `first + i`. So no two names share an inode.
pub proof fn theorem_creates_resolve(dir: Seq<Record>, names: Seq<Seq<char>>, first: int, i: int)
    requires
        1 <= first,
        first + names.len() <= u32::MAX,
        distinct(names),
        forall|k: int| 0 <= k < names.len() ==> lookup(dir, #[trigger] names[k]) is None,
        0 <= i < names.len(),
    ensures
        lookup(after_creates(dir, names, first), names[i]) == Some((first + i) as u32),
    decreases names.len(),
{
    let front = names.drop_last();
    let before = after_creates(dir, front, first);
    let id = (first + names.len() - 1) as u32;
    assert(after_creates(dir, names, first).drop_last() == before);
    assert forall|k: int| 0 <= k < front.len() implies lookup(dir, #[trigger] front[k]) is None by {
        assert(front[k] == names[k]);
    }
    assert(distinct(front)) by {
        assert forall|a: int, b: int| 0 <= a < b < front.len() implies front[a] != front[b] by {
            assert(front[a] == names[a] && front[b] == names[b]);
        }
    }
    if i < names.len() - 1 {
        assert(front[i] == names[i]);
        theorem_creates_resolve(dir, front, first, i);
    } else {
        lemma_creates_leave_others(dir, front, first, names[i]);
    }
}

/// Creating files leaves a name unresolved that did not resolve before and
/// is not among the names created.
pub proof fn lemma_creates_leave_others(
    dir: Seq<Record>,
    names: Seq<Seq<char>>,
    first: int,
    other: Seq<char>,
)
    requires
        lookup(dir, other) is None,
        forall|k: int| 0 <= k < names.len() ==> #[trigger] names[k] != other,
    ensures
        lookup(after_creates(dir, names, first), other) is None,
    decreases names.len(),
{
    if names.len() > 0 {
        let front = names.drop_last();
        assert forall|k: int| 0 <= k < front.len() implies #[trigger] front[k] != other by {
            assert(front[k] == names[k]);
        }
        lemma_creates_leave_others(dir, front, first, other);
        assert(after_creates(dir, names, first).drop_last() == after_creates(dir, front, first));
        assert(names.last() == names[names.len() - 1]);
    }
}

/// Tombstoning a name keeps the number of records, and leaves no record
/// that answers a lookup of that name: the name no longer resolves.
pub proof fn theorem_unlinked_name_is_gone(dir: Seq<Record>, name: Seq<char>)
    ensures
        tombstoned(dir, name).len() == dir.len(),
        lookup(tombstoned(dir, name), name) is None,
{
    lemma_lookup_sound(tombstoned(dir, name), name);
}

/// Tombstoning a name changes the answer for no other name.
pub proof fn theorem_unlink_keeps_others(dir: Seq<Record>, name: Seq<char>, other: Seq<char>)
    requires
        other != name,
    ensures
        lookup(tombstoned(dir, name), other) == lookup(dir, other),
    decreases dir.len(),
{
    if dir.len() > 0 {
        assert(tombstoned(dir, name).drop_last() == tombstoned(dir.drop_last(), name));
        theorem_unlink_keeps_others(dir.drop_last(), name, other);
    }
}

/// Linking `a` to a name `b` that did not resolve, and then unlinking `a`,
/// leaves `b` resolving to the inode that `a` resolved to, and `a` resolving
/// to nothing. Unlinking `b` as well leaves neither name resolving.
pub proof fn theorem_link_then_unlink(dir: Seq<Record>, a: Seq<char>, b: Seq<char>, id: u32)
    requires
        a != b,
        lookup(dir, a) == Some(id),
        lookup(dir, b) is None,
    ensures
        ({
            let linked = dir.push((b, id));
            let first = tombstoned(linked, a);
            let second = tombstoned(first, b);
            &&& lookup(linked, a) == Some(id)
            &&& lookup(linked, b) == Some(id)
            &&& lookup(first, a) is None
            &&& lookup(first, b) == Some(id)
            &&& lookup(second, a) is None
            &&& lookup(second, b) is None
        }),
{
    let linked = dir.push((b, id));
    let first = tombstoned(linked, a);
    let second = tombstoned(first, b);
    lemma_lookup_sound(dir, a);
    theorem_append_resolves(dir, b, id, a);
    theorem_unlinked_name_is_gone(linked, a);
    theorem_unlink_keeps_others(linked, a, b);
    theorem_unlinked_name_is_gone(first, b);
    theorem_unlink_keeps_others(first, b, a);
}

/// Every name that a listing holds is the name of a live record.
pub proof fn theorem_listed_names_are_live(dir: Seq<Record>, k: int)
    requires
        0 <= k < live_names(dir).len(),
    ensures
        exists|i: int| 0 <= i < dir.len() && live(#[trigger] dir[i]) && dir[i].0 == live_names(dir)[k],
    decreases dir.len(),
{
    if dir.len() > 0 {
        let front = dir.drop_last();
        if k < live_names(front).len() {
            theorem_listed_names_are_live(front, k);
            let i = choose|i: int|
                0 <= i < front.len() && live(#[trigger] front[i]) && front[i].0 == live_names(
                    front,
                )[k];
            assert(dir[i] == front[i]);
        } else {
            assert(live(dir[dir.len() - 1]));
        }
    }
}

/// A listing made after a name was unlinked does not hold that name.
pub proof fn theorem_unlinked_name_not_listed(dir: Seq<Record>, name: Seq<char>, k: int)
    requires
        0 <= k < live_names(tombstoned(dir, name)).len(),
    ensures
        live_names(tombstoned(dir, name))[k] != name,
{
    let after = tombstoned(dir, name);
    theorem_listed_names_are_live(after, k);
}

/// A listing names a live record once for each time it occurs: appending a
/// live record appends its name, and appending a tombstone adds nothing.
pub proof fn theorem_listing_follows_appends(dir: Seq<Record>, r: Record)
    ensures
        live(r) ==> live_names(dir.push(r)) == live_names(dir).push(r.0),
        !live(r) ==> live_names(dir.push(r)) == live_names(dir),
{
    assert(dir.push(r).drop_last() == dir);
}

/// After a write, the file reaches to the end of the written range at
/// least, and a read of the same range gives back exactly what was written.
pub proof fn theorem_read_after_write(
    before: DiskInode,
    after: DiskInode,
    offset: int,
    src: Seq<u8>,
    buf: Seq<u8>,
)
    requires
        0 <= offset,
        written(before, after, offset, src),
        before.wf(),
        before.kind == DiskInodeType::File,
        buf.len() == src.len(),
    ensures
        after.size >= offset + src.len(),
        clamped_len(after.size as int, offset, buf.len() as int) == src.len(),
        filled(buf, after.data@, offset, src.len() as int) == src,
{
    assert(filled(buf, after.data@, offset, src.len() as int) =~= src);
}

/// A file created under a free name is found under that name afterwards, it
/// is a regular file, no other name of the directory resolves to its inode,
/// and every other name resolves as before.
pub proof fn theorem_created_file_is_found(
    this: Inode,
    name: Seq<char>,
    other: Seq<char>,
    before: &FileSystem,
    after: &FileSystem,
    created: Option<Inode>,
)
    requires
        before.wf(),
        this.valid_dir(before),
        lookup(before.dir(this.inode_id as int), name) is None,
        after_create(this, name, before, after, created),
        other != name,
    ensures
        created is Some,
        lookup(after.dir(this.inode_id as int), name) == Some(created.unwrap().inode_id),
        after.inodes@[created.unwrap().inode_id as int].kind == DiskInodeType::File,
        lookup(after.dir(this.inode_id as int), other) == lookup(
            before.dir(this.inode_id as int),
            other,
        ),
        lookup(after.dir(this.inode_id as int), other) != Some(created.unwrap().inode_id),
{
    let dir = before.dir(this.inode_id as int);
    let id = before.inodes@.len() as u32;
    assert(before.inodes@[this.inode_id as int].wf());
    theorem_append_resolves(dir, name, id, other);
    theorem_fresh_inode_is_unshared(dir, before.inodes@.len() as int, other);
}

/// Where `a` resolves to an inode with one link and `b` does not resolve:
/// after `a` is linked to `b` the inode has two links; after `a` is unlinked,
/// `b` still resolves to it and it has one link; after `b` is unlinked too it
/// has none, and neither name resolves.
pub proof fn theorem_link_unlink_unlink(
    this: Inode,
    a: Seq<char>,
    b: Seq<char>,
    id: u32,
    start: &FileSystem,
    linked: &FileSystem,
    first: &FileSystem,
    second: &FileSystem,
    s1: isize,
    s2: isize,
    s3: isize,
)
    requires
        start.wf(),
        this.valid_dir(start),
        a != b,
        lookup(start.dir(this.inode_id as int), a) == Some(id),
        lookup(start.dir(this.inode_id as int), b) is None,
        link_count(start, id) == 1,
        after_linkat(this, a, b, start, linked, s1),
        after_unlinkat(this, a, linked, first, s2),
        after_unlinkat(this, b, first, second, s3),
    ensures
        s1 == 0 && s2 == 0 && s3 == 0,
        link_count(linked, id) == 2,
        lookup(first.dir(this.inode_id as int), a) is None,
        lookup(first.dir(this.inode_id as int), b) == Some(id),
        link_count(first, id) == 1,
        link_count(second, id) == 0,
        lookup(second.dir(this.inode_id as int), a) is None,
        lookup(second.dir(this.inode_id as int), b) is None,
{
    let d = this.inode_id as int;
    let dir = start.dir(d);
    assert(start.inodes@[d].wf());
    lemma_lookup_sound(dir, a);
    assert(id < start.inodes@.len());
    theorem_link_then_unlink(dir, a, b, id);
    assert(linked.inodes@[id as int].hard_link == 2);
    assert(linked.inodes@[d].records() == dir.push((b, id)));
    assert(unlinked(linked.inodes@[d], first.inodes@[d], d == id, true, a));
    assert(unlinked(linked.inodes@[id as int], first.inodes@[id as int], true, id == d, a));
    assert(first.dir(d) == tombstoned(dir.push((b, id)), a));
    assert(unlinked(first.inodes@[d], second.inodes@[d], d == id, true, b));
    assert(unlinked(first.inodes@[id as int], second.inodes@[id as int], true, id == d, b));
    if d != id {
        assert(second.dir(d) == tombstoned(first.dir(d), b));
    } else {
        assert(second.dir(d) =~= Seq::<Record>::empty());
    }
}

/// After a name was unlinked from a directory, the directory has as many
/// records and as many bytes as before, and a listing does not hold the name.
pub proof fn theorem_unlink_hides_from_listing(
    this: Inode,
    name: Seq<char>,
    id: u32,
    before: &FileSystem,
    after: &FileSystem,
    status: isize,
    k: int,
)
    requires
        before.wf(),
        this.valid_dir(before),
        lookup(before.dir(this.inode_id as int), name) == Some(id),
        id != this.inode_id,
        after_unlinkat(this, name, before, after, status),
        0 <= k < live_names(after.dir(this.inode_id as int)).len(),
    ensures
        status == 0,
        after.inodes@[this.inode_id as int].size == before.inodes@[this.inode_id as int].size,
        after.dir(this.inode_id as int).len() == before.dir(this.inode_id as int).len(),
        live_names(after.dir(this.inode_id as int))[k] != name,
{
    let d = this.inode_id as int;
    assert(unlinked(before.inodes@[d], after.inodes@[d], false, true, name));
    assert(after.dir(d) == tombstoned(before.dir(d), name));
    theorem_unlinked_name_not_listed(before.dir(d), name, k);
}

/// When a write returns, no change is pending, and
/// the file opened again under a name that resolves to it is the same file:
/// the handle is equal, and a read of the written range gives back what was
/// written.
pub proof fn theorem_written_bytes_are_found_again(
    this: Inode,
    offset: int,
    src: Seq<u8>,
    buf: Seq<u8>,
    before: &FileSystem,
    after: &FileSystem,
    n: usize,
)
    requires
        before.wf(),
        this.valid_file(before),
        0 <= offset,
        after_write_at(this, offset, src, before, after, n),
        buf.len() == src.len(),
    ensures
        !after.dirty,
        handle_of(after, this.inode_id) == this,
        this.valid_file(after),
        clamped_len(
            after.inodes@[this.inode_id as int].size as int,
            offset,
            buf.len() as int,
        ) == src.len(),
        filled(buf, after.inodes@[this.inode_id as int].data@, offset, src.len() as int) == src,
{
    assert(before.inodes@[this.inode_id as int].wf());
    theorem_read_after_write(
        before.inodes@[this.inode_id as int],
        after.inodes@[this.inode_id as int],
        offset,
        src,
        buf,
    );
}

/// Clearing an inode hands back as many blocks as its size spanned; clearing
/// it again hands back none.
pub proof fn theorem_clear_twice(
    this: Inode,
    before: &FileSystem,
    once: &FileSystem,
    twice: &FileSystem,
)
    requires
        before.wf(),
        this.valid(before),
        after_clear(this, before, once),
        after_clear(this, once, twice),
    ensures
        once.free_blocks@.len() == before.free_blocks@.len() + blocks_spanned(
            before.inodes@[this.inode_id as int].size as int,
        ),
        twice.free_blocks@ == once.free_blocks@,
{
    assert(once.inodes@[this.inode_id as int].blocks@.len() == 0);
    assert(twice.free_blocks@ =~= once.free_blocks@);
}

} // verus!

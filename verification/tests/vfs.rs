use easy_fs::dirent::{DirEntry, DIRENT_SZ};
use easy_fs::disk::{DiskInode, DiskInodeType};
use easy_fs::efs::FileSystem;
use easy_fs::vfs::{root_inode, Inode};

fn mounted() -> (FileSystem, Inode) {
    let fs = FileSystem::new(8, 64);
    let root = root_inode(&fs);
    (fs, root)
}

fn names(fs: &FileSystem, dir: &Inode) -> Vec<String> {
    dir.ls(fs)
}

#[test]
fn root_is_an_empty_directory() {
    let (fs, root) = mounted();
    let st = root.stat(&fs);
    assert!(st.is_dir);
    assert!(!st.is_file);
    assert_eq!(st.inode_id, 0);
    assert_eq!(st.hard_link, 1);
    assert!(names(&fs, &root).is_empty());
    assert_eq!(root, Inode::new(2, 0, 0));
}

#[test]
fn inode_positions_follow_the_number() {
    let (fs, _) = mounted();
    assert_eq!(fs.get_disk_inode_pos(0), (2, 0));
    assert_eq!(fs.get_disk_inode_pos(1), (2, 128));
    assert_eq!(fs.get_disk_inode_pos(3), (2, 384));
    assert_eq!(fs.get_disk_inode_pos(5), (3, 128));
    assert_eq!(fs.slot_at(2, 0), 0);
}

#[test]
fn total_blocks_rounds_up() {
    assert_eq!(DiskInode::total_blocks(0), 0);
    assert_eq!(DiskInode::total_blocks(1), 1);
    assert_eq!(DiskInode::total_blocks(512), 1);
    assert_eq!(DiskInode::total_blocks(513), 2);
    assert_eq!(DiskInode::total_blocks(u32::MAX), 8388608);
}

#[test]
fn dirent_holds_name_and_number() {
    let e = DirEntry::new("notes", 7);
    assert_eq!(e.name(), "notes");
    assert_eq!(e.inode_id(), 7);
    let blank = DirEntry::empty();
    assert_eq!(blank.name(), "");
    assert_eq!(blank.inode_id(), 0);
    assert_eq!(DIRENT_SZ, 32);
}

#[test]
fn created_files_resolve_to_distinct_inodes() {
    let (mut fs, root) = mounted();
    let a = root.create("a", &mut fs).unwrap();
    let b = root.create("b", &mut fs).unwrap();
    let c = root.create("c", &mut fs).unwrap();
    let fa = root.find("a", &fs).unwrap();
    let fb = root.find("b", &fs).unwrap();
    let fc = root.find("c", &fs).unwrap();
    assert_eq!(fa, a);
    assert_eq!(fb, b);
    assert_eq!(fc, c);
    assert_eq!((fa.inode_id, fb.inode_id, fc.inode_id), (1, 2, 3));
    assert!(fa.stat(&fs).is_file);
    assert!(fb.stat(&fs).is_file);
    assert!(fc.stat(&fs).is_file);
    assert!(!fa.stat(&fs).is_dir);
    assert_eq!(fa.stat(&fs).hard_link, 1);
    assert_eq!(names(&fs, &root), vec!["a", "b", "c"]);
    assert_eq!(fs.inodes[0].size, 96);
}

#[test]
fn find_of_a_missing_name_is_none() {
    let (mut fs, root) = mounted();
    root.create("a", &mut fs).unwrap();
    assert!(root.find("b", &fs).is_none());
    assert!(root.find("", &fs).is_none());
    assert!(root.find("aa", &fs).is_none());
}

#[test]
fn create_of_a_taken_name_allocates_nothing() {
    let (mut fs, root) = mounted();
    root.create("a", &mut fs).unwrap();
    let inodes = fs.inodes.len();
    let next_block = fs.next_block;
    let free = fs.free_blocks.clone();
    let size = fs.inodes[0].size;
    assert!(root.create("a", &mut fs).is_none());
    assert_eq!(fs.inodes.len(), inodes);
    assert_eq!(fs.next_block, next_block);
    assert_eq!(fs.free_blocks, free);
    assert_eq!(fs.inodes[0].size, size);
    assert_eq!(names(&fs, &root), vec!["a"]);
}

#[test]
fn first_record_takes_one_block() {
    let (mut fs, root) = mounted();
    let start = fs.next_block;
    root.create("a", &mut fs).unwrap();
    assert_eq!(fs.next_block, start + 1);
    assert_eq!(fs.inodes[0].blocks, vec![start]);
    for i in 0..15 {
        let name = format!("f{}", i);
        root.create(&name, &mut fs).unwrap();
    }
    assert_eq!(fs.inodes[0].size, 512);
    assert_eq!(fs.inodes[0].blocks.len(), 1);
    root.create("last", &mut fs).unwrap();
    assert_eq!(fs.inodes[0].blocks, vec![start, start + 1]);
}

#[test]
fn write_past_the_end_grows_the_file() {
    let (mut fs, root) = mounted();
    let f = root.create("f", &mut fs).unwrap();
    let buf = [1u8, 2, 3, 4, 5, 6, 7, 8, 9, 10];
    assert_eq!(f.write_at(600, &buf, &mut fs), 10);
    assert_eq!(fs.inodes[f.inode_id as usize].size, 610);
    assert_eq!(fs.inodes[f.inode_id as usize].blocks.len(), 2);
    let mut back = vec![0u8; 10];
    assert_eq!(f.read_at(600, &mut back, &fs), 10);
    assert_eq!(back, buf.to_vec());
    let mut gap = vec![9u8; 4];
    assert_eq!(f.read_at(596, &mut gap, &fs), 4);
    assert_eq!(gap, vec![0, 0, 0, 0]);
}

#[test]
fn write_inside_the_file_keeps_its_size() {
    let (mut fs, root) = mounted();
    let f = root.create("f", &mut fs).unwrap();
    assert_eq!(f.write_at(0, b"hello world", &mut fs), 11);
    assert_eq!(f.write_at(6, b"W", &mut fs), 1);
    assert_eq!(fs.inodes[f.inode_id as usize].size, 11);
    let mut back = vec![0u8; 11];
    assert_eq!(f.read_at(0, &mut back, &fs), 11);
    assert_eq!(back, b"hello World".to_vec());
}

#[test]
fn read_is_clamped_to_the_size() {
    let (mut fs, root) = mounted();
    let f = root.create("f", &mut fs).unwrap();
    f.write_at(0, b"abcdef", &mut fs);
    let mut buf = vec![b'-'; 4];
    assert_eq!(f.read_at(4, &mut buf, &fs), 2);
    assert_eq!(buf, b"ef--".to_vec());
    assert_eq!(f.read_at(6, &mut buf, &fs), 0);
    assert_eq!(f.read_at(100, &mut buf, &fs), 0);
    assert_eq!(buf, b"ef--".to_vec());
}

#[test]
fn reopened_file_holds_what_was_written() {
    let (mut fs, root) = mounted();
    let f = root.create("log", &mut fs).unwrap();
    f.write_at(3, b"xyz", &mut fs);
    let again = root.find("log", &fs).unwrap();
    let mut buf = vec![0u8; 6];
    assert_eq!(again.read_at(0, &mut buf, &fs), 6);
    assert_eq!(buf, vec![0, 0, 0, b'x', b'y', b'z']);
}

#[test]
fn link_then_unlink_keeps_the_other_name() {
    let (mut fs, root) = mounted();
    let a = root.create("a", &mut fs).unwrap();
    assert_eq!(root.linkat("a", "b", &mut fs), 0);
    assert_eq!(root.unlinkat("a", &mut fs), 0);
    let b = root.find("b", &fs).unwrap();
    assert_eq!(b.inode_id, a.inode_id);
    assert_eq!(b.stat(&fs).hard_link, 1);
    assert!(root.find("a", &fs).is_none());
    assert_eq!(root.unlinkat("b", &mut fs), 0);
    assert_eq!(a.stat(&fs).hard_link, 0);
    assert!(root.find("a", &fs).is_none());
    assert!(root.find("b", &fs).is_none());
}

#[test]
fn link_to_itself_fails() {
    let (mut fs, root) = mounted();
    let a = root.create("a", &mut fs).unwrap();
    assert_eq!(root.linkat("a", "a", &mut fs), -1);
    assert_eq!(a.stat(&fs).hard_link, 1);
    assert_eq!(names(&fs, &root), vec!["a"]);
}

#[test]
fn link_of_a_missing_name_fails() {
    let (mut fs, root) = mounted();
    assert_eq!(root.linkat("a", "b", &mut fs), -1);
    assert!(names(&fs, &root).is_empty());
    assert_eq!(fs.inodes[0].size, 0);
}

#[test]
fn unlink_of_a_missing_name_fails() {
    let (mut fs, root) = mounted();
    root.create("a", &mut fs).unwrap();
    assert_eq!(root.unlinkat("b", &mut fs), -1);
    assert_eq!(names(&fs, &root), vec!["a"]);
}

#[test]
fn clear_returns_every_block() {
    let (mut fs, root) = mounted();
    let f = root.create("f", &mut fs).unwrap();
    f.write_at(0, &vec![7u8; 1025], &mut fs);
    let owned = fs.inodes[f.inode_id as usize].blocks.clone();
    assert_eq!(owned.len(), 3);
    let free_before = fs.free_blocks.len();
    f.clear(&mut fs);
    assert_eq!(fs.free_blocks.len(), free_before + 3);
    assert_eq!(fs.free_blocks, owned);
    assert_eq!(fs.inodes[f.inode_id as usize].size, 0);
    f.clear(&mut fs);
    assert_eq!(fs.free_blocks.len(), free_before + 3);
}

#[test]
fn freed_blocks_are_handed_out_again() {
    let (mut fs, root) = mounted();
    let f = root.create("f", &mut fs).unwrap();
    f.write_at(0, &[1u8; 600], &mut fs);
    let owned = fs.inodes[f.inode_id as usize].blocks.clone();
    f.clear(&mut fs);
    let next = fs.next_block;
    assert_eq!(fs.alloc_data(), owned[1]);
    assert_eq!(fs.alloc_data(), owned[0]);
    assert_eq!(fs.alloc_data(), next);
    fs.dealloc_data(next);
    assert_eq!(fs.free_blocks, vec![next]);
}

#[test]
fn last_unlink_frees_the_data() {
    let (mut fs, root) = mounted();
    let f = root.create("f", &mut fs).unwrap();
    f.write_at(0, &[1u8; 513], &mut fs);
    let owned = fs.inodes[f.inode_id as usize].blocks.clone();
    assert_eq!(root.unlinkat("f", &mut fs), 0);
    assert_eq!(fs.free_blocks, owned);
    assert_eq!(fs.inodes[f.inode_id as usize].size, 0);
    assert!(fs.inodes[f.inode_id as usize].data.is_empty());
}

#[test]
fn ls_skips_tombstones_and_size_stays() {
    let (mut fs, root) = mounted();
    root.create("a", &mut fs).unwrap();
    root.create("b", &mut fs).unwrap();
    let size = fs.inodes[0].size;
    assert_eq!(root.unlinkat("a", &mut fs), 0);
    assert_eq!(names(&fs, &root), vec!["b"]);
    assert_eq!(fs.inodes[0].size, size);
    assert_eq!(fs.inodes[0].entries[0].inode_id, 0);
    assert_eq!(fs.inodes[0].entries[0].name, "a");
}

#[test]
fn name_is_free_again_after_unlink() {
    let (mut fs, root) = mounted();
    let first = root.create("a", &mut fs).unwrap();
    root.unlinkat("a", &mut fs);
    let second = root.create("a", &mut fs).unwrap();
    assert_ne!(first.inode_id, second.inode_id);
    assert_eq!(root.find("a", &fs).unwrap(), second);
    assert_eq!(fs.inodes[0].size, 64);
}

#[test]
fn link_over_a_taken_name_leaves_two_records() {
    let (mut fs, root) = mounted();
    let a = root.create("a", &mut fs).unwrap();
    let b = root.create("b", &mut fs).unwrap();
    assert_eq!(root.linkat("a", "b", &mut fs), 0);
    assert_eq!(names(&fs, &root), vec!["a", "b", "b"]);
    assert_eq!(root.find("b", &fs).unwrap().inode_id, b.inode_id);
    assert_eq!(a.stat(&fs).hard_link, 2);
    assert_eq!(root.unlinkat("b", &mut fs), 0);
    assert_eq!(names(&fs, &root), vec!["a"]);
    assert_eq!(b.stat(&fs).hard_link, 0);
    assert_eq!(a.stat(&fs).hard_link, 2);
}

#[test]
fn link_and_unlink_scenario() {
    let (mut fs, root) = mounted();
    let h1 = root.create("a", &mut fs).unwrap();
    let k = h1.inode_id;
    assert_eq!(names(&fs, &root), vec!["a"]);
    assert_eq!(root.linkat("a", "b", &mut fs), 0);
    assert_eq!(names(&fs, &root), vec!["a", "b"]);
    assert_eq!(h1.stat(&fs).hard_link, 2);
    assert_eq!(root.unlinkat("a", &mut fs), 0);
    assert_eq!(names(&fs, &root), vec!["b"]);
    let b = root.find("b", &fs).unwrap();
    assert_eq!(b.inode_id, k);
    assert_eq!(b.stat(&fs).hard_link, 1);
    assert_eq!(root.unlinkat("b", &mut fs), 0);
    assert!(names(&fs, &root).is_empty());
    assert!(root.find("b", &fs).is_none());
}

#[test]
fn increase_size_never_shrinks() {
    let (mut fs, root) = mounted();
    let f = root.create("f", &mut fs).unwrap();
    f.write_at(0, &[5u8; 100], &mut fs);
    let slot = f.inode_id as usize;
    f.increase_size(40, slot, &mut fs);
    assert_eq!(fs.inodes[slot].size, 100);
    f.increase_size(1000, slot, &mut fs);
    assert_eq!(fs.inodes[slot].size, 1000);
    assert_eq!(fs.inodes[slot].blocks.len(), 2);
    assert_eq!(fs.inodes[slot].data[99], 5);
    assert_eq!(fs.inodes[slot].data[100], 0);
}

#[test]
fn find_inode_id_takes_the_first_live_match() {
    let mut dir = DiskInode::fresh(DiskInodeType::Directory);
    dir.increase_size(96, vec![40]);
    dir.write_record(0, DirEntry::new("x", 0));
    dir.write_record(1, DirEntry::new("x", 4));
    dir.write_record(2, DirEntry::new("x", 5));
    let probe = Inode::new(2, 0, 0);
    assert_eq!(probe.find_inode_id("x", &dir), Some(4));
    assert_eq!(probe.find_inode_id("y", &dir), None);
    assert_eq!(dir.record_count(), 3);
}

#[test]
fn nothing_is_pending_after_a_mutation() {
    let (mut fs, root) = mounted();
    assert!(!fs.dirty);
    let f = root.create("f", &mut fs).unwrap();
    assert!(!fs.dirty);
    f.write_at(0, b"abc", &mut fs);
    assert!(!fs.dirty);
    root.linkat("f", "g", &mut fs);
    assert!(!fs.dirty);
    root.unlinkat("f", &mut fs);
    assert!(!fs.dirty);
    f.clear(&mut fs);
    assert!(!fs.dirty);
    let block = fs.alloc_data();
    assert!(fs.dirty);
    fs.sync_all();
    assert!(!fs.dirty);
    fs.dealloc_data(block);
    assert!(fs.dirty);
}

#[test]
fn increase_size_to_the_same_size_changes_nothing() {
    let (mut fs, root) = mounted();
    let f = root.create("f", &mut fs).unwrap();
    f.write_at(0, &[5u8; 100], &mut fs);
    let slot = f.inode_id as usize;
    let next = fs.next_block;
    f.increase_size(100, slot, &mut fs);
    assert!(!fs.dirty);
    assert_eq!(fs.inodes[slot].size, 100);
    assert_eq!(fs.inodes[slot].blocks.len(), 1);
    assert_eq!(fs.next_block, next);
    f.increase_size(101, slot, &mut fs);
    assert!(fs.dirty);
    assert_eq!(fs.inodes[slot].size, 101);
}

#[test]
fn link_of_equal_names_asks_nothing_of_the_handle() {
    let (mut fs, root) = mounted();
    let f = root.create("f", &mut fs).unwrap();
    assert_eq!(f.linkat("x", "x", &mut fs), -1);
    assert_eq!(Inode::new(9, 7, 40).linkat("x", "x", &mut fs), -1);
    fs.next_block = fs.data_area_end + 1;
    assert_eq!(root.linkat("f", "f", &mut fs), -1);
    assert_eq!(fs.inodes.len(), 2);
    assert_eq!(fs.inodes[1].hard_link, 1);
}

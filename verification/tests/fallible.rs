use easy_fs::fallible::Fatal;
use easy_fs::disk::DiskInodeType;
use easy_fs::efs::FileSystem;
use easy_fs::shared::mount;
use easy_fs::vfs::{root_inode, Inode};

#[test]
fn fresh_registry_is_consistent() {
    let mut fs = FileSystem::new(2, 16);
    assert!(fs.is_consistent());
    let root = root_inode(&fs);
    root.create("a", &mut fs).unwrap();
    assert!(fs.is_consistent());
    fs.inodes[0].size = 31;
    assert!(!fs.is_consistent());
}

#[test]
fn dangling_record_is_inconsistent() {
    let mut fs = FileSystem::new(2, 16);
    let root = root_inode(&fs);
    root.create("a", &mut fs).unwrap();
    fs.inodes[0].entries[0].inode_id = 2;
    assert!(!fs.is_consistent());
    fs.inodes[0].entries[0].inode_id = 1;
    assert!(fs.is_consistent());
    fs.inodes[1].blocks.push(9);
    assert!(!fs.is_consistent());
}

#[test]
fn foreign_handle_is_not_valid() {
    let fs = FileSystem::new(2, 16);
    assert!(root_inode(&fs).is_valid(&fs));
    assert!(!Inode::new(2, 128, 1).is_valid(&fs));
    assert!(!Inode::new(2, 128, 0).is_valid(&fs));
    assert!(!Inode::new(3, 0, 0).is_valid(&fs));
    assert_eq!(Inode::new(2, 128, 1).try_stat(&fs), Err(Fatal::Corrupt));
}

#[test]
fn corrupt_registry_is_left_alone() {
    let mut fs = FileSystem::new(2, 16);
    let root = root_inode(&fs);
    fs.next_block = fs.data_area_end + 1;
    assert_eq!(root.try_create("a", &mut fs), Err(Fatal::Corrupt));
    assert_eq!(root.try_find("a", &fs), Err(Fatal::Corrupt));
    assert_eq!(root.try_unlinkat("a", &mut fs), Err(Fatal::Corrupt));
    assert_eq!(root.try_linkat("a", "b", &mut fs), Err(Fatal::Corrupt));
    assert_eq!(root.try_linkat("a", "a", &mut fs), Ok(-1));
    assert_eq!(root.try_clear(&mut fs), Err(Fatal::Corrupt));
    assert_eq!(fs.inodes.len(), 1);
}

#[test]
fn wrong_type_is_refused() {
    let mut fs = FileSystem::new(2, 16);
    let root = root_inode(&fs);
    let f = root.try_create("f", &mut fs).unwrap().unwrap();
    assert_eq!(f.try_find("x", &fs), Err(Fatal::WrongType));
    assert_eq!(f.try_ls(&fs), Err(Fatal::WrongType));
    assert_eq!(f.try_create("x", &mut fs), Err(Fatal::WrongType));
    assert_eq!(f.try_unlinkat("x", &mut fs), Err(Fatal::WrongType));
    let mut buf = vec![1u8; 4];
    assert_eq!(root.try_read_at(0, &mut buf, &fs), Err(Fatal::WrongType));
    assert_eq!(buf, vec![1u8; 4]);
    assert_eq!(root.try_write_at(0, &buf, &mut fs), Err(Fatal::WrongType));
    assert_eq!(f.fault(&fs, Some(DiskInodeType::File)), None);
    assert_eq!(f.fault(&fs, None), None);
}

#[test]
fn create_without_blocks_is_exhausted() {
    let mut fs = FileSystem::new(2, 0);
    let root = root_inode(&fs);
    assert!(!fs.has_blocks(1));
    assert!(fs.has_blocks(0));
    assert!(!root.has_room(&fs));
    assert_eq!(root.try_create("a", &mut fs), Err(Fatal::Exhausted));
    assert_eq!(fs.inodes.len(), 1);
}

#[test]
fn create_without_inodes_is_exhausted() {
    let mut fs = FileSystem::new(1, 16);
    let root = root_inode(&fs);
    assert!(root.try_create("a", &mut fs).unwrap().is_some());
    assert!(root.try_create("b", &mut fs).unwrap().is_some());
    assert!(fs.has_inode());
    assert!(root.try_create("c", &mut fs).unwrap().is_some());
    assert!(!fs.has_inode());
    assert_eq!(root.try_create("d", &mut fs), Err(Fatal::Exhausted));
    assert_eq!(root.try_create("a", &mut fs), Ok(None));
    assert_eq!(root.try_ls(&fs).unwrap(), vec!["a", "b", "c"]);
}

#[test]
fn write_without_blocks_is_exhausted() {
    let mut fs = FileSystem::new(1, 2);
    let root = root_inode(&fs);
    let f = root.try_create("f", &mut fs).unwrap().unwrap();
    assert_eq!(f.try_write_at(0, &[1u8; 513], &mut fs), Err(Fatal::Exhausted));
    assert_eq!(fs.inodes[1].size, 0);
    assert_eq!(f.try_write_at(0, &[1u8; 512], &mut fs), Ok(512));
    assert_eq!(f.try_write_at(u32::MAX as usize, &[1u8; 1], &mut fs), Err(Fatal::Exhausted));
    let mut buf = vec![0u8; 2];
    assert_eq!(f.try_read_at(511, &mut buf, &fs), Ok(1));
    assert_eq!(buf, vec![1, 0]);
}

#[test]
fn link_at_the_count_limit_is_exhausted() {
    let mut fs = FileSystem::new(1, 4);
    let root = root_inode(&fs);
    root.try_create("a", &mut fs).unwrap();
    fs.inodes[1].hard_link = u32::MAX;
    assert_eq!(root.try_linkat("a", "b", &mut fs), Err(Fatal::Exhausted));
    fs.inodes[1].hard_link = 5;
    assert_eq!(root.try_linkat("a", "b", &mut fs), Ok(0));
    assert_eq!(fs.inodes[1].hard_link, 6);
    assert_eq!(root.try_linkat("zz", "b", &mut fs), Ok(-1));
}

#[test]
fn unlink_of_an_unlinked_inode_is_corrupt() {
    let mut fs = FileSystem::new(1, 4);
    let root = root_inode(&fs);
    root.try_create("a", &mut fs).unwrap();
    fs.inodes[1].hard_link = 0;
    assert_eq!(root.try_unlinkat("a", &mut fs), Err(Fatal::Corrupt));
    assert_eq!(root.try_ls(&fs).unwrap(), vec!["a"]);
    fs.inodes[1].hard_link = 1;
    assert_eq!(root.try_unlinkat("a", &mut fs), Ok(0));
    assert_eq!(root.try_unlinkat("a", &mut fs), Ok(-1));
}

#[test]
fn mount_refuses_areas_that_do_not_fit() {
    assert!(mount(0, 16).is_none());
    assert!(mount(1, u32::MAX - 2).is_none());
    assert!(mount(u32::MAX / 4 + 1, 0).is_none());
    assert!(mount(1, u32::MAX - 3).is_some());
}

#[test]
fn handles_share_one_filesystem() {
    let root = mount(4, 32).unwrap();
    assert_eq!(root.inode, Inode::new(2, 0, 0));
    let a = root.create("a").unwrap().unwrap();
    assert_eq!(a.write_at(0, b"shared"), Ok(6));
    let again = root.find("a").unwrap().unwrap();
    assert_eq!(again.inode, a.inode);
    let mut buf = vec![0u8; 6];
    assert_eq!(again.read_at(0, &mut buf), Ok(6));
    assert_eq!(buf, b"shared".to_vec());
    assert_eq!(root.linkat("a", "b"), Ok(0));
    assert_eq!(root.linkat("a", "a"), Ok(-1));
    assert_eq!(again.stat().unwrap().hard_link, 2);
    assert_eq!(root.ls().unwrap(), vec!["a", "b"]);
    assert_eq!(root.unlinkat("a"), Ok(0));
    assert_eq!(root.unlinkat("b"), Ok(0));
    assert_eq!(a.stat().unwrap().hard_link, 0);
    assert_eq!(again.read_at(0, &mut buf), Ok(0));
    assert!(root.find("b").unwrap().is_none());
    assert_eq!(a.clear(), Ok(()));
    assert_eq!(root.create("a").unwrap().unwrap().inode.inode_id, 2);
    assert!(matches!(a.find("x"), Err(Fatal::WrongType)));
}

#[test]
fn shared_read_leaves_the_rest_of_the_buffer() {
    let root = mount(2, 8).unwrap();
    let f = root.create("f").unwrap().unwrap();
    assert_eq!(f.write_at(0, b"abc"), Ok(3));
    let mut buf = vec![b'-'; 5];
    assert_eq!(f.read_at(1, &mut buf), Ok(2));
    assert_eq!(buf, b"bc---".to_vec());
    assert!(matches!(root.read_at(0, &mut buf), Err(Fatal::WrongType)));
    assert_eq!(buf, b"bc---".to_vec());
}

#[test]
fn shared_write_is_whole_or_refused() {
    let root = mount(2, 1).unwrap();
    let f = root.create("f").unwrap().unwrap();
    assert_eq!(f.write_at(u32::MAX as usize, b"x"), Err(Fatal::Exhausted));
    assert_eq!(f.write_at(0, &[7u8; 10]), Err(Fatal::Exhausted));
    assert_eq!(f.stat().unwrap().hard_link, 1);
    let mut buf = vec![0u8; 1];
    assert_eq!(f.read_at(0, &mut buf), Ok(0));
    assert!(matches!(root.write_at(0, b"x"), Err(Fatal::WrongType)));
}

#[test]
fn shared_directory_operations_follow_the_registry() {
    let root = mount(1, 8).unwrap();
    assert_eq!(root.ls(), Ok(Vec::<String>::new()));
    assert!(matches!(root.find("a"), Ok(None)));
    let a = root.create("a").unwrap().unwrap();
    assert_eq!(a.inode, Inode::new(2, 128, 1));
    assert!(matches!(root.create("a"), Ok(None)));
    assert_eq!(root.ls(), Ok(vec!["a".to_string()]));
    assert!(matches!(a.ls(), Err(Fatal::WrongType)));
    assert!(matches!(a.create("x"), Err(Fatal::WrongType)));
    assert_eq!(a.unlinkat("x"), Err(Fatal::WrongType));
    assert_eq!(root.unlinkat("b"), Ok(-1));
    assert_eq!(root.unlinkat("a"), Ok(0));
    assert_eq!(root.ls(), Ok(Vec::<String>::new()));
    root.create("b").unwrap().unwrap();
    root.create("c").unwrap().unwrap();
    assert!(matches!(root.create("d"), Err(Fatal::Exhausted)));
}

#[test]
fn shared_clear_frees_the_blocks_once() {
    let root = mount(1, 2).unwrap();
    let f = root.create("f").unwrap().unwrap();
    assert_eq!(f.write_at(0, &[1u8; 512]), Ok(512));
    assert_eq!(f.write_at(512, &[1u8; 1]), Err(Fatal::Exhausted));
    assert_eq!(f.clear(), Ok(()));
    assert_eq!(f.clear(), Ok(()));
    assert_eq!(f.write_at(0, &[2u8; 512]), Ok(512));
    let mut buf = vec![0u8; 2];
    assert_eq!(f.read_at(510, &mut buf), Ok(2));
    assert_eq!(buf, vec![2, 2]);
}

#[test]
fn shared_link_and_stat_follow_the_registry() {
    let root = mount(1, 8).unwrap();
    let a = root.create("a").unwrap().unwrap();
    assert_eq!(root.linkat("zz", "b"), Ok(-1));
    assert_eq!(a.linkat("a", "b"), Err(Fatal::WrongType));
    assert_eq!(a.linkat("a", "a"), Ok(-1));
    assert_eq!(root.linkat("a", "b"), Ok(0));
    let st = a.stat().unwrap();
    assert!(st.is_file && !st.is_dir);
    assert_eq!((st.inode_id, st.hard_link), (1, 2));
    let rs = root.stat().unwrap();
    assert!(rs.is_dir && !rs.is_file);
    assert_eq!((rs.inode_id, rs.hard_link), (0, 1));
    let b = root.find("b").unwrap().unwrap();
    assert_eq!(b.stat(), a.stat());
}

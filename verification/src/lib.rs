//! The inode and directory layer of a small block-based filesystem, together
//! with the ready queue and the system-call decisions of the kernel that
//! hosts it.
//!
//! The filesystem is an explicit registry ([`efs::FileSystem`]) that owns the
//! inode table and the block allocator. A [`vfs::Inode`] is a small handle
//! into that registry; every operation takes the registry it works on, and
//! states exactly what it makes of it. [`fallible`] offers the same operations
//! for a registry of which nothing is known, and [`shared`] puts one registry
//! behind a spin lock for many handles. [`theorems`] holds what follows for
//! runs of several operations.

pub mod dirent;
pub mod disk;
pub mod efs;
pub mod fallible;
pub mod shared;
pub mod syscall;
pub mod task;
pub mod theorems;
pub mod vfs;

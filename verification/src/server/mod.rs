//! The daemon: what it keeps of the drives, and how it serves the kernel and its clients.
pub mod args;
pub mod bg;
pub mod cbm;
pub mod daemon;
pub mod drivemgr;
pub mod error;
pub mod file;
pub mod fusermount;
pub mod inode;
pub mod ipc;
pub mod mount;
pub mod mountsvc;
pub mod run;
pub mod signal;
pub mod xattr;

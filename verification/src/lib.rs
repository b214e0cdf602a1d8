//! A file system for the disk drives of Commodore computers: the types, rules and
//! protocols behind the daemon that mounts the drives and the client that talks to it.
use vstd::prelude::*;

pub mod bus_start;
pub mod cbm;
pub mod cbmtype;
pub mod client;
pub mod dir;
pub mod dir_session;
pub mod errno;
pub mod error;
pub mod fuse;
pub mod ipc;
pub mod laws;
pub mod number;
pub mod opencbm;
pub mod pattern;
pub mod server;
pub mod session;
pub mod shell;
pub mod start;
pub mod text;
pub mod time;
pub mod validate;

pub use crate::opencbm::{parse_lsusb_output, parse_usbreset_output};

verus! {

/// The lowest number that a drive can have.
pub const MIN_DEVICE_NUM: u8 = 8;

/// The highest number that a drive can have.
pub const MAX_DEVICE_NUM: u8 = 15;

/// The number of the drive where none is given.
pub const DEFAULT_DEVICE_NUM: u8 = 8;

} // verus!

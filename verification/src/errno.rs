//! The error numbers and open flags of Linux that the file system answers with.
use vstd::prelude::*;

verus! {

pub const EPERM: i32 = 1;

pub const ENOENT: i32 = 2;

pub const EIO: i32 = 5;

pub const EACCES: i32 = 13;

pub const EBUSY: i32 = 16;

pub const ENOTDIR: i32 = 20;

pub const EISDIR: i32 = 21;

pub const EINVAL: i32 = 22;

pub const ENOSPC: i32 = 28;

pub const EROFS: i32 = 30;

pub const ERANGE: i32 = 34;

pub const ENODATA: i32 = 61;

pub const ENOTSUP: i32 = 95;

pub const ETIMEDOUT: i32 = 110;

pub const ECANCELED: i32 = 125;

pub const O_RDONLY: i32 = 0;

pub const O_WRONLY: i32 = 1;

pub const O_RDWR: i32 = 2;

pub const O_ACCMODE: i32 = 3;

} // verus!

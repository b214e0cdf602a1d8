//! Files, directories and control files as the kernel sees them.
use vstd::prelude::*;

use crate::cbmtype::CbmFileType;
use crate::dir::{CbmDirListing, CbmDiskHeader, CbmFileEntry, CbmFileEntryView};
use crate::error::{Error, ErrorView, Fs1541Error, Fs1541ErrorView};
use crate::errno::{O_RDWR, O_WRONLY};
use crate::number;
use crate::number::{decimal_string, push_decimal};
use crate::server::xattr;
use crate::server::xattr::{CacheStatus, DiskXattr, FileXattr, RwType, XattrOps};
use crate::time::{Duration, SystemTime};

verus! {

/// The inode of the root directory.
pub const FUSE_ROOT_ID: u64 = 1;

fn fs_error(message: &str, error: Fs1541Error) -> (e: Error)
    ensures
        e@ == (ErrorView::Fs1541 { message: message@, error: error@ }),
{
    Error::Fs1541 { message: message.to_owned(), error }
}

/// An error of the file system.
pub open spec fn fs_error_of(message: Seq<char>, error: Fs1541ErrorView) -> ErrorView {
    ErrorView::Fs1541 { message, error }
}

// ---------------------------------------------------------------------------
// Buffers
// ---------------------------------------------------------------------------

/// What a buffer is for.
#[derive(Debug, Clone, Copy, PartialEq, Eq, Structural)]
pub enum BufferType {
    Read,
    Write,
}

/// Bytes on their way to or from a file.
#[derive(Debug)]
pub struct Buffer {
    pub buffer_type: BufferType,
    pub data: Vec<u8>,
    pub complete: bool,
}

/// A buffer, with its bytes as a sequence.
#[verifier::ext_equal]
pub struct BufferView {
    pub buffer_type: BufferType,
    pub data: Seq<u8>,
    pub complete: bool,
}

impl View for Buffer {
    type V = BufferView;

    open spec fn view(&self) -> BufferView {
        BufferView { buffer_type: self.buffer_type, data: self.data@, complete: self.complete }
    }
}

/// What is wrong with writing to a buffer.
pub open spec fn write_fault(b: BufferView) -> Option<ErrorView> {
    if b.buffer_type == BufferType::Read {
        Some(fs_error_of("Cannot write to read buffer"@, Fs1541ErrorView::FileAccess(""@)))
    } else if b.complete {
        Some(fs_error_of("Cannot write to completed buffer"@, Fs1541ErrorView::FileAccess(""@)))
    } else {
        None
    }
}

/// The bytes from an offset on, as many as are asked for and there are.
pub open spec fn slice_at(data: Seq<u8>, offset: int, size: int) -> Seq<u8> {
    if offset >= data.len() {
        Seq::empty()
    } else if offset + size <= data.len() {
        data.subrange(offset, offset + size)
    } else {
        data.skip(offset)
    }
}

impl Buffer {
    /// An empty buffer to read from.
    pub fn new_read() -> (b: Self)
        ensures
            b@ == (BufferView {
                buffer_type: BufferType::Read,
                data: Seq::empty(),
                complete: false,
            }),
    {
        Buffer { buffer_type: BufferType::Read, data: Vec::new(), complete: false }
    }

    /// An empty buffer to write to.
    pub fn new_write() -> (b: Self)
        ensures
            b@ == (BufferView {
                buffer_type: BufferType::Write,
                data: Seq::empty(),
                complete: false,
            }),
    {
        Buffer { buffer_type: BufferType::Write, data: Vec::new(), complete: false }
    }

    /// Puts bytes at the end of the buffer, where it is to write to and not complete.
    pub fn write(&mut self, data: &[u8]) -> (r: Result<usize, Error>)
        ensures
            match write_fault(old(self)@) {
                Some(fault) => final(self)@ == old(self)@ && (r matches Err(e) && e@ == fault),
                None => final(self)@ == (BufferView { data: old(self)@.data + data@, ..old(self)@ })
                    && r == Ok::<usize, Error>(data@.len() as usize),
            },
    {
        match self.buffer_type {
            BufferType::Write => {
                if self.complete {
                    Err(
                        fs_error(
                            "Cannot write to completed buffer",
                            Fs1541Error::FileAccess("".to_owned()),
                        ),
                    )
                } else {
                    self.data.extend_from_slice(data);
                    Ok(data.len())
                }
            },
            BufferType::Read => Err(
                fs_error("Cannot write to read buffer", Fs1541Error::FileAccess("".to_owned())),
            ),
        }
    }

    /// The bytes from an offset on, where the buffer is to read from.
    pub fn read(&self, offset: usize, size: usize) -> (r: Result<&[u8], Error>)
        ensures
            match self.buffer_type {
                BufferType::Read => r matches Ok(s) && s@ == slice_at(
                    self.data@,
                    offset as int,
                    size as int,
                ),
                BufferType::Write => r matches Err(e) && e@ == (ErrorView::Io {
                    message: "Permission denied"@,
                    error: "Cannot read from write buffer"@,
                }),
            },
    {
        match self.buffer_type {
            BufferType::Read => Ok(slice_from(&self.data, offset, size)),
            BufferType::Write => Err(
                Error::Io {
                    message: "Permission denied".to_owned(),
                    error: "Cannot read from write buffer".to_owned(),
                },
            ),
        }
    }

    /// Nothing more is to be written.
    pub fn mark_complete(&mut self)
        ensures
            final(self)@ == (BufferView { complete: true, ..old(self)@ }),
    {
        self.complete = true;
    }

    /// Whether nothing more is to be written.
    pub fn is_complete(&self) -> (r: bool)
        ensures
            r == self.complete,
    {
        self.complete
    }

    fn copy(&self) -> (b: Buffer)
        ensures
            b@ == self@,
    {
        Buffer {
            buffer_type: self.buffer_type,
            data: vstd::slice::slice_to_vec(self.data.as_slice()),
            complete: self.complete,
        }
    }
}

/// The bytes from an offset on, as many as are asked for and there are.
pub fn slice_from(data: &Vec<u8>, offset: usize, size: usize) -> (s: &[u8])
    ensures
        s@ == slice_at(data@, offset as int, size as int),
{
    let n: usize = data.len();
    let start: usize = if offset >= n {
        n
    } else {
        offset
    };
    let end: usize = if n - start <= size {
        n
    } else {
        start + size
    };
    let s = vstd::slice::slice_subrange(data.as_slice(), start, end);
    assert(s@ =~= slice_at(data@, offset as int, size as int));
    s
}

// ---------------------------------------------------------------------------
// Control files
// ---------------------------------------------------------------------------

/// What a control file is for.
#[derive(Debug, Clone, Copy, PartialEq, Eq, Structural)]
pub enum ControlFilePurpose {
    GetCurDriveStatus,
    GetLastDriveStatus,
    GetLastErrorStatus,
    ExecDriveCommand,
    ExecDirRefresh,
    ExecFormatDrive,
}

impl ControlFilePurpose {
    /// All purposes, in order.
    pub open spec fn all() -> Seq<ControlFilePurpose> {
        seq![
            ControlFilePurpose::GetCurDriveStatus,
            ControlFilePurpose::GetLastDriveStatus,
            ControlFilePurpose::GetLastErrorStatus,
            ControlFilePurpose::ExecDriveCommand,
            ControlFilePurpose::ExecDirRefresh,
            ControlFilePurpose::ExecFormatDrive,
        ]
    }

    /// The name of the purpose.
    pub open spec fn name(self) -> Seq<char> {
        match self {
            ControlFilePurpose::GetCurDriveStatus => "GetCurDriveStatus"@,
            ControlFilePurpose::GetLastDriveStatus => "GetLastDriveStatus"@,
            ControlFilePurpose::GetLastErrorStatus => "GetLastErrorStatus"@,
            ControlFilePurpose::ExecDriveCommand => "ExecDriveCommand"@,
            ControlFilePurpose::ExecDirRefresh => "ExecDirRefresh"@,
            ControlFilePurpose::ExecFormatDrive => "ExecFormatDrive"@,
        }
    }

    /// The statuses can be read only, and the rest be read and written.
    pub open spec fn rw(self) -> RwType {
        match self {
            ControlFilePurpose::GetCurDriveStatus => RwType::Read,
            ControlFilePurpose::GetLastDriveStatus => RwType::Read,
            ControlFilePurpose::GetLastErrorStatus => RwType::Read,
            _ => RwType::ReadWrite,
        }
    }

    /// The name of the control file.
    pub open spec fn file_name(self) -> Seq<char> {
        let name = match self {
            ControlFilePurpose::GetCurDriveStatus => "get_current_status"@,
            ControlFilePurpose::GetLastDriveStatus => "get_last_status"@,
            ControlFilePurpose::GetLastErrorStatus => "get_last_error_status"@,
            ControlFilePurpose::ExecDriveCommand => "exec_command"@,
            ControlFilePurpose::ExecDirRefresh => "exec_dir_refresh"@,
            ControlFilePurpose::ExecFormatDrive => "exec_format_drive"@,
        };
        let suffix = match self.rw() {
            RwType::Read => "r"@,
            RwType::Write => "w"@,
            RwType::ReadWrite => "rw"@,
        };
        "."@ + name + "."@ + suffix
    }

    /// What is read from a control file whose contents never change.
    pub open spec fn help(self) -> Option<Seq<char>> {
        match self {
            ControlFilePurpose::ExecDriveCommand => Some(
                "To run a drive command echo the command (as lower case ASCII) into this file.\nFor example:\n  echo \"i\" > "@
                    + self.file_name() + "\n"@,
            ),
            ControlFilePurpose::ExecDirRefresh => Some(
                "To refresh the directory listing echo \"1\" into this file.\nFor example: \n  echo \"1\" > "@
                    + self.file_name() + "\n"@,
            ),
            ControlFilePurpose::ExecFormatDrive => Some(
                "To format the disk in the drive, echo the new header name followed by the disk ID, separated by commands, into this file.\nThe header name may be maximum of 16 characters, and may include whitespace.  The ID must be precisely 2 characters.\nFor example:\n  echo \"my new disk,aa\" > "@
                    + self.file_name() + "\n"@,
            ),
            _ => None,
        }
    }

    /// The size of the control file: that of its contents where they never change.
    pub open spec fn file_size(self) -> u64 {
        match self.help() {
            Some(text) => vstd::utf8::encode_utf8(text).len() as usize as u64,
            None => 0,
        }
    }

    /// The permissions of the control file.
    pub open spec fn mode(self) -> u16 {
        match self.rw() {
            RwType::Read => 0o444,
            RwType::Write => 0o222,
            RwType::ReadWrite => 0o666,
        }
    }

    /// All purposes, in order.
    pub fn list() -> (r: Vec<ControlFilePurpose>)
        ensures
            r@ == ControlFilePurpose::all(),
    {
        vec![
            ControlFilePurpose::GetCurDriveStatus,
            ControlFilePurpose::GetLastDriveStatus,
            ControlFilePurpose::GetLastErrorStatus,
            ControlFilePurpose::ExecDriveCommand,
            ControlFilePurpose::ExecDirRefresh,
            ControlFilePurpose::ExecFormatDrive,
        ]
    }

    /// The name of the purpose.
    pub fn as_str(&self) -> (r: &'static str)
        ensures
            r@ == self.name(),
    {
        match self {
            ControlFilePurpose::GetCurDriveStatus => "GetCurDriveStatus",
            ControlFilePurpose::GetLastDriveStatus => "GetLastDriveStatus",
            ControlFilePurpose::GetLastErrorStatus => "GetLastErrorStatus",
            ControlFilePurpose::ExecDriveCommand => "ExecDriveCommand",
            ControlFilePurpose::ExecDirRefresh => "ExecDirRefresh",
            ControlFilePurpose::ExecFormatDrive => "ExecFormatDrive",
        }
    }
}

/// A file by which the file system is controlled.
#[derive(Debug, Clone, Copy, PartialEq, Eq, Structural)]
pub struct ControlFile {
    pub purpose: ControlFilePurpose,
}

/// What follows on a write to a control file.
#[derive(Debug)]
pub enum ControlWrite {
    /// The directory is to be read again; then this many bytes count as written
    RefreshDir { written: u32 },
    Fail(Error),
}

impl ControlFile {
    /// A control file for a purpose.
    pub fn new(purpose: ControlFilePurpose) -> (c: Self)
        ensures
            c.purpose == purpose,
    {
        ControlFile { purpose }
    }

    /// What is read from the file, where its contents never change.
    pub fn read_static(&self) -> (r: Option<String>)
        ensures
            match r {
                Some(s) => self.purpose.help() == Some(s@),
                None => self.purpose.help() is None,
            },
    {
        let head: &str = match self.purpose {
            ControlFilePurpose::ExecDriveCommand => "To run a drive command echo the command (as lower case ASCII) into this file.\nFor example:\n  echo \"i\" > ",
            ControlFilePurpose::ExecDirRefresh => "To refresh the directory listing echo \"1\" into this file.\nFor example: \n  echo \"1\" > ",
            ControlFilePurpose::ExecFormatDrive => "To format the disk in the drive, echo the new header name followed by the disk ID, separated by commands, into this file.\nThe header name may be maximum of 16 characters, and may include whitespace.  The ID must be precisely 2 characters.\nFor example:\n  echo \"my new disk,aa\" > ",
            _ => return None,
        };
        let mut s = head.to_owned();
        s.append(self.filename().as_str());
        s.append("\n");
        Some(s)
    }

    /// The size of the file: that of its contents where they never change, and 0 else.
    pub fn size(&self) -> (n: u64)
        ensures
            n == self.purpose.file_size(),
    {
        match self.read_static() {
            Some(s) => s.as_str().len() as u64,
            None => 0,
        }
    }

    /// The permissions of the file.
    pub fn permissions(&self) -> (r: u16)
        ensures
            r == self.purpose.mode(),
    {
        match self.rw_type() {
            RwType::Read => 0o444,
            RwType::Write => 0o222,
            RwType::ReadWrite => 0o666,
        }
    }

    /// Whether the file can be read, written or both.
    pub fn rw_type(&self) -> (r: RwType)
        ensures
            r == self.purpose.rw(),
    {
        match self.purpose {
            ControlFilePurpose::GetCurDriveStatus => RwType::Read,
            ControlFilePurpose::GetLastDriveStatus => RwType::Read,
            ControlFilePurpose::GetLastErrorStatus => RwType::Read,
            ControlFilePurpose::ExecDriveCommand => RwType::ReadWrite,
            ControlFilePurpose::ExecDirRefresh => RwType::ReadWrite,
            ControlFilePurpose::ExecFormatDrive => RwType::ReadWrite,
        }
    }

    /// The name of the file.
    pub fn filename(&self) -> (s: String)
        ensures
            s@ == self.purpose.file_name(),
    {
        let name: &str = match self.purpose {
            ControlFilePurpose::GetCurDriveStatus => "get_current_status",
            ControlFilePurpose::GetLastDriveStatus => "get_last_status",
            ControlFilePurpose::GetLastErrorStatus => "get_last_error_status",
            ControlFilePurpose::ExecDriveCommand => "exec_command",
            ControlFilePurpose::ExecDirRefresh => "exec_dir_refresh",
            ControlFilePurpose::ExecFormatDrive => "exec_format_drive",
        };
        let suffix: &str = match self.rw_type() {
            RwType::Read => "r",
            RwType::Write => "w",
            RwType::ReadWrite => "rw",
        };
        let mut s = ".".to_owned();
        s.append(name);
        s.append(".");
        s.append(suffix);
        s
    }

    /// What the file is for.
    pub fn purpose(&self) -> (r: &ControlFilePurpose)
        ensures
            *r == self.purpose,
    {
        &self.purpose
    }

    /// What follows on a write to the file.
    pub fn write(&self, data: &[u8]) -> (r: ControlWrite)
        ensures
            match self.purpose {
                ControlFilePurpose::ExecDirRefresh => r == (ControlWrite::RefreshDir {
                    written: data@.len() as u32,
                }),
                ControlFilePurpose::ExecDriveCommand => r matches ControlWrite::Fail(e) && e@
                    == fs_error_of(
                    "Not implemented"@,
                    Fs1541ErrorView::Internal("ExecDriveCommand not implemented"@),
                ),
                ControlFilePurpose::ExecFormatDrive => r matches ControlWrite::Fail(e) && e@
                    == fs_error_of(
                    "Not implemented"@,
                    Fs1541ErrorView::Internal("ExecFormatDrive not implemented"@),
                ),
                _ => r matches ControlWrite::Fail(e) && e@ == fs_error_of(
                    "Cannot write to read-only control file"@,
                    Fs1541ErrorView::ReadOnly(self.purpose.file_name()),
                ),
            },
    {
        match self.purpose {
            ControlFilePurpose::ExecDirRefresh => ControlWrite::RefreshDir {
                written: data.len() as u32,
            },
            ControlFilePurpose::ExecDriveCommand => ControlWrite::Fail(
                fs_error(
                    "Not implemented",
                    Fs1541Error::Internal("ExecDriveCommand not implemented".to_owned()),
                ),
            ),
            ControlFilePurpose::ExecFormatDrive => ControlWrite::Fail(
                fs_error(
                    "Not implemented",
                    Fs1541Error::Internal("ExecFormatDrive not implemented".to_owned()),
                ),
            ),
            _ => ControlWrite::Fail(
                fs_error(
                    "Cannot write to read-only control file",
                    Fs1541Error::ReadOnly(self.filename()),
                ),
            ),
        }
    }
}

// ---------------------------------------------------------------------------
// Caches
// ---------------------------------------------------------------------------

/// The contents of a file as far as they were read.
#[derive(Debug)]
pub struct FileCache {
    /// What was read so far
    pub cache: Vec<u8>,
    /// Whether the end of the file was reached
    pub is_complete: bool,
    /// When the first part was read
    pub cache_start: SystemTime,
    /// When the last part was read, if it was
    pub cache_complete: Option<SystemTime>,
    /// When the disk was last read for this
    pub last_device_read: SystemTime,
}

/// The contents of a file as far as they were read, as a sequence.
#[verifier::ext_equal]
pub struct FileCacheView {
    pub cache: Seq<u8>,
    pub is_complete: bool,
    pub cache_start: SystemTime,
    pub cache_complete: Option<SystemTime>,
    pub last_device_read: SystemTime,
}

impl View for FileCache {
    type V = FileCacheView;

    open spec fn view(&self) -> FileCacheView {
        FileCacheView {
            cache: self.cache@,
            is_complete: self.is_complete,
            cache_start: self.cache_start,
            cache_complete: self.cache_complete,
            last_device_read: self.last_device_read,
        }
    }
}

impl FileCacheView {
    /// Nothing was read.
    pub open spec fn empty(now: SystemTime) -> FileCacheView {
        FileCacheView {
            cache: Seq::empty(),
            is_complete: false,
            cache_start: now,
            cache_complete: None,
            last_device_read: now,
        }
    }

    /// A part was read.
    pub open spec fn with_chunk(self, data: Seq<u8>, is_final_chunk: bool, now: SystemTime) -> FileCacheView {
        FileCacheView {
            cache: self.cache + data,
            is_complete: is_final_chunk,
            cache_start: self.cache_start,
            cache_complete: if is_final_chunk {
                Some(now)
            } else {
                self.cache_complete
            },
            last_device_read: now,
        }
    }

    /// All was read, and not too long ago.
    pub open spec fn is_fresh(self, max_age: Duration, now: SystemTime) -> bool {
        self.is_complete && now.in_nanos() < self.last_device_read.in_nanos() + max_age.in_nanos()
    }
}

impl FileCache {
    /// Nothing was read.
    pub fn new(now: SystemTime) -> (c: Self)
        ensures
            c@ == FileCacheView::empty(now),
    {
        FileCache {
            cache: Vec::new(),
            is_complete: false,
            cache_start: now,
            cache_complete: None,
            last_device_read: now,
        }
    }

    /// Whether the end of the file was reached.
    pub fn is_fully_cached(&self) -> (r: bool)
        ensures
            r == self.is_complete,
    {
        self.is_complete
    }

    /// Adds a part of the file, which may be the last.
    pub fn add_chunk(&mut self, data: &[u8], is_final_chunk: bool, now: SystemTime)
        ensures
            final(self)@ == old(self)@.with_chunk(data@, is_final_chunk, now),
    {
        self.cache.extend_from_slice(data);
        self.is_complete = is_final_chunk;
        self.last_device_read = now;
        if is_final_chunk {
            self.cache_complete = Some(now);
        }
    }

    /// How much was read so far.
    pub fn len(&self) -> (n: usize)
        ensures
            n == self.cache@.len(),
    {
        self.cache.len()
    }

    /// Whether nothing was read so far.
    pub fn is_empty(&self) -> (r: bool)
        ensures
            r == (self.cache@.len() == 0),
    {
        self.cache.len() == 0
    }

    /// The contents of the file, where all was read, and not too long ago.
    pub fn get_data_complete_and_fresh(&self, max_age: &Duration, now: &SystemTime) -> (r: Option<
        &Vec<u8>,
    >)
        ensures
            match r {
                Some(data) => self@.is_fresh(*max_age, *now) && *data == self.cache,
                None => !self@.is_fresh(*max_age, *now),
            },
    {
        if self.is_complete && now.is_within(max_age, &self.last_device_read) {
            Some(&self.cache)
        } else {
            None
        }
    }

    fn copy(&self) -> (c: FileCache)
        ensures
            c@ == self@,
    {
        FileCache {
            cache: vstd::slice::slice_to_vec(self.cache.as_slice()),
            is_complete: self.is_complete,
            cache_start: self.cache_start,
            cache_complete: self.cache_complete,
            last_device_read: self.last_device_read,
        }
    }
}

/// A file that is cached in parts is the parts put together, and complete with the last.
pub proof fn law_cache_collects(
    c: FileCacheView,
    a: Seq<u8>,
    b: Seq<u8>,
    now: SystemTime,
    later: SystemTime,
)
    ensures
        c.with_chunk(a, false, now).with_chunk(b, true, later).cache == c.cache + (a + b),
        c.with_chunk(a, false, now).with_chunk(b, true, later).is_complete,
        c.with_chunk(a, false, now).with_chunk(b, true, later).cache_complete == Some(later),
        !c.with_chunk(a, false, now).is_complete,
{
    assert((c.cache + a) + b =~= c.cache + (a + b));
}

// ---------------------------------------------------------------------------
// File entries
// ---------------------------------------------------------------------------

/// What stands behind a file.
#[derive(Debug)]
pub enum FileEntryType {
    CbmFile(CbmFileEntry),
    ControlFile(ControlFile),
    /// The directory of a drive
    Directory(u8),
}

/// What stands behind a file, with its texts as sequences of characters.
#[verifier::ext_equal]
pub enum FileEntryTypeView {
    CbmFile(CbmFileEntryView),
    ControlFile(ControlFile),
    Directory(u8),
}

impl View for FileEntryType {
    type V = FileEntryTypeView;

    open spec fn view(&self) -> FileEntryTypeView {
        match *self {
            FileEntryType::CbmFile(f) => FileEntryTypeView::CbmFile(f@),
            FileEntryType::ControlFile(c) => FileEntryTypeView::ControlFile(c),
            FileEntryType::Directory(n) => FileEntryTypeView::Directory(n),
        }
    }
}

/// How the kernel sorts files.
#[derive(Debug, Clone, Copy, PartialEq, Eq, Structural)]
pub enum FileType {
    RegularFile,
    Directory,
}

/// What the kernel is told of every file.
#[derive(Debug)]
pub struct FuseFile {
    pub ino: u64,
    pub name: String,
    pub size: u64,
    pub permissions: u16,
    pub modified_time: SystemTime,
    pub created_time: SystemTime,
}

impl FuseFile {
    /// What stands behind a file name for a file of a type.
    pub open spec fn suffix(file_type: CbmFileType) -> Seq<char> {
        match file_type {
            CbmFileType::PRG => ".prg"@,
            CbmFileType::SEQ => ".seq"@,
            CbmFileType::USR => ".usr"@,
            CbmFileType::REL => ".rel"@,
            CbmFileType::Unknown => ""@,
        }
    }

    /// What stands behind a file name for a file of a type.
    pub fn fuse_suffix(file_type: &CbmFileType) -> (r: &'static str)
        ensures
            r@ == FuseFile::suffix(*file_type),
    {
        match file_type {
            CbmFileType::PRG => ".prg",
            CbmFileType::SEQ => ".seq",
            CbmFileType::USR => ".usr",
            CbmFileType::REL => ".rel",
            CbmFileType::Unknown => "",
        }
    }
}

/// What the kernel can ask of a file.
#[derive(Debug, Clone, Copy, PartialEq, Eq)]
pub struct FileAttr {
    pub ino: u64,
    pub size: u64,
    pub blocks: u64,
    pub atime: SystemTime,
    pub mtime: SystemTime,
    pub ctime: SystemTime,
    pub crtime: SystemTime,
    pub kind: FileType,
    pub perm: u16,
    pub nlink: u32,
    pub uid: u32,
    pub gid: u32,
    pub rdev: u32,
    pub blksize: u32,
    pub flags: u32,
}

/// A file: what the kernel is told of it, what stands behind it, and what is kept of its
/// contents.
#[derive(Debug)]
pub struct FileEntry {
    pub fuse: FuseFile,
    pub native: FileEntryType,
    pub read_buffer: Option<Buffer>,
    pub write_buffer: Option<Buffer>,
    pub cache: Option<FileCache>,
}

/// A file, with its texts and bytes as sequences.
#[verifier::ext_equal]
pub struct FileEntryView {
    pub ino: u64,
    pub name: Seq<char>,
    pub size: u64,
    pub permissions: u16,
    pub modified_time: SystemTime,
    pub created_time: SystemTime,
    pub native: FileEntryTypeView,
    pub read_buffer: Option<BufferView>,
    pub write_buffer: Option<BufferView>,
    pub cache: Option<FileCacheView>,
}

/// A buffer that may be missing.
pub open spec fn buffer_view(b: Option<Buffer>) -> Option<BufferView> {
    match b {
        Some(b) => Some(b@),
        None => None,
    }
}

impl View for FileEntry {
    type V = FileEntryView;

    open spec fn view(&self) -> FileEntryView {
        FileEntryView {
            ino: self.fuse.ino,
            name: self.fuse.name@,
            size: self.fuse.size,
            permissions: self.fuse.permissions,
            modified_time: self.fuse.modified_time,
            created_time: self.fuse.created_time,
            native: self.native@,
            read_buffer: buffer_view(self.read_buffer),
            write_buffer: buffer_view(self.write_buffer),
            cache: match self.cache {
                Some(c) => Some(c@),
                None => None,
            },
        }
    }
}

/// The views of a list of files.
pub open spec fn file_views(files: Seq<FileEntry>) -> Seq<FileEntryView> {
    files.map_values(|f: FileEntry| f@)
}

/// A file of which nothing is kept yet.
pub open spec fn new_entry(
    ino: u64,
    name: Seq<char>,
    size: u64,
    permissions: u16,
    now: SystemTime,
    native: FileEntryTypeView,
) -> FileEntryView {
    FileEntryView {
        ino,
        name,
        size,
        permissions,
        modified_time: now,
        created_time: now,
        native,
        read_buffer: None,
        write_buffer: None,
        cache: None,
    }
}

/// The directory of a drive.
pub open spec fn directory_entry(drive_num: u8, ino: u64, now: SystemTime) -> FileEntryView {
    new_entry(
        ino,
        number::decimal(drive_num as nat),
        0,
        0o555,
        now,
        FileEntryTypeView::Directory(drive_num),
    )
}

/// A control file.
pub open spec fn control_entry(
    purpose: ControlFilePurpose,
    ino: u64,
    now: SystemTime,
) -> FileEntryView {
    new_entry(
        ino,
        purpose.file_name(),
        purpose.file_size(),
        purpose.mode(),
        now,
        FileEntryTypeView::ControlFile(ControlFile { purpose }),
    )
}

/// A file on a disk, where its directory entry could be read.
pub open spec fn cbm_entry(file: CbmFileEntryView, ino: u64, now: SystemTime) -> Option<
    FileEntryView,
> {
    match file {
        CbmFileEntryView::ValidFile { filename, file_type, .. } => Some(
            new_entry(
                ino,
                filename + FuseFile::suffix(file_type),
                file.size()->0,
                0o444,
                now,
                FileEntryTypeView::CbmFile(file),
            ),
        ),
        CbmFileEntryView::InvalidFile { .. } => None,
    }
}

/// The root directory.
pub open spec fn root_entry(now: SystemTime) -> FileEntryView {
    new_entry(FUSE_ROOT_ID, ""@, 0, 0o755, now, FileEntryTypeView::Directory(255))
}

/// One attribute, or none.
pub open spec fn one_if(given: bool, x: FileXattr) -> Seq<FileXattr> {
    if given {
        seq![x]
    } else {
        Seq::empty()
    }
}

impl FileEntryView {
    /// How the kernel sorts the file.
    pub open spec fn kind(self) -> FileType {
        if self.native is Directory {
            FileType::Directory
        } else {
            FileType::RegularFile
        }
    }

    /// Only files on a disk are cached.
    pub open spec fn is_cacheable(self) -> bool {
        self.native is CbmFile
    }

    /// The blocks of a file on a disk.
    pub open spec fn blocks(self) -> Option<u16> {
        match self.native {
            FileEntryTypeView::CbmFile(CbmFileEntryView::ValidFile { blocks, .. }) => Some(blocks),
            _ => None,
        }
    }

    /// The attributes of what is cached of the file.
    pub open spec fn cache_xattrs(self) -> Seq<FileXattr> {
        match self.cache {
            Some(c) => seq![
                FileXattr::CacheStatus(
                    if c.is_complete {
                        CacheStatus::Complete
                    } else {
                        CacheStatus::InProgress
                    },
                ),
                FileXattr::CacheSize(c.cache.len() as usize),
                FileXattr::CacheStartTime(c.cache_start),
            ] + one_if(
                c.cache_complete is Some,
                FileXattr::CacheCompleteTime(c.cache_complete),
            ) + seq![FileXattr::LastDeviceRead(c.last_device_read)],
            None => one_if(self.is_cacheable(), FileXattr::CacheStatus(CacheStatus::Uncached)),
        }
    }

    /// The attributes of the file.
    pub open spec fn xattrs(self) -> Seq<FileXattr> {
        seq![FileXattr::Inode(self.ino)] + one_if(
            self.read_buffer is Some,
            FileXattr::ReadBufferSize(self.read_buffer->0.data.len() as usize),
        ) + one_if(
            self.write_buffer is Some,
            FileXattr::WriteBufferSize(self.write_buffer->0.data.len() as usize),
        ) + one_if(
            self.native is ControlFile,
            FileXattr::ControlFileRwType(self.native->ControlFile_0.purpose.rw()),
        ) + one_if(self.blocks() is Some, FileXattr::Blocks(self.blocks()->0)) + seq![
            FileXattr::CacheEnabled(self.is_cacheable()),
        ] + self.cache_xattrs()
    }

    /// What is wrong with opening the file with some flags: a file is opened to read or to
    /// write, a directory not at all, a file on a disk not to write, and a control file
    /// to read or to write as it can be used.
    pub open spec fn open_fault(self, flags: i32) -> Option<ErrorView> {
        if O_RDWR & flags != 0 {
            Some(
                fs_error_of(
                    "Only read OR write supported"@,
                    Fs1541ErrorView::ReadOrWriteOnly(self.name),
                ),
            )
        } else {
            match self.native {
                FileEntryTypeView::Directory(n) => Some(
                    fs_error_of(
                        "Cannot open directory "@ + number::decimal(n as nat),
                        Fs1541ErrorView::IsDir(self.name),
                    ),
                ),
                FileEntryTypeView::CbmFile(_) => if O_WRONLY & flags != 0 {
                    Some(
                        fs_error_of(
                            "CBM files are currently read-only"@,
                            Fs1541ErrorView::ReadOnly(self.name),
                        ),
                    )
                } else {
                    None
                },
                FileEntryTypeView::ControlFile(c) => match c.purpose.rw() {
                    RwType::Write => if O_WRONLY & flags == 0 {
                        Some(
                            fs_error_of(
                                "Control file is write-only"@,
                                Fs1541ErrorView::WriteOnly(self.name),
                            ),
                        )
                    } else {
                        None
                    },
                    RwType::Read => if O_WRONLY & flags != 0 {
                        Some(
                            fs_error_of(
                                "Control file is read-only"@,
                                Fs1541ErrorView::ReadOnly(self.name),
                            ),
                        )
                    } else {
                        None
                    },
                    RwType::ReadWrite => None,
                },
            }
        }
    }

    /// The file keeps what is written to it until it is complete.
    pub open spec fn takes_writes(self) -> bool {
        match self.native {
            FileEntryTypeView::Directory(_) => false,
            FileEntryTypeView::CbmFile(f) => f is ValidFile,
            FileEntryTypeView::ControlFile(c) => c.purpose.rw() == RwType::ReadWrite,
        }
    }

    /// What is wrong with writing to a file that takes no writes.
    pub open spec fn refusal(self) -> ErrorView {
        match self.native {
            FileEntryTypeView::Directory(n) => fs_error_of(
                "Cannot write to directory "@ + number::decimal(n as nat),
                Fs1541ErrorView::IsDir(self.name),
            ),
            FileEntryTypeView::CbmFile(_) => fs_error_of(
                "Cannot write to an improperly read file"@,
                Fs1541ErrorView::FileAccess(self.name),
            ),
            FileEntryTypeView::ControlFile(_) => fs_error_of(
                "Attempt to write to readonly file"@,
                Fs1541ErrorView::ReadOnly(self.name),
            ),
        }
    }

    /// What is wrong with writing to the file.
    pub open spec fn entry_write_fault(self) -> Option<ErrorView> {
        if !self.takes_writes() {
            Some(self.refusal())
        } else {
            match self.write_buffer {
                Some(buffer) => write_fault(buffer),
                None => Some(
                    fs_error_of("No buffer to write to"@, Fs1541ErrorView::FileAccess(self.name)),
                ),
            }
        }
    }
}

fn push_if(list: &mut Vec<FileXattr>, given: bool, x: FileXattr)
    ensures
        final(list)@ == old(list)@ + one_if(given, x),
{
    let ghost before = list@;
    if given {
        list.push(x);
    }
    assert(list@ =~= before + one_if(given, x));
}

fn push_cache_xattrs(list: &mut Vec<FileXattr>, file_entry: &FileEntry)
    ensures
        final(list)@ == old(list)@ + file_entry@.cache_xattrs(),
{
    let ghost before = list@;
    match &file_entry.cache {
        Some(cache) => {
            let status = if cache.is_complete {
                CacheStatus::Complete
            } else {
                CacheStatus::InProgress
            };
            list.push(FileXattr::CacheStatus(status));
            list.push(FileXattr::CacheSize(cache.cache.len()));
            list.push(FileXattr::CacheStartTime(cache.cache_start));
            let ghost middle = list@;
            push_if(
                list,
                cache.cache_complete.is_some(),
                FileXattr::CacheCompleteTime(cache.cache_complete),
            );
            list.push(FileXattr::LastDeviceRead(cache.last_device_read));
            assert(middle =~= before + seq![
                FileXattr::CacheStatus(status),
                FileXattr::CacheSize(cache.cache@.len() as usize),
                FileXattr::CacheStartTime(cache.cache_start),
            ]);
            assert(list@ =~= before + file_entry@.cache_xattrs());
        },
        None => {
            let cacheable: bool = match &file_entry.native {
                FileEntryType::CbmFile(_) => true,
                _ => false,
            };
            push_if(list, cacheable, FileXattr::CacheStatus(CacheStatus::Uncached));
        },
    }
}

impl FileXattr {
    /// The attributes of a file.
    pub fn from_file_entry(file_entry: &FileEntry) -> (list: Vec<FileXattr>)
        ensures
            list@ == file_entry@.xattrs(),
    {
        let mut list: Vec<FileXattr> = vec![FileXattr::Inode(file_entry.inode())];
        assert(list@ =~= seq![FileXattr::Inode(file_entry@.ino)]);
        let read_size: usize = match &file_entry.read_buffer {
            Some(buf) => buf.data.len(),
            None => 0,
        };
        push_if(&mut list, file_entry.read_buffer.is_some(), FileXattr::ReadBufferSize(read_size));
        let write_size: usize = match &file_entry.write_buffer {
            Some(buf) => buf.data.len(),
            None => 0,
        };
        push_if(
            &mut list,
            file_entry.write_buffer.is_some(),
            FileXattr::WriteBufferSize(write_size),
        );
        let (control, rw_type): (bool, RwType) = match &file_entry.native {
            FileEntryType::ControlFile(ctrl) => (true, ctrl.rw_type()),
            _ => (false, RwType::Read),
        };
        push_if(&mut list, control, FileXattr::ControlFileRwType(rw_type));
        let (valid, blocks): (bool, u16) = match &file_entry.native {
            FileEntryType::CbmFile(CbmFileEntry::ValidFile { blocks, .. }) => (true, *blocks),
            _ => (false, 0),
        };
        push_if(&mut list, valid, FileXattr::Blocks(blocks));
        let cache_enabled: bool = match &file_entry.native {
            FileEntryType::CbmFile(_) => true,
            _ => false,
        };
        let ghost before = list@;
        list.push(FileXattr::CacheEnabled(cache_enabled));
        assert(list@ =~= before + seq![FileXattr::CacheEnabled(cache_enabled)]);
        push_cache_xattrs(&mut list, file_entry);
        list
    }
}

impl FileEntry {
    fn new_entry(
        ino: u64,
        name: String,
        size: u64,
        permissions: u16,
        now: SystemTime,
        native: FileEntryType,
    ) -> (r: Self)
        ensures
            r@ == new_entry(ino, name@, size, permissions, now, native@),
    {
        FileEntry {
            fuse: FuseFile {
                ino,
                name,
                size,
                permissions,
                modified_time: now,
                created_time: now,
            },
            native,
            read_buffer: None,
            write_buffer: None,
            cache: None,
        }
    }

    /// The names of the file's attributes, each with a NUL behind it.
    pub fn listxattrs(&self) -> (r: Vec<u8>)
        ensures
            r@ == xattr::name_list(self@.xattrs()),
    {
        XattrOps::listxattr_from_vec(&FileXattr::from_file_entry(self))
    }

    /// The value of one of the file's attributes.
    pub fn getxattr(&self, name: &str) -> (r: Option<Vec<u8>>)
        ensures
            match xattr::find(self@.xattrs(), name@) {
                Some(i) => r matches Some(v) && xattr::is_value_of(self@.xattrs()[i], v@),
                None => r is None,
            },
    {
        XattrOps::getxattr_from_vec(&FileXattr::from_file_entry(self), name)
    }

    /// How the kernel sorts the file.
    pub fn fuser_file_type(&self) -> (r: FileType)
        ensures
            r == self@.kind(),
    {
        match self.native {
            FileEntryType::CbmFile(_) => FileType::RegularFile,
            FileEntryType::ControlFile(_) => FileType::RegularFile,
            FileEntryType::Directory(_) => FileType::Directory,
        }
    }

    /// The directory of a drive.
    pub fn from_directory(drive_num: u8, ino: u64, now: SystemTime) -> (r: Self)
        ensures
            r@ == directory_entry(drive_num, ino, now),
    {
        let name = decimal_string(drive_num as u64);
        FileEntry::new_entry(ino, name, 0, 0o555, now, FileEntryType::Directory(drive_num))
    }

    /// A control file.
    pub fn from_control_file_purpose(
        purpose: ControlFilePurpose,
        ino: u64,
        now: SystemTime,
    ) -> (r: Self)
        ensures
            r@ == control_entry(purpose, ino, now),
    {
        let control_file = ControlFile::new(purpose);
        FileEntry::new_entry(
            ino,
            control_file.filename(),
            control_file.size(),
            control_file.permissions(),
            now,
            FileEntryType::ControlFile(control_file),
        )
    }

    /// A file on a disk, where its directory entry could be read.
    pub fn from_cbm_file_entry(file: &CbmFileEntry, ino: u64, now: SystemTime) -> (r: Option<Self>)
        ensures
            match r {
                Some(f) => cbm_entry(file@, ino, now) == Some(f@),
                None => cbm_entry(file@, ino, now) is None,
            },
    {
        match file {
            CbmFileEntry::ValidFile { file_type, filename, .. } => {
                let mut name = filename.clone();
                name.append(FuseFile::fuse_suffix(file_type));
                let size: u64 = match file.max_size() {
                    Some(n) => n,
                    None => 0,
                };
                Some(
                    FileEntry::new_entry(
                        ino,
                        name,
                        size,
                        0o444,
                        now,
                        FileEntryType::CbmFile(file.clone()),
                    ),
                )
            },
            CbmFileEntry::InvalidFile { .. } => None,
        }
    }

    /// The root directory.
    pub fn root(now: SystemTime) -> (r: Self)
        ensures
            r@ == root_entry(now),
    {
        FileEntry::new_entry(
            FUSE_ROOT_ID,
            "".to_owned(),
            0,
            0o755,
            now,
            FileEntryType::Directory(255),
        )
    }

    /// Whether the file can be opened with some flags.
    pub fn open(&self, flags: i32) -> (r: Result<(), Error>)
        ensures
            match self@.open_fault(flags) {
                Some(fault) => r matches Err(e) && e@ == fault,
                None => r is Ok,
            },
    {
        if (O_RDWR & flags) != 0 {
            return Err(
                fs_error(
                    "Only read OR write supported",
                    Fs1541Error::ReadOrWriteOnly(self.fuse.name.clone()),
                ),
            );
        }
        match &self.native {
            FileEntryType::Directory(drive_num) => {
                let mut message = "Cannot open directory ".to_owned();
                push_decimal(&mut message, *drive_num as u64);
                Err(
                    Error::Fs1541 { message, error: Fs1541Error::IsDir(self.fuse.name.clone()) },
                )
            },
            FileEntryType::CbmFile(_) => {
                if (O_WRONLY & flags) != 0 {
                    Err(
                        fs_error(
                            "CBM files are currently read-only",
                            Fs1541Error::ReadOnly(self.fuse.name.clone()),
                        ),
                    )
                } else {
                    Ok(())
                }
            },
            FileEntryType::ControlFile(ctrl) => match ctrl.rw_type() {
                RwType::Write => {
                    if (O_WRONLY & flags) == 0 {
                        Err(
                            fs_error(
                                "Control file is write-only",
                                Fs1541Error::WriteOnly(self.fuse.name.clone()),
                            ),
                        )
                    } else {
                        Ok(())
                    }
                },
                RwType::Read => {
                    if (O_WRONLY & flags) != 0 {
                        Err(
                            fs_error(
                                "Control file is read-only",
                                Fs1541Error::ReadOnly(self.fuse.name.clone()),
                            ),
                        )
                    } else {
                        Ok(())
                    }
                },
                RwType::ReadWrite => Ok(()),
            },
        }
    }

    /// The inode of the file.
    pub fn inode(&self) -> (r: u64)
        ensures
            r == self@.ino,
    {
        self.fuse.ino
    }

    /// Gives the file an inode.
    pub fn set_inode(&mut self, ino: u64)
        ensures
            final(self)@ == (FileEntryView { ino, ..old(self)@ }),
    {
        self.fuse.ino = ino;
    }

    /// What the kernel can ask of the file. The user counts as the group too.
    pub fn to_attr(&self, now: SystemTime, uid: u32) -> (a: FileAttr)
        ensures
            a == (FileAttr {
                ino: self@.ino,
                size: self@.size,
                blocks: ((self@.size + 511) / 512) as u64,
                atime: now,
                mtime: self@.modified_time,
                ctime: self@.created_time,
                crtime: self@.created_time,
                kind: self@.kind(),
                perm: self@.permissions,
                nlink: 1,
                uid,
                gid: uid,
                rdev: 0,
                blksize: 512,
                flags: 0,
            }),
    {
        FileAttr {
            ino: self.fuse.ino,
            size: self.fuse.size,
            blocks: if self.fuse.size % 512 == 0 {
                self.fuse.size / 512
            } else {
                self.fuse.size / 512 + 1
            },
            atime: now,
            mtime: self.fuse.modified_time,
            ctime: self.fuse.created_time,
            crtime: self.fuse.created_time,
            kind: self.fuser_file_type(),
            perm: self.fuse.permissions,
            nlink: 1,
            uid,
            gid: uid,
            rdev: 0,
            blksize: 512,
            flags: 0,
        }
    }

    /// Writes to the file, into its buffer. Gives the number of bytes, or an error where the
    /// file takes no writes, has no buffer to write to, or has one that takes nothing.
    pub fn write(&mut self, data: &[u8]) -> (r: Result<usize, Error>)
        ensures
            match old(self)@.entry_write_fault() {
                Some(fault) => final(self)@ == old(self)@ && (r matches Err(e) && e@ == fault),
                None => {
                    let buffer = old(self)@.write_buffer->0;
                    r == Ok::<usize, Error>(data@.len() as usize) && final(self)@ == (
                    FileEntryView {
                        write_buffer: Some(BufferView { data: buffer.data + data@, ..buffer }),
                        ..old(self)@
                    })
                },
            },
    {
        match &self.native {
            FileEntryType::Directory(drive_num) => {
                let mut message = "Cannot write to directory ".to_owned();
                push_decimal(&mut message, *drive_num as u64);
                return Err(
                    Error::Fs1541 { message, error: Fs1541Error::IsDir(self.fuse.name.clone()) },
                );
            },
            FileEntryType::CbmFile(file) => match file {
                CbmFileEntry::ValidFile { .. } => {},
                CbmFileEntry::InvalidFile { .. } => {
                    return Err(
                        fs_error(
                            "Cannot write to an improperly read file",
                            Fs1541Error::FileAccess(self.fuse.name.clone()),
                        ),
                    );
                },
            },
            FileEntryType::ControlFile(ctrl) => match ctrl.purpose {
                ControlFilePurpose::ExecFormatDrive => {},
                ControlFilePurpose::ExecDriveCommand => {},
                ControlFilePurpose::ExecDirRefresh => {},
                _ => {
                    return Err(
                        fs_error(
                            "Attempt to write to readonly file",
                            Fs1541Error::ReadOnly(self.fuse.name.clone()),
                        ),
                    );
                },
            },
        }
        match self.write_buffer.take() {
            Some(buffer) => {
                let mut buffer = buffer;
                let r = buffer.write(data);
                self.write_buffer = Some(buffer);
                r
            },
            None => Err(
                fs_error(
                    "No buffer to write to",
                    Fs1541Error::FileAccess(self.fuse.name.clone()),
                ),
            ),
        }
    }

    /// Puts the contents of the file in its cache: all of it, as it was read at once.
    pub fn set_cache(&mut self, contents: &[u8], now: SystemTime)
        ensures
            final(self)@ == (FileEntryView {
                cache: Some(FileCacheView::empty(now).with_chunk(contents@, true, now)),
                ..old(self)@
            }),
    {
        let mut cache = FileCache::new(now);
        cache.add_chunk(contents, true, now);
        self.cache = Some(cache);
    }

    /// A copy of the file.
    pub fn copy(&self) -> (r: FileEntry)
        ensures
            r@ == self@,
    {
        FileEntry {
            fuse: FuseFile {
                ino: self.fuse.ino,
                name: self.fuse.name.clone(),
                size: self.fuse.size,
                permissions: self.fuse.permissions,
                modified_time: self.fuse.modified_time,
                created_time: self.fuse.created_time,
            },
            native: match &self.native {
                FileEntryType::CbmFile(f) => FileEntryType::CbmFile(f.clone()),
                FileEntryType::ControlFile(c) => FileEntryType::ControlFile(*c),
                FileEntryType::Directory(n) => FileEntryType::Directory(*n),
            },
            read_buffer: match &self.read_buffer {
                Some(b) => Some(b.copy()),
                None => None,
            },
            write_buffer: match &self.write_buffer {
                Some(b) => Some(b.copy()),
                None => None,
            },
            cache: match &self.cache {
                Some(c) => Some(c.copy()),
                None => None,
            },
        }
    }
}

/// Whatever the flags, nothing but files that can be written is opened to write, and nothing
/// but files that can be read is opened to read. A directory is never opened, and no file both
/// to read and to write.
pub proof fn law_open(e: FileEntryView, flags: i32)
    ensures
        e.open_fault(flags) is None ==> O_RDWR & flags == 0 && e.kind() == FileType::RegularFile,
        e.open_fault(flags) is None && O_WRONLY & flags != 0 ==> (e.native matches
            FileEntryTypeView::ControlFile(c) && c.purpose.rw() != RwType::Read),
        e.open_fault(flags) is None && O_WRONLY & flags == 0 ==> !(e.native matches
            FileEntryTypeView::ControlFile(c) && c.purpose.rw() == RwType::Write),
        O_RDWR & flags == 0 && O_WRONLY & flags == 0 && (e.native matches
            FileEntryTypeView::ControlFile(c) && c.purpose.rw() != RwType::Write) ==> e.open_fault(
            flags,
        ) is None,
{
}

// ---------------------------------------------------------------------------
// Disks
// ---------------------------------------------------------------------------

/// What is known of the disk in a drive.
#[derive(Debug)]
pub struct DiskInfo {
    /// The drive that the disk is in
    pub drive_num: u8,
    /// The header of the disk, once it was read
    pub header: Option<CbmDiskHeader>,
    /// The number of free blocks on the disk, once it was read
    pub blocks_free: Option<u16>,
    /// The directory for the drive, where the unit has more than one
    pub disk_dir: Option<FileEntry>,
    /// The control files
    pub control_files: Vec<FileEntry>,
    /// The files on the disk
    pub cbm_files: Vec<FileEntry>,
    /// The attributes of the disk
    pub xattrs: Vec<DiskXattr>,
    /// When the disk was last read
    pub disk_read_time: Option<SystemTime>,
}

/// The control files, without inodes.
pub open spec fn control_entries(now: SystemTime) -> Seq<FileEntryView> {
    ControlFilePurpose::all().map_values(|p: ControlFilePurpose| control_entry(p, 0, now))
}

/// The files of a listing that could be read, without inodes.
pub open spec fn cbm_entries(files: Seq<CbmFileEntryView>, now: SystemTime) -> Seq<FileEntryView>
    decreases files.len(),
{
    if files.len() == 0 {
        Seq::empty()
    } else {
        match cbm_entry(files.last(), 0, now) {
            Some(e) => cbm_entries(files.drop_last(), now).push(e),
            None => cbm_entries(files.drop_last(), now),
        }
    }
}

/// What is known of the disk in a drive, with its files as sequences.
#[verifier::ext_equal]
pub struct DiskInfoView {
    pub drive_num: u8,
    pub header: Option<CbmDiskHeader>,
    pub blocks_free: Option<u16>,
    pub disk_dir: Option<FileEntryView>,
    pub control_files: Seq<FileEntryView>,
    pub cbm_files: Seq<FileEntryView>,
    pub xattrs: Seq<DiskXattr>,
    pub disk_read_time: Option<SystemTime>,
}

impl View for DiskInfo {
    type V = DiskInfoView;

    open spec fn view(&self) -> DiskInfoView {
        DiskInfoView {
            drive_num: self.drive_num,
            header: self.header,
            blocks_free: self.blocks_free,
            disk_dir: match self.disk_dir {
                Some(f) => Some(f@),
                None => None,
            },
            control_files: file_views(self.control_files@),
            cbm_files: file_views(self.cbm_files@),
            xattrs: self.xattrs@,
            disk_read_time: self.disk_read_time,
        }
    }
}

impl DiskInfoView {
    /// A disk that was not read yet.
    pub open spec fn unread(drive_num: u8, now: SystemTime) -> DiskInfoView {
        DiskInfoView {
            drive_num,
            header: None,
            blocks_free: None,
            disk_dir: None,
            control_files: control_entries(now),
            cbm_files: Seq::empty(),
            xattrs: Seq::empty(),
            disk_read_time: None,
        }
    }

    /// The disk once a listing of it was read: its header, free blocks, files and
    /// attributes are those of the listing. The files have no inodes yet.
    pub open spec fn updated(self, listing: CbmDirListing, now: SystemTime) -> DiskInfoView {
        DiskInfoView {
            header: Some(listing.header),
            blocks_free: Some(listing.blocks_free),
            cbm_files: cbm_entries(listing@.files, now),
            xattrs: xattr::listing_xattrs(listing),
            disk_read_time: Some(now),
            ..self
        }
    }

    /// All files: the control files, and then those on the disk.
    pub open spec fn all_files(self) -> Seq<FileEntryView> {
        self.control_files + self.cbm_files
    }
}

impl DiskInfo {
    /// A disk that was not read yet.
    pub fn new(drive_num: u8, now: SystemTime) -> (d: Self)
        ensures
            d@ == DiskInfoView::unread(drive_num, now),
    {
        let d = DiskInfo {
            drive_num,
            header: None,
            blocks_free: None,
            disk_dir: None,
            control_files: DiskInfo::control_files(now),
            cbm_files: Vec::new(),
            xattrs: Vec::new(),
            disk_read_time: None,
        };
        assert(file_views(d.cbm_files@) =~= Seq::empty());
        d
    }

    /// Gives the disk a directory of its own.
    pub fn add_disk_dir(&mut self, now: SystemTime)
        ensures
            final(self)@ == (DiskInfoView {
                disk_dir: Some(directory_entry(old(self).drive_num, 0, now)),
                ..old(self)@
            }),
    {
        self.disk_dir = Some(FileEntry::from_directory(self.drive_num, 0, now));
    }

    /// Takes in a listing of the disk.
    pub fn update_from_dir_listing(&mut self, listing: &CbmDirListing, now: SystemTime)
        requires
            old(self).control_files@.len() > 0,
            listing@.total() <= 65535,
        ensures
            final(self)@ == old(self)@.updated(*listing, now),
    {
        self.header = Some(listing.header.clone());
        self.blocks_free = Some(listing.blocks_free);
        self.cbm_files = DiskInfo::cbm_files_from_dir_listing(listing, now);
        self.xattrs = DiskXattr::from_dir_listing(listing);
        self.disk_read_time = Some(now);
    }

    fn cbm_files_from_dir_listing(listing: &CbmDirListing, now: SystemTime) -> (r: Vec<FileEntry>)
        ensures
            file_views(r@) == cbm_entries(listing@.files, now),
    {
        let ghost all = listing@.files;
        let mut files: Vec<FileEntry> = Vec::new();
        let mut i: usize = 0;
        assert(all.take(0) =~= Seq::empty());
        assert(file_views(files@) =~= Seq::empty());
        while i < listing.files.len()
            invariant
                i <= listing.files@.len(),
                all == listing@.files,
                file_views(files@) == cbm_entries(all.take(i as int), now),
            decreases listing.files@.len() - i,
        {
            assert(all.take(i + 1).drop_last() =~= all.take(i as int));
            assert(all.take(i + 1).last() == listing.files@[i as int]@);
            let ghost before = files@;
            if let Some(file) = FileEntry::from_cbm_file_entry(&listing.files[i], 0, now) {
                files.push(file);
                assert(file_views(files@) =~= file_views(before).push(file@));
            }
            i = i + 1;
        }
        assert(all.take(i as int) =~= all);
        files
    }

    fn control_files(now: SystemTime) -> (r: Vec<FileEntry>)
        ensures
            file_views(r@) == control_entries(now),
    {
        let purposes = ControlFilePurpose::list();
        let mut files: Vec<FileEntry> = Vec::new();
        let mut i: usize = 0;
        assert(file_views(files@) =~= control_entries(now).take(0));
        while i < purposes.len()
            invariant
                purposes@ == ControlFilePurpose::all(),
                i <= purposes@.len(),
                file_views(files@) == control_entries(now).take(i as int),
            decreases purposes@.len() - i,
        {
            let ghost before = files@;
            let file = FileEntry::from_control_file_purpose(purposes[i], 0, now);
            files.push(file);
            assert(file_views(files@) =~= file_views(before).push(file@));
            assert(control_entries(now).take(i + 1) =~= control_entries(now).take(i as int).push(
                control_entries(now)[i as int],
            ));
            i = i + 1;
        }
        assert(control_entries(now).take(i as int) =~= control_entries(now));
        files
    }

    /// All files: the control files, and then those on the disk.
    pub fn files(&self) -> (r: Vec<FileEntry>)
        ensures
            file_views(r@) == self@.all_files(),
    {
        let mut files: Vec<FileEntry> = Vec::new();
        assert(file_views(files@) =~= Seq::empty());
        copy_files(&self.control_files, &mut files);
        copy_files(&self.cbm_files, &mut files);
        assert(Seq::<FileEntryView>::empty() + file_views(self.control_files@) =~= file_views(
            self.control_files@,
        ));
        files
    }
}

fn copy_files(from: &Vec<FileEntry>, to: &mut Vec<FileEntry>)
    ensures
        file_views(final(to)@) == file_views(old(to)@) + file_views(from@),
{
    let ghost start = to@;
    let ghost all = file_views(from@);
    let mut i: usize = 0;
    assert(file_views(start) + all.take(0) =~= file_views(start));
    while i < from.len()
        invariant
            i <= from@.len(),
            all == file_views(from@),
            file_views(to@) == file_views(start) + all.take(i as int),
        decreases from@.len() - i,
    {
        let ghost before = to@;
        let file = from[i].copy();
        to.push(file);
        assert(file_views(to@) =~= file_views(before).push(file@));
        assert(all.take(i + 1) =~= all.take(i as int).push(from@[i as int]@));
        assert(file_views(start) + all.take(i + 1) =~= (file_views(start) + all.take(
            i as int,
        )).push(from@[i as int]@));
        i = i + 1;
    }
    assert(all.take(i as int) =~= all);
}

/// Every file of a listing that could be read is on the disk, under its name and the suffix
/// for its type, and stands behind those that come before it in the listing.
pub proof fn law_listed_files_are_shown(files: Seq<CbmFileEntryView>, i: int, now: SystemTime)
    requires
        0 <= i < files.len(),
    ensures
        files[i] matches CbmFileEntryView::ValidFile { filename, file_type, .. } ==> ({
            let shown = cbm_entries(files, now);
            let k = cbm_entries(files.take(i), now).len();
            k < shown.len() && shown[k as int].name == filename + FuseFile::suffix(file_type)
                && shown[k as int].native == FileEntryTypeView::CbmFile(files[i])
        }),
        cbm_entries(files.take(i), now).len() <= cbm_entries(files, now).len(),
    decreases files.len(),
{
    let front = files.drop_last();
    if i == files.len() - 1 {
        assert(files.take(i) =~= front);
    } else {
        law_listed_files_are_shown(front, i, now);
        assert(front.take(i) =~= files.take(i));
    }
}

/// Nothing is on the disk but files of its listing that could be read. Tells which one it is.
pub proof fn law_shown_files_are_listed(files: Seq<CbmFileEntryView>, k: int, now: SystemTime) -> (i:
    int)
    requires
        0 <= k < cbm_entries(files, now).len(),
    ensures
        0 <= i < files.len(),
        cbm_entry(files[i], 0, now) == Some(cbm_entries(files, now)[k]),
        files[i] is ValidFile,
    decreases files.len(),
{
    let front = files.drop_last();
    if k < cbm_entries(front, now).len() {
        law_shown_files_are_listed(front, k, now)
    } else {
        files.len() - 1
    }
}

} // verus!

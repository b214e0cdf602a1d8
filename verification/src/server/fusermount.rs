//! Answers to what the kernel asks of a mounted drive.
use vstd::prelude::*;

use crate::errno::{EACCES, EISDIR, ENODATA, ENOENT, ENOTDIR, ERANGE};
use crate::error::{Error, ErrorView, Fs1541Error, Fs1541ErrorView};
use crate::server::args::Args;
use crate::server::bg::OpType;
use crate::server::file;
use crate::server::file::{
    slice_from, FileAttr, FileEntry, FileEntryType, FileEntryTypeView, FileEntryView, FileType,
    FUSE_ROOT_ID,
};
use crate::server::mount;
use crate::server::mount::{Mount, MountView};
use crate::server::xattr;
use crate::server::xattr::{RwType, XattrOps};
use crate::text::same;
use crate::time::{Duration, SystemTime};

verus! {

// ---------------------------------------------------------------------------
// Settings
// ---------------------------------------------------------------------------

/// How long the kernel may rely on an answer.
#[derive(Debug, Clone, Copy, PartialEq, Eq, Structural)]
pub struct TTLs {
    /// The inode of a directory
    pub dir_lookup: Duration,
    /// The inode of a file
    pub file_lookup: Duration,
    /// The attributes of a directory
    pub dir_attr: Duration,
    /// The attributes of a file
    pub file_attr: Duration,
}

/// How long things are relied on or waited for.
#[derive(Debug, Clone, Copy, PartialEq, Eq, Structural)]
pub struct Timers {
    /// How long to rely on the directory listing read in from a disk
    pub dir_cache: Duration,
    /// How long to rely on what is cached of a file
    pub file_cache: Duration,
    /// How long to wait for a directory to be read
    pub dir_read: Duration,
    /// How long to wait for a file to be read
    pub file_read: Duration,
    /// How long to sleep before looking again whether a directory was read
    pub dir_read_sleep: Duration,
    /// How long to sleep before looking again whether a file was read
    pub file_read_sleep: Duration,
}

/// How often things are looked for before giving up.
#[derive(Debug, Clone, Copy, PartialEq, Eq, Structural)]
pub struct Counts {
    pub dir_check: u32,
    pub file_check: u32,
}

impl TTLs {
    /// What the arguments say of how long the kernel may rely on an answer.
    pub open spec fn of(args: Args) -> TTLs {
        TTLs {
            dir_lookup: Duration::of_millis(args.dir_lookup_ttl_ms),
            file_lookup: Duration::of_millis(args.file_lookup_ttl_ms),
            dir_attr: Duration::of_millis(args.dir_attr_ttl_ms),
            file_attr: Duration::of_millis(args.file_attr_ttl_ms),
        }
    }

    /// How long the kernel may rely on an answer.
    pub fn new(args: &Args) -> (t: Self)
        ensures
            t == TTLs::of(*args),
    {
        TTLs {
            dir_lookup: Duration::from_millis(args.dir_lookup_ttl_ms),
            file_lookup: Duration::from_millis(args.file_lookup_ttl_ms),
            dir_attr: Duration::from_millis(args.dir_attr_ttl_ms),
            file_attr: Duration::from_millis(args.file_attr_ttl_ms),
        }
    }
}

impl Timers {
    /// What the arguments say of how long things are relied on or waited for.
    pub open spec fn of(args: Args) -> Timers {
        Timers {
            dir_cache: Duration { secs: args.dir_cache_expiry_secs, nanos: 0 },
            file_cache: Duration { secs: args.file_cache_expiry_secs, nanos: 0 },
            dir_read: Duration { secs: args.dir_reread_timeout_secs, nanos: 0 },
            file_read: Duration { secs: args.file_reread_timeout_secs, nanos: 0 },
            dir_read_sleep: Duration::of_millis(args.dir_read_sleep_ms),
            file_read_sleep: Duration::of_millis(args.file_read_sleep_ms),
        }
    }

    /// How long things are relied on or waited for.
    pub fn new(args: &Args) -> (t: Self)
        ensures
            t == Timers::of(*args),
    {
        Timers {
            dir_cache: Duration::from_secs(args.dir_cache_expiry_secs),
            file_cache: Duration::from_secs(args.file_cache_expiry_secs),
            dir_read: Duration::from_secs(args.dir_reread_timeout_secs),
            file_read: Duration::from_secs(args.file_reread_timeout_secs),
            dir_read_sleep: Duration::from_millis(args.dir_read_sleep_ms),
            file_read_sleep: Duration::from_millis(args.file_read_sleep_ms),
        }
    }

    /// There is a pause between looks, and the looks can be counted.
    pub open spec fn can_be_counted(self) -> bool {
        &&& self.dir_read_sleep.in_millis() > 0
        &&& self.file_read_sleep.in_millis() > 0
        &&& self.dir_read.in_millis() / self.dir_read_sleep.in_millis() <= u32::MAX
        &&& self.file_read.in_millis() / self.file_read_sleep.in_millis() <= u32::MAX
    }
}

impl Counts {
    /// How often there is a pause in the time that is waited.
    pub open spec fn of(timers: Timers) -> Counts {
        Counts {
            dir_check: (timers.dir_read.in_millis() / timers.dir_read_sleep.in_millis()) as u32,
            file_check: (timers.file_read.in_millis() / timers.file_read_sleep.in_millis()) as u32,
        }
    }

    /// How often things are looked for before giving up.
    pub fn new(timers: &Timers) -> (c: Self)
        requires
            timers.can_be_counted(),
        ensures
            c == Counts::of(*timers),
    {
        let dir_check: u128 = timers.dir_read.as_millis() / timers.dir_read_sleep.as_millis();
        let file_check: u128 = timers.file_read.as_millis() / timers.file_read_sleep.as_millis();
        Counts { dir_check: dir_check as u32, file_check: file_check as u32 }
    }
}

/// What answers for a mounted drive.
#[derive(Debug, Clone, Copy, PartialEq, Eq, Structural)]
pub struct FuserMount {
    pub timers: Timers,
    pub counts: Counts,
    pub ttls: TTLs,
}

// ---------------------------------------------------------------------------
// Answers
// ---------------------------------------------------------------------------

/// What the kernel is told of a file, at a time, for a user.
pub open spec fn attr_of(f: FileEntryView, now: SystemTime, uid: u32) -> FileAttr {
    FileAttr {
        ino: f.ino,
        size: f.size,
        blocks: ((f.size + 511) / 512) as u64,
        atime: now,
        mtime: f.modified_time,
        ctime: f.created_time,
        crtime: f.created_time,
        kind: f.kind(),
        perm: f.permissions,
        nlink: 1,
        uid,
        gid: uid,
        rdev: 0,
        blksize: 512,
        flags: 0,
    }
}

/// The directories of the first drives.
pub open spec fn drive_dirs(m: MountView, n: nat) -> Seq<FileEntryView>
    decreases n,
{
    if n == 0 {
        Seq::empty()
    } else {
        match m.drive_dir((n - 1) as u8) {
            Some(f) => drive_dirs(m, (n - 1) as nat).push(f),
            None => drive_dirs(m, (n - 1) as nat),
        }
    }
}

/// The files in a directory. The root of a unit of many drives has a directory for each,
/// and that of another the files in its drive.
pub open spec fn files_in(m: MountView, parent: u64) -> Option<Seq<FileEntryView>> {
    if parent == FUSE_ROOT_ID {
        if m.num_drives() > 1 {
            Some(drive_dirs(m, m.num_drives() as nat))
        } else {
            Some(m.drive_files(0))
        }
    } else if m.num_drives() > 1 {
        match m.drive_of(parent) {
            Some(n) => Some(m.drive_files(n)),
            None => None,
        }
    } else {
        None
    }
}

/// The first file of a name at or after a position.
pub open spec fn named_from(files: Seq<FileEntryView>, name: Seq<char>, from: int) -> Option<
    FileEntryView,
>
    decreases files.len() - from,
{
    if from < 0 || from >= files.len() {
        None
    } else if files[from].name == name {
        Some(files[from])
    } else {
        named_from(files, name, from + 1)
    }
}

/// The first file of a name in a directory.
pub open spec fn named(m: MountView, parent: u64, name: Seq<char>) -> Option<FileEntryView> {
    match files_in(m, parent) {
        Some(files) => named_from(files, name, 0),
        None => None,
    }
}

/// The file that has an inode, the root among them.
pub open spec fn file_or_root(m: MountView, ino: u64, now: SystemTime) -> Option<FileEntryView> {
    if ino == FUSE_ROOT_ID {
        Some(file::root_entry(now))
    } else {
        m.file(ino)
    }
}

impl FuserMount {
    /// How long the kernel may rely on the inode of a file.
    pub open spec fn lookup_ttl(self, f: FileEntryView) -> Duration {
        if f.kind() == FileType::Directory {
            self.ttls.dir_lookup
        } else {
            self.ttls.file_lookup
        }
    }

    /// How long the kernel may rely on the attributes of a file.
    pub open spec fn attr_ttl(self, f: FileEntryView) -> Duration {
        if f.kind() == FileType::Directory {
            self.ttls.dir_attr
        } else {
            self.ttls.file_attr
        }
    }

    /// What answers for a mounted drive, as the arguments say.
    pub fn new(args: &Args) -> (f: Self)
        requires
            Timers::of(*args).can_be_counted(),
        ensures
            f == (FuserMount {
                timers: Timers::of(*args),
                counts: Counts::of(Timers::of(*args)),
                ttls: TTLs::of(*args),
            }),
    {
        let timers = Timers::new(args);
        let counts = Counts::new(&timers);
        FuserMount { timers, counts, ttls: TTLs::new(args) }
    }

    /// The file of a name in a directory, and how long the kernel may rely on its inode.
    /// A name that is no text is no file's.
    pub fn lookup(
        &self,
        mount: &Mount,
        parent: u64,
        name: Option<&str>,
        now: SystemTime,
        uid: u32,
    ) -> (r: Result<(Duration, FileAttr), i32>)
        requires
            mount@.wf(),
        ensures
            r == (match name {
                Some(name) => match named(mount@, parent, name@) {
                    Some(f) => Ok((self.lookup_ttl(f), attr_of(f, now, uid))),
                    None => Err(ENOENT),
                },
                None => Err::<(Duration, FileAttr), i32>(ENOENT),
            }),
    {
        let wanted = match name {
            Some(n) => n,
            None => return Err(ENOENT),
        };
        let files: Vec<FileEntry> = if parent == FUSE_ROOT_ID {
            if mount.num_drives() > 1 {
                collect_dirs(mount)
            } else {
                mount.get_drive_files(0)
            }
        } else if mount.num_drives() > 1 {
            match mount.get_drive_num_by_inode(parent) {
                Some(n) => mount.get_drive_files(n),
                None => return Err(ENOENT),
            }
        } else {
            return Err(ENOENT);
        };
        let ghost all = file::file_views(files@);
        let mut i: usize = 0;
        while i < files.len()
            invariant
                i <= files@.len(),
                all == file::file_views(files@),
                name == Some(wanted),
                named(mount@, parent, wanted@) == named_from(all, wanted@, i as int),
            decreases files@.len() - i,
        {
            assert(all[i as int] == files@[i as int]@);
            if same(files[i].fuse.name.as_str(), wanted) {
                let ttl = match files[i].fuser_file_type() {
                    FileType::Directory => self.ttls.dir_lookup,
                    FileType::RegularFile => self.ttls.file_lookup,
                };
                return Ok((ttl, files[i].to_attr(now, uid)));
            }
            i = i + 1;
        }
        Err(ENOENT)
    }

    /// What the kernel is told of a file, and how long it may rely on that.
    pub fn getattr(&self, mount: &Mount, ino: u64, now: SystemTime, uid: u32) -> (r: Result<
        (Duration, FileAttr),
        i32,
    >)
        ensures
            r == (match file_or_root(mount@, ino, now) {
                Some(f) => Ok((self.attr_ttl(f), attr_of(f, now, uid))),
                None => Err::<(Duration, FileAttr), i32>(ENOENT),
            }),
    {
        if ino == FUSE_ROOT_ID {
            let root = FileEntry::root(now);
            return Ok((self.ttls.dir_attr, root.to_attr(now, uid)));
        }
        match mount.file_by_inode(ino) {
            Some(f) => {
                let ttl = match f.fuser_file_type() {
                    FileType::Directory => self.ttls.dir_attr,
                    FileType::RegularFile => self.ttls.file_attr,
                };
                Ok((ttl, f.to_attr(now, uid)))
            },
            None => Err(ENOENT),
        }
    }
}

fn collect_dirs(mount: &Mount) -> (files: Vec<FileEntry>)
    requires
        mount@.wf(),
    ensures
        file::file_views(files@) == drive_dirs(mount@, mount@.num_drives() as nat),
{
    let mut files: Vec<FileEntry> = Vec::new();
    let n: u8 = mount.num_drives();
    let mut i: u8 = 0;
    assert(file::file_views(files@) =~= Seq::empty());
    while i < n
        invariant
            mount@.wf(),
            i <= n,
            n == mount@.num_drives(),
            file::file_views(files@) == drive_dirs(mount@, i as nat),
        decreases n - i,
    {
        let ghost before = files@;
        match mount.get_drive_dir(i) {
            Some(f) => {
                files.push(f);
                assert(file::file_views(files@) =~= file::file_views(before).push(f@));
            },
            None => {},
        }
        i = i + 1;
    }
    files
}

// ---------------------------------------------------------------------------
// Directories
// ---------------------------------------------------------------------------

/// Where the files in a directory are found.
#[derive(Debug)]
pub enum ReadDir {
    /// These are the files
    Files(Vec<FileEntry>),
    /// The files are those in a drive
    Drive(u8),
    Fail(i32),
}

/// Where the files in a directory are found, with the files as a sequence.
#[verifier::ext_equal]
pub enum ReadDirView {
    Files(Seq<FileEntryView>),
    Drive(u8),
    Fail(i32),
}

impl View for ReadDir {
    type V = ReadDirView;

    open spec fn view(&self) -> ReadDirView {
        match *self {
            ReadDir::Files(files) => ReadDirView::Files(file::file_views(files@)),
            ReadDir::Drive(n) => ReadDirView::Drive(n),
            ReadDir::Fail(errno) => ReadDirView::Fail(errno),
        }
    }
}

/// Where the files in a directory are found. A unit of one drive has one directory.
pub open spec fn read_dir(m: MountView, ino: u64) -> ReadDirView {
    if m.num_drives() > 1 && ino == FUSE_ROOT_ID {
        ReadDirView::Files(drive_dirs(m, m.num_drives() as nat))
    } else if m.num_drives() != 1 {
        match m.drive_of(ino) {
            Some(n) => ReadDirView::Drive(n),
            None => if m.file(ino) is None {
                ReadDirView::Fail(ENOENT)
            } else {
                ReadDirView::Fail(ENOTDIR)
            },
        }
    } else {
        ReadDirView::Drive(0)
    }
}

/// A file as it stands in a directory, with the offset of what comes after it.
#[derive(Debug)]
pub struct DirEntry {
    pub ino: u64,
    pub offset: i64,
    pub kind: FileType,
    pub name: String,
}

/// A file as it stands in a directory, with its name as a sequence of characters.
#[verifier::ext_equal]
pub struct DirEntryView {
    pub ino: u64,
    pub offset: i64,
    pub kind: FileType,
    pub name: Seq<char>,
}

impl View for DirEntry {
    type V = DirEntryView;

    open spec fn view(&self) -> DirEntryView {
        DirEntryView {
            ino: self.ino,
            offset: self.offset,
            kind: self.kind,
            name: self.name@,
        }
    }
}

/// The views of what stands in a directory.
pub open spec fn entry_views(entries: Seq<DirEntry>) -> Seq<DirEntryView> {
    entries.map_values(|e: DirEntry| e@)
}

/// How many entries of a directory are not files in it: the directory above, and at the root
/// the directory itself.
pub open spec fn dots(ino: u64) -> int {
    if ino == FUSE_ROOT_ID {
        2
    } else {
        1
    }
}

/// What stands at a position of a directory. At the root the directory itself comes first.
/// Then comes the directory above, which is always the root, and then come the files.
pub open spec fn dir_entry(ino: u64, files: Seq<FileEntryView>, i: int) -> DirEntryView {
    let offset = (i + 1) as i64;
    if i < dots(ino) {
        DirEntryView {
            ino: FUSE_ROOT_ID,
            offset,
            kind: FileType::Directory,
            name: if i == dots(ino) - 1 {
                ".."@
            } else {
                "."@
            },
        }
    } else {
        let f = files[i - dots(ino)];
        DirEntryView { ino: f.ino, offset, kind: f.kind(), name: f.name }
    }
}

/// What stands in a directory with these files, from an offset on.
pub open spec fn dir_entries(ino: u64, files: Seq<FileEntryView>, offset: int) -> Seq<
    DirEntryView,
> {
    if offset < 0 || offset >= dots(ino) + files.len() {
        Seq::empty()
    } else {
        Seq::new(
            (dots(ino) + files.len() - offset) as nat,
            |i: int| dir_entry(ino, files, offset + i),
        )
    }
}

/// What to do while something is waited for.
#[derive(Debug)]
pub enum WaitDir {
    /// The directory was read
    Fresh,
    /// Sleep, and look again
    Sleep,
    /// It has taken too long
    TimedOut(Error),
}

/// The error of a wait that has taken too long.
pub open spec fn timed_out(message: Seq<char>, span: Duration) -> ErrorView {
    ErrorView::Fs1541 { message, error: Fs1541ErrorView::Timeout(""@, span) }
}

/// The directory of a drive was read less than a span of time ago.
pub open spec fn dir_is_fresh(m: MountView, drive: u8, span: Duration, now: SystemTime) -> bool {
    match m.disks[drive as int].disk_read_time {
        Some(read) => now.in_nanos() >= read.in_nanos() && now.in_nanos() - read.in_nanos()
            < span.in_nanos(),
        None => false,
    }
}

impl FuserMount {
    /// Where the files in a directory are found.
    pub fn dir_source(&self, mount: &Mount, ino: u64) -> (r: ReadDir)
        requires
            mount@.wf(),
        ensures
            r@ == read_dir(mount@, ino),
    {
        if mount.num_drives() > 1 && ino == FUSE_ROOT_ID {
            ReadDir::Files(collect_dirs(mount))
        } else if mount.num_drives() != 1 {
            match mount.get_drive_num_by_inode(ino) {
                Some(n) => ReadDir::Drive(n),
                None => if mount.file_by_inode(ino).is_none() {
                    ReadDir::Fail(ENOENT)
                } else {
                    ReadDir::Fail(ENOTDIR)
                },
            }
        } else {
            ReadDir::Drive(0)
        }
    }

    /// Whether the directory of a drive is to be read again before it is shown.
    pub fn needs_refresh(&self, mount: &Mount, drive: u8, now: SystemTime) -> (r: bool)
        requires
            mount@.wf(),
        ensures
            r == mount@.is_stale(drive, self.timers.dir_cache, now),
    {
        mount.should_refresh_dir(drive, self.timers.dir_cache, now)
    }

    /// Looks whether the directory of a drive was read. After so many looks it has taken
    /// too long.
    pub fn wait_for_dir_refresh(&self, mount: &Mount, drive: u8, count: u32, now: SystemTime) -> (r:
        WaitDir)
        requires
            mount@.wf(),
            drive < mount@.num_drives(),
        ensures
            if count >= self.counts.dir_check {
                r matches WaitDir::TimedOut(e) && e@ == timed_out(
                    "Directory re-read timed out"@,
                    self.timers.dir_read,
                )
            } else if dir_is_fresh(mount@, drive, self.timers.dir_cache, now) {
                r is Fresh
            } else {
                r is Sleep
            },
    {
        if count >= self.counts.dir_check {
            return WaitDir::TimedOut(
                Error::Fs1541 {
                    message: "Directory re-read timed out".to_owned(),
                    error: Fs1541Error::Timeout("".to_owned(), self.timers.dir_read),
                },
            );
        }
        assert(mount@.disks[drive as int] == mount.disk_info@[drive as int]@);
        match &mount.disk_info()[drive as usize].disk_read_time {
            Some(read) => if now.has_passed(&self.timers.dir_cache, read) {
                WaitDir::Sleep
            } else {
                WaitDir::Fresh
            },
            None => WaitDir::Sleep,
        }
    }

    /// Whether the directory is shown after it was waited for: a wait that has taken too
    /// long does not keep it from being shown.
    pub fn after_wait(&self, waited: &Result<(), Error>) -> (r: Result<(), i32>)
        ensures
            r == (match *waited {
                Ok(_) => Ok(()),
                Err(Error::Fs1541 { error: Fs1541Error::Timeout(_, _), .. }) => Ok(()),
                Err(e) => Err::<(), i32>(e@.errno()),
            }),
    {
        match waited {
            Ok(_) => Ok(()),
            Err(e) => {
                match e {
                    Error::Fs1541 { error, .. } => match error {
                        Fs1541Error::Timeout(_, _) => return Ok(()),
                        _ => {},
                    },
                    _ => {},
                }
                Err(e.to_fuse_reply_error())
            },
        }
    }

    /// What stands in a directory with these files, from an offset on: the files in a drive,
    /// or those that were found.
    pub fn dir_entries(ino: u64, files: &Vec<FileEntry>, offset: i64) -> (r: Vec<DirEntry>)
        ensures
            entry_views(r@) == dir_entries(ino, file::file_views(files@), offset as int),
    {
        let ghost all = file::file_views(files@);
        let ghost whole = dir_entries(ino, all, offset as int);
        let mut entries: Vec<DirEntry> = Vec::new();
        assert(entry_views(entries@) =~= Seq::empty());
        let dots: u128 = if ino == FUSE_ROOT_ID {
            2
        } else {
            1
        };
        let count: usize = files.len();
        let total: u128 = dots + count as u128;
        if offset < 0 || offset as u128 >= total {
            return entries;
        }
        let start: u128 = offset as u128;
        let mut i: u128 = start;
        assert(entry_views(entries@) =~= whole.take(0));
        while i < total
            invariant
                start == offset,
                start <= i <= total,
                dots == self::dots(ino),
                count == files@.len(),
                total == dots + count,
                all == file::file_views(files@),
                whole == dir_entries(ino, all, offset as int),
                whole.len() == total - start,
                entry_views(entries@) == whole.take(i - start),
            decreases total - i,
        {
            let ghost before = entries@;
            let entry = if i + 1 == dots {
                FuserMount::dot_entry("..", (i + 1) as i64)
            } else if i < dots {
                FuserMount::dot_entry(".", (i + 1) as i64)
            } else {
                let k: usize = (i - dots) as usize;
                let f = &files[k];
                assert(all[k as int] == f@);
                DirEntry {
                    ino: f.inode(),
                    offset: (i + 1) as i64,
                    kind: f.fuser_file_type(),
                    name: f.fuse.name.clone(),
                }
            };
            entries.push(entry);
            assert(entry@ == dir_entry(ino, all, i as int));
            assert(entry_views(entries@) =~= entry_views(before).push(entry@));
            assert(whole.take(i + 1 - start) =~= whole.take(i - start).push(whole[i - start]));
            i = i + 1;
        }
        assert(whole.take(i - start) =~= whole);
        entries
    }

    fn dot_entry(name: &str, offset: i64) -> (e: DirEntry)
        ensures
            e@ == (DirEntryView {
                ino: FUSE_ROOT_ID,
                offset,
                kind: FileType::Directory,
                name: name@,
            }),
    {
        DirEntry { ino: FUSE_ROOT_ID, offset, kind: FileType::Directory, name: name.to_owned() }
    }
}

/// The directory of a drive that is being read for the kernel, and how often it was looked
/// for.
#[derive(Debug, Clone, Copy, PartialEq, Eq, Structural)]
pub struct DirSession {
    pub ino: u64,
    pub drive: u8,
    pub offset: i64,
    pub count: u32,
}

/// What comes next when the kernel reads a directory.
#[derive(Debug)]
pub enum ReadDirNext {
    /// The kernel is given these entries
    Reply(Vec<DirEntry>),
    /// The kernel is given an error
    Fail(i32),
    /// The directory is to be read from the disk
    Request(DirSession),
    /// Sleep, and look again
    Sleep(DirSession),
}

/// What comes next when the kernel reads a directory, with entries as a sequence.
#[verifier::ext_equal]
pub enum ReadDirNextView {
    Reply(Seq<DirEntryView>),
    Fail(i32),
    Request(DirSession),
    Sleep(DirSession),
}

impl View for ReadDirNext {
    type V = ReadDirNextView;

    open spec fn view(&self) -> ReadDirNextView {
        match *self {
            ReadDirNext::Reply(entries) => ReadDirNextView::Reply(entry_views(entries@)),
            ReadDirNext::Fail(errno) => ReadDirNextView::Fail(errno),
            ReadDirNext::Request(s) => ReadDirNextView::Request(s),
            ReadDirNext::Sleep(s) => ReadDirNextView::Sleep(s),
        }
    }
}

/// The kernel is given what stands in the directory of a drive.
pub open spec fn drive_reply(m: MountView, ino: u64, drive: u8, offset: i64) -> ReadDirNextView {
    ReadDirNextView::Reply(dir_entries(ino, m.drive_files(drive), offset as int))
}

impl FuserMount {
    /// What comes first when the kernel reads a directory: one that was read too long ago
    /// is read again.
    pub open spec fn dir_start(self, m: MountView, ino: u64, offset: i64, now: SystemTime) -> ReadDirNextView {
        match read_dir(m, ino) {
            ReadDirView::Files(files) => ReadDirNextView::Reply(
                dir_entries(ino, files, offset as int),
            ),
            ReadDirView::Fail(errno) => ReadDirNextView::Fail(errno),
            ReadDirView::Drive(drive) => if m.is_stale(drive, self.timers.dir_cache, now) {
                ReadDirNextView::Request(DirSession { ino, drive, offset, count: 0 })
            } else {
                drive_reply(m, ino, drive, offset)
            },
        }
    }

    /// What comes of a look at a directory that is being read. The files that are known are
    /// given once it was read, or has taken too long.
    pub open spec fn dir_look(self, m: MountView, s: DirSession, now: SystemTime) -> ReadDirNextView {
        if s.count >= self.counts.dir_check || dir_is_fresh(
            m,
            s.drive,
            self.timers.dir_cache,
            now,
        ) {
            drive_reply(m, s.ino, s.drive, s.offset)
        } else {
            ReadDirNextView::Sleep(DirSession { count: (s.count + 1) as u32, ..s })
        }
    }

    fn reply_drive(mount: &Mount, ino: u64, drive: u8, offset: i64) -> (r: ReadDirNext)
        requires
            mount@.wf(),
        ensures
            r@ == drive_reply(mount@, ino, drive, offset),
    {
        ReadDirNext::Reply(FuserMount::dir_entries(ino, &mount.get_drive_files(drive), offset))
    }

    /// Begins to read a directory for the kernel, from an offset on.
    pub fn readdir(&self, mount: &Mount, ino: u64, offset: i64, now: SystemTime) -> (r: ReadDirNext)
        requires
            mount@.wf(),
        ensures
            r@ == self.dir_start(mount@, ino, offset, now),
            r matches ReadDirNext::Request(s) ==> s.drive < mount@.num_drives(),
    {
        match self.dir_source(mount, ino) {
            ReadDir::Files(files) => ReadDirNext::Reply(
                FuserMount::dir_entries(ino, &files, offset),
            ),
            ReadDir::Fail(errno) => ReadDirNext::Fail(errno),
            ReadDir::Drive(drive) => {
                proof {
                    if mount@.num_drives() != 1 {
                        mount::lemma_directory_drive(mount@, ino);
                    }
                }
                if self.needs_refresh(mount, drive, now) {
                    ReadDirNext::Request(DirSession { ino, drive, offset, count: 0 })
                } else {
                    FuserMount::reply_drive(mount, ino, drive, offset)
                }
            },
        }
    }

    /// Goes on when the request to read the directory was sent, could not be sent, or was
    /// there already. One that could not be sent does not keep the directory from being
    /// shown.
    pub fn dir_requested(
        &self,
        mount: &mut Mount,
        s: DirSession,
        sent: Option<Result<(), String>>,
        now: SystemTime,
    ) -> (r: ReadDirNext)
        requires
            old(mount)@.wf(),
            s.drive < old(mount)@.num_drives(),
        ensures
            final(mount)@ == (MountView {
                dir_outstanding: old(mount)@.dir_outstanding || sent matches Some(Ok(_)),
                ..old(mount)@
            }),
            final(mount)@.wf(),
            r@ == (match sent {
                Some(Err(_)) => drive_reply(final(mount)@, s.ino, s.drive, s.offset),
                _ => self.dir_look(final(mount)@, s, now),
            }),
    {
        match mount.do_dir_sync(sent) {
            Ok(_) => self.dir_slept(mount, s, now),
            Err(_) => FuserMount::reply_drive(mount, s.ino, s.drive, s.offset),
        }
    }

    /// Looks at a directory that is being read, after a sleep.
    pub fn dir_slept(&self, mount: &Mount, s: DirSession, now: SystemTime) -> (r: ReadDirNext)
        requires
            mount@.wf(),
            s.drive < mount@.num_drives(),
        ensures
            r@ == self.dir_look(mount@, s, now),
    {
        let waited = match self.wait_for_dir_refresh(mount, s.drive, s.count, now) {
            WaitDir::Sleep => {
                return ReadDirNext::Sleep(DirSession { count: s.count + 1, ..s });
            },
            WaitDir::Fresh => Ok(()),
            WaitDir::TimedOut(e) => Err(e),
        };
        match self.after_wait(&waited) {
            Ok(_) => FuserMount::reply_drive(mount, s.ino, s.drive, s.offset),
            Err(errno) => ReadDirNext::Fail(errno),
        }
    }
}

// ---------------------------------------------------------------------------
// Extended attributes
// ---------------------------------------------------------------------------

/// The answer to a request for extended attributes.
#[derive(Debug)]
pub enum XattrReply {
    Size(u32),
    Data(Vec<u8>),
}

/// The answer to a request for extended attributes, with bytes as a sequence.
#[verifier::ext_equal]
pub enum XattrReplyView {
    Size(u32),
    Data(Seq<u8>),
}

impl View for XattrReply {
    type V = XattrReplyView;

    open spec fn view(&self) -> XattrReplyView {
        match *self {
            XattrReply::Size(n) => XattrReplyView::Size(n),
            XattrReply::Data(data) => XattrReplyView::Data(data@),
        }
    }
}

/// Bytes are answered by their number where there is no room for any, and by themselves
/// where there is room for all.
pub open spec fn sized(data: Seq<u8>, size: u32) -> Result<XattrReplyView, i32> {
    let length = (data.len() as usize) as u32;
    if size == 0 {
        Ok(XattrReplyView::Size(length))
    } else if size >= length {
        Ok(XattrReplyView::Data(data))
    } else {
        Err(ERANGE)
    }
}

/// An answer, with its bytes as a sequence.
pub open spec fn reply_view(r: Result<XattrReply, i32>) -> Result<XattrReplyView, i32> {
    match r {
        Ok(x) => Ok(x@),
        Err(errno) => Err(errno),
    }
}

fn reply_sized(data: Vec<u8>, size: u32) -> (r: Result<XattrReply, i32>)
    ensures
        reply_view(r) == sized(data@, size),
{
    let length: u32 = data.len() as u32;
    if size == 0 {
        Ok(XattrReply::Size(length))
    } else if size >= length {
        Ok(XattrReply::Data(data))
    } else {
        Err(ERANGE)
    }
}

/// The names of the attributes of a file: at the root those of the drive, and those of the
/// disk where there is one drive; of a directory its own and those of the disk.
pub open spec fn xattr_names(m: MountView, ino: u64) -> Option<Seq<u8>> {
    if ino == FUSE_ROOT_ID {
        let names = xattr::name_list(m.drive_xattrs);
        if m.num_drives() == 1 {
            Some(names + xattr::name_list(m.disks[0].xattrs))
        } else {
            Some(names)
        }
    } else {
        match m.file(ino) {
            Some(f) => {
                let names = xattr::name_list(f.xattrs());
                match f.native {
                    FileEntryTypeView::Directory(n) => Some(
                        names + xattr::name_list(m.disks[n as int].xattrs),
                    ),
                    _ => Some(names),
                }
            },
            None => None,
        }
    }
}

/// The file has an attribute of a name.
pub open spec fn has_xattr(m: MountView, ino: u64, name: Seq<char>) -> bool {
    if ino == FUSE_ROOT_ID {
        xattr::find(m.drive_xattrs, name) is Some || (m.num_drives() == 1 && xattr::find(
            m.disks[0].xattrs,
            name,
        ) is Some)
    } else {
        match m.file(ino) {
            Some(f) => match f.native {
                FileEntryTypeView::Directory(n) => xattr::find(
                    m.disks[n as int].xattrs,
                    name,
                ) is Some || xattr::find(f.xattrs(), name) is Some,
                _ => xattr::find(f.xattrs(), name) is Some,
            },
            None => false,
        }
    }
}

/// The bytes are the value of the file's attribute of a name. The attributes of the drive
/// come before those of the disk, and those of the disk before those of its directory.
pub open spec fn is_xattr(m: MountView, ino: u64, name: Seq<char>, data: Seq<u8>) -> bool {
    if ino == FUSE_ROOT_ID {
        match xattr::find(m.drive_xattrs, name) {
            Some(i) => xattr::is_value_of(m.drive_xattrs[i], data),
            None => xattr::find(m.disks[0].xattrs, name) matches Some(i) && xattr::is_value_of(
                m.disks[0].xattrs[i],
                data,
            ),
        }
    } else {
        m.file(ino) matches Some(f) && match f.native {
            FileEntryTypeView::Directory(n) => match xattr::find(m.disks[n as int].xattrs, name) {
                Some(i) => xattr::is_value_of(m.disks[n as int].xattrs[i], data),
                None => xattr::find(f.xattrs(), name) matches Some(i) && xattr::is_value_of(
                    f.xattrs()[i],
                    data,
                ),
            },
            _ => xattr::find(f.xattrs(), name) matches Some(i) && xattr::is_value_of(
                f.xattrs()[i],
                data,
            ),
        }
    }
}

impl FuserMount {
    /// The names of the attributes of a file, each with a NUL behind it.
    pub fn listxattr(&self, mount: &Mount, ino: u64, size: u32) -> (r: Result<XattrReply, i32>)
        requires
            mount@.wf(),
        ensures
            reply_view(r) == (match xattr_names(mount@, ino) {
                Some(names) => sized(names, size),
                None => Err(ENOENT),
            }),
    {
        let mut list: Vec<u8>;
        if ino == FUSE_ROOT_ID {
            list = XattrOps::listxattr_from_vec(mount.drive_xattrs());
            if mount.num_drives() == 1 {
                let mut more = XattrOps::listxattr_from_vec(mount.disk_xattrs(0));
                list.append(&mut more);
            }
        } else {
            match mount.file_by_inode(ino) {
                Some(f) => {
                    list = f.listxattrs();
                    if let FileEntryType::Directory(n) = f.native {
                        proof {
                            mount::lemma_directory_drive(mount@, ino);
                        }
                        let mut more = XattrOps::listxattr_from_vec(mount.disk_xattrs(n));
                        list.append(&mut more);
                    }
                },
                None => return Err(ENOENT),
            }
        }
        reply_sized(list, size)
    }

    /// The value of an attribute of a file. A name that is no text is no attribute's.
    pub fn getxattr(&self, mount: &Mount, ino: u64, name: Option<&str>, size: u32) -> (r: Result<
        XattrReply,
        i32,
    >)
        requires
            mount@.wf(),
        ensures
            match name {
                None => r == Err::<XattrReply, i32>(ENODATA),
                Some(name) => if ino != FUSE_ROOT_ID && mount@.file(ino) is None {
                    r == Err::<XattrReply, i32>(ENOENT)
                } else if !has_xattr(mount@, ino, name@) {
                    r == Err::<XattrReply, i32>(ENODATA)
                } else {
                    exists|data: Seq<u8>| #[trigger]
                        is_xattr(mount@, ino, name@, data) && reply_view(r) == sized(data, size)
                },
            },
    {
        let name = match name {
            Some(n) => n,
            None => return Err(ENODATA),
        };
        let data: Option<Vec<u8>> = if ino == FUSE_ROOT_ID {
            match XattrOps::getxattr_from_vec(mount.drive_xattrs(), name) {
                Some(v) => Some(v),
                None => if mount.num_drives() == 1 {
                    XattrOps::getxattr_from_vec(mount.disk_xattrs(0), name)
                } else {
                    None
                },
            }
        } else {
            match mount.file_by_inode(ino) {
                Some(f) => match f.native {
                    FileEntryType::Directory(n) => {
                        proof {
                            mount::lemma_directory_drive(mount@, ino);
                        }
                        match XattrOps::getxattr_from_vec(mount.disk_xattrs(n), name) {
                            Some(v) => Some(v),
                            None => f.getxattr(name),
                        }
                    },
                    _ => f.getxattr(name),
                },
                None => return Err(ENOENT),
            }
        };
        match data {
            Some(v) => {
                assert(is_xattr(mount@, ino, name@, v@));
                reply_sized(v, size)
            },
            None => Err(ENODATA),
        }
    }
}

// ---------------------------------------------------------------------------
// Files
// ---------------------------------------------------------------------------

/// What is wrong with opening, flushing or closing a file: it is the root, it is not there,
/// or it is a directory.
pub open spec fn access_fault(m: MountView, ino: u64) -> Option<i32> {
    if ino == FUSE_ROOT_ID {
        Some(EISDIR)
    } else {
        match m.file(ino) {
            None => Some(ENOENT),
            Some(f) => if f.kind() == FileType::Directory {
                Some(ENOENT)
            } else {
                None
            },
        }
    }
}

/// Where the contents of a file are found.
#[derive(Debug)]
pub enum ReadFile {
    /// These are its contents
    Data(Vec<u8>),
    /// It is to be read from the disk
    Ask(OpType),
    Fail(i32),
}

/// What is known of the contents of a file.
pub enum Contents {
    Known(Seq<u8>),
    Unknown,
    Refused(i32),
}

/// The contents of a file on a disk, where they were read not too long ago.
pub open spec fn cached_contents(f: FileEntryView, span: Duration, now: SystemTime) -> Option<
    Seq<u8>,
> {
    match f.cache {
        Some(cache) => if cache.is_fresh(span, now) {
            Some(cache.cache)
        } else {
            None
        },
        None => None,
    }
}

/// What is known of the contents of a file. Those of a control file may never change, and
/// it may be there to be written only.
pub open spec fn contents_of(m: MountView, ino: u64, span: Duration, now: SystemTime) -> Contents {
    match m.file(ino) {
        None => Contents::Refused(ENOENT),
        Some(f) => match f.native {
            FileEntryTypeView::Directory(_) => Contents::Refused(EISDIR),
            FileEntryTypeView::ControlFile(c) => if c.purpose.rw() == RwType::Write {
                Contents::Refused(EACCES)
            } else {
                match c.purpose.help() {
                    Some(words) => Contents::Known(vstd::utf8::encode_utf8(words)),
                    None => Contents::Unknown,
                }
            },
            FileEntryTypeView::CbmFile(_) => match cached_contents(f, span, now) {
                Some(data) => Contents::Known(data),
                None => Contents::Unknown,
            },
        },
    }
}

/// What to do while a file is waited for.
#[derive(Debug)]
pub enum WaitFile {
    /// The file was read
    Data(Vec<u8>),
    /// Sleep, and look again
    Sleep,
    /// It has taken too long
    TimedOut(Error),
}

/// The bytes from an offset on that the kernel is given.
pub open spec fn read_part(data: Seq<u8>, offset: i64, size: u32) -> Seq<u8> {
    if offset < 0 {
        Seq::empty()
    } else {
        file::slice_at(data, offset as int, size as int)
    }
}

impl FuserMount {
    fn access(&self, mount: &Mount, ino: u64) -> (r: Result<(), i32>)
        ensures
            r == (match access_fault(mount@, ino) {
                Some(errno) => Err::<(), i32>(errno),
                None => Ok(()),
            }),
    {
        if ino == FUSE_ROOT_ID {
            return Err(EISDIR);
        }
        match mount.file_by_inode(ino) {
            Some(f) => match f.fuser_file_type() {
                FileType::Directory => Err(ENOENT),
                FileType::RegularFile => Ok(()),
            },
            None => Err(ENOENT),
        }
    }

    /// Opens a file. Its handle is its inode.
    pub fn open(&self, mount: &Mount, ino: u64) -> (r: Result<u64, i32>)
        ensures
            r == (match access_fault(mount@, ino) {
                Some(errno) => Err::<u64, i32>(errno),
                None => Ok(ino),
            }),
    {
        match self.access(mount, ino) {
            Ok(_) => Ok(ino),
            Err(errno) => Err(errno),
        }
    }

    /// Closes a file.
    pub fn release(&self, mount: &Mount, ino: u64) -> (r: Result<(), i32>)
        ensures
            r == (match access_fault(mount@, ino) {
                Some(errno) => Err::<(), i32>(errno),
                None => Ok(()),
            }),
    {
        self.access(mount, ino)
    }

    /// Flushes a file.
    pub fn flush(&self, mount: &Mount, ino: u64) -> (r: Result<(), i32>)
        ensures
            r == (match access_fault(mount@, ino) {
                Some(errno) => Err::<(), i32>(errno),
                None => Ok(()),
            }),
    {
        self.access(mount, ino)
    }

    /// Where the contents of a file are found.
    pub fn file_source(&self, mount: &Mount, ino: u64, now: SystemTime) -> (r: ReadFile)
        ensures
            match contents_of(mount@, ino, self.timers.file_cache, now) {
                Contents::Known(data) => r matches ReadFile::Data(v) && v@ == data,
                Contents::Refused(errno) => r == ReadFile::Fail(errno),
                Contents::Unknown => match mount@.file_request(ino) {
                    Some(name) => r matches ReadFile::Ask(
                        OpType::ReadFile { device, path, inode },
                    ) && device == mount@.device_num && path@ == name && inode == ino,
                    None => r == ReadFile::Fail(
                        mount::fault("Failed to read file"@, Fs1541ErrorView::FileAccess(""@)).errno(),
                    ),
                },
            },
    {
        match mount.file_by_inode(ino) {
            None => return ReadFile::Fail(ENOENT),
            Some(f) => match &f.native {
                FileEntryType::Directory(_) => return ReadFile::Fail(EISDIR),
                FileEntryType::ControlFile(c) => match c.rw_type() {
                    RwType::Write => return ReadFile::Fail(EACCES),
                    _ => match c.read_static() {
                        Some(words) => {
                            return ReadFile::Data(
                                vstd::slice::slice_to_vec(words.as_str().as_bytes()),
                            );
                        },
                        None => {},
                    },
                },
                FileEntryType::CbmFile(_) => {
                    if let Some(data) = self.cached(f, now) {
                        return ReadFile::Data(data);
                    }
                },
            },
        }
        match mount.read_file_sync(ino) {
            Ok(op) => ReadFile::Ask(op),
            Err(e) => ReadFile::Fail(e.to_fuse_reply_error()),
        }
    }

    fn cached(&self, f: &FileEntry, now: SystemTime) -> (r: Option<Vec<u8>>)
        ensures
            match r {
                Some(data) => cached_contents(f@, self.timers.file_cache, now) == Some(data@),
                None => cached_contents(f@, self.timers.file_cache, now) is None,
            },
    {
        match &f.cache {
            Some(cache) => match cache.get_data_complete_and_fresh(&self.timers.file_cache, &now) {
                Some(data) => Some(vstd::slice::slice_to_vec(data.as_slice())),
                None => None,
            },
            None => None,
        }
    }

    /// Looks whether a file was read. After so many looks it has taken too long.
    pub fn wait_for_file_read(&self, mount: &Mount, ino: u64, count: u32, now: SystemTime) -> (r:
        WaitFile)
        ensures
            if count >= self.counts.file_check {
                r matches WaitFile::TimedOut(e) && e@ == timed_out(
                    "File read timed out"@,
                    self.timers.file_read,
                )
            } else {
                match mount@.file(ino) {
                    Some(f) => match cached_contents(f, self.timers.file_cache, now) {
                        Some(data) => r matches WaitFile::Data(v) && v@ == data,
                        None => r is Sleep,
                    },
                    None => r is Sleep,
                }
            },
    {
        if count >= self.counts.file_check {
            return WaitFile::TimedOut(
                Error::Fs1541 {
                    message: "File read timed out".to_owned(),
                    error: Fs1541Error::Timeout("".to_owned(), self.timers.file_read),
                },
            );
        }
        match mount.file_by_inode(ino) {
            Some(f) => match self.cached(f, now) {
                Some(data) => WaitFile::Data(data),
                None => WaitFile::Sleep,
            },
            None => WaitFile::Sleep,
        }
    }

    /// The bytes from an offset on that the kernel is given.
    pub fn read_part(data: &Vec<u8>, offset: i64, size: u32) -> (r: &[u8])
        ensures
            r@ == read_part(data@, offset, size),
    {
        if offset < 0 || offset as u64 >= data.len() as u64 {
            let n: usize = data.len();
            let r = slice_from(data, n, 0);
            assert(r@ =~= read_part(data@, offset, size));
            r
        } else {
            let start: usize = offset as usize;
            let n: usize = data.len();
            let most: usize = n - start;
            let count: usize = if size as u64 >= most as u64 {
                most
            } else {
                size as usize
            };
            let r = slice_from(data, start, count);
            assert(r@ =~= read_part(data@, offset, size));
            r
        }
    }
}

/// The file that is being read for the kernel, which part of it is wanted, and how often it
/// was looked for.
#[derive(Debug, Clone, Copy, PartialEq, Eq, Structural)]
pub struct FileSession {
    pub ino: u64,
    pub offset: i64,
    pub size: u32,
    pub count: u32,
}

/// What comes next when the kernel reads a file.
#[derive(Debug)]
pub enum ReadNext {
    /// The kernel is given these bytes
    Reply(Vec<u8>),
    /// The kernel is given an error
    Fail(i32),
    /// The file is to be read from the disk, by this operation
    Request(FileSession, OpType),
    /// Sleep, and look again
    Sleep(FileSession),
}

/// What comes next when the kernel reads a file, with bytes as a sequence, and what is asked
/// of the disk by the device and the name of the file.
#[verifier::ext_equal]
pub enum ReadNextView {
    Reply(Seq<u8>),
    Fail(i32),
    Request(FileSession, u8, Seq<char>),
    Sleep(FileSession),
}

/// What comes next is as told.
pub open spec fn is_next(r: ReadNext, next: ReadNextView) -> bool {
    match next {
        ReadNextView::Reply(data) => r matches ReadNext::Reply(v) && v@ == data,
        ReadNextView::Fail(errno) => r == ReadNext::Fail(errno),
        ReadNextView::Request(s, unit, name) => r matches ReadNext::Request(t, op) && t == s && (op
            matches OpType::ReadFile { device, path, inode } && device == unit && path@ == name
            && inode == s.ino),
        ReadNextView::Sleep(s) => r == ReadNext::Sleep(s),
    }
}

impl FuserMount {
    /// What comes first when the kernel reads a file: one whose contents are not known is
    /// read from the disk.
    pub open spec fn file_start(
        self,
        m: MountView,
        ino: u64,
        offset: i64,
        size: u32,
        now: SystemTime,
    ) -> ReadNextView {
        match contents_of(m, ino, self.timers.file_cache, now) {
            Contents::Known(data) => ReadNextView::Reply(read_part(data, offset, size)),
            Contents::Refused(errno) => ReadNextView::Fail(errno),
            Contents::Unknown => match m.file_request(ino) {
                Some(name) => ReadNextView::Request(
                    FileSession { ino, offset, size, count: 0 },
                    m.device_num,
                    name,
                ),
                None => ReadNextView::Fail(
                    mount::fault("Failed to read file"@, Fs1541ErrorView::FileAccess(""@)).errno(),
                ),
            },
        }
    }

    /// What comes of a look at a file that is being read.
    pub open spec fn file_look(self, m: MountView, s: FileSession, now: SystemTime) -> ReadNextView {
        let again = ReadNextView::Sleep(FileSession { count: (s.count + 1) as u32, ..s });
        if s.count >= self.counts.file_check {
            ReadNextView::Fail(timed_out("File read timed out"@, self.timers.file_read).errno())
        } else {
            match m.file(s.ino) {
                Some(f) => match cached_contents(f, self.timers.file_cache, now) {
                    Some(data) => ReadNextView::Reply(read_part(data, s.offset, s.size)),
                    None => again,
                },
                None => again,
            }
        }
    }

    /// Begins to read a part of a file for the kernel.
    pub fn read(&self, mount: &Mount, ino: u64, offset: i64, size: u32, now: SystemTime) -> (r:
        ReadNext)
        ensures
            is_next(r, self.file_start(mount@, ino, offset, size, now)),
    {
        match self.file_source(mount, ino, now) {
            ReadFile::Data(data) => ReadNext::Reply(
                vstd::slice::slice_to_vec(FuserMount::read_part(&data, offset, size)),
            ),
            ReadFile::Fail(errno) => ReadNext::Fail(errno),
            ReadFile::Ask(op) => ReadNext::Request(
                FileSession { ino, offset, size, count: 0 },
                op,
            ),
        }
    }

    /// Goes on when the request to read the file was sent, or could not be sent.
    pub fn file_requested(
        &self,
        mount: &Mount,
        s: FileSession,
        sent: &Result<(), Error>,
        now: SystemTime,
    ) -> (r: ReadNext)
        ensures
            is_next(
                r,
                match *sent {
                    Ok(_) => self.file_look(mount@, s, now),
                    Err(e) => ReadNextView::Fail(e@.errno()),
                },
            ),
    {
        match sent {
            Ok(_) => self.file_slept(mount, s, now),
            Err(e) => ReadNext::Fail(e.to_fuse_reply_error()),
        }
    }

    /// Looks at a file that is being read, after a sleep.
    pub fn file_slept(&self, mount: &Mount, s: FileSession, now: SystemTime) -> (r: ReadNext)
        ensures
            is_next(r, self.file_look(mount@, s, now)),
    {
        match self.wait_for_file_read(mount, s.ino, s.count, now) {
            WaitFile::Data(data) => ReadNext::Reply(
                vstd::slice::slice_to_vec(FuserMount::read_part(&data, s.offset, s.size)),
            ),
            WaitFile::Sleep => ReadNext::Sleep(FileSession { count: s.count + 1, ..s }),
            WaitFile::TimedOut(e) => ReadNext::Fail(e.to_fuse_reply_error()),
        }
    }
}

// ---------------------------------------------------------------------------
// Laws
// ---------------------------------------------------------------------------

/// A directory can be read in parts: what comes before an offset, and what is read from
/// that offset on, is the whole directory, and the entry before the offset names it.
pub proof fn law_directory_in_parts(ino: u64, files: Seq<FileEntryView>, k: int)
    requires
        0 <= k <= dots(ino) + files.len(),
        dots(ino) + files.len() < i64::MAX,
    ensures
        dir_entries(ino, files, 0) == dir_entries(ino, files, 0).take(k) + dir_entries(
            ino,
            files,
            k,
        ),
        dir_entries(ino, files, 0).len() == dots(ino) + files.len(),
        k > 0 ==> dir_entries(ino, files, 0)[k - 1].offset == k,
{
    assert(dir_entries(ino, files, 0) =~= dir_entries(ino, files, 0).take(k) + dir_entries(
        ino,
        files,
        k,
    ));
}

/// Besides its files a directory shows the directory above, which is the root, and the root
/// shows itself too; and each file is shown once, with its inode, its kind and its name.
pub proof fn law_directory_is_complete(ino: u64, files: Seq<FileEntryView>, j: int)
    requires
        dots(ino) + files.len() < i64::MAX,
    ensures
        ({
            let all = dir_entries(ino, files, 0);
            let above = all[dots(ino) - 1];
            let shown = all[dots(ino) + j];
            &&& all.len() == dots(ino) + files.len()
            &&& above.ino == FUSE_ROOT_ID && above.kind == FileType::Directory && above.name
                == ".."@
            &&& ino == FUSE_ROOT_ID ==> all[0].ino == FUSE_ROOT_ID && all[0].kind
                == FileType::Directory && all[0].name == "."@
            &&& 0 <= j < files.len() ==> shown.ino == files[j].ino && shown.kind
                == files[j].kind() && shown.name == files[j].name && shown.offset == dots(ino) + j
                + 1
        }),
{
}

/// A file can be read in parts: the bytes of one part and those from its end on are the
/// bytes of both.
pub proof fn law_file_in_parts(data: Seq<u8>, offset: i64, first: u32, second: u32)
    requires
        0 <= offset,
        offset + first <= i64::MAX,
        first + second <= u32::MAX,
    ensures
        read_part(data, offset, first) + read_part(data, (offset + first) as i64, second)
            == read_part(data, offset, (first + second) as u32),
{
    assert(read_part(data, offset, first) + read_part(data, (offset + first) as i64, second)
        =~= read_part(data, offset, (first + second) as u32));
}

/// Reading a directory ends: there are only so many looks at it, and what the kernel is
/// given at last is the directory with the files that are known to be in the drive.
pub proof fn law_directory_is_given(f: FuserMount, m: MountView, s: DirSession, now: SystemTime)
    ensures
        match f.dir_look(m, s, now) {
            ReadDirNextView::Reply(entries) => entries == dir_entries(
                s.ino,
                m.drive_files(s.drive),
                s.offset as int,
            ),
            ReadDirNextView::Sleep(t) => t.ino == s.ino && t.drive == s.drive && t.offset == s.offset && t.count
                == s.count + 1 && t.count <= f.counts.dir_check,
            _ => false,
        },
{
}

/// Reading a file ends: there are only so many looks at it, and what the kernel is given at
/// last is the part that it asked for, or an error.
pub proof fn law_file_is_given(f: FuserMount, m: MountView, s: FileSession, now: SystemTime)
    ensures
        match f.file_look(m, s, now) {
            ReadNextView::Reply(data) => m.file(s.ino) matches Some(e) && (cached_contents(
                e,
                f.timers.file_cache,
                now,
            ) matches Some(all) && data == read_part(all, s.offset, s.size)),
            ReadNextView::Sleep(t) => t.ino == s.ino && t.offset == s.offset && t.size == s.size
                && t.count == s.count + 1 && t.count <= f.counts.file_check,
            ReadNextView::Fail(_) => s.count >= f.counts.file_check,
            ReadNextView::Request(_, _, _) => false,
        },
{
}

/// A file that is waited for is given once it was read: the kernel gets the part that it
/// asked for of what was read of the disk, and gets the same when it asks again, while that
/// is not too long ago.
pub proof fn law_read_is_given(
    f: FuserMount,
    m: MountView,
    k: int,
    j: int,
    contents: Seq<u8>,
    read_at: SystemTime,
    s: FileSession,
    now: SystemTime,
)
    requires
        m.wf(),
        0 <= k < m.disks.len(),
        0 <= j < m.disks[k].cbm_files.len(),
        s.ino == m.disks[k].cbm_files[j].ino,
        s.count < f.counts.file_check,
        now.in_nanos() < read_at.in_nanos() + f.timers.file_cache.in_nanos(),
    ensures
        ({
            let after = MountView {
                disks: mount::cached_disks(m.disks, s.ino, contents, read_at),
                ..m
            };
            let given = ReadNextView::Reply(read_part(contents, s.offset, s.size));
            f.file_look(after, s, now) == given && f.file_start(
                after,
                s.ino,
                s.offset,
                s.size,
                now,
            ) == given
        }),
{
    law_read_gives_contents(m, k, j, contents, read_at, f.timers.file_cache, now);
    mount::law_contents_are_cached(m, k, j, contents, read_at);
    assert(mount::disk_ok(m.disks[k], k, m.num_drives() > 1));
    assert(m.disks[k].cbm_files[j].native is CbmFile);
    assert(Seq::<u8>::empty() + contents =~= contents);
}

proof fn lemma_named(files: Seq<FileEntryView>, name: Seq<char>, from: int) -> (j: int)
    requires
        0 <= from,
        named_from(files, name, from) is Some,
    ensures
        from <= j < files.len(),
        named_from(files, name, from) == Some(files[j]),
        files[j].name == name,
    decreases files.len() - from,
{
    if files[from].name == name {
        from
    } else {
        lemma_named(files, name, from + 1)
    }
}

proof fn lemma_drive_dirs(m: MountView, n: nat, j: int) -> (k: int)
    requires
        m.wf(),
        n <= m.num_drives(),
        0 <= j < drive_dirs(m, n).len(),
    ensures
        0 <= k < n,
        m.disks[k].disk_dir == Some(drive_dirs(m, n)[j]),
    decreases n,
{
    if m.drive_dir((n - 1) as u8) is Some && j == drive_dirs(m, n).len() - 1 {
        n - 1
    } else {
        lemma_drive_dirs(m, (n - 1) as nat, j)
    }
}

proof fn lemma_drive_file(m: MountView, drive: u8, j: int)
    requires
        m.wf(),
        drive < m.num_drives(),
        0 <= j < m.drive_files(drive).len(),
    ensures
        m.file(m.drive_files(drive)[j].ino) == Some(m.drive_files(drive)[j]),
        m.drive_files(drive)[j].ino != FUSE_ROOT_ID,
{
    let d = m.disks[drive as int];
    let n = d.control_files.len() as int;
    if j < n {
        mount::law_file_by_inode(m, drive as int, j);
    } else {
        mount::law_file_by_inode(m, drive as int, j - n);
    }
}

/// What is found by its name is found again by the inode that was answered: it is the
/// same file, of that name, and the kernel is told the same of it.
pub proof fn law_lookup_is_found_again(
    m: MountView,
    parent: u64,
    name: Seq<char>,
    now: SystemTime,
    uid: u32,
)
    requires
        m.wf(),
        named(m, parent, name) is Some,
    ensures
        ({
            let f = named(m, parent, name)->0;
            f.name == name && file_or_root(m, attr_of(f, now, uid).ino, now) == Some(f)
        }),
{
    let files = files_in(m, parent)->0;
    let j = lemma_named(files, name, 0);
    if parent == FUSE_ROOT_ID && m.num_drives() > 1 {
        let k = lemma_drive_dirs(m, m.num_drives() as nat, j);
        mount::law_file_by_inode(m, k, 0);
    } else if parent == FUSE_ROOT_ID {
        lemma_drive_file(m, 0, j);
    } else {
        mount::lemma_directory_drive(m, parent);
        lemma_drive_file(m, m.drive_of(parent)->0, j);
    }
}

/// Once a file on a disk was read, and while that is not too long ago, the kernel is given
/// what was read of the disk.
pub proof fn law_read_gives_contents(
    m: MountView,
    k: int,
    j: int,
    contents: Seq<u8>,
    read_at: SystemTime,
    span: Duration,
    now: SystemTime,
)
    requires
        m.wf(),
        0 <= k < m.disks.len(),
        0 <= j < m.disks[k].cbm_files.len(),
        now.in_nanos() < read_at.in_nanos() + span.in_nanos(),
    ensures
        ({
            let ino = m.disks[k].cbm_files[j].ino;
            let after = MountView {
                disks: mount::cached_disks(m.disks, ino, contents, read_at),
                ..m
            };
            contents_of(after, ino, span, now) == Contents::Known(contents)
        }),
{
    mount::law_contents_are_cached(m, k, j, contents, read_at);
    assert(mount::disk_ok(m.disks[k], k, m.num_drives() > 1));
    assert(m.disks[k].cbm_files[j].native is CbmFile);
    assert(Seq::<u8>::empty() + contents =~= contents);
}

} // verus!

//! What can be relied on of the files of a mount.
use vstd::prelude::*;

use crate::cbmtype::{CbmFileType, CbmStatus};
use crate::dir::{CbmDirListing, CbmFileEntry, CbmFileEntryView};
use crate::error::Error;
use crate::number;
use crate::server::args::Args;
use crate::server::bg::{finish_execution, ExecDone, OpResponseType, OpType};
use crate::server::file;
use crate::server::file::{
    slice_from, Buffer, ControlFile, ControlFilePurpose, ControlWrite, FileAttr, FileCache,
    FileEntry, FileEntryType, FileEntryTypeView, FileEntryView, FileType,
};
use crate::server::fusermount;
use crate::server::fusermount::{
    FileSession, FuserMount, ReadDirNext, ReadNext, ReadNextView, Timers,
};
use crate::server::inode;
use crate::server::mount;
use crate::server::mount::{Mount, MountView};
use crate::server::xattr::RwType;
use crate::time::{Duration, SystemTime};

verus! {

/// The contents in the answer to a read of a file are the bytes that the drive has sent, all
/// of them and nothing else, for the file that was asked for.
pub proof fn law_read_bytes_are_handed_back(
    device: u8,
    path: String,
    inode: u64,
    contents: Vec<u8>,
    status: CbmStatus,
    rsp: Result<OpResponseType, Error>,
)
    requires
        call_ensures(
            finish_execution,
            (ExecDone::ReadFile { device, path, inode, result: Ok((contents, status)) },),
            rsp,
        ),
    ensures
        rsp matches Ok(
            OpResponseType::ReadFile { device: d, path: p, inode: i, status: s, contents: c },
        ) && {
            &&& d == device
            &&& p@ == path@
            &&& i == inode
            &&& s@ == status@
            &&& c@.len() == contents@.len()
            &&& forall|k: int| 0 <= k < contents@.len() ==> #[trigger] c@[k] == contents@[k]
        },
{
}

/// Once the answer to a read of a file was taken in, and while that is not too long ago, the
/// kernel that reads the file gets the bytes that the drive has sent: from the beginning on
/// all of them, and from any offset the byte that stands there.
pub proof fn law_read_bytes_reach_the_kernel(
    f: FuserMount,
    m: MountView,
    k: int,
    j: int,
    device: u8,
    path: String,
    contents: Vec<u8>,
    status: CbmStatus,
    rsp: Result<OpResponseType, Error>,
    read_at: SystemTime,
    offset: i64,
    size: u32,
    now: SystemTime,
)
    requires
        m.wf(),
        0 <= k < m.disks.len(),
        0 <= j < m.disks[k].cbm_files.len(),
        f.counts.file_check > 0,
        0 <= offset,
        now.in_nanos() < read_at.in_nanos() + f.timers.file_cache.in_nanos(),
        call_ensures(
            finish_execution,
            (
                ExecDone::ReadFile {
                    device,
                    path,
                    inode: m.disks[k].cbm_files[j].ino,
                    result: Ok((contents, status)),
                },
            ),
            rsp,
        ),
    ensures
        f.file_start(
            m.answered(rsp, read_at),
            m.disks[k].cbm_files[j].ino,
            offset,
            size,
            now,
        ) matches ReadNextView::Reply(data) && {
            &&& offset == 0 && size >= contents@.len() ==> data == contents@
            &&& offset >= contents@.len() ==> data.len() == 0
            &&& offset < contents@.len() ==> data.len() == (if offset + size
                <= contents@.len() {
                size as int
            } else {
                contents@.len() - offset
            })
            &&& forall|i: int| 0 <= i < data.len() ==> #[trigger] data[i] == contents@[offset + i]
        },
{
    let ino = m.disks[k].cbm_files[j].ino;
    let s = fusermount::FileSession { ino, offset, size, count: 0 };
    fusermount::law_read_is_given(f, m, k, j, contents@, read_at, s, now);
    let after = m.answered(rsp, read_at);
    assert(after.disks == mount::cached_disks(m.disks, ino, contents@, read_at));
}

/// A directory that was read is handed back with its listings, each as it is, and its status;
/// a read that failed is handed back with what failed.
pub proof fn law_read_directory_is_handed_back(
    device: u8,
    listings: Vec<CbmDirListing>,
    status: CbmStatus,
    error: crate::cbmtype::CbmError,
    path: String,
    inode: u64,
    rsp: Result<OpResponseType, Error>,
    failed: Result<OpResponseType, Error>,
    unread: Result<OpResponseType, Error>,
)
    requires
        call_ensures(
            finish_execution,
            (ExecDone::ReadDirectory { device, result: Ok((listings, status)) },),
            rsp,
        ),
        call_ensures(
            finish_execution,
            (ExecDone::ReadDirectory { device, result: Err(error) },),
            failed,
        ),
        call_ensures(
            finish_execution,
            (ExecDone::ReadFile { device, path, inode, result: Err(error) },),
            unread,
        ),
    ensures
        rsp matches Ok(OpResponseType::ReadDirectory { status: s, listings: l }) && s@ == status@
            && l@ == listings@,
        failed matches Err(Error::Rs1541 { message, error: e }) && e@ == error@ && message@
            == "Failed to read directory for device "@ + number::decimal(device as nat),
        unread matches Err(Error::Rs1541 { message, error: e }) && e@ == error@ && message@
            == "Failed to read file "@ + path@ + " for device "@ + number::decimal(device as nat),
{
}

// ---------------------------------------------------------------------------
// Buffers and caches
// ---------------------------------------------------------------------------

/// What is read from an offset on is what stands there, as much as was asked for and there is.
pub proof fn law_slices(data: Vec<u8>, offset: usize, size: usize, r: &[u8], i: int)
    requires
        call_ensures(slice_from, (&data, offset, size), r),
    ensures
        r@.len() == (if offset >= data@.len() {
            0
        } else if offset + size <= data@.len() {
            size as int
        } else {
            data@.len() - offset
        }),
        0 <= i < r@.len() ==> r@[i] == data@[offset + i],
{
}

/// So is what the kernel reads; before the beginning there is nothing.
pub proof fn law_parts_of_a_file(data: Vec<u8>, offset: i64, size: u32, r: &[u8], i: int)
    requires
        call_ensures(FuserMount::read_part, (&data, offset, size), r),
    ensures
        r@.len() == (if offset < 0 || offset >= data@.len() {
            0
        } else if offset + size <= data@.len() {
            size as int
        } else {
            data@.len() - offset
        }),
        0 <= i < r@.len() ==> r@[i] == data@[offset + i],
{
}

/// A buffer is to be read from or to be written to, and not both. What is written is put at
/// its end, until it is complete.
pub proof fn law_buffers(
    read: Buffer,
    write: Buffer,
    b: &mut Buffer,
    data: &[u8],
    r: Result<usize, Error>,
    c: Buffer,
    offset: usize,
    size: usize,
    s: Result<&[u8], Error>,
)
    requires
        call_ensures(Buffer::new_read, (), read),
        call_ensures(Buffer::new_write, (), write),
        call_ensures(Buffer::write, (b, data), r),
        call_ensures(Buffer::read, (&c, offset, size), s),
        data@.len() <= usize::MAX,
    ensures
        read.buffer_type is Read && read.data@.len() == 0 && !read.complete,
        write.buffer_type is Write && write.data@.len() == 0 && !write.complete,
        r is Ok <==> old(b).buffer_type is Write && !old(b).complete,
        r matches Ok(n) ==> n == data@.len() && final(b).data@ == old(b).data@ + data@,
        r is Err ==> final(b).data@ == old(b).data@,
        s is Ok <==> c.buffer_type is Read,
        s matches Ok(bytes) ==> bytes@ == file::slice_at(c.data@, offset as int, size as int),
{
}

/// What is cached is what was read, one part behind the other, and is complete with the last
/// part; it is handed out only where it is complete and was read not too long ago.
pub proof fn law_caches(
    now: SystemTime,
    empty: FileCache,
    c: &mut FileCache,
    part: &[u8],
    last: bool,
    then: SystemTime,
    done: (),
    d: FileCache,
    age: Duration,
    r: Option<&Vec<u8>>,
)
    requires
        call_ensures(FileCache::new, (now,), empty),
        call_ensures(FileCache::add_chunk, (c, part, last, then), done),
        call_ensures(FileCache::get_data_complete_and_fresh, (&d, &age, &now), r),
    ensures
        empty.cache@.len() == 0 && !empty.is_complete && empty.cache_complete is None,
        empty.cache_start == now && empty.last_device_read == now,
        final(c).cache@ == old(c).cache@ + part@,
        final(c).is_complete == last,
        final(c).last_device_read == then,
        final(c).cache_start == old(c).cache_start,
        last ==> final(c).cache_complete == Some(then),
        !last ==> final(c).cache_complete == old(c).cache_complete,
        r is Some <==> d.is_complete && now.in_nanos() < d.last_device_read.in_nanos()
            + age.in_nanos(),
        r matches Some(data) ==> data@ == d.cache@,
{
}

// ---------------------------------------------------------------------------
// Control files
// ---------------------------------------------------------------------------

/// The control files that tell something can be read only, and those by which something is done
/// can be written too; their names begin with a point and end with how they can be used.
pub proof fn law_control_files(
    c: ControlFile,
    name: String,
    rw: RwType,
    mode: u16,
    words: Option<String>,
    size: u64,
)
    requires
        call_ensures(ControlFile::filename, (&c,), name),
        call_ensures(ControlFile::rw_type, (&c,), rw),
        call_ensures(ControlFile::permissions, (&c,), mode),
        call_ensures(ControlFile::read_static, (&c,), words),
        call_ensures(ControlFile::size, (&c,), size),
    ensures
        c.purpose is GetCurDriveStatus ==> name@ == "."@ + "get_current_status"@ + "."@ + "r"@,
        c.purpose is GetLastDriveStatus ==> name@ == "."@ + "get_last_status"@ + "."@ + "r"@,
        c.purpose is GetLastErrorStatus ==> name@ == "."@ + "get_last_error_status"@ + "."@ + "r"@,
        c.purpose is ExecDriveCommand ==> name@ == "."@ + "exec_command"@ + "."@ + "rw"@,
        c.purpose is ExecDirRefresh ==> name@ == "."@ + "exec_dir_refresh"@ + "."@ + "rw"@,
        c.purpose is ExecFormatDrive ==> name@ == "."@ + "exec_format_drive"@ + "."@ + "rw"@,
        rw is Read <==> c.purpose is GetCurDriveStatus || c.purpose is GetLastDriveStatus
            || c.purpose is GetLastErrorStatus,
        !(rw is Write),
        mode == (if rw is Read {
            0o444
        } else {
            0o666int
        }),
        words is Some <==> rw is ReadWrite,
        words is None ==> size == 0,
        words matches Some(s) ==> (vstd::utf8::encode_utf8(s@).len() <= usize::MAX ==> size
            == vstd::utf8::encode_utf8(s@).len()),
        words matches Some(s) ==> s@ == (match c.purpose {
            ControlFilePurpose::ExecDriveCommand => "To run a drive command echo the command (as lower case ASCII) into this file.\nFor example:\n  echo \"i\" > "@,
            ControlFilePurpose::ExecDirRefresh => "To refresh the directory listing echo \"1\" into this file.\nFor example: \n  echo \"1\" > "@,
            _ => "To format the disk in the drive, echo the new header name followed by the disk ID, separated by commands, into this file.\nThe header name may be maximum of 16 characters, and may include whitespace.  The ID must be precisely 2 characters.\nFor example:\n  echo \"my new disk,aa\" > "@,
        }) + name@ + "\n"@,
{
}

/// There are six control files, each for another purpose.
pub proof fn law_all_control_files(all: Vec<ControlFilePurpose>, p: ControlFilePurpose)
    requires
        call_ensures(ControlFilePurpose::list, (), all),
    ensures
        all@.len() == 6,
        all@.contains(p),
        all@.no_duplicates(),
{
    let l = all@;
    assert(l[0] is GetCurDriveStatus);
    assert(l[1] is GetLastDriveStatus);
    assert(l[2] is GetLastErrorStatus);
    assert(l[3] is ExecDriveCommand);
    assert(l[4] is ExecDirRefresh);
    assert(l[5] is ExecFormatDrive);
}

/// A write to the file for it has the directory read again, and all of the bytes count as
/// written; no other control file takes a write.
pub proof fn law_writes_to_control_files(c: ControlFile, data: &[u8], r: ControlWrite)
    requires
        call_ensures(ControlFile::write, (&c, data), r),
        data@.len() <= u32::MAX,
    ensures
        c.purpose is ExecDirRefresh <==> r is RefreshDir,
        r matches ControlWrite::RefreshDir { written } ==> written == data@.len(),
{
}

// ---------------------------------------------------------------------------
// Entries
// ---------------------------------------------------------------------------

/// A file on a disk is shown under its name and the suffix of its type, with 254 bytes for each
/// block, to be read by all; a line that is no file is not shown. Directories and the root can
/// be read and entered.
pub proof fn law_entries_are_made(
    f: CbmFileEntry,
    ino: u64,
    now: SystemTime,
    r: Option<FileEntry>,
    drive: u8,
    dir: FileEntry,
    root: FileEntry,
    purpose: ControlFilePurpose,
    control: FileEntry,
)
    requires
        call_ensures(FileEntry::from_cbm_file_entry, (&f, ino, now), r),
        call_ensures(FileEntry::from_directory, (drive, ino, now), dir),
        call_ensures(FileEntry::root, (now,), root),
        call_ensures(FileEntry::from_control_file_purpose, (purpose, ino, now), control),
        drive < 10,
    ensures
        r is Some <==> f is ValidFile,
        f matches CbmFileEntry::ValidFile { blocks, filename, file_type } ==> (r matches Some(e) && {
            &&& e.fuse.ino == ino
            &&& e.fuse.name@ == filename@ + (match file_type {
                CbmFileType::PRG => ".prg"@,
                CbmFileType::SEQ => ".seq"@,
                CbmFileType::USR => ".usr"@,
                CbmFileType::REL => ".rel"@,
                CbmFileType::Unknown => ""@,
            })
            &&& e.fuse.size == 254 * blocks
            &&& e.fuse.permissions == 0o444
            &&& e.fuse.modified_time == now && e.fuse.created_time == now
            &&& e.native matches FileEntryType::CbmFile(g) && g@ == f@
            &&& e.cache is None && e.read_buffer is None && e.write_buffer is None
        }),
        dir.fuse.ino == ino && dir.fuse.permissions == 0o555 && dir.fuse.size == 0,
        dir.fuse.name@ == seq![(48 + drive) as char],
        dir.native matches FileEntryType::Directory(n) && n == drive,
        root.fuse.ino == 1 && root.fuse.permissions == 0o755 && root.fuse.size == 0,
        root.native is Directory,
        control.fuse.ino == ino,
        control.fuse.name@ == purpose.file_name(),
        control.fuse.permissions == purpose.mode(),
        control.fuse.size == purpose.file_size(),
        control.native matches FileEntryType::ControlFile(c) && c.purpose == purpose,
{
    if let CbmFileEntry::ValidFile { blocks, .. } = f {
        assert(f@.size() == Some((blocks * 254) as u64));
    }
}

/// The kernel is told of a file what is known of it: its inode, size and permissions, blocks of
/// 512 bytes as many as it takes, and that it belongs to the user.
pub proof fn law_attributes_for_the_kernel(
    f: FileEntry,
    now: SystemTime,
    uid: u32,
    kind: FileType,
    a: FileAttr,
)
    requires
        call_ensures(FileEntry::fuser_file_type, (&f,), kind),
        call_ensures(FileEntry::to_attr, (&f, now, uid), a),
    ensures
        kind is Directory <==> f.native is Directory,
        a.ino == f.fuse.ino,
        a.size == f.fuse.size,
        a.perm == f.fuse.permissions,
        a.kind == kind,
        a.mtime == f.fuse.modified_time && a.ctime == f.fuse.created_time && a.crtime
            == f.fuse.created_time && a.atime == now,
        a.uid == uid && a.gid == uid,
        a.nlink == 1 && a.blksize == 512 && a.rdev == 0 && a.flags == 0,
        512 * a.blocks >= a.size && 512 * a.blocks < a.size + 512,
{
    assert((f.fuse.size + 511) / 512 <= u64::MAX);
}

/// A file is opened to read or to write, never for both: a file on a disk to read, a control
/// file to write only where something is done by it, and a directory not at all.
pub proof fn law_opening(f: FileEntry, r: Result<(), Error>, w: Result<(), Error>, b: Result<(), Error>)
    requires
        call_ensures(FileEntry::open, (&f, 0i32), r),
        call_ensures(FileEntry::open, (&f, 1i32), w),
        call_ensures(FileEntry::open, (&f, 2i32), b),
    ensures
        r is Ok <==> !(f.native is Directory),
        w is Ok <==> (f.native matches FileEntryType::ControlFile(c) && !(
        c.purpose is GetCurDriveStatus || c.purpose is GetLastDriveStatus
            || c.purpose is GetLastErrorStatus)),
        b is Err,
{
    assert(2i32 & 0i32 == 0) by (bit_vector);
    assert(1i32 & 0i32 == 0) by (bit_vector);
    assert(2i32 & 1i32 == 0) by (bit_vector);
    assert(1i32 & 1i32 == 1) by (bit_vector);
    assert(2i32 & 2i32 == 2) by (bit_vector);
}

/// What is written to a file is put at the end of its buffer. Directories, files that could not
/// be read, and control files that only tell something take no writes.
pub proof fn law_writing(f: &mut FileEntry, data: &[u8], r: Result<usize, Error>)
    requires
        call_ensures(FileEntry::write, (f, data), r),
        data@.len() <= usize::MAX,
    ensures
        old(f).native is Directory ==> r is Err,
        old(f).native matches FileEntryType::CbmFile(e) ==> (e is InvalidFile ==> r is Err),
        old(f).native matches FileEntryType::ControlFile(c) ==> (c.purpose is GetCurDriveStatus
            || c.purpose is GetLastDriveStatus || c.purpose is GetLastErrorStatus ==> r is Err),
        old(f).write_buffer is None ==> r is Err,
        r is Err ==> final(f)@ == old(f)@,
        r matches Ok(n) ==> n == data@.len() && (old(f).write_buffer matches Some(x) && (
        final(f).write_buffer matches Some(y) && y.data@ == x.data@ + data@)),
        old(f).native matches FileEntryType::CbmFile(e) ==> (e is ValidFile && (
        old(f).write_buffer matches Some(x) && x.buffer_type is Write && !x.complete) ==> r is Ok),
{
}

// ---------------------------------------------------------------------------
// Directories that were read
// ---------------------------------------------------------------------------

/// Once the listing of a disk has come, the drive holds the files of it that could be read, in
/// order, each under its name and with an inode; and it was read just now. The disk in another
/// drive, and all control files, stay as they are, and the directory is no longer outstanding.
pub proof fn law_listing_is_taken_in(
    m: MountView,
    listing: CbmDirListing,
    listings: Vec<CbmDirListing>,
    status: CbmStatus,
    now: SystemTime,
    j: int,
    other: int,
)
    requires
        m.wf(),
        listings@ == seq![listing],
        listing.header.drive_number < m.disks.len(),
        listing.header.drive_number <= 1,
        m.takes(Ok(OpResponseType::ReadDirectory { status, listings }), now),
        0 <= other < m.disks.len(),
        other != listing.header.drive_number,
    ensures
        ({
            let d = listing.header.drive_number as int;
            let after = m.answered(
                Ok(OpResponseType::ReadDirectory { status, listings }),
                now,
            );
            let shown = file::cbm_entries(listing@.files, now);
            &&& !after.dir_outstanding
            &&& after.device_num == m.device_num && after.mountpoint == m.mountpoint
            &&& after.disks.len() == m.disks.len()
            &&& after.disks[d].disk_read_time == Some(now)
            &&& after.disks[d].blocks_free == Some(listing.blocks_free)
            &&& after.disks[d].header == Some(listing.header)
            &&& after.disks[d].cbm_files.len() == shown.len()
            &&& 0 <= j < shown.len() ==> after.disks[d].cbm_files[j].name == shown[j].name
                && after.disks[d].cbm_files[j].size == shown[j].size
                && after.disks[d].cbm_files[j].native == shown[j].native
            &&& after.disks[other].disk_read_time == m.disks[other].disk_read_time
            &&& after.disks[other].cbm_files.len() == m.disks[other].cbm_files.len()
            &&& 0 <= j < m.disks[other].cbm_files.len() ==> after.disks[other].cbm_files[j].name
                == m.disks[other].cbm_files[j].name
        }),
{
    let d = listing.header.drive_number as int;
    assert(listings@.drop_last() =~= Seq::empty());
    assert(listings@.last() == listing);
    reveal_with_fuel(mount::listed, 2);
    let disks = mount::listed(m.disks, listings@, now);
    assert(disks == m.disks.update(d, m.disks[d].updated(listing, now)));
    inode::lemma_numbered_disks(disks, m.next_inode as int);
    let known = MountView { dir_outstanding: false, ..m };
    let after = known.numbered(disks);
    assert(after.disks[d] == inode::numbered_disk(
        disks[d],
        m.next_inode + inode::missing(inode::all_inos(disks.take(d))),
    ));
    assert(after.disks[other] == inode::numbered_disk(
        disks[other],
        m.next_inode + inode::missing(inode::all_inos(disks.take(other))),
    ));
}

/// A listing is taken in even where the unit has one drive only.
pub proof fn law_listing_of_one_drive(
    m: MountView,
    listing: CbmDirListing,
    listings: Vec<CbmDirListing>,
    status: CbmStatus,
    now: SystemTime,
    j: int,
)
    requires
        m.wf(),
        m.disks.len() == 1,
        listings@ == seq![listing],
        listing.header.drive_number == 0,
        m.takes(Ok(OpResponseType::ReadDirectory { status, listings }), now),
    ensures
        ({
            let after = m.answered(
                Ok(OpResponseType::ReadDirectory { status, listings }),
                now,
            );
            let shown = file::cbm_entries(listing@.files, now);
            &&& !after.dir_outstanding
            &&& after.disks.len() == 1
            &&& after.disks[0].disk_read_time == Some(now)
            &&& after.disks[0].blocks_free == Some(listing.blocks_free)
            &&& after.disks[0].cbm_files.len() == shown.len()
            &&& 0 <= j < shown.len() ==> after.disks[0].cbm_files[j].name == shown[j].name
                && after.disks[0].cbm_files[j].size == shown[j].size
                && after.disks[0].cbm_files[j].native == shown[j].native
        }),
{
    assert(listings@.drop_last() =~= Seq::empty());
    assert(listings@.last() == listing);
    reveal_with_fuel(mount::listed, 2);
    let disks = mount::listed(m.disks, listings@, now);
    assert(disks == m.disks.update(0, m.disks[0].updated(listing, now)));
    inode::lemma_numbered_disks(disks, m.next_inode as int);
    let after = (MountView { dir_outstanding: false, ..m }).numbered(disks);
    assert(after.disks[0] == inode::numbered_disk(
        disks[0],
        m.next_inode + inode::missing(inode::all_inos(disks.take(0))),
    ));
}

/// What is no listing and no file changes nothing in a mount, and neither does a failure.
pub proof fn law_other_answers_change_nothing(
    m: MountView,
    rsp: Result<OpResponseType, Error>,
    now: SystemTime,
)
    requires
        rsp matches Ok(t) ==> !(t is ReadDirectory) && !(t is ReadFile),
    ensures
        m.answered(rsp, now) == m,
{
}

/// Files that lack an inode get one each, from the next one on, and the directories of the
/// drives 0 and 1 have the inodes 2 and 3, behind the root.
pub proof fn law_inodes_of_directories(drive: u8, ino: u64)
    requires
        call_ensures(inode::get_drive_ino, (drive,), ino),
    ensures
        ino == drive + 2,
        ino != 1,
        ino < 258,
{
}

// ---------------------------------------------------------------------------
// What the kernel asks
// ---------------------------------------------------------------------------

/// The root is found by its inode, as a directory that can be read and entered by all and
/// written by its user; a file is found by its own; and what is not there is no entry.
pub proof fn law_attributes_are_given(
    f: FuserMount,
    m: Mount,
    ino: u64,
    now: SystemTime,
    uid: u32,
    r: Result<(Duration, FileAttr), i32>,
)
    requires
        call_ensures(FuserMount::getattr, (&f, &m, ino, now, uid), r),
    ensures
        ino == 1 ==> (r matches Ok((ttl, a)) && ttl == f.ttls.dir_attr && a.ino == 1
            && a.kind is Directory && a.perm == 0o755 && a.size == 0 && a.uid == uid),
        ino != 1 ==> match m@.file(ino) {
            None => r == Err::<(Duration, FileAttr), i32>(2i32),
            Some(e) => r matches Ok((ttl, a)) && {
                &&& a.ino == e.ino && a.size == e.size && a.perm == e.permissions
                &&& a.uid == uid && a.gid == uid
                &&& a.kind is Directory <==> e.native is Directory
                &&& ttl == (if e.native is Directory {
                    f.ttls.dir_attr
                } else {
                    f.ttls.file_attr
                })
            },
        },
{
}

/// A file is looked up by its name: the first of that name in the directory is found, with its
/// inode, and a name that no file has is no entry. In a unit with one drive only the root is a
/// directory.
pub proof fn law_lookup(
    f: FuserMount,
    m: Mount,
    parent: u64,
    name: &str,
    now: SystemTime,
    uid: u32,
    r: Result<(Duration, FileAttr), i32>,
    none: Result<(Duration, FileAttr), i32>,
    i: int,
)
    requires
        m@.wf(),
        call_ensures(FuserMount::lookup, (&f, &m, parent, Some(name), now, uid), r),
        call_ensures(FuserMount::lookup, (&f, &m, parent, None::<&str>, now, uid), none),
    ensures
        none == Err::<(Duration, FileAttr), i32>(2i32),
        match fusermount::files_in(m@, parent) {
            None => r == Err::<(Duration, FileAttr), i32>(2i32),
            Some(files) => {
                &&& 0 <= i < files.len() && files[i].name == name@ && (forall|j: int|
                    0 <= j < i ==> (#[trigger] files[j]).name != name@) ==> (r matches Ok((ttl, a))
                    && a.ino == files[i].ino && a.size == files[i].size && a.perm
                    == files[i].permissions && ttl == (if files[i].native is Directory {
                    f.ttls.dir_lookup
                } else {
                    f.ttls.file_lookup
                }))
                &&& (forall|j: int| 0 <= j < files.len() ==> (#[trigger] files[j]).name != name@)
                    ==> r == Err::<(Duration, FileAttr), i32>(2i32)
            },
        },
        m@.disks.len() == 1 ==> fusermount::files_in(m@, 1) == Some(
            m@.disks[0].control_files + m@.disks[0].cbm_files,
        ),
        m@.disks.len() == 1 && parent != 1 ==> r == Err::<(Duration, FileAttr), i32>(2i32),
{
    if let Some(files) = fusermount::files_in(m@, parent) {
        lemma_named(files, name@, 0, i);
    }
}

proof fn lemma_named(files: Seq<FileEntryView>, name: Seq<char>, from: int, i: int)
    requires
        0 <= from,
    ensures
        from <= i < files.len() && files[i].name == name && (forall|j: int|
            from <= j < i ==> (#[trigger] files[j]).name != name) ==> fusermount::named_from(
            files,
            name,
            from,
        ) == Some(files[i]),
        (forall|j: int| from <= j < files.len() ==> (#[trigger] files[j]).name != name)
            ==> fusermount::named_from(files, name, from) is None,
    decreases files.len() - from,
{
    if from < files.len() {
        lemma_named(files, name, from + 1, i);
    }
}

/// The root and directories cannot be opened, nor what is not there; the handle of any other
/// file is its inode.
pub proof fn law_files_are_opened(
    f: FuserMount,
    m: Mount,
    ino: u64,
    r: Result<u64, i32>,
    c: Result<(), i32>,
    d: Result<(), i32>,
)
    requires
        call_ensures(FuserMount::open, (&f, &m, ino), r),
        call_ensures(FuserMount::release, (&f, &m, ino), c),
        call_ensures(FuserMount::flush, (&f, &m, ino), d),
    ensures
        ino == 1 ==> r == Err::<u64, i32>(21i32) && c == Err::<(), i32>(21i32) && d == Err::<
            (),
            i32,
        >(21i32),
        ino != 1 && m@.file(ino) is None ==> r == Err::<u64, i32>(2i32) && c is Err && d is Err,
        ino != 1 ==> (m@.file(ino) matches Some(e) ==> (r is Ok <==> !(e.native is Directory)) && (
        r matches Ok(h) ==> h == ino) && (c is Ok <==> r is Ok) && (d is Ok <==> r is Ok)),
{
}

/// What the kernel reads of a control file is its help; a file on a disk that was not read, or
/// too long ago, is asked for on the device of the mount by its name; and a directory, or what
/// is not there, is refused.
pub proof fn law_reading(
    f: FuserMount,
    m: Mount,
    ino: u64,
    offset: i64,
    size: u32,
    now: SystemTime,
    r: ReadNext,
)
    requires
        call_ensures(FuserMount::read, (&f, &m, ino, offset, size, now), r),
    ensures
        match m@.file(ino) {
            None => r == ReadNext::Fail(2i32),
            Some(e) => match e.native {
                FileEntryTypeView::Directory(_) => r == ReadNext::Fail(21i32),
                FileEntryTypeView::ControlFile(c) => match c.purpose.help() {
                    Some(words) => r matches ReadNext::Reply(data) && data@ == fusermount::read_part(
                        vstd::utf8::encode_utf8(words),
                        offset,
                        size,
                    ),
                    None => r == ReadNext::Fail(13i32),
                },
                FileEntryTypeView::CbmFile(CbmFileEntryView::ValidFile { filename, .. }) => {
                    let fresh = e.cache matches Some(c) && c.is_complete && now.in_nanos()
                        < c.last_device_read.in_nanos() + f.timers.file_cache.in_nanos();
                    if fresh {
                        r matches ReadNext::Reply(data) && data@ == fusermount::read_part(
                            e.cache->0.cache,
                            offset,
                            size,
                        )
                    } else {
                        r matches ReadNext::Request(s, op) && s == (FileSession {
                            ino,
                            offset,
                            size,
                            count: 0,
                        }) && (op matches OpType::ReadFile { device, path, inode } && device
                            == m.device_num && path@ == filename && inode == ino)
                    }
                },
                FileEntryTypeView::CbmFile(_) => true,
            },
        },
{
}

/// While a file is waited for it is looked for again and again, once more each time, until it
/// is there or has been looked for often enough; then the kernel is told that it took too long.
pub proof fn law_waiting_for_a_file(
    f: FuserMount,
    m: Mount,
    s: FileSession,
    now: SystemTime,
    r: ReadNext,
    sent: Result<(), Error>,
    q: ReadNext,
)
    requires
        call_ensures(FuserMount::file_slept, (&f, &m, s, now), r),
        call_ensures(FuserMount::file_requested, (&f, &m, s, &sent, now), q),
    ensures
        s.count >= f.counts.file_check ==> r == ReadNext::Fail(110i32),
        s.count < f.counts.file_check ==> !(r is Fail) && !(r is Request),
        r matches ReadNext::Sleep(t) ==> t.ino == s.ino && t.offset == s.offset && t.size == s.size
            && t.count == s.count + 1,
        sent matches Err(e) ==> q == ReadNext::Fail(e@.errno()),
        sent is Ok && s.count >= f.counts.file_check ==> q == ReadNext::Fail(110i32),
{
}

/// The directory of a drive holds what is above it, and the files of that drive; a drive that
/// was not read, or too long ago, is read first.
pub proof fn law_directory_of_a_drive(
    f: FuserMount,
    m: Mount,
    drive: u8,
    now: SystemTime,
    r: ReadDirNext,
    i: int,
)
    requires
        m@.wf(),
        m@.disks.len() == 2,
        drive <= 1,
        call_ensures(FuserMount::readdir, (&f, &m, (drive + 2) as u64, 0i64, now), r),
    ensures
        ({
            let disk = m@.disks[drive as int];
            let stale = match disk.disk_read_time {
                None => true,
                Some(read) => now.in_nanos() < read.in_nanos() || now.in_nanos() - read.in_nanos()
                    >= f.timers.dir_cache.in_nanos(),
            };
            let files = disk.control_files + disk.cbm_files;
            &&& stale ==> (r matches ReadDirNext::Request(s) && s.drive == drive && s.ino == drive
                + 2 && s.offset == 0 && s.count == 0)
            &&& !stale ==> (r matches ReadDirNext::Reply(entries) && {
                &&& entries@.len() == 1 + files.len()
                &&& entries@[0].name@ == ".."@ && entries@[0].ino == 1
                &&& 0 <= i < files.len() ==> entries@[1 + i].name@ == files[i].name && entries@[1
                    + i].ino == files[i].ino
            })
        }),
{
    let v = m@;
    let k = drive as int;
    mount::law_file_by_inode(v, k, 0);
    assert(mount::disk_ok(v.disks[k], k, true));
    if let ReadDirNext::Reply(entries) = r {
        let shown = fusermount::entry_views(entries@);
        let files = v.disks[k].control_files + v.disks[k].cbm_files;
        assert(shown == fusermount::dir_entries((drive + 2) as u64, files, 0));
        assert(entries@.len() == shown.len());
        assert(shown[0] == entries@[0]@);
        if 0 <= i < files.len() {
            assert(shown[1 + i] == entries@[1 + i]@);
        }
    }
}

/// Neither a file nor what is not there is a directory, in a unit with two drives.
pub proof fn law_no_directory(
    f: FuserMount,
    m: Mount,
    ino: u64,
    offset: i64,
    now: SystemTime,
    r: ReadDirNext,
)
    requires
        m@.wf(),
        m@.disks.len() == 2,
        ino != 1,
        call_ensures(FuserMount::readdir, (&f, &m, ino, offset, now), r),
    ensures
        m@.file(ino) is None ==> r == ReadDirNext::Fail(2i32),
        m@.file(ino) matches Some(e) ==> (!(e.native is Directory) ==> r == ReadDirNext::Fail(
            20i32,
        )),
{
}

/// The kernel may rely on answers, and what was read counts as fresh, for as long as the
/// arguments say; and a thing is looked for as often as there is time.
pub proof fn law_settings(args: Args, f: FuserMount)
    requires
        Timers::of(args).can_be_counted(),
        call_ensures(FuserMount::new, (&args,), f),
    ensures
        f.ttls.dir_lookup.in_millis() == args.dir_lookup_ttl_ms,
        f.ttls.file_lookup.in_millis() == args.file_lookup_ttl_ms,
        f.ttls.dir_attr.in_millis() == args.dir_attr_ttl_ms,
        f.ttls.file_attr.in_millis() == args.file_attr_ttl_ms,
        f.timers.dir_cache.in_millis() == 1000 * args.dir_cache_expiry_secs,
        f.timers.file_cache.in_millis() == 1000 * args.file_cache_expiry_secs,
        f.timers.dir_read.in_millis() == 1000 * args.dir_reread_timeout_secs,
        f.timers.file_read.in_millis() == 1000 * args.file_reread_timeout_secs,
        f.timers.dir_read_sleep.in_millis() == args.dir_read_sleep_ms,
        f.timers.file_read_sleep.in_millis() == args.file_read_sleep_ms,
        f.counts.dir_check == (1000 * args.dir_reread_timeout_secs) / (
        args.dir_read_sleep_ms as int),
        f.counts.file_check == (1000 * args.file_reread_timeout_secs) / (
        args.file_read_sleep_ms as int),
{
    lemma_millis(args.dir_lookup_ttl_ms);
    lemma_millis(args.file_lookup_ttl_ms);
    lemma_millis(args.dir_attr_ttl_ms);
    lemma_millis(args.file_attr_ttl_ms);
    lemma_millis(args.dir_read_sleep_ms);
    lemma_millis(args.file_read_sleep_ms);
}

proof fn lemma_millis(n: u64)
    ensures
        Duration::of_millis(n).in_millis() == n,
{
}

} // verus!

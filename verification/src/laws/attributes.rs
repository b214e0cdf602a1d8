//! What can be relied on of the attributes of drives, disks and files.
use vstd::prelude::*;

use crate::cbmtype;
use crate::cbmtype::{CbmStatus, DosVersion};
use crate::dir;
use crate::dir::CbmDirListing;
use crate::number;
use crate::server::file::{FileEntry, FileEntryType};
use crate::server::fusermount;
use crate::server::mount::Mount;
use crate::server::xattr;
use crate::server::xattr::{CacheStatus, DiskXattr, DriveXattr, FileXattr, RwType, Xattr};
use crate::time::SystemTime;

verus! {

// ---------------------------------------------------------------------------
// Names and values
// ---------------------------------------------------------------------------

/// Each thing that can be asked of a drive has its name, and its value is what is known of it;
/// a time is the time where the machine is.
pub proof fn law_attributes_of_a_drive(x: DriveXattr, local: Seq<char>)
    ensures
        x is DeviceNumber ==> x.attr_name() == "user.device.number"@,
        x is Model ==> x.attr_name() == "user.device.model"@,
        x is Description ==> x.attr_name() == "user.device.description"@,
        x is NumDrives ==> x.attr_name() == "user.device.drives"@,
        x is FsType ==> x.attr_name() == "user.mount.fs_type"@,
        x is FsName ==> x.attr_name() == "user.mount.fs_name"@,
        x is Mountpoint ==> x.attr_name() == "user.mount.mountpoint"@,
        x is MountTime ==> x.attr_name() == "user.mount.mount_time"@,
        x is LastStatus ==> x.attr_name() == "user.device.last_status.status"@,
        x is LastStatusTime ==> x.attr_name() == "user.device.last_status.time"@,
        x is LastError ==> x.attr_name() == "user.device.last_error.status"@,
        x is LastErrorTime ==> x.attr_name() == "user.device.last_error.tim"@,
        x is DosVersion ==> x.attr_name() == "user.device.dos_version"@,
        x is Fs1541Version ==> x.attr_name() == "user.1541fs.version"@,
        match x {
            DriveXattr::DeviceNumber(n) => x.attr_value(local) == number::decimal(n as nat),
            DriveXattr::NumDrives(n) => x.attr_value(local) == number::decimal(n as nat),
            DriveXattr::Model(s) => x.attr_value(local) == s@,
            DriveXattr::Description(s) => x.attr_value(local) == s@,
            DriveXattr::FsType(s) => x.attr_value(local) == s@,
            DriveXattr::FsName(s) => x.attr_value(local) == s@,
            DriveXattr::Mountpoint(s) => x.attr_value(local) == s@,
            DriveXattr::Fs1541Version(s) => x.attr_value(local) == s@,
            DriveXattr::LastStatus(s) => x.attr_value(local) == cbmtype::status_text(s@),
            DriveXattr::LastError(s) => x.attr_value(local) == cbmtype::status_text(s@),
            DriveXattr::DosVersion(v) => x.attr_value(local) == v.name(),
            DriveXattr::MountTime(t) => x.attr_time() == Some(t) && x.attr_value(local) == local,
            DriveXattr::LastStatusTime(t) => x.attr_time() == Some(t) && x.attr_value(local)
                == local,
            DriveXattr::LastErrorTime(t) => x.attr_time() == Some(t) && x.attr_value(local)
                == local,
        },
        x.attr_time() is Some <==> x is MountTime || x is LastStatusTime || x is LastErrorTime,
{
}

/// Each thing that can be asked of a disk has its name, and its value is what is known of it.
pub proof fn law_attributes_of_a_disk(x: DiskXattr, local: Seq<char>)
    ensures
        x is HeaderName ==> x.attr_name() == "user.disk.header_name"@,
        x is HeaderId ==> x.attr_name() == "user.disk.header_id"@,
        x is BlocksFree ==> x.attr_name() == "user.disk.cbm_blocks.free"@,
        x is BlocksUsed ==> x.attr_name() == "user.disk.cbm_blocks.used"@,
        x is TotalBlocks ==> x.attr_name() == "user.disk.cbm_blocks.total"@,
        x.attr_time() is None,
        match x {
            DiskXattr::HeaderName(s) => x.attr_value(local) == s@,
            DiskXattr::HeaderId(s) => x.attr_value(local) == s@,
            DiskXattr::BlocksFree(n) => x.attr_value(local) == number::decimal(n as nat),
            DiskXattr::BlocksUsed(n) => x.attr_value(local) == number::decimal(n as nat),
            DiskXattr::TotalBlocks(n) => x.attr_value(local) == number::decimal(n as nat),
        },
{
}

/// Each thing that can be asked of a file has its name, and its value is what is known of it; a
/// time is the time where the machine is, and a cache that is not complete says so.
pub proof fn law_attributes_of_a_file(x: FileXattr, local: Seq<char>)
    ensures
        x is Inode ==> x.attr_name() == "user.file.inode"@,
        x is ControlFileRwType ==> x.attr_name() == "user.file.control_file.rw_type"@,
        x is ReadBufferSize ==> x.attr_name() == "user.file.read_buffer.size"@,
        x is WriteBufferSize ==> x.attr_name() == "user.file.write_buffer.size"@,
        x is Blocks ==> x.attr_name() == "user.file.cbm_blocks.used"@,
        x is CacheStatus ==> x.attr_name() == "user.file.cache.status"@,
        x is CacheSize ==> x.attr_name() == "user.file.cache.size"@,
        x is CacheStartTime ==> x.attr_name() == "user.file.cache.start_time"@,
        x is CacheCompleteTime ==> x.attr_name() == "user.file.cache.complete_time"@,
        x is LastDeviceRead ==> x.attr_name() == "user.file.cache.last_device_read"@,
        x is CacheEnabled ==> x.attr_name() == "user.file.cache.enabled"@,
        match x {
            FileXattr::Inode(n) => x.attr_value(local) == number::decimal(n as nat),
            FileXattr::Blocks(n) => x.attr_value(local) == number::decimal(n as nat),
            FileXattr::ReadBufferSize(n) => x.attr_value(local) == number::decimal(n as nat),
            FileXattr::WriteBufferSize(n) => x.attr_value(local) == number::decimal(n as nat),
            FileXattr::CacheSize(n) => x.attr_value(local) == number::decimal(n as nat),
            FileXattr::ControlFileRwType(t) => x.attr_value(local) == (match t {
                RwType::Read => "Read"@,
                RwType::Write => "Write"@,
                RwType::ReadWrite => "ReadWrite"@,
            }),
            FileXattr::CacheStatus(s) => x.attr_value(local) == (match s {
                CacheStatus::Uncached => "Uncached"@,
                CacheStatus::InProgress => "In progress"@,
                CacheStatus::Complete => "Complete"@,
            }),
            FileXattr::CacheStartTime(t) => x.attr_time() == Some(t) && x.attr_value(local)
                == local,
            FileXattr::LastDeviceRead(t) => x.attr_time() == Some(t) && x.attr_value(local)
                == local,
            FileXattr::CacheCompleteTime(t) => x.attr_time() == t && x.attr_value(local) == (
            if t is Some {
                local
            } else {
                "incomplete"@
            }),
            FileXattr::CacheEnabled(b) => x.attr_value(local) == (if b {
                "true"@
            } else {
                "false"@
            }),
        },
{
}

// ---------------------------------------------------------------------------
// What is known
// ---------------------------------------------------------------------------

/// What is known of a drive when it is mounted is what it was mounted with, and that this is
/// this file system, in its version.
pub proof fn law_known_of_a_drive(
    device: u8,
    model: String,
    description: String,
    drives: u8,
    fs_name: String,
    path: String,
    now: SystemTime,
    dos: DosVersion,
    list: Vec<DriveXattr>,
)
    requires
        call_ensures(
            DriveXattr::new,
            (device, model, description, drives, fs_name, path, now, dos),
            list,
        ),
    ensures
        list@.len() == 10,
        exists|i: int| 0 <= i < 10 && #[trigger] list@[i] == DriveXattr::DeviceNumber(device),
        exists|i: int|
            0 <= i < 10 && (#[trigger] list@[i] matches DriveXattr::Model(s) && s@ == model@),
        exists|i: int|
            0 <= i < 10 && (#[trigger] list@[i] matches DriveXattr::Description(s) && s@
                == description@),
        exists|i: int| 0 <= i < 10 && #[trigger] list@[i] == DriveXattr::NumDrives(drives),
        exists|i: int|
            0 <= i < 10 && (#[trigger] list@[i] matches DriveXattr::FsName(s) && s@ == fs_name@),
        exists|i: int|
            0 <= i < 10 && (#[trigger] list@[i] matches DriveXattr::Mountpoint(s) && s@ == path@),
        exists|i: int| 0 <= i < 10 && #[trigger] list@[i] == DriveXattr::MountTime(now),
        exists|i: int| 0 <= i < 10 && #[trigger] list@[i] == DriveXattr::DosVersion(dos),
        exists|i: int|
            0 <= i < 10 && (#[trigger] list@[i] matches DriveXattr::FsType(s) && s@ == "1541fs"@),
        exists|i: int|
            0 <= i < 10 && (#[trigger] list@[i] matches DriveXattr::Fs1541Version(s) && s@
                == "0.3.2"@),
{
    let l = list@;
    assert(l[0] is DeviceNumber);
    assert(l[1] is Model);
    assert(l[2] is Description);
    assert(l[3] is NumDrives);
    assert(l[4] is FsName);
    assert(l[5] is Mountpoint);
    assert(l[6] is MountTime);
    assert(l[7] is DosVersion);
    assert(l[8] is FsType);
    assert(l[9] is Fs1541Version);
}

/// What is known of a disk is what its listing says: its name and ID, and the blocks that are
/// free, in use, and in all.
pub proof fn law_known_of_a_disk(l: CbmDirListing, list: Vec<DiskXattr>, used: u16, total: u16)
    requires
        l@.total() <= 65535,
        call_ensures(DiskXattr::from_dir_listing, (&l,), list),
        call_ensures(CbmDirListing::num_blocks_used_valid, (&l,), used),
        call_ensures(CbmDirListing::total_blocks, (&l,), total),
    ensures
        list@.len() == 5,
        list@[0] matches DiskXattr::HeaderName(s) && s@ == l.header.name@,
        list@[1] matches DiskXattr::HeaderId(s) && s@ == l.header.id@,
        list@[2] == DiskXattr::BlocksFree(l.blocks_free),
        list@[3] == DiskXattr::BlocksUsed(used),
        list@[4] == DiskXattr::TotalBlocks(total),
        total == used + l.blocks_free,
{
}

/// What is known of a file: its inode, whether it is cached and how far, and its blocks on the
/// disk or whether it can be read and written. Only files on a disk are cached.
pub proof fn law_known_of_a_file(f: FileEntry, list: Vec<FileXattr>)
    requires
        call_ensures(FileXattr::from_file_entry, (&f,), list),
        f.read_buffer is None,
        f.write_buffer is None,
    ensures
        list@[0] == FileXattr::Inode(f.fuse.ino),
        f.native is Directory ==> list@[1] == FileXattr::CacheEnabled(false),
        f.native is Directory && f.cache is None ==> list@.len() == 2,
        f.native matches FileEntryType::ControlFile(c) ==> list@[1] == FileXattr::ControlFileRwType(
            c.purpose.rw(),
        ) && list@[2] == FileXattr::CacheEnabled(false),
        f.native matches FileEntryType::CbmFile(dir::CbmFileEntry::ValidFile { blocks, .. }) ==> {
            &&& list@[1] == FileXattr::Blocks(blocks)
            &&& list@[2] == FileXattr::CacheEnabled(true)
            &&& f.cache is None ==> list@.len() == 4 && list@[3] == FileXattr::CacheStatus(
                CacheStatus::Uncached,
            )
            &&& f.cache matches Some(c) ==> {
                &&& list@[3] == FileXattr::CacheStatus(
                    if c.is_complete {
                        CacheStatus::Complete
                    } else {
                        CacheStatus::InProgress
                    },
                )
                &&& list@[4] == FileXattr::CacheSize(c.cache@.len() as usize)
                &&& list@[5] == FileXattr::CacheStartTime(c.cache_start)
                &&& list@.last() == FileXattr::LastDeviceRead(c.last_device_read)
                &&& c.cache_complete matches Some(t) ==> list@.len() == 8 && list@[6]
                    == FileXattr::CacheCompleteTime(Some(t))
                &&& c.cache_complete is None ==> list@.len() == 7
            }
        },
{
    let all = f@.xattrs();
    assert(list@ == all);
}

// ---------------------------------------------------------------------------
// The last status and the last error
// ---------------------------------------------------------------------------

/// The last status of a drive, and its time, are those that it has reported last. A status of
/// 20 or more is the last error too; one below 20 leaves the last error as it was.
pub proof fn law_last_status(m: &mut Mount, status: CbmStatus, now: SystemTime, done: ())
    requires
        call_ensures(Mount::update_last_status, (m, &status, now), done),
    ensures
        ({
            let before = old(m).drive_xattrs@;
            let after = final(m).drive_xattrs@;
            &&& xattr::find(after, "user.device.last_status.status"@) matches Some(i) && after[i]
                == DriveXattr::LastStatus(status)
            &&& xattr::find(after, "user.device.last_status.time"@) matches Some(i) && after[i]
                == DriveXattr::LastStatusTime(now)
            &&& status.number >= 20 ==> {
                &&& xattr::find(after, "user.device.last_error.status"@) matches Some(i) && after[i]
                    == DriveXattr::LastError(status)
                &&& xattr::find(after, "user.device.last_error.tim"@) matches Some(i) && after[i]
                    == DriveXattr::LastErrorTime(now)
            }
            &&& status.number < 20 ==> match xattr::find(before, "user.device.last_error.status"@) {
                Some(i) => xattr::find(after, "user.device.last_error.status"@) == Some(i)
                    && after[i] == before[i],
                None => xattr::find(after, "user.device.last_error.status"@) is None,
            }
        }),
        final(m)@.disks == old(m)@.disks,
{
    lemma_names_differ();
    let before = old(m).drive_xattrs@;
    let a = DriveXattr::LastStatus(status);
    let b = DriveXattr::LastStatusTime(now);
    let x = xattr::with_attr(before, a);
    let y = xattr::with_attr(x, b);
    xattr::law_added_is_found(before, a);
    xattr::law_added_is_found(x, b);
    xattr::law_added_keeps_others(x, b, "user.device.last_status.status"@);
    xattr::law_added_keeps_others(before, a, "user.device.last_error.status"@);
    xattr::law_added_keeps_others(x, b, "user.device.last_error.status"@);
    if status.number >= 20 {
        let c = DriveXattr::LastError(status);
        let d = DriveXattr::LastErrorTime(now);
        let z = xattr::with_attr(y, c);
        xattr::law_added_is_found(y, c);
        xattr::law_added_is_found(z, d);
        xattr::law_added_keeps_others(z, d, "user.device.last_error.status"@);
        xattr::law_added_keeps_others(y, c, "user.device.last_status.status"@);
        xattr::law_added_keeps_others(z, d, "user.device.last_status.status"@);
        xattr::law_added_keeps_others(y, c, "user.device.last_status.time"@);
        xattr::law_added_keeps_others(z, d, "user.device.last_status.time"@);
    }
}

proof fn lemma_names_differ()
    ensures
        "user.device.last_status.status"@ != "user.device.last_status.time"@,
        "user.device.last_status.status"@ != "user.device.last_error.status"@,
        "user.device.last_status.status"@ != "user.device.last_error.tim"@,
        "user.device.last_status.time"@ != "user.device.last_error.status"@,
        "user.device.last_status.time"@ != "user.device.last_error.tim"@,
        "user.device.last_error.status"@ != "user.device.last_error.tim"@,
{
    reveal_strlit("user.device.last_status.status");
    reveal_strlit("user.device.last_status.time");
    reveal_strlit("user.device.last_error.status");
    reveal_strlit("user.device.last_error.tim");
    assert("user.device.last_status.status"@.len() == 30);
    assert("user.device.last_status.time"@.len() == 28);
    assert("user.device.last_error.status"@.len() == 29);
    assert("user.device.last_error.tim"@.len() == 26);
}

// ---------------------------------------------------------------------------
// Lists
// ---------------------------------------------------------------------------

/// The list of names holds each name with a NUL behind it, in order, and nothing else.
pub proof fn law_list_of_names<T: Xattr>(xattrs: Seq<T>, x: T)
    ensures
        xattr::name_list(Seq::<T>::empty()).len() == 0,
        xattr::name_list(xattrs.push(x)) == xattr::name_list(xattrs) + vstd::utf8::encode_utf8(
            x.attr_name(),
        ) + seq![0u8],
{
    assert(xattrs.push(x).drop_last() =~= xattrs);
}

/// To take an attribute out hands it over, and leaves the others in order; a name that there is
/// not takes nothing out.
pub proof fn law_attribute_is_taken_out(
    xattrs: &mut Vec<DriveXattr>,
    name: &str,
    r: Option<DriveXattr>,
    i: int,
)
    requires
        call_ensures(xattr::XattrOps::remove::<DriveXattr>, (xattrs, name), r),
        0 <= i < old(xattrs)@.len(),
        old(xattrs)@[i].attr_name() == name@,
        forall|j: int| 0 <= j < i ==> (#[trigger] old(xattrs)@[j]).attr_name() != name@,
    ensures
        r == Some(old(xattrs)@[i]),
        final(xattrs)@ == old(xattrs)@.remove(i),
{
    lemma_find(old(xattrs)@, name@, 0, i);
}

proof fn lemma_find(xattrs: Seq<DriveXattr>, name: Seq<char>, from: int, i: int)
    requires
        0 <= from <= i < xattrs.len(),
        xattrs[i].attr_name() == name,
        forall|j: int| from <= j < i ==> (#[trigger] xattrs[j]).attr_name() != name,
    ensures
        xattr::find_from(xattrs, name, from) == Some(i),
    decreases i - from,
{
    if from < i {
        assert(xattrs[from].attr_name() != name);
        lemma_find(xattrs, name, from + 1, i);
    }
}

/// A request without room is answered by the size, and one with enough room by the bytes; one
/// with too little room is refused.
pub proof fn law_room_for_an_answer(data: Seq<u8>, size: u32)
    requires
        data.len() <= u32::MAX,
        data.len() <= usize::MAX,
    ensures
        size == 0 ==> fusermount::sized(data, size) == Ok::<fusermount::XattrReplyView, i32>(
            fusermount::XattrReplyView::Size(data.len() as u32),
        ),
        size > 0 && size >= data.len() ==> fusermount::sized(data, size) == Ok::<
            fusermount::XattrReplyView,
            i32,
        >(fusermount::XattrReplyView::Data(data)),
        0 < size < data.len() ==> fusermount::sized(data, size) == Err::<
            fusermount::XattrReplyView,
            i32,
        >(34i32),
{
}

} // verus!

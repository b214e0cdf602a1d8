//! What can be relied on of a mount as it is set up, read and waited for.
use vstd::prelude::*;

use crate::cbmtype::{CbmDeviceInfo, CbmStatus};
use crate::dir::CbmDirListing;
use crate::error::{Error, ErrorView, Fs1541Error, Fs1541ErrorView};
use crate::number;
use crate::server::drivemgr::DriveManager;
use crate::server::file;
use crate::server::file::{DiskInfo, FileEntry, FileEntryTypeView, FileEntryView};
use crate::server::fusermount;
use crate::server::fusermount::{
    DirSession, FuserMount, ReadDir, ReadDirNext, WaitDir, WaitFile, XattrReply,
};
use crate::server::inode;
use crate::server::mount;
use crate::server::mount::Mount;
use crate::server::mountsvc::MountService;
use crate::server::xattr;
use crate::server::xattr::{DiskXattr, DriveXattr, Xattr};
use crate::time::{Duration, SystemTime};

verus! {

/// What was read of a disk is old once it has been there for a while, or was read in the
/// future, or was never read. Of a drive that there is not nothing is old.
pub proof fn law_old_directories(
    f: FuserMount,
    m: Mount,
    drive: u8,
    span: Duration,
    now: SystemTime,
    r: bool,
    q: bool,
)
    requires
        m@.wf(),
        call_ensures(Mount::should_refresh_dir, (&m, drive, span, now), r),
        call_ensures(FuserMount::needs_refresh, (&f, &m, drive, now), q),
    ensures
        r ==> drive < m@.disks.len(),
        drive < m@.disks.len() ==> match m@.disks[drive as int].disk_read_time {
            None => r && q,
            Some(t) => (r <==> now.in_nanos() < t.in_nanos() || now.in_nanos() >= t.in_nanos()
                + span.in_nanos()) && (q <==> now.in_nanos() < t.in_nanos() || now.in_nanos()
                >= t.in_nanos() + f.timers.dir_cache.in_nanos()),
        },
{
}

/// A directory that is waited for is there once it was read, and is looked for again until
/// it has been looked for often enough.
pub proof fn law_waiting_for_a_directory(
    f: FuserMount,
    m: Mount,
    drive: u8,
    count: u32,
    now: SystemTime,
    old_one: bool,
    r: WaitDir,
)
    requires
        m@.wf(),
        drive < m@.disks.len(),
        call_ensures(FuserMount::needs_refresh, (&f, &m, drive, now), old_one),
        call_ensures(FuserMount::wait_for_dir_refresh, (&f, &m, drive, count, now), r),
    ensures
        r is TimedOut <==> count >= f.counts.dir_check,
        count < f.counts.dir_check ==> (r is Fresh <==> !old_one),
        r matches WaitDir::TimedOut(e) ==> (e@ matches ErrorView::Fs1541 { error, .. } && (error
            matches Fs1541ErrorView::Timeout(_, d) && d == f.timers.dir_read)),
{
}

/// A directory that does not come in time is no error: what is known of it is given. Any
/// other error is told.
pub proof fn law_after_waiting(
    f: FuserMount,
    waited: Result<(), Error>,
    r: Result<(), i32>,
)
    requires
        call_ensures(FuserMount::after_wait, (&f, &waited), r),
    ensures
        waited is Ok ==> r is Ok,
        waited matches Err(Error::Fs1541 { error: Fs1541Error::Timeout(_, _), .. }) ==> r is Ok,
        waited matches Err(Error::Fs1541 { error: Fs1541Error::Validation(_), .. }) ==> r is Err,
        waited matches Err(e) && !(e matches Error::Fs1541 {
            error: Fs1541Error::Timeout(_, _),
            ..
        }) ==> r is Err,
{
}

/// A directory that was asked for is outstanding, unless it could not be asked for: then what
/// is known is given at once. Else it is given as soon as it was read, or was waited for long
/// enough, and nothing else of the mount changes.
pub proof fn law_directory_is_awaited(
    f: FuserMount,
    m: &mut Mount,
    s: DirSession,
    sent: Option<Result<(), String>>,
    now: SystemTime,
    old_one: bool,
    r: ReadDirNext,
)
    requires
        old(m)@.wf(),
        s.drive < old(m)@.disks.len(),
        call_ensures(FuserMount::needs_refresh, (&f, old(m), s.drive, now), old_one),
        call_ensures(FuserMount::dir_requested, (&f, m, s, sent, now), r),
    ensures
        final(m)@.disks == old(m)@.disks,
        final(m)@.dir_outstanding <==> old(m)@.dir_outstanding || sent matches Some(Ok(_)),
        sent matches Some(Err(_)) ==> r is Reply,
        !(sent matches Some(Err(_))) ==> if s.count >= f.counts.dir_check || !old_one {
            r is Reply
        } else {
            r matches ReadDirNext::Sleep(t) && t.count == s.count + 1 && t.ino == s.ino && t.drive
                == s.drive && t.offset == s.offset
        },
        r matches ReadDirNext::Reply(entries) ==> s.offset == 0 && s.ino == 1 ==> entries@.len()
            == 2 + old(m)@.disks[s.drive as int].control_files.len()
            + old(m)@.disks[s.drive as int].cbm_files.len(),
{
    if let ReadDirNext::Reply(entries) = r {
        let shown = fusermount::entry_views(entries@);
        assert(shown.len() == entries@.len());
        assert(r@ == fusermount::drive_reply(final(m)@, s.ino, s.drive, s.offset));
    }
}

/// After each sleep the directory is looked for again, in the same way.
pub proof fn law_directory_is_looked_for(
    f: FuserMount,
    m: Mount,
    s: DirSession,
    now: SystemTime,
    old_one: bool,
    r: ReadDirNext,
)
    requires
        m@.wf(),
        s.drive < m@.disks.len(),
        call_ensures(FuserMount::needs_refresh, (&f, &m, s.drive, now), old_one),
        call_ensures(FuserMount::dir_slept, (&f, &m, s, now), r),
    ensures
        if s.count >= f.counts.dir_check || !old_one {
            r is Reply
        } else {
            r matches ReadDirNext::Sleep(t) && t.count == s.count + 1 && t.ino == s.ino && t.drive
                == s.drive && t.offset == s.offset
        },
{
}

/// A file that is waited for is there once it was read, and has taken too long once it was
/// looked for often enough.
pub proof fn law_file_is_awaited(
    f: FuserMount,
    m: Mount,
    ino: u64,
    count: u32,
    now: SystemTime,
    r: WaitFile,
)
    requires
        call_ensures(FuserMount::wait_for_file_read, (&f, &m, ino, count, now), r),
    ensures
        r is TimedOut <==> count >= f.counts.file_check,
        r matches WaitFile::TimedOut(e) ==> (e@ matches ErrorView::Fs1541 { error, .. } && (error
            matches Fs1541ErrorView::Timeout(_, d) && d == f.timers.file_read)),
        m@.file(ino) is None ==> !(r is Data),
        m@.file(ino) matches Some(e) ==> (e.cache is None ==> !(r is Data)) && (r
            matches WaitFile::Data(v) ==> v@ == e.cache->0.cache),
{
}

/// In a unit with one drive every directory is that of drive 0. In one with two the root holds
/// their directories, and each of these is that of its drive.
pub proof fn law_directories(f: FuserMount, m: Mount, ino: u64, r: ReadDir, n: Option<u8>)
    requires
        m@.wf(),
        call_ensures(FuserMount::dir_source, (&f, &m, ino), r),
        call_ensures(Mount::get_drive_num_by_inode, (&m, ino), n),
    ensures
        m@.disks.len() == 1 ==> r == ReadDir::Drive(0),
        m@.disks.len() == 2 && ino == 1 ==> r is Files,
        m@.disks.len() == 2 && ino == 2 ==> n == Some(0u8) && r == ReadDir::Drive(0),
        m@.disks.len() == 2 && ino == 3 ==> n == Some(1u8) && r == ReadDir::Drive(1),
        n matches Some(d) ==> (m@.file(ino) matches Some(e) && e.native
            == FileEntryTypeView::Directory(d)),
{
    if m@.disks.len() == 2 {
        mount::law_file_by_inode(m@, 0, 0);
        mount::law_file_by_inode(m@, 1, 0);
        assert(mount::disk_ok(m@.disks[0], 0, true));
        assert(mount::disk_ok(m@.disks[1], 1, true));
    }
}

/// A drive has its control files first, and then the files of its disk; a drive that there is
/// not has none, and no directory.
pub proof fn law_files_of_a_drive(
    m: Mount,
    drive: u8,
    files: Vec<FileEntry>,
    dir: Option<FileEntry>,
    i: int,
)
    requires
        m@.wf(),
        call_ensures(Mount::get_drive_files, (&m, drive), files),
        call_ensures(Mount::get_drive_dir, (&m, drive), dir),
    ensures
        drive >= m@.disks.len() ==> files@.len() == 0 && dir is None,
        drive < m@.disks.len() ==> {
            let d = m@.disks[drive as int];
            let k = d.control_files.len();
            &&& files@.len() == k + d.cbm_files.len()
            &&& 0 <= i < k ==> files@[i]@ == d.control_files[i]
            &&& 0 <= i < d.cbm_files.len() ==> files@[k + i]@ == d.cbm_files[i]
            &&& dir is Some <==> d.disk_dir is Some
            &&& dir matches Some(e) ==> d.disk_dir == Some(e@)
        },
{
    let all = file::file_views(files@);
    assert(all.len() == files@.len());
    if drive < m@.disks.len() {
        let k = m@.disks[drive as int].control_files.len();
        if 0 <= i < k {
            assert(all[i] == files@[i]@);
        }
        if 0 <= i < m@.disks[drive as int].cbm_files.len() {
            assert(all[k + i] == files@[k + i]@);
        }
    }
}

/// The inode that a mount gives out is the next one, and the one after it is next from then on.
pub proof fn law_next_inode(m: &mut Mount, ino: u64)
    requires
        old(m).next_inode < u64::MAX,
        call_ensures(Mount::allocate_inode, (m,), ino),
    ensures
        ino == old(m)@.next_inode,
        final(m)@.next_inode == ino + 1,
        final(m)@.disks == old(m)@.disks,
{
}

/// A unit that is mounted has a disk for each drive of its model, none of which was read: it
/// has its control files and nothing else. It has a disk in it where some drive says that all
/// is well. Where a drive could not be initialised it is not set up.
pub proof fn law_mount_is_set_up(
    m: &mut Mount,
    results: Vec<Result<CbmStatus, Error>>,
    info: CbmDeviceInfo,
    now: SystemTime,
    r: Result<bool, Error>,
    k: int,
)
    requires
        old(m)@.wf(),
        call_ensures(Mount::mount, (m, &results, info, now), r),
    ensures
        r is Err ==> final(m)@.disks == old(m)@.disks && final(m)@.drive_info == old(m)@.drive_info,
        results@.len() == 0 ==> r is Err,
        r is Ok ==> final(m)@.drive_info == Some(info@) && final(m)@.disks.len()
            == final(m)@.num_drives() && final(m)@.device_num == old(m)@.device_num
            && final(m)@.mountpoint == old(m)@.mountpoint,
        r is Ok && 0 <= k < final(m)@.disks.len() ==> {
            let d = final(m)@.disks[k];
            &&& d.drive_num == k
            &&& d.cbm_files.len() == 0
            &&& d.disk_read_time is None
            &&& d.header is None
            &&& d.blocks_free is None
            &&& d.xattrs.len() == 0
            &&& d.disk_dir is Some <==> final(m)@.disks.len() == 2
        },
        r matches Ok(has_disk) ==> (has_disk <==> exists|j: int|
            0 <= j < results@.len() && (#[trigger] results@[j] matches Ok(s)
                && crate::cbmtype::ok_of(s@.number) == crate::cbmtype::CbmErrorNumberOk::Okay)),
{
    if r is Ok {
        let known = mount::MountView { drive_info: Some(info@), ..old(m)@ };
        let n = known.num_drives() as nat;
        let disks = mount::new_disks(n, known.num_drives() > 1, now);
        inode::lemma_numbered_disks(disks, known.next_inode as int);
    }
}

/// A device whose drives could not be initialised is not in use any more, unless it is at work
/// just then, and one whose drives were stays in use.
pub proof fn law_failed_mount_frees_the_device(
    service: MountService,
    mgr: &mut DriveManager,
    m: &mut Mount,
    results: Result<Vec<Result<CbmStatus, Error>>, Error>,
    info: CbmDeviceInfo,
    now: SystemTime,
    r: Result<bool, Error>,
    device: u8,
)
    requires
        call_ensures(
            MountService::drives_initialized,
            (&service, mgr, m, results, info, now),
            r,
        ),
    ensures
        r is Ok ==> final(mgr)@ == old(mgr)@ && final(m)@.drive_info == Some(info@),
        r is Err && !old(mgr)@[old(m)@.device_num].busy ==> !final(mgr)@.contains_key(
            old(m)@.device_num,
        ),
        device != old(m)@.device_num ==> final(mgr)@.contains_key(device) == old(
            mgr,
        )@.contains_key(device),
        results matches Err(e) ==> r == Err::<bool, Error>(e) && final(m)@ == old(m)@,
{
}

/// What is known of the drives and the disks of a mount is what it holds.
pub proof fn law_known_of_a_mount(
    m: Mount,
    drive: u8,
    disk: &Vec<DiskXattr>,
    unit: &Vec<DriveXattr>,
)
    requires
        drive < m.disk_info@.len(),
        call_ensures(Mount::disk_xattrs, (&m, drive), disk),
        call_ensures(Mount::drive_xattrs, (&m,), unit),
    ensures
        disk@ == m.disk_info@[drive as int].xattrs@,
        unit@ == m.drive_xattrs@,
{
    assert(m@.disks[drive as int] == m.disk_info@[drive as int]@);
}

/// A file is found by its inode, whether it is a control file or one on a disk.
pub proof fn law_file_of_an_inode(
    m: Mount,
    k: int,
    j: int,
    ino: u64,
    f: Option<&FileEntry>,
    n: Option<u8>,
)
    requires
        m@.wf(),
        0 <= k < m@.disks.len(),
        call_ensures(Mount::file_by_inode, (&m, ino), f),
        call_ensures(Mount::get_drive_num_by_inode, (&m, ino), n),
    ensures
        0 <= j < m@.disks[k].control_files.len() && m@.disks[k].control_files[j].ino == ino ==> (f
            matches Some(e) && e@ == m@.disks[k].control_files[j]),
        0 <= j < m@.disks[k].cbm_files.len() && m@.disks[k].cbm_files[j].ino == ino ==> (f
            matches Some(e) && e@ == m@.disks[k].cbm_files[j]),
        m@.disks[k].disk_dir matches Some(d) ==> d.ino == ino ==> (f matches Some(e) && e@ == d) && n
            == Some(k as u8),
{
    mount::law_file_by_inode(m@, k, j);
}

/// The names of the attributes of the root are, for a unit with one drive, those of the unit and
/// those of its disk, and for one with two those of the unit.
pub proof fn law_names_of_attributes(f: FuserMount, m: Mount, ino: u64, r: Result<XattrReply, i32>)
    requires
        m@.wf(),
        call_ensures(FuserMount::listxattr, (&f, &m, ino, 0xffff_ffffu32), r),
        xattr::name_list(m@.drive_xattrs).len() + xattr::name_list(m@.disks[0].xattrs).len()
            < 0xffff_ffff,
    ensures
        ino == 1 && m@.disks.len() == 1 ==> (r matches Ok(XattrReply::Data(v)) && v@
            == xattr::name_list(m@.drive_xattrs) + xattr::name_list(m@.disks[0].xattrs)),
        ino == 1 && m@.disks.len() == 2 ==> (r matches Ok(XattrReply::Data(v)) && v@
            == xattr::name_list(m@.drive_xattrs)),
        ino != 1 && m@.file(ino) is None ==> r == Err::<XattrReply, i32>(2i32),
{
}

/// An attribute without a name, or under a name that nothing has, is none; and of a file that
/// there is not there is none either.
pub proof fn law_missing_attributes(
    f: FuserMount,
    m: Mount,
    ino: u64,
    name: &str,
    size: u32,
    r: Result<XattrReply, i32>,
    unnamed: Result<XattrReply, i32>,
)
    requires
        m@.wf(),
        call_ensures(FuserMount::getxattr, (&f, &m, ino, Some(name), size), r),
        call_ensures(FuserMount::getxattr, (&f, &m, ino, None, size), unnamed),
    ensures
        unnamed == Err::<XattrReply, i32>(61i32),
        ino != 1 && m@.file(ino) is None ==> r == Err::<XattrReply, i32>(2i32),
        ino == 1 && m@.disks.len() == 2 && (forall|j: int|
            0 <= j < m@.drive_xattrs.len() ==> (#[trigger] m@.drive_xattrs[j]).attr_name()
                != name@) ==> r == Err::<XattrReply, i32>(61i32),
{
    if forall|j: int|
        0 <= j < m@.drive_xattrs.len() ==> (#[trigger] m@.drive_xattrs[j]).attr_name() != name@ {
        lemma_not_found(m@.drive_xattrs, name@, 0);
    }
}

proof fn lemma_not_found<T: Xattr>(xattrs: Seq<T>, name: Seq<char>, from: int)
    requires
        0 <= from,
        forall|j: int| 0 <= j < xattrs.len() ==> (#[trigger] xattrs[j]).attr_name() != name,
    ensures
        xattr::find_from(xattrs, name, from) is None,
    decreases xattrs.len() - from,
{
    if from < xattrs.len() {
        assert(xattrs[from].attr_name() != name);
        lemma_not_found(xattrs, name, from + 1);
    }
}

/// The value of an attribute of the root is that of the first of its name, among those of the
/// unit and then, for a unit with one drive, among those of its disk.
pub proof fn law_attributes_of_the_root(
    f: FuserMount,
    m: Mount,
    name: &str,
    i: int,
    r: Result<XattrReply, i32>,
)
    requires
        m@.wf(),
        call_ensures(FuserMount::getxattr, (&f, &m, 1, Some(name), 0xffff_ffffu32), r),
    ensures
        0 <= i < m@.drive_xattrs.len() && m@.drive_xattrs[i].attr_name() == name@ && (forall|
            j: int,
        |
            0 <= j < i ==> (#[trigger] m@.drive_xattrs[j]).attr_name() != name@) ==> (r matches Ok(
            XattrReply::Data(v),
        ) && xattr::is_value_of(m@.drive_xattrs[i], v@)),
        m@.disks.len() == 1 && 0 <= i < m@.disks[0].xattrs.len() && m@.disks[0].xattrs[i].attr_name()
            == name@ && (forall|j: int|
            0 <= j < i ==> (#[trigger] m@.disks[0].xattrs[j]).attr_name() != name@) && (forall|
            j: int,
        |
            0 <= j < m@.drive_xattrs.len() ==> (#[trigger] m@.drive_xattrs[j]).attr_name()
                != name@) ==> (r matches Ok(XattrReply::Data(v)) && xattr::is_value_of(
            m@.disks[0].xattrs[i],
            v@,
        )),
{
    let unit = m@.drive_xattrs;
    if 0 <= i < unit.len() && unit[i].attr_name() == name@ && (forall|j: int|
        0 <= j < i ==> (#[trigger] unit[j]).attr_name() != name@) {
        lemma_first_found(unit, name@, 0, i);
    }
    if forall|j: int| 0 <= j < unit.len() ==> (#[trigger] unit[j]).attr_name() != name@ {
        lemma_not_found(unit, name@, 0);
    }
    let disk = m@.disks[0].xattrs;
    if 0 <= i < disk.len() && disk[i].attr_name() == name@ && (forall|j: int|
        0 <= j < i ==> (#[trigger] disk[j]).attr_name() != name@) {
        lemma_first_found(disk, name@, 0, i);
    }
}

/// The value of an attribute of a file is that of the first of its name among the file's own,
/// and there is none under a name that none of these has.
pub proof fn law_attributes_of_one_file(
    f: FuserMount,
    m: Mount,
    ino: u64,
    e: FileEntryView,
    name: &str,
    i: int,
    r: Result<XattrReply, i32>,
)
    requires
        m@.wf(),
        ino != 1,
        m@.file(ino) == Some(e),
        !(e.native is Directory),
        call_ensures(FuserMount::getxattr, (&f, &m, ino, Some(name), 0xffff_ffffu32), r),
    ensures
        0 <= i < e.xattrs().len() && e.xattrs()[i].attr_name() == name@ && (forall|j: int|
            0 <= j < i ==> (#[trigger] e.xattrs()[j]).attr_name() != name@) ==> (r matches Ok(
            XattrReply::Data(v),
        ) && xattr::is_value_of(e.xattrs()[i], v@)),
        (forall|j: int|
            0 <= j < e.xattrs().len() ==> (#[trigger] e.xattrs()[j]).attr_name() != name@) ==> r
            == Err::<XattrReply, i32>(61i32),
{
    let own = e.xattrs();
    if 0 <= i < own.len() && own[i].attr_name() == name@ && (forall|j: int|
        0 <= j < i ==> (#[trigger] own[j]).attr_name() != name@) {
        lemma_first_found(own, name@, 0, i);
    }
    if forall|j: int| 0 <= j < own.len() ==> (#[trigger] own[j]).attr_name() != name@ {
        lemma_not_found(own, name@, 0);
    }
}

/// The value of an attribute of a drive's directory is that of the first of its name among
/// those of its disk.
pub proof fn law_attributes_of_one_disk(
    f: FuserMount,
    m: Mount,
    drive: u8,
    ino: u64,
    e: FileEntryView,
    name: &str,
    i: int,
    r: Result<XattrReply, i32>,
)
    requires
        m@.wf(),
        ino != 1,
        m@.file(ino) == Some(e),
        e.native == FileEntryTypeView::Directory(drive),
        drive < m@.disks.len(),
        0 <= i < m@.disks[drive as int].xattrs.len(),
        m@.disks[drive as int].xattrs[i].attr_name() == name@,
        forall|j: int|
            0 <= j < i ==> (#[trigger] m@.disks[drive as int].xattrs[j]).attr_name() != name@,
        call_ensures(FuserMount::getxattr, (&f, &m, ino, Some(name), 0xffff_ffffu32), r),
    ensures
        r matches Ok(XattrReply::Data(v)) && xattr::is_value_of(
            m@.disks[drive as int].xattrs[i],
            v@,
        ),
{
    lemma_first_found(m@.disks[drive as int].xattrs, name@, 0, i);
}

/// A listing that is read replaces what was known of a disk: its name and free blocks are those
/// of the listing, and it was read now. Its control files and its directory stay.
pub proof fn law_disk_is_read(
    d: &mut DiskInfo,
    listing: CbmDirListing,
    now: SystemTime,
    e: &mut DiskInfo,
)
    requires
        call_ensures(DiskInfo::update_from_dir_listing, (d, &listing, now), ()),
        call_ensures(DiskInfo::add_disk_dir, (e, now), ()),
    ensures
        final(d)@.header == Some(listing.header),
        final(d)@.blocks_free == Some(listing.blocks_free),
        final(d)@.disk_read_time == Some(now),
        final(d)@.control_files == old(d)@.control_files,
        final(d)@.disk_dir == old(d)@.disk_dir,
        final(d)@.drive_num == old(d)@.drive_num,
        final(e)@.disk_dir matches Some(f) && f.name == number::decimal(old(e)@.drive_num as nat)
            && f.native == FileEntryTypeView::Directory(old(e)@.drive_num) && f.ino == 0,
        final(e)@.control_files == old(e)@.control_files,
        final(e)@.cbm_files == old(e)@.cbm_files,
{
}

/// The files of a disk are its control files and then those on it.
pub proof fn law_files_of_a_disk(d: DiskInfo, files: Vec<FileEntry>, i: int)
    requires
        call_ensures(DiskInfo::files, (&d,), files),
    ensures
        files@.len() == d@.control_files.len() + d@.cbm_files.len(),
        0 <= i < d@.control_files.len() ==> files@[i]@ == d@.control_files[i],
        0 <= i < d@.cbm_files.len() ==> files@[d@.control_files.len() + i]@ == d@.cbm_files[i],
{
    let all = file::file_views(files@);
    assert(all.len() == files@.len());
    if 0 <= i < d@.control_files.len() {
        assert(all[i] == files@[i]@);
    }
    if 0 <= i < d@.cbm_files.len() {
        assert(all[d@.control_files.len() + i] == files@[d@.control_files.len() + i]@);
    }
}

/// Only files without an inode get one, in order and without a gap. The others keep theirs.
pub proof fn law_files_are_numbered(files: &mut Vec<FileEntry>, next: u64, n: u64, i: int)
    requires
        call_ensures(inode::number_files, (files, next), n),
        next + old(files)@.len() <= u64::MAX,
        0 <= i < old(files)@.len(),
    ensures
        final(files)@.len() == old(files)@.len(),
        old(files)@[i]@.ino != 0 ==> final(files)@[i]@ == old(files)@[i]@,
        final(files)@[i]@.name == old(files)@[i]@.name,
        i == 0 && old(files)@[0]@.ino == 0 ==> final(files)@[0]@.ino == next,
        old(files)@[i]@.ino == 0 ==> next <= final(files)@[i]@.ino < n,
        n <= next + old(files)@.len(),
        i == 0 && old(files)@.len() == 1 ==> n == next + (if old(files)@[0]@.ino == 0 {
            1int
        } else {
            0int
        }),
        0 < i && old(files)@[i - 1]@.ino == 0 && old(files)@[i]@.ino == 0 ==> final(files)@[i]@.ino
            == final(files)@[i - 1]@.ino + 1,
        (forall|j: int| 0 <= j < old(files)@.len() ==> (#[trigger] old(files)@[j])@.ino != 0) ==> n
            == next,
{
    let before = file::file_views(old(files)@);
    let after = file::file_views(final(files)@);
    assert(before.len() == old(files)@.len());
    assert(after.len() == final(files)@.len());
    assert(before[i] == old(files)@[i]@);
    assert(after[i] == final(files)@[i]@);
    let inos = inode::inos(before);
    assert(inos.len() == before.len() && inos[i] == before[i].ino);
    lemma_missing_bound(inos);
    lemma_missing_before(inos, i);
    if i == 0 {
        assert(inos.take(0).len() == 0);
        if inos.len() == 1 {
            assert(inos.drop_last() =~= inos.take(0));
        }
    } else {
        assert(before[i - 1] == old(files)@[i - 1]@);
        assert(after[i - 1] == final(files)@[i - 1]@);
        assert(inos.take(i).drop_last() =~= inos.take(i - 1));
        lemma_missing_before(inos, i - 1);
    }
    if forall|j: int| 0 <= j < old(files)@.len() ==> (#[trigger] old(files)@[j])@.ino != 0 {
        assert forall|j: int| 0 <= j < inos.len() implies #[trigger] inos[j] != 0 by {
            assert(before[j] == old(files)@[j]@);
        }
        lemma_none_missing(inos);
    }
}

proof fn lemma_none_missing(s: Seq<u64>)
    requires
        forall|j: int| 0 <= j < s.len() ==> #[trigger] s[j] != 0,
    ensures
        inode::missing(s) == 0,
    decreases s.len(),
{
    if s.len() > 0 {
        assert(s.last() == s[s.len() - 1]);
        assert forall|j: int| 0 <= j < s.drop_last().len() implies #[trigger] s.drop_last()[j]
            != 0 by {
            assert(s.drop_last()[j] == s[j]);
        }
        lemma_none_missing(s.drop_last());
    }
}

proof fn lemma_missing_bound(s: Seq<u64>)
    ensures
        inode::missing(s) <= s.len(),
    decreases s.len(),
{
    if s.len() > 0 {
        lemma_missing_bound(s.drop_last());
    }
}

proof fn lemma_missing_before(s: Seq<u64>, i: int)
    requires
        0 <= i < s.len(),
    ensures
        inode::missing(s.take(i)) + (if s[i] == 0 {
            1int
        } else {
            0int
        }) <= inode::missing(s),
    decreases s.len(),
{
    let before = s.drop_last();
    if i == before.len() {
        assert(s.take(i) =~= before);
    } else {
        assert(s.take(i) =~= before.take(i));
        lemma_missing_before(before, i);
    }
}

/// An attribute that is found by its name is the first of that name, and its value is handed
/// over; one that is added replaces the first of its name, or goes behind all the others.
pub proof fn law_attributes_by_name(
    xattrs: &mut Vec<DriveXattr>,
    x: DriveXattr,
    i: int,
)
    requires
        call_ensures(xattr::XattrOps::add_or_replace::<DriveXattr>, (xattrs, x), ()),
        0 <= i < old(xattrs)@.len(),
    ensures
        old(xattrs)@[i].attr_name() != x.attr_name() ==> final(xattrs)@[i] == old(xattrs)@[i],
        old(xattrs)@[i].attr_name() == x.attr_name() && (forall|j: int|
            0 <= j < i ==> (#[trigger] old(xattrs)@[j]).attr_name() != x.attr_name()) ==> final(xattrs)@ == old(xattrs)@.update(i, x),
        (forall|j: int|
            0 <= j < old(xattrs)@.len() ==> (#[trigger] old(xattrs)@[j]).attr_name()
                != x.attr_name()) ==> final(xattrs)@ == old(xattrs)@.push(x),
{
    let list = old(xattrs)@;
    let name = x.attr_name();
    lemma_found_has_name(list, name, 0);
    if list[i].attr_name() == name && (forall|j: int|
        0 <= j < i ==> (#[trigger] list[j]).attr_name() != name) {
        lemma_first_found(list, name, 0, i);
    }
    if forall|j: int| 0 <= j < list.len() ==> (#[trigger] list[j]).attr_name() != name {
        lemma_not_found(list, name, 0);
    }
}

proof fn lemma_found_has_name(xattrs: Seq<DriveXattr>, name: Seq<char>, from: int)
    requires
        0 <= from,
    ensures
        xattr::find_from(xattrs, name, from) matches Some(k) ==> from <= k < xattrs.len()
            && xattrs[k].attr_name() == name,
    decreases xattrs.len() - from,
{
    if from < xattrs.len() && xattrs[from].attr_name() != name {
        lemma_found_has_name(xattrs, name, from + 1);
    }
}

proof fn lemma_first_found<T: Xattr>(xattrs: Seq<T>, name: Seq<char>, from: int, i: int)
    requires
        0 <= from <= i < xattrs.len(),
        xattrs[i].attr_name() == name,
        forall|j: int| from <= j < i ==> (#[trigger] xattrs[j]).attr_name() != name,
    ensures
        xattr::find_from(xattrs, name, from) == Some(i),
    decreases i - from,
{
    if from < i {
        assert(xattrs[from].attr_name() != name);
        lemma_first_found(xattrs, name, from + 1, i);
    }
}

} // verus!

//! A mounted drive: what is known of it, of its disks and of their files.
use vstd::prelude::*;

use crate::cbmtype;
use crate::cbmtype::{
    CbmDeviceInfo, CbmDeviceInfoView, CbmError, CbmErrorNumber, CbmErrorNumberOk, CbmStatus,
};
use crate::dir::{CbmDirListing, CbmFileEntry, CbmFileEntryView};
use crate::error::{Error, ErrorView, Fs1541Error, Fs1541ErrorView};
use crate::number;
use crate::number::push_decimal;
use crate::server::bg::{OpResponseType, OpType};
use crate::server::file;
use crate::server::file::{
    DiskInfo, DiskInfoView, FileEntry, FileEntryType, FileEntryTypeView, FileEntryView,
};
use crate::server::inode;
use crate::server::inode::{number_disks, FIRST_FILE_INO};
use crate::server::xattr;
use crate::server::xattr::{DiskXattr, DriveXattr, XattrOps};
use crate::text;
use crate::text::to_lower;
use crate::time::{Duration, SystemTime};
use crate::validate;
use crate::validate::{validate_bus_device, validate_mountpoint, PathFacts, ValidationType};

verus! {

/// How many responses can wait for a mount.
pub const NUM_MOUNT_RX_CHANNELS: usize = 2;

/// A mounted drive.
#[derive(Debug)]
pub struct Mount {
    pub device_num: u8,
    pub mountpoint: String,
    pub dummy_formats: bool,
    /// The inode of the next new file
    pub next_inode: u64,
    /// Whether the kernel has been given the file system
    pub mounted: bool,
    /// Whether the mount is shared with those that answer for it
    pub shared: bool,
    /// Whether nobody waits for responses yet
    pub has_receiver: bool,
    /// Whether somebody waits for responses
    pub has_handler: bool,
    /// Whether the directory has been asked for, and no answer has come
    pub dir_outstanding: bool,
    pub drive_info: Option<CbmDeviceInfo>,
    pub drive_xattrs: Vec<DriveXattr>,
    pub disk_info: Vec<DiskInfo>,
}

/// A mounted drive, with its texts and lists as sequences.
#[verifier::ext_equal]
pub struct MountView {
    pub device_num: u8,
    pub mountpoint: Seq<char>,
    pub dummy_formats: bool,
    pub next_inode: u64,
    pub mounted: bool,
    pub shared: bool,
    pub has_receiver: bool,
    pub has_handler: bool,
    pub dir_outstanding: bool,
    pub drive_info: Option<CbmDeviceInfoView>,
    pub drive_xattrs: Seq<DriveXattr>,
    pub disks: Seq<DiskInfoView>,
}

/// What a drive has said of itself, if it has.
pub open spec fn info_view(info: Option<CbmDeviceInfo>) -> Option<CbmDeviceInfoView> {
    match info {
        Some(i) => Some(i@),
        None => None,
    }
}

impl View for Mount {
    type V = MountView;

    open spec fn view(&self) -> MountView {
        MountView {
            device_num: self.device_num,
            mountpoint: self.mountpoint@,
            dummy_formats: self.dummy_formats,
            next_inode: self.next_inode,
            mounted: self.mounted,
            shared: self.shared,
            has_receiver: self.has_receiver,
            has_handler: self.has_handler,
            dir_outstanding: self.dir_outstanding,
            drive_info: info_view(self.drive_info),
            drive_xattrs: self.drive_xattrs@,
            disks: inode::disk_views(self.disk_info@),
        }
    }
}

/// How the kernel is to mount the file system.
#[derive(Debug)]
pub enum MountOption {
    RO,
    NoSuid,
    NoAtime,
    Sync,
    DirSync,
    NoDev,
    FSName(String),
    Subtype(String),
    AllowRoot,
    AutoUnmount,
}

/// How the kernel is to mount the file system, with texts as sequences of characters.
#[verifier::ext_equal]
pub enum MountOptionView {
    RO,
    NoSuid,
    NoAtime,
    Sync,
    DirSync,
    NoDev,
    FSName(Seq<char>),
    Subtype(Seq<char>),
    AllowRoot,
    AutoUnmount,
}

impl View for MountOption {
    type V = MountOptionView;

    open spec fn view(&self) -> MountOptionView {
        match *self {
            MountOption::RO => MountOptionView::RO,
            MountOption::NoSuid => MountOptionView::NoSuid,
            MountOption::NoAtime => MountOptionView::NoAtime,
            MountOption::Sync => MountOptionView::Sync,
            MountOption::DirSync => MountOptionView::DirSync,
            MountOption::NoDev => MountOptionView::NoDev,
            MountOption::FSName(s) => MountOptionView::FSName(s@),
            MountOption::Subtype(s) => MountOptionView::Subtype(s@),
            MountOption::AllowRoot => MountOptionView::AllowRoot,
            MountOption::AutoUnmount => MountOptionView::AutoUnmount,
        }
    }
}

/// The views of mount options.
pub open spec fn option_views(options: Seq<MountOption>) -> Seq<MountOptionView> {
    options.map_values(|o: MountOption| o@)
}

/// A part of a file system's name for each drive of a unit.
pub open spec fn drive_parts(n: nat) -> Seq<char>
    decreases n,
{
    if n == 0 {
        Seq::empty()
    } else {
        drive_parts((n - 1) as nat) + "_d"@ + number::decimal((n - 1) as nat)
    }
}

/// An error of the file system.
pub open spec fn fault(message: Seq<char>, error: Fs1541ErrorView) -> ErrorView {
    ErrorView::Fs1541 { message, error }
}

/// The attributes of a drive after it has reported a status.
pub open spec fn with_status(x: Seq<DriveXattr>, status: CbmStatus, now: SystemTime) -> Seq<
    DriveXattr,
> {
    let y = xattr::with_attr(
        xattr::with_attr(x, DriveXattr::LastStatus(status)),
        DriveXattr::LastStatusTime(now),
    );
    if cbmtype::ok_of(status@.number) != CbmErrorNumberOk::Okay {
        xattr::with_attr(
            xattr::with_attr(y, DriveXattr::LastError(status)),
            DriveXattr::LastErrorTime(now),
        )
    } else {
        y
    }
}

/// The attributes of a drive after the first results of its initialization.
pub open spec fn with_statuses(
    x: Seq<DriveXattr>,
    results: Seq<Result<CbmStatus, Error>>,
    n: int,
    now: SystemTime,
) -> Seq<DriveXattr>
    decreases n,
{
    if n <= 0 {
        x
    } else {
        with_status(with_statuses(x, results, n - 1, now), results[n - 1]->Ok_0, now)
    }
}

/// The first result at or after a position that is an error.
pub open spec fn first_failure(results: Seq<Result<CbmStatus, Error>>, from: int) -> Option<int>
    decreases results.len() - from,
{
    if from < 0 || from >= results.len() {
        None
    } else if results[from] is Err {
        Some(from)
    } else {
        first_failure(results, from + 1)
    }
}

/// The texts of the errors are in order.
pub open spec fn results_ok(results: Seq<Result<CbmStatus, Error>>) -> bool {
    forall|i: int| 0 <= i < results.len() ==> (#[trigger] results[i] matches Err(e) ==> e@.wf())
}

/// A disk is in one of the first drives and could be initialized.
pub open spec fn some_okay(results: Seq<Result<CbmStatus, Error>>, n: int) -> bool {
    exists|i: int|
        0 <= i < n && (#[trigger] results[i] matches Ok(status) && cbmtype::ok_of(status@.number)
            == CbmErrorNumberOk::Okay)
}

/// The errors of a drive that do not keep it from being mounted: those that come of a
/// disk that is missing or cannot be read.
pub open spec fn ignored_errors() -> Seq<CbmErrorNumber> {
    seq![
        CbmErrorNumber::ReadErrorBlockHeaderNotFound,
        CbmErrorNumber::ReadErrorNoSyncCharacter,
        CbmErrorNumber::ReadErrorDataBlockNotPresent,
        CbmErrorNumber::ReadErrorChecksumErrorInDataBlock,
        CbmErrorNumber::ReadErrorByteDecodingError,
        CbmErrorNumber::ReadErrorChecksumErrorInHeader,
        CbmErrorNumber::DiskIdMismatch,
        CbmErrorNumber::DosMismatch,
        CbmErrorNumber::DriveNotReady,
    ]
}

/// A disk for each of the first drives, with directories where there are many drives.
pub open spec fn new_disks(n: nat, many: bool, now: SystemTime) -> Seq<DiskInfoView> {
    Seq::new(
        n,
        |i: int|
            if many {
                DiskInfoView {
                    disk_dir: Some(file::directory_entry(i as u8, 0, now)),
                    ..DiskInfoView::unread(i as u8, now)
                }
            } else {
                DiskInfoView::unread(i as u8, now)
            },
    )
}

/// The disks after listings of them were read. The listing of a drive after the second
/// is passed over.
pub open spec fn listed(
    disks: Seq<DiskInfoView>,
    listings: Seq<CbmDirListing>,
    now: SystemTime,
) -> Seq<DiskInfoView>
    decreases listings.len(),
{
    if listings.len() == 0 {
        disks
    } else {
        let before = listed(disks, listings.drop_last(), now);
        let drive = listings.last().header.drive_number as int;
        if drive > 1 {
            before
        } else {
            before.update(drive, before[drive].updated(listings.last(), now))
        }
    }
}

/// The listings are of drives that there are, and their blocks can be counted.
pub open spec fn listings_fit(listings: Seq<CbmDirListing>, drives: nat) -> bool {
    forall|i: int|
        0 <= i < listings.len() ==> (#[trigger] listings[i]).header.drive_number > 1 || (
        listings[i].header.drive_number < drives && listings[i]@.total() <= 65535)
}

/// The disk of a drive is in order.
pub open spec fn disk_ok(d: DiskInfoView, i: int, many: bool) -> bool {
    &&& d.drive_num == i
    &&& d.control_files.len() > 0
    &&& forall|j: int|
        0 <= j < d.control_files.len() ==> (#[trigger] d.control_files[j]).native is ControlFile
    &&& forall|j: int| 0 <= j < d.cbm_files.len() ==> (#[trigger] d.cbm_files[j]).native is CbmFile
    &&& d.disk_dir is Some == many
    &&& d.disk_dir matches Some(f) ==> f.ino == inode::drive_ino(d.drive_num) && f.native
        == FileEntryTypeView::Directory(d.drive_num)
}

/// The first file at or after a position that has an inode.
pub open spec fn find_file(files: Seq<FileEntryView>, ino: u64, from: int) -> Option<FileEntryView>
    decreases files.len() - from,
{
    if from < 0 || from >= files.len() {
        None
    } else if files[from].ino == ino {
        Some(files[from])
    } else {
        find_file(files, ino, from + 1)
    }
}

/// The first file of a disk that has an inode: among its control files, its own files,
/// and its directory.
pub open spec fn find_on_disk(d: DiskInfoView, ino: u64) -> Option<FileEntryView> {
    match find_file(d.control_files, ino, 0) {
        Some(f) => Some(f),
        None => match find_file(d.cbm_files, ino, 0) {
            Some(f) => Some(f),
            None => match d.disk_dir {
                Some(f) if f.ino == ino => Some(f),
                _ => None,
            },
        },
    }
}

/// The first file that has an inode on a disk at or after a position.
pub open spec fn find_from(disks: Seq<DiskInfoView>, ino: u64, from: int) -> Option<FileEntryView>
    decreases disks.len() - from,
{
    if from < 0 || from >= disks.len() {
        None
    } else {
        match find_on_disk(disks[from], ino) {
            Some(f) => Some(f),
            None => find_from(disks, ino, from + 1),
        }
    }
}

impl MountView {
    /// A drive that is yet to be mounted.
    pub open spec fn fresh(device_num: u8, mountpoint: Seq<char>, dummy_formats: bool) -> MountView {
        MountView {
            device_num,
            mountpoint,
            dummy_formats,
            next_inode: FIRST_FILE_INO,
            mounted: false,
            shared: false,
            has_receiver: true,
            has_handler: false,
            dir_outstanding: false,
            drive_info: None,
            drive_xattrs: Seq::empty(),
            disks: Seq::empty(),
        }
    }

    /// How many disk drives the unit has, as far as is known.
    pub open spec fn num_drives(self) -> u8 {
        match self.drive_info {
            Some(info) => info.device_type.drives(),
            None => 0,
        }
    }

    /// The name of the file system: the model, the number of the device, and a part for
    /// each drive where there are many.
    pub open spec fn fs_name(self) -> Seq<char> {
        let name = match self.drive_info {
            Some(info) => text::lowered(info.device_type.fs_name()),
            None => "cbm"@,
        };
        let base = name + "_u"@ + number::decimal(self.device_num as nat);
        if self.num_drives() > 1 {
            base + drive_parts(self.num_drives() as nat)
        } else {
            base
        }
    }

    /// How the kernel is to mount the file system.
    pub open spec fn options(self, autounmount: bool) -> Seq<MountOptionView> {
        let always = seq![
            MountOptionView::RO,
            MountOptionView::NoSuid,
            MountOptionView::NoAtime,
            MountOptionView::Sync,
            MountOptionView::DirSync,
            MountOptionView::NoDev,
            MountOptionView::FSName(self.fs_name()),
            MountOptionView::Subtype("1541fs"@),
        ];
        if autounmount {
            always + seq![MountOptionView::AllowRoot, MountOptionView::AutoUnmount]
        } else {
            always
        }
    }

    /// Each drive has its disk; every file has an inode of its own, which no directory
    /// has.
    pub open spec fn wf(self) -> bool {
        &&& self.next_inode >= FIRST_FILE_INO
        &&& self.disks.len() == self.num_drives()
        &&& forall|i: int|
            0 <= i < self.disks.len() ==> disk_ok(
                #[trigger] self.disks[i],
                i,
                self.num_drives() > 1,
            )
        &&& inode::inos_ok(inode::all_inos(self.disks), self.next_inode as int)
    }

    /// The file that has an inode.
    pub open spec fn file(self, ino: u64) -> Option<FileEntryView> {
        find_from(self.disks, ino, 0)
    }

    /// The drive that a directory is of, by its inode.
    pub open spec fn drive_of(self, ino: u64) -> Option<u8> {
        match self.file(ino) {
            Some(f) => match f.native {
                FileEntryTypeView::Directory(n) => Some(n),
                _ => None,
            },
            None => None,
        }
    }

    /// The mount with disks whose files lack inodes, once those are given.
    pub open spec fn numbered(self, disks: Seq<DiskInfoView>) -> MountView {
        MountView {
            disks: inode::numbered_disks(disks, self.next_inode as int),
            next_inode: (self.next_inode + inode::missing(inode::all_inos(disks))) as u64,
            ..self
        }
    }

    /// The inodes for the files that lack one are to be had.
    pub open spec fn has_inodes_for(self, disks: Seq<DiskInfoView>) -> bool {
        self.next_inode + inode::missing(inode::all_inos(disks)) <= u64::MAX
    }
}

fn fs_error(message: &str, error: Fs1541Error) -> (e: Error)
    ensures
        e@ == fault(message@, error@),
{
    Error::Fs1541 { message: message.to_owned(), error }
}

// ---------------------------------------------------------------------------
// Invariant
// ---------------------------------------------------------------------------

proof fn lemma_new_inos(n: nat, many: bool, now: SystemTime)
    requires
        n <= 255,
    ensures
        inode::partly_ok(inode::all_inos(new_disks(n, many, now)), FIRST_FILE_INO as int),
        forall|i: int|
            0 <= i < inode::all_inos(new_disks(n, many, now)).len() ==> #[trigger] inode::all_inos(
                new_disks(n, many, now),
            )[i] == 0,
        inode::all_inos(new_disks(n, many, now)).len() == 6 * n,
    decreases n,
{
    let disks = new_disks(n, many, now);
    if n > 0 {
        lemma_new_inos((n - 1) as nat, many, now);
        assert(disks.drop_last() =~= new_disks((n - 1) as nat, many, now));
        assert(disks.last().control_files == file::control_entries(now));
        assert(disks.last().cbm_files == Seq::<FileEntryView>::empty());
    }
}

proof fn lemma_missing_len(s: Seq<u64>)
    ensures
        inode::missing(s) <= s.len(),
    decreases s.len(),
{
    if s.len() > 0 {
        lemma_missing_len(s.drop_last());
    }
}

proof fn lemma_numbered_disk_ok(d: DiskInfoView, next: int, i: int, many: bool)
    requires
        d.drive_num == i,
        d.control_files.len() > 0,
        forall|j: int|
            0 <= j < d.control_files.len() ==> (#[trigger] d.control_files[j]).native is ControlFile,
        forall|j: int| 0 <= j < d.cbm_files.len() ==> (#[trigger] d.cbm_files[j]).native is CbmFile,
        d.disk_dir is Some == many,
        d.disk_dir matches Some(f) ==> (f.ino == 0 || f.ino == inode::drive_ino(d.drive_num))
            && f.native == FileEntryTypeView::Directory(d.drive_num),
    ensures
        disk_ok(inode::numbered_disk(d, next), i, many),
{
    let e = inode::numbered_disk(d, next);
    assert forall|j: int| 0 <= j < e.control_files.len() implies (
    #[trigger] e.control_files[j]).native is ControlFile by {
        assert(e.control_files[j].native == d.control_files[j].native);
    }
    assert forall|j: int| 0 <= j < e.cbm_files.len() implies (
    #[trigger] e.cbm_files[j]).native is CbmFile by {
        assert(e.cbm_files[j].native == d.cbm_files[j].native);
    }
}

proof fn lemma_cbm_entries(files: Seq<CbmFileEntryView>, now: SystemTime)
    ensures
        forall|j: int|
            0 <= j < file::cbm_entries(files, now).len() ==> (#[trigger] file::cbm_entries(
                files,
                now,
            )[j]).native is CbmFile && file::cbm_entries(files, now)[j].ino == 0,
    decreases files.len(),
{
    if files.len() > 0 {
        lemma_cbm_entries(files.drop_last(), now);
    }
}

/// A unit that is set up is in order.
proof fn lemma_setup_wf(m: MountView, many: bool, now: SystemTime)
    requires
        m.next_inode >= FIRST_FILE_INO,
        many == (m.num_drives() > 1),
        m.has_inodes_for(new_disks(m.num_drives() as nat, many, now)),
    ensures
        m.numbered(new_disks(m.num_drives() as nat, many, now)).wf(),
{
    let n = m.num_drives() as nat;
    let disks = new_disks(n, many, now);
    let next = m.next_inode as int;
    lemma_new_inos(n, many, now);
    inode::lemma_numbered_disks(disks, next);
    assert(inode::partly_ok(inode::all_inos(disks), next));
    inode::lemma_filled_ok(inode::all_inos(disks), next);
    let after = m.numbered(disks);
    assert forall|i: int| 0 <= i < after.disks.len() implies disk_ok(
        #[trigger] after.disks[i],
        i,
        many,
    ) by {
        let d = disks[i];
        assert(d.control_files == file::control_entries(now));
        assert forall|j: int| 0 <= j < d.control_files.len() implies (
        #[trigger] d.control_files[j]).native is ControlFile by {}
        lemma_numbered_disk_ok(
            d,
            next + inode::missing(inode::all_inos(disks.take(i))),
            i,
            many,
        );
    }
}

/// What holds of the disks while listings are taken in.
pub open spec fn half_ok(disks: Seq<DiskInfoView>, many: bool, next: int) -> bool {
    &&& forall|i: int| 0 <= i < disks.len() ==> disk_ok(#[trigger] disks[i], i, many)
    &&& inode::partly_ok(inode::all_inos(disks), next)
}

proof fn lemma_listed_step(
    disks: Seq<DiskInfoView>,
    k: int,
    listing: CbmDirListing,
    now: SystemTime,
    many: bool,
    next: int,
)
    requires
        half_ok(disks, many, next),
        0 <= k < disks.len(),
    ensures
        half_ok(disks.update(k, disks[k].updated(listing, now)), many, next),
{
    let d = disks[k];
    let e = d.updated(listing, now);
    let after = disks.update(k, e);
    lemma_cbm_entries(listing@.files, now);
    let x = inode::all_inos(disks.take(k));
    let z = inode::all_inos(disks.skip(k + 1));
    let c = inode::inos(d.control_files);
    let y = inode::inos(d.cbm_files);
    let w = inode::inos(e.cbm_files);
    lemma_all_inos_around(disks, k);
    lemma_all_inos_around(after, k);
    assert(after.take(k) =~= disks.take(k));
    assert(after.skip(k + 1) =~= disks.skip(k + 1));
    assert(x + (c + y) + z =~= (x + c) + y + z);
    assert(x + (c + w) + z =~= (x + c) + w + z);
    assert forall|i: int| 0 <= i < w.len() implies #[trigger] w[i] == 0 by {
        assert(e.cbm_files[i].ino == 0);
    }
    inode::lemma_partly_ok_replaced(x + c, y, z, w, next);
    assert forall|i: int| 0 <= i < after.len() implies disk_ok(#[trigger] after[i], i, many) by {
        assert(disk_ok(disks[i], i, many));
        if i == k {
            assert(after[i] == e);
        } else {
            assert(after[i] == disks[i]);
        }
    }
}

proof fn lemma_all_inos_around(disks: Seq<DiskInfoView>, k: int)
    requires
        0 <= k < disks.len(),
    ensures
        inode::all_inos(disks) == inode::all_inos(disks.take(k)) + (inode::inos(
            disks[k].control_files,
        ) + inode::inos(disks[k].cbm_files)) + inode::all_inos(disks.skip(k + 1)),
{
    assert(disks.take(k + 1).drop_last() =~= disks.take(k));
    assert(disks.take(k + 1).last() == disks[k]);
    assert(disks.take(k + 1) + disks.skip(k + 1) =~= disks);
    inode::lemma_all_inos_add(disks.take(k + 1), disks.skip(k + 1));
}

proof fn lemma_listed_wf(m: MountView, disks: Seq<DiskInfoView>)
    requires
        m.next_inode >= FIRST_FILE_INO,
        disks.len() == m.num_drives(),
        half_ok(disks, m.num_drives() > 1, m.next_inode as int),
        m.has_inodes_for(disks),
    ensures
        m.numbered(disks).wf(),
{
    let next = m.next_inode as int;
    let many = m.num_drives() > 1;
    inode::lemma_numbered_disks(disks, next);
    inode::lemma_filled_ok(inode::all_inos(disks), next);
    let after = m.numbered(disks);
    assert forall|i: int| 0 <= i < after.disks.len() implies disk_ok(
        #[trigger] after.disks[i],
        i,
        many,
    ) by {
        lemma_numbered_disk_ok(
            disks[i],
            next + inode::missing(inode::all_inos(disks.take(i))),
            i,
            many,
        );
    }
}

// ---------------------------------------------------------------------------
// Mounting
// ---------------------------------------------------------------------------

/// What is wrong with the initialization of a device's drives.
pub open spec fn init_fault(
    device_num: u8,
    results: Seq<Result<CbmStatus, Error>>,
) -> Option<ErrorView> {
    if results.len() == 0 {
        Some(
            fault(
                "Failed to initialize any drive units for device "@ + number::decimal(
                    device_num as nat,
                ),
                Fs1541ErrorView::Operation(
                    "init_drive() returned OK, but no status response(s) - perhas the device has no drives?"@,
                ),
            ),
        )
    } else {
        match first_failure(results, 0) {
            Some(i) => Some(
                fault(
                    "Hit error initializing device "@ + number::decimal(device_num as nat)
                        + " drive unit "@ + number::decimal(i as nat),
                    Fs1541ErrorView::Operation(results[i]->Err_0@.text()),
                ),
            ),
            None => None,
        }
    }
}

/// How many results of the initialization are taken in: those before the first error.
pub open spec fn results_taken(results: Seq<Result<CbmStatus, Error>>) -> int {
    match first_failure(results, 0) {
        Some(i) => i,
        None => results.len() as int,
    }
}

impl Mount {
    /// A drive that is yet to be mounted.
    pub fn new(device_num: u8, mountpoint: &str, dummy_formats: bool) -> (m: Self)
        ensures
            m@ == MountView::fresh(device_num, mountpoint@, dummy_formats),
            m@.wf(),
    {
        let m = Mount {
            device_num,
            mountpoint: mountpoint.to_owned(),
            dummy_formats,
            next_inode: FIRST_FILE_INO,
            mounted: false,
            shared: false,
            has_receiver: true,
            has_handler: false,
            dir_outstanding: false,
            drive_info: None,
            drive_xattrs: Vec::new(),
            disk_info: Vec::new(),
        };
        assert(m@ =~= MountView::fresh(device_num, mountpoint@, dummy_formats));
        m
    }

    /// What is mounted where.
    pub fn to_string(&self) -> (s: String)
        ensures
            s@ == "Mount { device_num: "@ + number::decimal(self@.device_num as nat) + ", path: "@
                + self@.mountpoint + " }"@,
    {
        let mut s = "Mount { device_num: ".to_owned();
        push_decimal(&mut s, self.device_num as u64);
        s.append(", path: ");
        s.append(self.mountpoint.as_str());
        s.append(" }");
        s
    }

    /// Takes the next inode.
    pub fn allocate_inode(&mut self) -> (ino: u64)
        requires
            old(self).next_inode < u64::MAX,
        ensures
            ino == old(self).next_inode,
            final(self)@ == (MountView {
                next_inode: (old(self).next_inode + 1) as u64,
                ..old(self)@
            }),
            old(self)@.wf() ==> final(self)@.wf(),
    {
        let ino: u64 = self.next_inode;
        self.next_inode = self.next_inode + 1;
        ino
    }

    /// The number of the device.
    pub fn get_device_num(&self) -> (r: u8)
        ensures
            r == self@.device_num,
    {
        self.device_num
    }

    /// The number of the device.
    pub fn device_number(&self) -> (r: u8)
        ensures
            r == self@.device_num,
    {
        self.device_num
    }

    /// Where the drive is mounted.
    pub fn get_mountpoint(&self) -> (r: &str)
        ensures
            r@ == self@.mountpoint,
    {
        self.mountpoint.as_str()
    }

    /// What the drive has said of itself, if it has.
    pub fn drive_info(&self) -> (r: Option<&CbmDeviceInfo>)
        ensures
            match r {
                Some(info) => self@.drive_info == Some(info@),
                None => self@.drive_info is None,
            },
    {
        match &self.drive_info {
            Some(info) => Some(info),
            None => None,
        }
    }

    /// How many disk drives the unit has, as far as is known.
    pub fn num_drives(&self) -> (r: u8)
        ensures
            r == self@.num_drives(),
            r <= 2,
    {
        match &self.drive_info {
            Some(info) => info.device_type.num_disk_drives(),
            None => 0,
        }
    }

    /// The name of the file system.
    pub fn fs_name(&self) -> (s: String)
        ensures
            s@ == self@.fs_name(),
    {
        let mut s = match &self.drive_info {
            Some(info) => to_lower(info.device_type.to_fs_name().as_str()),
            None => "cbm".to_owned(),
        };
        s.append("_u");
        push_decimal(&mut s, self.device_num as u64);
        let n: u8 = self.num_drives();
        if n > 1 {
            let ghost base = s@;
            let mut i: u8 = 0;
            assert(base + drive_parts(0) =~= base);
            while i < n
                invariant
                    i <= n,
                    s@ == base + drive_parts(i as nat),
                decreases n - i,
            {
                s.append("_d");
                push_decimal(&mut s, i as u64);
                assert(s@ =~= base + drive_parts((i + 1) as nat));
                i = i + 1;
            }
        }
        s
    }

    /// How the kernel is to mount the file system.
    pub fn fuser_mount_options(&self, autounmount: bool) -> (options: Vec<MountOption>)
        ensures
            option_views(options@) == self@.options(autounmount),
    {
        let mut options = vec![
            MountOption::RO,
            MountOption::NoSuid,
            MountOption::NoAtime,
            MountOption::Sync,
            MountOption::DirSync,
            MountOption::NoDev,
            MountOption::FSName(self.fs_name()),
            MountOption::Subtype("1541fs".to_owned()),
        ];
        if autounmount {
            options.push(MountOption::AllowRoot);
            options.push(MountOption::AutoUnmount);
        }
        assert(option_views(options@) =~= self@.options(autounmount));
        options
    }

    /// What comes before mounting: the errors that are to be ignored when the drives are
    /// initialized. What is mounted already is not mounted again.
    pub fn begin_mount(&self) -> (r: Result<Vec<CbmErrorNumber>, Error>)
        ensures
            if self@.mounted {
                r matches Err(e) && e@ == fault(
                    "Mount failure"@,
                    Fs1541ErrorView::Internal(
                        "Trying to mount an already mounted Mount object "@ + self@.mountpoint,
                    ),
                )
            } else {
                r matches Ok(ignore) && ignore@ == ignored_errors()
            },
    {
        if self.mounted {
            let mut s = "Trying to mount an already mounted Mount object ".to_owned();
            s.append(self.mountpoint.as_str());
            return Err(fs_error("Mount failure", Fs1541Error::Internal(s)));
        }
        Ok(
            vec![
                CbmErrorNumber::ReadErrorBlockHeaderNotFound,
                CbmErrorNumber::ReadErrorNoSyncCharacter,
                CbmErrorNumber::ReadErrorDataBlockNotPresent,
                CbmErrorNumber::ReadErrorChecksumErrorInDataBlock,
                CbmErrorNumber::ReadErrorByteDecodingError,
                CbmErrorNumber::ReadErrorChecksumErrorInHeader,
                CbmErrorNumber::DiskIdMismatch,
                CbmErrorNumber::DosMismatch,
                CbmErrorNumber::DriveNotReady,
            ],
        )
    }

    /// Takes in how the drives were initialized, and says whether a disk is in one.
    pub fn drive_init(
        &mut self,
        results: &Vec<Result<CbmStatus, Error>>,
        now: SystemTime,
    ) -> (r: Result<bool, Error>)
        requires
            results_ok(results@),
        ensures
            final(self)@ == (MountView {
                drive_xattrs: with_statuses(
                    old(self)@.drive_xattrs,
                    results@,
                    results_taken(results@),
                    now,
                ),
                ..old(self)@
            }),
            match init_fault(old(self)@.device_num, results@) {
                Some(f) => r matches Err(e) && e@ == f,
                None => r == Ok::<bool, Error>(some_okay(results@, results@.len() as int)),
            },
    {
        if results.len() == 0 {
            let mut message = "Failed to initialize any drive units for device ".to_owned();
            push_decimal(&mut message, self.device_num as u64);
            return Err(
                Error::Fs1541 {
                    message,
                    error: Fs1541Error::Operation(
                        "init_drive() returned OK, but no status response(s) - perhas the device has no drives?".to_owned(),
                    ),
                },
            );
        }
        let ghost start = self@;
        let mut succeeded: bool = false;
        let mut i: usize = 0;
        while i < results.len()
            invariant
                i <= results@.len(),
                results@.len() > 0,
                results_ok(results@),
                start == old(self)@,
                self@ == (MountView {
                    drive_xattrs: with_statuses(start.drive_xattrs, results@, i as int, now),
                    ..start
                }),
                first_failure(results@, 0) == first_failure(results@, i as int),
                succeeded == some_okay(results@, i as int),
            decreases results@.len() - i,
        {
            match &results[i] {
                Ok(status) => {
                    self.update_last_status(status, now);
                    let ghost earlier = succeeded;
                    if let CbmErrorNumberOk::Okay = status.is_ok() {
                        succeeded = true;
                    }
                    proof {
                        if earlier {
                            let j = choose|j: int|
                                0 <= j < i && (#[trigger] results@[j] matches Ok(status)
                                    && cbmtype::ok_of(status@.number) == CbmErrorNumberOk::Okay);
                            assert(0 <= j < i + 1);
                        }
                        assert(results@[i as int] == Ok::<CbmStatus, Error>(*status));
                        assert(succeeded == some_okay(results@, i + 1));
                    }
                },
                Err(e) => {
                    let mut message = "Hit error initializing device ".to_owned();
                    push_decimal(&mut message, self.device_num as u64);
                    message.append(" drive unit ");
                    push_decimal(&mut message, i as u64);
                    return Err(
                        Error::Fs1541 { message, error: Fs1541Error::Operation(e.to_string()) },
                    );
                },
            }
            i = i + 1;
        }
        Ok(succeeded)
    }

    /// Takes in a status of the drive.
    pub fn update_last_status(&mut self, status: &CbmStatus, now: SystemTime)
        ensures
            final(self)@ == (MountView {
                drive_xattrs: with_status(old(self)@.drive_xattrs, *status, now),
                ..old(self)@
            }),
    {
        XattrOps::add_or_replace(&mut self.drive_xattrs, DriveXattr::LastStatus(status.clone()));
        XattrOps::add_or_replace(&mut self.drive_xattrs, DriveXattr::LastStatusTime(now));
        match status.is_ok() {
            CbmErrorNumberOk::Okay => {},
            _ => {
                XattrOps::add_or_replace(
                    &mut self.drive_xattrs,
                    DriveXattr::LastError(status.clone()),
                );
                XattrOps::add_or_replace(&mut self.drive_xattrs, DriveXattr::LastErrorTime(now));
            },
        }
    }

    /// Gives the files that lack an inode one, and the directories of the drives their own.
    fn inode_disk_info(&mut self)
        requires
            old(self)@.has_inodes_for(old(self)@.disks),
        ensures
            final(self)@ == old(self)@.numbered(old(self)@.disks),
    {
        let ghost start = self@;
        self.next_inode = number_disks(&mut self.disk_info, self.next_inode);
        assert(self@ =~= start.numbered(start.disks));
    }

    fn create_disk_info(&mut self, now: SystemTime)
        requires
            old(self)@.next_inode >= FIRST_FILE_INO,
            old(self)@.next_inode <= u64::MAX - 12,
        ensures
            final(self)@ == old(self)@.numbered(
                new_disks(
                    old(self)@.num_drives() as nat,
                    old(self)@.num_drives() > 1,
                    now,
                ),
            ),
            final(self)@.wf(),
    {
        let ghost start = self@;
        let n: u8 = self.num_drives();
        let ghost many = n > 1;
        let mut disks: Vec<DiskInfo> = Vec::new();
        let mut i: u8 = 0;
        assert(inode::disk_views(disks@) =~= new_disks(0, many, now));
        while i < n
            invariant
                i <= n,
                many == (n > 1),
                inode::disk_views(disks@) == new_disks(i as nat, many, now),
            decreases n - i,
        {
            let ghost before = disks@;
            let mut disk = DiskInfo::new(i, now);
            if n > 1 {
                disk.add_disk_dir(now);
            }
            disks.push(disk);
            assert(inode::disk_views(disks@) =~= inode::disk_views(before).push(disk@));
            assert(inode::disk_views(disks@) =~= new_disks((i + 1) as nat, many, now));
            i = i + 1;
        }
        proof {
            lemma_new_inos(n as nat, many, now);
            lemma_missing_len(inode::all_inos(inode::disk_views(disks@)));
            lemma_setup_wf(start, many, now);
        }
        self.disk_info = disks;
        self.inode_disk_info();
        assert(self@ =~= start.numbered(new_disks(n as nat, many, now)));
    }

    /// Mounts a drive whose disk drives were initialized: what it has said of itself is
    /// kept, its attributes are set up anew, and each of its disk drives gets a disk with
    /// control files. What comes back says whether the directory is worth reading.
    pub fn mount(
        &mut self,
        results: &Vec<Result<CbmStatus, Error>>,
        info: CbmDeviceInfo,
        now: SystemTime,
    ) -> (r: Result<bool, Error>)
        requires
            old(self)@.wf(),
            old(self)@.next_inode <= u64::MAX - 12,
            results_ok(results@),
        ensures
            final(self)@.wf(),
            match init_fault(old(self)@.device_num, results@) {
                Some(f) => (r matches Err(e) && e@ == f) && final(self)@ == (MountView {
                    drive_xattrs: with_statuses(
                        old(self)@.drive_xattrs,
                        results@,
                        results_taken(results@),
                        now,
                    ),
                    ..old(self)@
                }),
                None => {
                    let known = MountView { drive_info: Some(info@), ..old(self)@ };
                    let many = known.num_drives() > 1;
                    let setup = known.numbered(new_disks(known.num_drives() as nat, many, now));
                    &&& r == Ok::<bool, Error>(some_okay(results@, results@.len() as int))
                    &&& final(self)@ == (MountView {
                        drive_xattrs: final(self)@.drive_xattrs,
                        ..setup
                    })
                    &&& xattr::are_drive_xattrs(
                        final(self)@.drive_xattrs,
                        known.device_num,
                        info@.device_type.name(),
                        info@.description,
                        known.num_drives(),
                        known.fs_name(),
                        known.mountpoint,
                        now,
                        info@.device_type.dos(),
                    )
                },
            },
    {
        let do_dir: bool = match self.drive_init(results, now) {
            Ok(b) => b,
            Err(e) => return Err(e),
        };
        let model = info.device_type.as_str().to_owned();
        let description = info.description.clone();
        let dos = info.device_type.dos_version();
        self.drive_info = Some(info);
        let fs_name = self.fs_name();
        let n: u8 = self.num_drives();
        self.drive_xattrs = DriveXattr::new(
            self.device_num,
            model,
            description,
            n,
            fs_name,
            self.mountpoint.clone(),
            now,
            dos,
        );
        self.create_disk_info(now);
        Ok(do_dir)
    }

    /// The kernel has been given the file system.
    pub fn update_fuser(&mut self)
        ensures
            final(self)@ == (MountView { mounted: true, ..old(self)@ }),
            old(self)@.wf() ==> final(self)@.wf(),
    {
        self.mounted = true;
    }

    /// The file system is taken from the kernel again.
    pub fn unmount(&mut self)
        ensures
            final(self)@ == (MountView {
                mounted: false,
                shared: false,
                has_handler: false,
                ..old(self)@
            }),
            old(self)@.wf() ==> final(self)@.wf(),
    {
        self.has_handler = false;
        self.shared = false;
        self.mounted = false;
    }
}

// ---------------------------------------------------------------------------
// Background work
// ---------------------------------------------------------------------------

/// The files with the contents of one in its cache.
pub open spec fn cached_files(
    files: Seq<FileEntryView>,
    ino: u64,
    contents: Seq<u8>,
    now: SystemTime,
) -> Seq<FileEntryView> {
    files.map_values(
        |f: FileEntryView|
            if f.ino == ino {
                FileEntryView {
                    cache: Some(
                        file::FileCacheView::empty(now).with_chunk(contents, true, now),
                    ),
                    ..f
                }
            } else {
                f
            },
    )
}

/// The disks with the contents of a file in its cache.
pub open spec fn cached_disks(
    disks: Seq<DiskInfoView>,
    ino: u64,
    contents: Seq<u8>,
    now: SystemTime,
) -> Seq<DiskInfoView> {
    disks.map_values(
        |d: DiskInfoView|
            DiskInfoView { cbm_files: cached_files(d.cbm_files, ino, contents, now), ..d },
    )
}

impl MountView {
    /// The mount after the answer to a request has come: the listings of its disks are
    /// taken in, with the status of the drive, and so are the contents of a file. Other
    /// answers, and failures, change nothing.
    pub open spec fn answered(self, rsp: Result<OpResponseType, Error>, now: SystemTime) -> MountView {
        match rsp {
            Ok(OpResponseType::ReadDirectory { status, listings }) => {
                let known = MountView { dir_outstanding: false, ..self };
                MountView {
                    drive_xattrs: with_status(self.drive_xattrs, status, now),
                    ..known.numbered(listed(self.disks, listings@, now))
                }
            },
            Ok(OpResponseType::ReadFile { inode, contents, .. }) => MountView {
                disks: cached_disks(self.disks, inode, contents@, now),
                ..self
            },
            _ => self,
        }
    }

    /// The answer can be taken in.
    pub open spec fn takes(self, rsp: Result<OpResponseType, Error>, now: SystemTime) -> bool {
        rsp matches Ok(OpResponseType::ReadDirectory { listings, .. }) ==> listings_fit(
            listings@,
            self.disks.len(),
        ) && self.has_inodes_for(listed(self.disks, listings@, now))
    }

    /// What a file on a disk is asked for by.
    pub open spec fn file_request(self, ino: u64) -> Option<Seq<char>> {
        match self.file(ino) {
            Some(f) => match f.native {
                FileEntryTypeView::CbmFile(CbmFileEntryView::ValidFile { filename, .. }) => Some(
                    filename,
                ),
                _ => None,
            },
            None => None,
        }
    }
}

proof fn lemma_cached_inos(disks: Seq<DiskInfoView>, ino: u64, contents: Seq<u8>, now: SystemTime)
    ensures
        inode::all_inos(cached_disks(disks, ino, contents, now)) == inode::all_inos(disks),
    decreases disks.len(),
{
    let after = cached_disks(disks, ino, contents, now);
    if disks.len() > 0 {
        lemma_cached_inos(disks.drop_last(), ino, contents, now);
        assert(after.drop_last() =~= cached_disks(disks.drop_last(), ino, contents, now));
        assert(inode::inos(after.last().cbm_files) =~= inode::inos(disks.last().cbm_files));
    } else {
        assert(after =~= disks);
    }
}

proof fn lemma_cached_wf(m: MountView, ino: u64, contents: Seq<u8>, now: SystemTime)
    requires
        m.wf(),
    ensures
        (MountView { disks: cached_disks(m.disks, ino, contents, now), ..m }).wf(),
{
    lemma_cached_inos(m.disks, ino, contents, now);
    let after = cached_disks(m.disks, ino, contents, now);
    assert forall|i: int| 0 <= i < after.len() implies disk_ok(
        #[trigger] after[i],
        i,
        m.num_drives() > 1,
    ) by {
        assert(disk_ok(m.disks[i], i, m.num_drives() > 1));
        assert forall|j: int| 0 <= j < after[i].cbm_files.len() implies (
        #[trigger] after[i].cbm_files[j]).native is CbmFile by {
            assert(m.disks[i].cbm_files[j].native is CbmFile);
        }
    }
}

fn cache_files(files: &mut Vec<FileEntry>, ino: u64, contents: &[u8], now: SystemTime)
    ensures
        file::file_views(final(files)@) == cached_files(
            file::file_views(old(files)@),
            ino,
            contents@,
            now,
        ),
{
    let ghost all = file::file_views(files@);
    let ghost done = cached_files(all, ino, contents@, now);
    let mut i: usize = 0;
    while i < files.len()
        invariant
            i <= files@.len(),
            files@.len() == all.len(),
            done == cached_files(all, ino, contents@, now),
            forall|j: int| 0 <= j < i ==> (#[trigger] files@[j])@ == done[j],
            forall|j: int| i <= j < files@.len() ==> (#[trigger] files@[j])@ == all[j],
        decreases files@.len() - i,
    {
        assert(files@[i as int]@ == all[i as int]);
        if files[i].inode() == ino {
            files[i].set_cache(contents, now);
        }
        assert(files@[i as int]@ == done[i as int]);
        i = i + 1;
    }
    assert(file::file_views(files@) =~= done);
}

impl Mount {
    /// What is to be sent to have the directory read, unless it was asked for already.
    pub fn dir_request(&self) -> (r: Option<OpType>)
        ensures
            r == (if self@.dir_outstanding {
                None
            } else {
                Some(OpType::ReadDirectory { device: self@.device_num })
            }),
    {
        if self.dir_outstanding {
            None
        } else {
            Some(OpType::ReadDirectory { device: self.device_num })
        }
    }

    /// Takes in whether the request for the directory could be sent.
    pub fn do_dir(&mut self, sent: bool)
        ensures
            final(self)@ == (MountView {
                dir_outstanding: old(self)@.dir_outstanding || sent,
                ..old(self)@
            }),
            old(self)@.wf() ==> final(self)@.wf(),
    {
        if sent {
            self.dir_outstanding = true;
        }
    }

    /// Takes in whether the request for the directory could be sent, or why not. Where it
    /// was not sent, as it was asked for already, all is well.
    pub fn do_dir_sync(&mut self, sent: Option<Result<(), String>>) -> (r: Result<(), Error>)
        ensures
            match sent {
                Some(Err(s)) => final(self)@ == old(self)@ && (r matches Err(e) && e@ == fault(
                    "Failed to send read diretory request"@,
                    Fs1541ErrorView::Operation(s@),
                )),
                Some(Ok(_)) => r is Ok && final(self)@ == (MountView {
                    dir_outstanding: true,
                    ..old(self)@
                }),
                None => r is Ok && final(self)@ == old(self)@,
            },
            old(self)@.wf() ==> final(self)@.wf(),
    {
        match sent {
            Some(Ok(_)) => {
                self.dir_outstanding = true;
                Ok(())
            },
            Some(Err(s)) => Err(
                fs_error("Failed to send read diretory request", Fs1541Error::Operation(s)),
            ),
            None => Ok(()),
        }
    }

    /// What is to be sent to have a file on a disk read.
    pub fn read_file_sync(&self, ino: u64) -> (r: Result<OpType, Error>)
        ensures
            match self@.file_request(ino) {
                Some(name) => r matches Ok(OpType::ReadFile { device, path, inode }) && device
                    == self@.device_num && path@ == name && inode == ino,
                None => r matches Err(e) && e@ == fault(
                    "Failed to read file"@,
                    Fs1541ErrorView::FileAccess(""@),
                ),
            },
    {
        match self.file_by_inode(ino) {
            Some(file) => match &file.native {
                FileEntryType::CbmFile(CbmFileEntry::ValidFile { filename, .. }) => {
                    return Ok(
                        OpType::ReadFile {
                            device: self.device_num,
                            path: filename.clone(),
                            inode: ino,
                        },
                    );
                },
                _ => {},
            },
            None => {},
        }
        Err(fs_error("Failed to read file", Fs1541Error::FileAccess("".to_owned())))
    }

    /// The mount is shared with those that answer for it. That happens once.
    pub fn set_shared_self(&mut self) -> (r: Result<(), Error>)
        ensures
            if old(self)@.shared {
                final(self)@ == old(self)@ && (r matches Err(e) && e@ == fault(
                    "Failed to set Mount shared self"@,
                    Fs1541ErrorView::Internal("Mount shared self already exists"@),
                ))
            } else {
                r is Ok && final(self)@ == (MountView { shared: true, ..old(self)@ })
            },
            old(self)@.wf() ==> final(self)@.wf(),
    {
        if self.shared {
            Err(
                fs_error(
                    "Failed to set Mount shared self",
                    Fs1541Error::Internal("Mount shared self already exists".to_owned()),
                ),
            )
        } else {
            self.shared = true;
            Ok(())
        }
    }

    /// Whether the directory has been asked for.
    pub fn set_dir_outstanding(&mut self, outstanding: bool)
        ensures
            final(self)@ == (MountView { dir_outstanding: outstanding, ..old(self)@ }),
            old(self)@.wf() ==> final(self)@.wf(),
    {
        self.dir_outstanding = outstanding;
    }

    /// From now on somebody waits for responses. That takes a mount that is shared, and
    /// happens once.
    pub fn create_bg_response_thread(&mut self) -> (r: Result<(), Error>)
        ensures
            if !old(self)@.shared || !old(self)@.has_receiver {
                final(self)@ == old(self)@ && (r matches Err(e) && e@ == fault(
                    "Cannot create Mount BG processor response thread"@,
                    Fs1541ErrorView::Internal(
                        "Missing either Mount shared self or BG response receiver, or both"@,
                    ),
                ))
            } else if old(self)@.has_handler {
                final(self)@ == old(self)@ && (r matches Err(e) && e@ == fault(
                    "Cannot create Mount BG processor response thread"@,
                    Fs1541ErrorView::Internal("Already exists"@),
                ))
            } else {
                r is Ok && final(self)@ == (MountView {
                    has_receiver: false,
                    has_handler: true,
                    ..old(self)@
                })
            },
            old(self)@.wf() ==> final(self)@.wf(),
    {
        if !self.shared || !self.has_receiver {
            return Err(
                fs_error(
                    "Cannot create Mount BG processor response thread",
                    Fs1541Error::Internal(
                        "Missing either Mount shared self or BG response receiver, or both".to_owned(),
                    ),
                ),
            );
        }
        if self.has_handler {
            return Err(
                fs_error(
                    "Cannot create Mount BG processor response thread",
                    Fs1541Error::Internal("Already exists".to_owned()),
                ),
            );
        }
        self.has_receiver = false;
        self.has_handler = true;
        Ok(())
    }

    /// Takes in listings of the disks, and gives the files on them inodes.
    pub fn process_directory_listings(&mut self, listings: &Vec<CbmDirListing>, now: SystemTime)
        requires
            old(self)@.wf(),
            listings_fit(listings@, old(self)@.disks.len()),
            old(self)@.has_inodes_for(listed(old(self)@.disks, listings@, now)),
        ensures
            final(self)@ == old(self)@.numbered(listed(old(self)@.disks, listings@, now)),
            final(self)@.wf(),
    {
        let ghost start = self@;
        let ghost many = start.num_drives() > 1;
        let ghost next = start.next_inode as int;
        let mut i: usize = 0;
        assert(listings@.take(0) =~= Seq::empty());
        while i < listings.len()
            invariant
                i <= listings@.len(),
                listings_fit(listings@, start.disks.len()),
                many == (start.num_drives() > 1),
                next == start.next_inode,
                self@ == (MountView {
                    disks: listed(start.disks, listings@.take(i as int), now),
                    ..start
                }),
                self@.disks.len() == start.disks.len(),
                half_ok(self@.disks, many, next),
            decreases listings@.len() - i,
        {
            let listing = &listings[i];
            let drive: usize = listing.header.drive_number as usize;
            let ghost before = self@;
            proof {
                assert(listings@[i as int] == *listing);
                assert(listings@.take(i + 1).drop_last() =~= listings@.take(i as int));
                assert(listings@.take(i + 1).last() == *listing);
            }
            if drive <= 1 {
                proof {
                    assert(disk_ok(before.disks[drive as int], drive as int, many));
                    assert(self.disk_info@[drive as int]@ == before.disks[drive as int]);
                    lemma_listed_step(before.disks, drive as int, *listing, now, many, next);
                }
                self.disk_info[drive].update_from_dir_listing(listing, now);
                assert(self@.disks =~= before.disks.update(
                    drive as int,
                    before.disks[drive as int].updated(*listing, now),
                ));
            }
            i = i + 1;
        }
        assert(listings@.take(i as int) =~= listings@);
        proof {
            lemma_listed_wf(start, self@.disks);
        }
        self.inode_disk_info();
        assert(self@ =~= start.numbered(listed(start.disks, listings@, now)));
    }

    /// Takes in the answer to a request.
    pub fn process_bg_response(&mut self, rsp: Result<OpResponseType, Error>, now: SystemTime)
        requires
            old(self)@.wf(),
            old(self)@.takes(rsp, now),
        ensures
            final(self)@ == old(self)@.answered(rsp, now),
            final(self)@.wf(),
    {
        match rsp {
            Ok(OpResponseType::ReadDirectory { status, listings }) => {
                self.dir_outstanding = false;
                self.process_directory_listings(&listings, now);
                self.update_last_status(&status, now);
            },
            Ok(OpResponseType::ReadFile { inode, contents, .. }) => {
                let ghost start = self@;
                let ghost done = cached_disks(start.disks, inode, contents@, now);
                let mut i: usize = 0;
                while i < self.disk_info.len()
                    invariant
                        i <= self.disk_info@.len(),
                        self.disk_info@.len() == start.disks.len(),
                        done == cached_disks(start.disks, inode, contents@, now),
                        self@ == (MountView { disks: self@.disks, ..start }),
                        forall|j: int| 0 <= j < i ==> (#[trigger] self.disk_info@[j])@ == done[j],
                        forall|j: int|
                            i <= j < self.disk_info@.len() ==> (#[trigger] self.disk_info@[j])@
                                == start.disks[j],
                    decreases self.disk_info@.len() - i,
                {
                    assert(self.disk_info@[i as int]@ == start.disks[i as int]);
                    cache_files(
                        &mut self.disk_info[i].cbm_files,
                        inode,
                        contents.as_slice(),
                        now,
                    );
                    assert(self.disk_info@[i as int]@ == done[i as int]);
                    i = i + 1;
                }
                assert(self@.disks =~= done);
                proof {
                    lemma_cached_wf(start, inode, contents@, now);
                }
            },
            _ => {},
        }
    }

    /// The file that has an inode.
    pub fn file_by_inode(&self, ino: u64) -> (r: Option<&FileEntry>)
        ensures
            match r {
                Some(f) => self@.file(ino) == Some(f@),
                None => self@.file(ino) is None,
            },
    {
        let mut i: usize = 0;
        while i < self.disk_info.len()
            invariant
                i <= self.disk_info@.len(),
                self@.file(ino) == find_from(self@.disks, ino, i as int),
            decreases self.disk_info@.len() - i,
        {
            let disk = &self.disk_info[i];
            assert(self@.disks[i as int] == disk@);
            if let Some(f) = find_in(&disk.control_files, ino) {
                return Some(f);
            }
            if let Some(f) = find_in(&disk.cbm_files, ino) {
                return Some(f);
            }
            if let Some(f) = &disk.disk_dir {
                if f.inode() == ino {
                    return Some(f);
                }
            }
            i = i + 1;
        }
        None
    }

    /// The attributes of the disk in a drive.
    pub fn disk_xattrs(&self, drive_num: u8) -> (r: &Vec<DiskXattr>)
        requires
            drive_num < self@.disks.len(),
        ensures
            r@ == self@.disks[drive_num as int].xattrs,
    {
        &self.disk_info[drive_num as usize].xattrs
    }

    /// The attributes of the drive.
    pub fn drive_xattrs(&self) -> (r: &Vec<DriveXattr>)
        ensures
            r@ == self@.drive_xattrs,
    {
        &self.drive_xattrs
    }

    /// The disks.
    pub fn disk_info(&self) -> (r: &Vec<DiskInfo>)
        ensures
            inode::disk_views(r@) == self@.disks,
    {
        &self.disk_info
    }

    /// The files in a drive: those of its disk, and none of a drive that there is not.
    pub fn get_drive_files(&self, drive_num: u8) -> (r: Vec<FileEntry>)
        requires
            self@.wf(),
        ensures
            file::file_views(r@) == self@.drive_files(drive_num),
    {
        if drive_num < self.num_drives() {
            assert(self@.disks[drive_num as int] == self.disk_info@[drive_num as int]@);
            self.disk_info[drive_num as usize].files()
        } else {
            let r: Vec<FileEntry> = Vec::new();
            assert(file::file_views(r@) =~= Seq::empty());
            r
        }
    }

    /// The directory of a drive, where it has one.
    pub fn get_drive_dir(&self, drive_num: u8) -> (r: Option<FileEntry>)
        requires
            self@.wf(),
        ensures
            match r {
                Some(f) => self@.drive_dir(drive_num) == Some(f@),
                None => self@.drive_dir(drive_num) is None,
            },
    {
        if drive_num < self.num_drives() {
            assert(self@.disks[drive_num as int] == self.disk_info@[drive_num as int]@);
            match &self.disk_info[drive_num as usize].disk_dir {
                Some(f) => Some(f.copy()),
                None => None,
            }
        } else {
            None
        }
    }

    /// The drive that a directory is of, by its inode.
    pub fn get_drive_num_by_inode(&self, ino: u64) -> (r: Option<u8>)
        ensures
            r == self@.drive_of(ino),
    {
        match self.file_by_inode(ino) {
            Some(f) => match f.native {
                FileEntryType::Directory(n) => Some(n),
                _ => None,
            },
            None => None,
        }
    }

    /// Whether the directory of a drive is to be read again: it was never read, or a span
    /// of time has gone by since. Nothing is read of a drive that there is not.
    pub fn should_refresh_dir(&self, drive_num: u8, cache_duration: Duration, now: SystemTime) -> (r:
        bool)
        requires
            self@.wf(),
        ensures
            r == self@.is_stale(drive_num, cache_duration, now),
    {
        if drive_num >= self.num_drives() {
            return false;
        }
        assert(self@.disks[drive_num as int] == self.disk_info@[drive_num as int]@);
        match &self.disk_info[drive_num as usize].disk_read_time {
            None => true,
            Some(read) => now.has_passed(&cache_duration, read),
        }
    }
}

impl MountView {
    /// The files in a drive: those of its disk, and none of a drive that there is not.
    pub open spec fn drive_files(self, drive_num: u8) -> Seq<FileEntryView> {
        if drive_num < self.num_drives() {
            self.disks[drive_num as int].all_files()
        } else {
            Seq::empty()
        }
    }

    /// The directory of a drive, where it has one.
    pub open spec fn drive_dir(self, drive_num: u8) -> Option<FileEntryView> {
        if drive_num < self.num_drives() {
            self.disks[drive_num as int].disk_dir
        } else {
            None
        }
    }

    /// The directory of a drive was never read, or a span of time has gone by since.
    pub open spec fn is_stale(self, drive_num: u8, span: Duration, now: SystemTime) -> bool {
        drive_num < self.num_drives() && match self.disks[drive_num as int].disk_read_time {
            None => true,
            Some(read) => now.in_nanos() < read.in_nanos() || now.in_nanos() - read.in_nanos()
                >= span.in_nanos(),
        }
    }
}

fn find_in(files: &Vec<FileEntry>, ino: u64) -> (r: Option<&FileEntry>)
    ensures
        match r {
            Some(f) => find_file(file::file_views(files@), ino, 0) == Some(f@),
            None => find_file(file::file_views(files@), ino, 0) is None,
        },
{
    let mut i: usize = 0;
    while i < files.len()
        invariant
            i <= files@.len(),
            find_file(file::file_views(files@), ino, 0) == find_file(
                file::file_views(files@),
                ino,
                i as int,
            ),
        decreases files@.len() - i,
    {
        assert(file::file_views(files@)[i as int] == files@[i as int]@);
        if files[i].inode() == ino {
            return Some(&files[i]);
        }
        i = i + 1;
    }
    None
}

// ---------------------------------------------------------------------------
// Requests
// ---------------------------------------------------------------------------

/// What is wrong with the number of a device.
pub open spec fn device_fault(device: u8) -> Option<ErrorView> {
    match validate::bus_device_fault(device) {
        Some(e) => Some(
            ErrorView::Rs1541 { message: "Device validation failed"@, error: e },
        ),
        None => None,
    }
}

/// What is wrong with a path as a mountpoint. The path must be absolute.
pub open spec fn path_fault(path: Seq<char>, vtype: ValidationType, facts: PathFacts) -> Option<
    ErrorView,
> {
    let words = match validate::absolute_path(path, false, facts) {
        Err(s) => Some(s),
        Ok(p) => validate::mountpoint_fault(p, vtype, facts),
    };
    match words {
        Some(s) => Some(
            fault("Mountpoint validation failed"@, Fs1541ErrorView::Validation(s)),
        ),
        None => None,
    }
}

/// What is wrong with a request to mount.
pub open spec fn mount_request_fault(path: Seq<char>, device: u8, facts: PathFacts) -> Option<
    ErrorView,
> {
    match device_fault(device) {
        Some(e) => Some(e),
        None => path_fault(path, ValidationType::Mount, facts),
    }
}

/// What is wrong with a request to unmount. It names a mountpoint or a device, not both.
pub open spec fn unmount_request_fault(
    path: Option<Seq<char>>,
    device: Option<u8>,
    facts: PathFacts,
) -> Option<ErrorView> {
    match (path, device) {
        (None, None) => Some(
            fault(
                "Validation failure"@,
                Fs1541ErrorView::Validation("Either mountpoint or device must be specified"@),
            ),
        ),
        (Some(_), Some(_)) => Some(
            fault(
                "Validation failure"@,
                Fs1541ErrorView::Validation(
                    "For an unmount only one of mountpoint or device must be specified"@,
                ),
            ),
        ),
        (Some(p), None) => path_fault(p, ValidationType::Unmount, facts),
        (None, Some(d)) => device_fault(d),
    }
}

fn check_device(device: u8) -> (r: Result<(), Error>)
    ensures
        match device_fault(device) {
            Some(f) => r matches Err(e) && e@ == f,
            None => r is Ok,
        },
{
    match validate_bus_device(device) {
        Ok(_) => Ok(()),
        Err(error) => Err(
            Error::Rs1541 { message: "Device validation failed".to_owned(), error },
        ),
    }
}

fn check_path(path: &str, vtype: ValidationType, facts: &PathFacts) -> (r: Result<String, Error>)
    ensures
        match path_fault(path@, vtype, *facts) {
            Some(f) => r matches Err(e) && e@ == f,
            None => r matches Ok(p) && p@ == path@,
        },
{
    match validate_mountpoint(path, vtype, false, facts) {
        Ok(p) => Ok(p),
        Err(e) => {
            let words = match e {
                CbmError::ValidationError(s) => s,
                other => other.to_string(),
            };
            Err(fs_error("Mountpoint validation failed", Fs1541Error::Validation(words)))
        },
    }
}

/// Validates a request to mount: the number of the device, and the mountpoint, which
/// comes back as it is.
pub fn validate_mount_request(mountpoint: &str, device: u8, facts: &PathFacts) -> (r: Result<
    String,
    Error,
>)
    ensures
        match mount_request_fault(mountpoint@, device, *facts) {
            Some(f) => r matches Err(e) && e@ == f,
            None => r matches Ok(p) && p@ == mountpoint@,
        },
{
    match check_device(device) {
        Ok(_) => check_path(mountpoint, ValidationType::Mount, facts),
        Err(e) => Err(e),
    }
}

/// A path that may be missing.
pub open spec fn path_view(path: Option<&str>) -> Option<Seq<char>> {
    match path {
        Some(p) => Some(p@),
        None => None,
    }
}

/// Validates a request to unmount.
pub fn validate_unmount_request(
    mountpoint: Option<&str>,
    device: Option<u8>,
    facts: &PathFacts,
) -> (r: Result<(), Error>)
    ensures
        match unmount_request_fault(path_view(mountpoint), device, *facts) {
            Some(f) => r matches Err(e) && e@ == f,
            None => r is Ok,
        },
{
    match (mountpoint, device) {
        (None, None) => Err(
            fs_error(
                "Validation failure",
                Fs1541Error::Validation(
                    "Either mountpoint or device must be specified".to_owned(),
                ),
            ),
        ),
        (Some(_), Some(_)) => Err(
            fs_error(
                "Validation failure",
                Fs1541Error::Validation(
                    "For an unmount only one of mountpoint or device must be specified".to_owned(),
                ),
            ),
        ),
        (Some(path), None) => match check_path(path, ValidationType::Unmount, facts) {
            Ok(_) => Ok(()),
            Err(e) => Err(e),
        },
        (None, Some(d)) => check_device(d),
    }
}

// ---------------------------------------------------------------------------
// Laws
// ---------------------------------------------------------------------------

proof fn lemma_find_file(files: Seq<FileEntryView>, ino: u64, from: int)
    requires
        0 <= from,
    ensures
        match find_file(files, ino, from) {
            Some(f) => exists|j: int| from <= j < files.len() && #[trigger] files[j] == f && f.ino == ino,
            None => forall|j: int| from <= j < files.len() ==> (#[trigger] files[j]).ino != ino,
        },
    decreases files.len() - from,
{
    if from < files.len() && files[from].ino != ino {
        lemma_find_file(files, ino, from + 1);
    }
}

proof fn lemma_find_from(disks: Seq<DiskInfoView>, ino: u64, from: int, k: int)
    requires
        0 <= from <= k < disks.len(),
        forall|i: int| from <= i < k ==> find_on_disk(#[trigger] disks[i], ino) is None,
        find_on_disk(disks[k], ino) is Some,
    ensures
        find_from(disks, ino, from) == find_on_disk(disks[k], ino),
    decreases k - from,
{
    if from < k {
        assert(find_on_disk(disks[from], ino) is None);
        lemma_find_from(disks, ino, from + 1, k);
    }
}

/// Where the inodes of a disk's files stand among those of all.
proof fn lemma_place(disks: Seq<DiskInfoView>, k: int) -> (start: int)
    requires
        0 <= k < disks.len(),
    ensures
        start == inode::all_inos(disks.take(k)).len(),
        0 <= start,
        start + disks[k].control_files.len() + disks[k].cbm_files.len() <= inode::all_inos(
            disks,
        ).len(),
        forall|j: int|
            0 <= j < disks[k].control_files.len() ==> (#[trigger] disks[k].control_files[j]).ino
                == inode::all_inos(disks)[start + j],
        forall|j: int|
            0 <= j < disks[k].cbm_files.len() ==> (#[trigger] disks[k].cbm_files[j]).ino
                == inode::all_inos(disks)[start + disks[k].control_files.len() + j],
{
    lemma_all_inos_around(disks, k);
    inode::all_inos(disks.take(k)).len() as int
}

proof fn lemma_places_in_order(disks: Seq<DiskInfoView>, a: int, b: int)
    requires
        0 <= a < b < disks.len(),
    ensures
        inode::all_inos(disks.take(a)).len() + disks[a].control_files.len()
            + disks[a].cbm_files.len() <= inode::all_inos(disks.take(b)).len(),
{
    assert(disks.take(b).take(a) =~= disks.take(a));
    assert(disks.take(b)[a] == disks[a]);
    lemma_all_inos_around(disks.take(b), a);
}

/// A disk that does not have the file is passed over.
proof fn lemma_other_disk(m: MountView, k: int, j: int, control: bool, i: int)
    requires
        m.wf(),
        0 <= k < m.disks.len(),
        0 <= i < m.disks.len(),
        i != k,
        control ==> 0 <= j < m.disks[k].control_files.len(),
        !control ==> 0 <= j < m.disks[k].cbm_files.len(),
    ensures
        find_on_disk(
            m.disks[i],
            if control {
                m.disks[k].control_files[j].ino
            } else {
                m.disks[k].cbm_files[j].ino
            },
        ) is None,
{
    let all = inode::all_inos(m.disks);
    let s = lemma_place(m.disks, k);
    let t = lemma_place(m.disks, i);
    if i < k {
        lemma_places_in_order(m.disks, i, k);
    } else {
        lemma_places_in_order(m.disks, k, i);
    }
    let d = m.disks[i];
    let p = if control {
        s + j
    } else {
        s + m.disks[k].control_files.len() + j
    };
    let ino = all[p];
    if control {
        assert(m.disks[k].control_files[j].ino == ino);
    } else {
        assert(m.disks[k].cbm_files[j].ino == ino);
    }
    lemma_find_file(d.control_files, ino, 0);
    lemma_find_file(d.cbm_files, ino, 0);
    assert forall|x: int| 0 <= x < d.control_files.len() implies (
    #[trigger] d.control_files[x]).ino != ino by {
        assert(d.control_files[x].ino == all[t + x]);
    }
    assert forall|x: int| 0 <= x < d.cbm_files.len() implies (#[trigger] d.cbm_files[x]).ino != ino by {
        assert(d.cbm_files[x].ino == all[t + d.control_files.len() + x]);
    }
    assert(disk_ok(d, i, m.num_drives() > 1));
}

proof fn lemma_find_own(files: Seq<FileEntryView>, j: int, from: int)
    requires
        0 <= from <= j < files.len(),
        forall|x: int| from <= x < j ==> (#[trigger] files[x]).ino != files[j].ino,
    ensures
        find_file(files, files[j].ino, from) == Some(files[j]),
    decreases j - from,
{
    if from < j {
        assert(files[from].ino != files[j].ino);
        lemma_find_own(files, j, from + 1);
    }
}

/// Every file is found by its inode: a control file, a file on a disk, and the directory
/// of a drive. No inode is that of the root, and the inodes of files and of directories
/// do not mix.
pub proof fn law_file_by_inode(m: MountView, k: int, j: int)
    requires
        m.wf(),
        0 <= k < m.disks.len(),
    ensures
        0 <= j < m.disks[k].control_files.len() ==> {
            let f = m.disks[k].control_files[j];
            m.file(f.ino) == Some(f) && f.ino >= FIRST_FILE_INO
        },
        0 <= j < m.disks[k].cbm_files.len() ==> {
            let f = m.disks[k].cbm_files[j];
            m.file(f.ino) == Some(f) && f.ino >= FIRST_FILE_INO
        },
        m.disks[k].disk_dir matches Some(f) ==> m.file(f.ino) == Some(f) && file::FUSE_ROOT_ID
            < f.ino < FIRST_FILE_INO && m.drive_of(f.ino) == Some(k as u8),
{
    let all = inode::all_inos(m.disks);
    let d = m.disks[k];
    let many = m.num_drives() > 1;
    let s = lemma_place(m.disks, k);
    assert(disk_ok(d, k, many));
    if 0 <= j < d.control_files.len() {
        let f = d.control_files[j];
        assert(f.ino == all[s + j]);
        assert forall|x: int| 0 <= x < j implies (#[trigger] d.control_files[x]).ino != f.ino by {
            assert(d.control_files[x].ino == all[s + x]);
        }
        lemma_find_own(d.control_files, j, 0);
        assert forall|i: int| 0 <= i < k implies find_on_disk(
            #[trigger] m.disks[i],
            f.ino,
        ) is None by {
            lemma_other_disk(m, k, j, true, i);
        }
        lemma_find_from(m.disks, f.ino, 0, k);
    }
    if 0 <= j < d.cbm_files.len() {
        let f = d.cbm_files[j];
        let n = d.control_files.len();
        assert(f.ino == all[s + n + j]);
        lemma_find_file(d.control_files, f.ino, 0);
        assert forall|x: int| 0 <= x < n implies (#[trigger] d.control_files[x]).ino != f.ino by {
            assert(d.control_files[x].ino == all[s + x]);
        }
        assert forall|x: int| 0 <= x < j implies (#[trigger] d.cbm_files[x]).ino != f.ino by {
            assert(d.cbm_files[x].ino == all[s + n + x]);
        }
        lemma_find_own(d.cbm_files, j, 0);
        assert forall|i: int| 0 <= i < k implies find_on_disk(
            #[trigger] m.disks[i],
            f.ino,
        ) is None by {
            lemma_other_disk(m, k, j, false, i);
        }
        lemma_find_from(m.disks, f.ino, 0, k);
    }
    if d.disk_dir is Some {
        let ino = inode::drive_ino(d.drive_num);
        assert forall|i: int| 0 <= i <= k implies {
            &&& find_file((#[trigger] m.disks[i]).control_files, ino, 0) is None
            &&& find_file(m.disks[i].cbm_files, ino, 0) is None
            &&& i < k ==> find_on_disk(m.disks[i], ino) is None
        } by {
            let e = m.disks[i];
            let t = lemma_place(m.disks, i);
            assert(disk_ok(e, i, many));
            lemma_find_file(e.control_files, ino, 0);
            lemma_find_file(e.cbm_files, ino, 0);
            assert forall|x: int| 0 <= x < e.control_files.len() implies (
            #[trigger] e.control_files[x]).ino != ino by {
                assert(e.control_files[x].ino == all[t + x]);
            }
            assert forall|x: int| 0 <= x < e.cbm_files.len() implies (
            #[trigger] e.cbm_files[x]).ino != ino by {
                assert(e.cbm_files[x].ino == all[t + e.control_files.len() + x]);
            }
        }
        lemma_find_from(m.disks, ino, 0, k);
    }
}

/// A directory is that of a drive that there is.
pub proof fn lemma_directory_drive(m: MountView, ino: u64)
    requires
        m.wf(),
    ensures
        m.drive_of(ino) matches Some(n) ==> n < m.num_drives(),
{
    lemma_directory_from(m, ino, 0);
}

proof fn lemma_directory_from(m: MountView, ino: u64, from: int)
    requires
        m.wf(),
        0 <= from,
    ensures
        find_from(m.disks, ino, from) matches Some(f) ==> (f.native matches
            FileEntryTypeView::Directory(n) ==> n < m.num_drives()),
    decreases m.disks.len() - from,
{
    if from < m.disks.len() {
        let d = m.disks[from];
        assert(disk_ok(d, from, m.num_drives() > 1));
        lemma_find_file(d.control_files, ino, 0);
        lemma_find_file(d.cbm_files, ino, 0);
        lemma_directory_from(m, ino, from + 1);
    }
}

/// The root's inode is no file's, and neither is 0.
pub proof fn law_no_root(m: MountView, ino: u64)
    requires
        m.wf(),
        ino <= file::FUSE_ROOT_ID,
    ensures
        m.file(ino) is None,
{
    lemma_no_root_from(m, ino, 0);
}

proof fn lemma_no_root_from(m: MountView, ino: u64, from: int)
    requires
        m.wf(),
        ino <= file::FUSE_ROOT_ID,
        0 <= from,
    ensures
        find_from(m.disks, ino, from) is None,
    decreases m.disks.len() - from,
{
    if from < m.disks.len() {
        let d = m.disks[from];
        let all = inode::all_inos(m.disks);
        let s = lemma_place(m.disks, from);
        assert(disk_ok(d, from, m.num_drives() > 1));
        lemma_find_file(d.control_files, ino, 0);
        lemma_find_file(d.cbm_files, ino, 0);
        assert forall|x: int| 0 <= x < d.control_files.len() implies (
        #[trigger] d.control_files[x]).ino != ino by {
            assert(d.control_files[x].ino == all[s + x]);
        }
        assert forall|x: int| 0 <= x < d.cbm_files.len() implies (
        #[trigger] d.cbm_files[x]).ino != ino by {
            assert(d.cbm_files[x].ino == all[s + d.control_files.len() + x]);
        }
        lemma_no_root_from(m, ino, from + 1);
    }
}

/// What has an inode keeps it when the files that lack one are given theirs.
pub proof fn law_inodes_are_kept(m: MountView, disks: Seq<DiskInfoView>, k: int, j: int)
    requires
        0 <= k < disks.len(),
    ensures
        0 <= j < disks[k].control_files.len() && disks[k].control_files[j].ino != 0 ==> m.numbered(
            disks,
        ).disks[k].control_files[j] == disks[k].control_files[j],
        0 <= j < disks[k].cbm_files.len() && disks[k].cbm_files[j].ino != 0 ==> m.numbered(
            disks,
        ).disks[k].cbm_files[j] == disks[k].cbm_files[j],
{
    inode::lemma_numbered_disks(disks, m.next_inode as int);
}

proof fn lemma_listed_keeps(disks: Seq<DiskInfoView>, listings: Seq<CbmDirListing>, now: SystemTime)
    requires
        listings_fit(listings, disks.len()),
    ensures
        listed(disks, listings, now).len() == disks.len(),
        forall|i: int|
            0 <= i < disks.len() ==> (#[trigger] listed(disks, listings, now)[i]).control_files
                == disks[i].control_files,
    decreases listings.len(),
{
    if listings.len() > 0 {
        assert forall|i: int| 0 <= i < listings.drop_last().len() implies (
        #[trigger] listings.drop_last()[i]).header.drive_number > 1 || (
        listings.drop_last()[i].header.drive_number < disks.len()
            && listings.drop_last()[i]@.total() <= 65535) by {
            assert(listings.drop_last()[i] == listings[i]);
        }
        lemma_listed_keeps(disks, listings.drop_last(), now);
        assert(listings.last() == listings[listings.len() - 1]);
    }
}

/// A directory that is read leaves the control files as they were, inodes and all.
pub proof fn law_control_files_stay(
    m: MountView,
    listings: Seq<CbmDirListing>,
    now: SystemTime,
    k: int,
)
    requires
        m.wf(),
        0 <= k < m.disks.len(),
        listings_fit(listings, m.disks.len()),
    ensures
        m.numbered(listed(m.disks, listings, now)).disks[k].control_files
            == m.disks[k].control_files,
{
    let disks = listed(m.disks, listings, now);
    lemma_listed_keeps(m.disks, listings, now);
    inode::lemma_numbered_disks(disks, m.next_inode as int);
    let all = inode::all_inos(m.disks);
    let s = lemma_place(m.disks, k);
    let after = m.numbered(disks).disks[k].control_files;
    assert forall|j: int| 0 <= j < after.len() implies #[trigger] after[j]
        == m.disks[k].control_files[j] by {
        assert(m.disks[k].control_files[j].ino == all[s + j]);
        law_inodes_are_kept(m, disks, k, j);
    }
    assert(after =~= m.disks[k].control_files);
}

/// Once the contents of a file on a disk have come, they are found in its cache, and
/// nothing else about the file has changed.
pub proof fn law_contents_are_cached(
    m: MountView,
    k: int,
    j: int,
    contents: Seq<u8>,
    now: SystemTime,
)
    requires
        m.wf(),
        0 <= k < m.disks.len(),
        0 <= j < m.disks[k].cbm_files.len(),
    ensures
        ({
            let f = m.disks[k].cbm_files[j];
            let after = MountView { disks: cached_disks(m.disks, f.ino, contents, now), ..m };
            after.file(f.ino) == Some(
                FileEntryView {
                    cache: Some(file::FileCacheView::empty(now).with_chunk(contents, true, now)),
                    ..f
                },
            )
        }),
{
    let f = m.disks[k].cbm_files[j];
    let after = MountView { disks: cached_disks(m.disks, f.ino, contents, now), ..m };
    lemma_cached_wf(m, f.ino, contents, now);
    law_file_by_inode(after, k, j);
}

} // verus!

//! The mounts: which drive is mounted where.
use vstd::prelude::*;

use crate::cbm::CbmDriveUnit;
use crate::cbmtype::{CbmDeviceInfo, CbmError, CbmErrorNumber, CbmStatus};
use crate::error::{Error, ErrorView, Fs1541Error, Fs1541ErrorView};
use crate::number;
use crate::number::push_decimal;
use crate::server::drivemgr;
use crate::server::drivemgr::DriveManager;
use crate::server::mount;
use crate::server::mount::{Mount, MountView};
use crate::server::xattr;
use crate::text::same;
use crate::time::SystemTime;
use crate::{MAX_DEVICE_NUM, MIN_DEVICE_NUM};

verus! {

/// What is mounted. No two mounts have the same mountpoint.
#[derive(Debug)]
pub struct MountService {
    pub mounts: Vec<Mount>,
}

impl View for MountService {
    type V = Seq<MountView>;

    open spec fn view(&self) -> Seq<MountView> {
        self.mounts@.map_values(|m: Mount| m@)
    }
}

/// Every mount is in order, and no two have the same mountpoint.
pub open spec fn mounts_ok(mounts: Seq<MountView>) -> bool {
    &&& forall|i: int| 0 <= i < mounts.len() ==> (#[trigger] mounts[i]).wf()
    &&& forall|i: int, j: int|
        0 <= i < j < mounts.len() ==> (#[trigger] mounts[i]).mountpoint != (
        #[trigger] mounts[j]).mountpoint
}

/// The first mount at or after a position that has a mountpoint.
pub open spec fn at_path_from(mounts: Seq<MountView>, path: Seq<char>, from: int) -> Option<int>
    decreases mounts.len() - from,
{
    if from < 0 || from >= mounts.len() {
        None
    } else if mounts[from].mountpoint == path {
        Some(from)
    } else {
        at_path_from(mounts, path, from + 1)
    }
}

/// The mount at a mountpoint.
pub open spec fn at_path(mounts: Seq<MountView>, path: Seq<char>) -> Option<int> {
    at_path_from(mounts, path, 0)
}

/// The first mount at or after a position that is of a device.
pub open spec fn of_device_from(mounts: Seq<MountView>, device: u8, from: int) -> Option<int>
    decreases mounts.len() - from,
{
    if from < 0 || from >= mounts.len() {
        None
    } else if mounts[from].device_num == device {
        Some(from)
    } else {
        of_device_from(mounts, device, from + 1)
    }
}

/// The mount of a device.
pub open spec fn of_device(mounts: Seq<MountView>, device: u8) -> Option<int> {
    of_device_from(mounts, device, 0)
}

/// The mounts with one more. One that was at its mountpoint already gives way to it.
pub open spec fn with_mount(mounts: Seq<MountView>, m: MountView) -> Seq<MountView> {
    match at_path(mounts, m.mountpoint) {
        Some(i) => mounts.update(i, m),
        None => mounts.push(m),
    }
}

/// A mount after it was taken from the kernel.
pub open spec fn unmounted(m: MountView) -> MountView {
    MountView { mounted: false, shared: false, has_handler: false, ..m }
}

/// The error for a mountpoint that nothing is mounted at.
pub open spec fn no_mount(path: Seq<char>) -> ErrorView {
    mount::fault(
        "Mountpoint "@ + path + " not found"@,
        Fs1541ErrorView::Operation("Mountpoint not found"@),
    )
}

/// The error for a device that is not mounted.
pub open spec fn no_device(device: u8) -> ErrorView {
    mount::fault(
        "Device "@ + number::decimal(device as nat) + " not found"@,
        Fs1541ErrorView::Operation("Device not found"@),
    )
}

/// The error for a mountpoint that something is mounted at already.
pub open spec fn mount_exists(path: Seq<char>) -> ErrorView {
    mount::fault(
        "Already have mount at "@ + path,
        Fs1541ErrorView::Operation("Mount already exists"@),
    )
}

proof fn lemma_at_path(mounts: Seq<MountView>, path: Seq<char>, from: int)
    requires
        0 <= from,
    ensures
        match at_path_from(mounts, path, from) {
            Some(i) => from <= i < mounts.len() && mounts[i].mountpoint == path,
            None => forall|j: int|
                from <= j < mounts.len() ==> (#[trigger] mounts[j]).mountpoint != path,
        },
    decreases mounts.len() - from,
{
    if from < mounts.len() && mounts[from].mountpoint != path {
        lemma_at_path(mounts, path, from + 1);
    }
}

proof fn lemma_of_device(mounts: Seq<MountView>, device: u8, from: int)
    requires
        0 <= from,
    ensures
        match of_device_from(mounts, device, from) {
            Some(i) => from <= i < mounts.len() && mounts[i].device_num == device,
            None => forall|j: int|
                from <= j < mounts.len() ==> (#[trigger] mounts[j]).device_num != device,
        },
    decreases mounts.len() - from,
{
    if from < mounts.len() && mounts[from].device_num != device {
        lemma_of_device(mounts, device, from + 1);
    }
}

proof fn lemma_with_mount(mounts: Seq<MountView>, m: MountView)
    requires
        mounts_ok(mounts),
        m.wf(),
    ensures
        mounts_ok(with_mount(mounts, m)),
{
    let after = with_mount(mounts, m);
    lemma_at_path(mounts, m.mountpoint, 0);
    assert forall|i: int| 0 <= i < after.len() implies (#[trigger] after[i]).wf() by {
        if i < mounts.len() {
            assert(mounts[i].wf());
        }
    }
    assert forall|i: int, j: int| 0 <= i < j < after.len() implies (
    #[trigger] after[i]).mountpoint != (#[trigger] after[j]).mountpoint by {
        assert(mounts[i].mountpoint == after[i].mountpoint);
        if j < mounts.len() {
            assert(mounts[j].mountpoint == after[j].mountpoint);
        }
    }
}

impl MountService {
    /// Nothing is mounted.
    pub fn new() -> (s: Self)
        ensures
            s@ == Seq::<MountView>::empty(),
            mounts_ok(s@),
    {
        let s = MountService { mounts: Vec::new() };
        assert(s@ =~= Seq::<MountView>::empty());
        s
    }

    fn position(&self, mountpoint: &str) -> (r: Option<usize>)
        ensures
            match r {
                Some(i) => i < self@.len() && at_path(self@, mountpoint@) == Some(i as int),
                None => at_path(self@, mountpoint@) is None,
            },
    {
        let mut i: usize = 0;
        while i < self.mounts.len()
            invariant
                i <= self.mounts@.len(),
                at_path(self@, mountpoint@) == at_path_from(self@, mountpoint@, i as int),
            decreases self.mounts@.len() - i,
        {
            assert(self@[i as int] == self.mounts@[i as int]@);
            if same(self.mounts[i].get_mountpoint(), mountpoint) {
                return Some(i);
            }
            i = i + 1;
        }
        None
    }

    fn position_of_device(&self, device_number: u8) -> (r: Option<usize>)
        ensures
            match r {
                Some(i) => i < self@.len() && of_device(self@, device_number) == Some(i as int),
                None => of_device(self@, device_number) is None,
            },
    {
        let mut i: usize = 0;
        while i < self.mounts.len()
            invariant
                i <= self.mounts@.len(),
                of_device(self@, device_number) == of_device_from(self@, device_number, i as int),
            decreases self.mounts@.len() - i,
        {
            assert(self@[i as int] == self.mounts@[i as int]@);
            if self.mounts[i].get_device_num() == device_number {
                return Some(i);
            }
            i = i + 1;
        }
        None
    }

    /// Begins to mount a drive that was found on the bus, or was not: the drive is put to
    /// use, unless one is already under its number, and its disk drives are to be
    /// initialized, with some errors ignored.
    pub fn begin_mount(
        &self,
        drive_mgr: &mut DriveManager,
        device_number: u8,
        mountpoint: &str,
        dummy_formats: bool,
        found: Result<CbmDriveUnit, CbmError>,
    ) -> (r: Result<(Mount, Vec<CbmErrorNumber>), Error>)
        ensures
            if !(MIN_DEVICE_NUM <= device_number <= MAX_DEVICE_NUM) {
                final(drive_mgr)@ == old(drive_mgr)@ && (r matches Err(e) && e@
                    == drivemgr::bad_number(device_number))
            } else {
                match found {
                    Err(c) => final(drive_mgr)@ == old(drive_mgr)@ && (r matches Err(e) && e@
                        == drivemgr::bus_error("Failed to create drive "@, device_number, c)),
                    Ok(unit) => final(drive_mgr)@ == drivemgr::added(
                        old(drive_mgr)@,
                        device_number,
                        unit,
                    ) && (if old(drive_mgr)@.contains_key(device_number) {
                        r matches Err(e) && e@ == drivemgr::already_there(device_number)
                    } else {
                        r matches Ok((m, ignore)) && m@ == MountView::fresh(
                            device_number,
                            mountpoint@,
                            dummy_formats,
                        ) && m@.wf() && ignore@ == mount::ignored_errors()
                    }),
                }
            },
    {
        match drive_mgr.add_drive(device_number, found) {
            Ok(_) => {},
            Err(e) => return Err(e),
        }
        let m = Mount::new(device_number, mountpoint, dummy_formats);
        match m.begin_mount() {
            Ok(ignore) => Ok((m, ignore)),
            Err(e) => Err(e),
        }
    }

    /// Goes on once the disk drives were initialized. Where they could not be, the drive
    /// is taken out of use again.
    pub fn drives_initialized(
        &self,
        drive_mgr: &mut DriveManager,
        m: &mut Mount,
        results: Result<Vec<Result<CbmStatus, Error>>, Error>,
        info: CbmDeviceInfo,
        now: SystemTime,
    ) -> (r: Result<bool, Error>)
        requires
            old(m)@.wf(),
            old(m)@.next_inode <= u64::MAX - 12,
            results matches Ok(list) ==> mount::results_ok(list@),
        ensures
            final(m)@.wf(),
            match results {
                Err(e) => r == Err::<bool, Error>(e) && final(m)@ == old(m)@ && final(drive_mgr)@
                    == drivemgr::removed(old(drive_mgr)@, old(m)@.device_num),
                Ok(list) => match mount::init_fault(old(m)@.device_num, list@) {
                    Some(f) => {
                        &&& r matches Err(e) && e@ == f
                        &&& final(drive_mgr)@ == drivemgr::removed(
                            old(drive_mgr)@,
                            old(m)@.device_num,
                        )
                        &&& final(m)@ == (MountView {
                            drive_xattrs: mount::with_statuses(
                                old(m)@.drive_xattrs,
                                list@,
                                mount::results_taken(list@),
                                now,
                            ),
                            ..old(m)@
                        })
                    },
                    None => {
                        let known = MountView { drive_info: Some(info@), ..old(m)@ };
                        let disks = mount::new_disks(
                            known.num_drives() as nat,
                            known.num_drives() > 1,
                            now,
                        );
                        &&& r == Ok::<bool, Error>(mount::some_okay(list@, list@.len() as int))
                        &&& final(drive_mgr)@ == old(drive_mgr)@
                        &&& final(m)@ == (MountView {
                            drive_xattrs: final(m)@.drive_xattrs,
                            ..known.numbered(disks)
                        })
                        &&& xattr::are_drive_xattrs(
                            final(m)@.drive_xattrs,
                            known.device_num,
                            info@.device_type.name(),
                            info@.description,
                            known.num_drives(),
                            known.fs_name(),
                            known.mountpoint,
                            now,
                            info@.device_type.dos(),
                        )
                    },
                },
            },
    {
        let device: u8 = m.get_device_num();
        let r = match results {
            Ok(list) => m.mount(&list, info, now),
            Err(e) => Err(e),
        };
        match r {
            Ok(do_dir) => Ok(do_dir),
            Err(e) => {
                let _ = drive_mgr.remove_drive(device);
                Err(e)
            },
        }
    }

    /// Ends mounting once the kernel was to be given the file system. What was mounted at
    /// the mountpoint already gives way, and that is an error.
    pub fn finish_mount(
        &mut self,
        drive_mgr: &mut DriveManager,
        m: Mount,
        spawned: Result<(), String>,
    ) -> (r: Result<(), Error>)
        requires
            mounts_ok(old(self)@),
            m@.wf(),
        ensures
            mounts_ok(final(self)@),
            match spawned {
                Err(s) => final(self)@ == old(self)@ && final(drive_mgr)@ == old(drive_mgr)@ && (
                r matches Err(e) && e@ == (ErrorView::Io {
                    message: "Failed to spawn FUSE mount"@,
                    error: s@,
                })),
                Ok(_) => final(self)@ == with_mount(
                    old(self)@,
                    MountView { mounted: true, ..m@ },
                ) && (if at_path(old(self)@, m@.mountpoint) is Some {
                    final(drive_mgr)@ == drivemgr::removed(old(drive_mgr)@, m@.device_num) && (
                    r matches Err(e) && e@ == mount_exists(m@.mountpoint))
                } else {
                    final(drive_mgr)@ == old(drive_mgr)@ && r is Ok
                }),
            },
    {
        match spawned {
            Ok(_) => {},
            Err(error) => return Err(
                Error::Io { message: "Failed to spawn FUSE mount".to_owned(), error },
            ),
        }
        let ghost before = self@;
        let mut m = m;
        m.update_fuser();
        proof {
            lemma_with_mount(before, m@);
        }
        let device: u8 = m.get_device_num();
        match self.position(m.get_mountpoint()) {
            Some(i) => {
                let mut message = "Already have mount at ".to_owned();
                message.append(m.get_mountpoint());
                let ghost view = m@;
                self.mounts.set(i, m);
                assert(self@ =~= with_mount(before, view));
                let _ = drive_mgr.remove_drive(device);
                Err(
                    Error::Fs1541 {
                        message,
                        error: Fs1541Error::Operation("Mount already exists".to_owned()),
                    },
                )
            },
            None => {
                let ghost view = m@;
                self.mounts.push(m);
                assert(self@ =~= with_mount(before, view));
                Ok(())
            },
        }
    }

    /// The mount at a mountpoint.
    pub fn get_mount(&self, mountpoint: &str) -> (r: Result<&Mount, Error>)
        ensures
            match at_path(self@, mountpoint@) {
                Some(i) => r matches Ok(m) && m@ == self@[i],
                None => r matches Err(e) && e@ == no_mount(mountpoint@),
            },
    {
        match self.position(mountpoint) {
            Some(i) => Ok(&self.mounts[i]),
            None => {
                let mut message = "Mountpoint ".to_owned();
                message.append(mountpoint);
                message.append(" not found");
                Err(
                    Error::Fs1541 {
                        message,
                        error: Fs1541Error::Operation("Mountpoint not found".to_owned()),
                    },
                )
            },
        }
    }

    /// The mount of a device.
    pub fn get_mount_from_device_num(&self, device_number: u8) -> (r: Result<&Mount, Error>)
        ensures
            match of_device(self@, device_number) {
                Some(i) => r matches Ok(m) && m@ == self@[i],
                None => r matches Err(e) && e@ == no_device(device_number),
            },
    {
        match self.position_of_device(device_number) {
            Some(i) => Ok(&self.mounts[i]),
            None => Err(device_not_found(device_number)),
        }
    }

    /// Unmounts a drive, by its mountpoint, at which something must be mounted, or by its
    /// number. The drive is taken out of use; where that fails, the mount stays, unless it
    /// is forced to go.
    pub fn unmount(
        &mut self,
        drive_mgr: &mut DriveManager,
        device_number: Option<u8>,
        mountpoint: Option<&str>,
        force: bool,
    ) -> (r: Result<(), Error>)
        requires
            mounts_ok(old(self)@),
            device_number is Some != mountpoint is Some,
            mountpoint matches Some(p) ==> at_path(old(self)@, p@) is Some,
        ensures
            mounts_ok(final(self)@),
            match (match mountpoint {
                Some(p) => at_path(old(self)@, p@),
                None => of_device(old(self)@, device_number->0),
            }) {
                None => final(self)@ == old(self)@ && final(drive_mgr)@ == old(drive_mgr)@ && (
                r matches Err(e) && e@ == no_device(device_number->0)),
                Some(i) => {
                    let device = old(self)@[i].device_num;
                    let fault = drivemgr::remove_fault(old(drive_mgr)@, device);
                    &&& final(drive_mgr)@ == drivemgr::removed(old(drive_mgr)@, device)
                    &&& if fault is Some && !force {
                        final(self)@ == old(self)@.update(i, unmounted(old(self)@[i])) && (
                        r matches Err(e) && Some(e@) == fault)
                    } else {
                        final(self)@ == old(self)@.remove(i) && r is Ok
                    }
                },
            },
    {
        let ghost before = self@;
        proof {
            match mountpoint {
                Some(p) => lemma_at_path(before, p@, 0),
                None => lemma_of_device(before, device_number->0, 0),
            }
        }
        let found: Option<usize> = match mountpoint {
            Some(p) => self.position(p),
            None => match device_number {
                Some(d) => self.position_of_device(d),
                None => None,
            },
        };
        let i: usize = match found {
            Some(i) => i,
            None => {
                let d: u8 = match device_number {
                    Some(d) => d,
                    None => 0,
                };
                return Err(device_not_found(d));
            },
        };
        let device: u8 = self.mounts[i].get_device_num();
        assert(before[i as int] == self.mounts@[i as int]@);
        assert(before[i as int].wf());
        self.mounts[i].unmount();
        assert(self@ =~= before.update(i as int, unmounted(before[i as int])));
        let ghost middle = self@;
        proof {
            lemma_unmounted_ok(before, i as int);
        }
        match drive_mgr.remove_drive(device) {
            Ok(_) => {},
            Err(e) => {
                if !force {
                    return Err(e);
                }
            },
        }
        let _ = self.mounts.remove(i);
        assert(self@ =~= middle.remove(i as int));
        assert(self@ =~= before.remove(i as int));
        proof {
            lemma_removed_ok(before, i as int);
        }
        Ok(())
    }

    /// Unmounts everything. The drives are taken out of use, but for those at work.
    pub fn cleanup(&mut self, drive_mgr: &mut DriveManager)
        requires
            mounts_ok(old(self)@),
        ensures
            final(self)@ == Seq::<MountView>::empty(),
            drives_are_freed(old(self)@, old(drive_mgr)@, final(drive_mgr)@),
    {
        let ghost start = self@;
        let ghost drives = drive_mgr@;
        let ghost mut n: int = 0;
        assert(start.skip(0) =~= start);
        while self.mounts.len() > 0
            invariant
                0 <= n <= start.len(),
                self@ == start.skip(n),
                mounts_ok(self@),
                forall|d: u8| #[trigger]
                    drive_mgr@.contains_key(d) <==> drives.contains_key(d) && !(has_device(
                        start.take(n),
                        d,
                    ) && !drives[d].busy),
                forall|d: u8| #[trigger]
                    drive_mgr@.contains_key(d) ==> drive_mgr@[d] == drives[d],
            decreases self.mounts@.len(),
        {
            let ghost before = self@;
            let ghost held = drive_mgr@;
            let path = clone_text(self.mounts[0].get_mountpoint());
            assert(before[0] == self.mounts@[0]@);
            proof {
                lemma_at_path(before, path@, 0);
            }
            let _ = self.unmount(drive_mgr, None, Some(path.as_str()), true);
            proof {
                assert(at_path(before, path@) == Some(0int));
                assert(self@ =~= start.skip(n + 1));
                let gone = before[0].device_num;
                assert(start[n] == before[0]);
                assert forall|d: u8| #[trigger]
                    drive_mgr@.contains_key(d) <==> drives.contains_key(d) && !(has_device(
                        start.take(n + 1),
                        d,
                    ) && !drives[d].busy) by {
                    lemma_has_device(start, n, d);
                    assert(held.contains_key(d) <==> drives.contains_key(d) && !(has_device(
                        start.take(n),
                        d,
                    ) && !drives[d].busy));
                    if held.contains_key(gone) {
                        assert(held[gone] == drives[gone]);
                    }
                }
                assert forall|d: u8| #[trigger] drive_mgr@.contains_key(d) implies drive_mgr@[d]
                    == drives[d] by {
                    assert(held.contains_key(d));
                }
                n = n + 1;
            }
        }
        assert(self@ =~= Seq::<MountView>::empty());
        assert(n == start.len());
        assert(start.take(n) =~= start);
    }
}

/// The drives that were mounted are out of use, but for those at work, and the others are as
/// they were.
pub open spec fn drives_are_freed(
    mounts: Seq<MountView>,
    before: Map<u8, CbmDriveUnit>,
    after: Map<u8, CbmDriveUnit>,
) -> bool {
    &&& forall|d: u8| #[trigger]
        after.contains_key(d) <==> before.contains_key(d) && !(has_device(mounts, d)
            && !before[d].busy)
    &&& forall|d: u8| #[trigger] after.contains_key(d) ==> after[d] == before[d]
}

/// One of the mounts is of a device.
pub open spec fn has_device(mounts: Seq<MountView>, device: u8) -> bool {
    exists|i: int| 0 <= i < mounts.len() && (#[trigger] mounts[i]).device_num == device
}

proof fn lemma_has_device(mounts: Seq<MountView>, n: int, device: u8)
    requires
        0 <= n < mounts.len(),
    ensures
        has_device(mounts.take(n + 1), device) == (has_device(mounts.take(n), device)
            || mounts[n].device_num == device),
{
    let longer = mounts.take(n + 1);
    let shorter = mounts.take(n);
    if has_device(longer, device) {
        let i = choose|i: int| 0 <= i < longer.len() && (#[trigger] longer[i]).device_num == device;
        if i < n {
            assert(shorter[i] == longer[i]);
        }
    }
    if has_device(shorter, device) {
        let i = choose|i: int| 0 <= i < shorter.len() && (#[trigger] shorter[i]).device_num
            == device;
        assert(longer[i] == shorter[i]);
    }
    assert(longer[n] == mounts[n]);
}

proof fn lemma_unmounted_ok(mounts: Seq<MountView>, i: int)
    requires
        mounts_ok(mounts),
        0 <= i < mounts.len(),
    ensures
        mounts_ok(mounts.update(i, unmounted(mounts[i]))),
{
    let after = mounts.update(i, unmounted(mounts[i]));
    assert forall|j: int| 0 <= j < after.len() implies (#[trigger] after[j]).wf() by {
        assert(mounts[j].wf());
    }
    assert forall|a: int, b: int| 0 <= a < b < after.len() implies (
    #[trigger] after[a]).mountpoint != (#[trigger] after[b]).mountpoint by {
        assert(mounts[a].mountpoint != mounts[b].mountpoint);
    }
}

proof fn lemma_removed_ok(mounts: Seq<MountView>, i: int)
    requires
        mounts_ok(mounts),
        0 <= i < mounts.len(),
    ensures
        mounts_ok(mounts.remove(i)),
{
    let after = mounts.remove(i);
    assert forall|j: int| 0 <= j < after.len() implies (#[trigger] after[j]).wf() by {
        if j < i {
            assert(after[j] == mounts[j]);
        } else {
            assert(after[j] == mounts[j + 1]);
        }
    }
    assert forall|a: int, b: int| 0 <= a < b < after.len() implies (
    #[trigger] after[a]).mountpoint != (#[trigger] after[b]).mountpoint by {
        let x = if a < i {
            a
        } else {
            a + 1
        };
        let y = if b < i {
            b
        } else {
            b + 1
        };
        assert(after[a] == mounts[x] && after[b] == mounts[y]);
    }
}

fn clone_text(s: &str) -> (r: String)
    ensures
        r@ == s@,
{
    s.to_owned()
}

fn device_not_found(device_number: u8) -> (e: Error)
    ensures
        e@ == no_device(device_number),
{
    let mut message = "Device ".to_owned();
    push_decimal(&mut message, device_number as u64);
    message.append(" not found");
    Error::Fs1541 { message, error: Fs1541Error::Operation("Device not found".to_owned()) }
}

/// What was mounted at a mountpoint where nothing was is found there, and once it is taken
/// away all mounts are as they were.
pub proof fn law_unmount_undoes_mount(mounts: Seq<MountView>, m: MountView)
    requires
        at_path(mounts, m.mountpoint) is None,
    ensures
        at_path(with_mount(mounts, m), m.mountpoint) == Some(mounts.len() as int),
        with_mount(mounts, m)[mounts.len() as int] == m,
        with_mount(mounts, m).remove(mounts.len() as int) == mounts,
{
    lemma_at_path(mounts, m.mountpoint, 0);
    let after = with_mount(mounts, m);
    lemma_at_path(after, m.mountpoint, 0);
    let i = at_path(after, m.mountpoint)->0;
    assert(after[mounts.len() as int].mountpoint == m.mountpoint);
    if i < mounts.len() {
        assert(after[i] == mounts[i]);
    }
    assert(after.remove(mounts.len() as int) =~= mounts);
}

/// What is mounted at a mountpoint.
pub open spec fn mounted_at(mounts: Seq<MountView>, path: Seq<char>) -> Option<MountView> {
    match at_path(mounts, path) {
        Some(i) => Some(mounts[i]),
        None => None,
    }
}

proof fn lemma_found_at(mounts: Seq<MountView>, j: int)
    requires
        mounts_ok(mounts),
        0 <= j < mounts.len(),
    ensures
        at_path(mounts, mounts[j].mountpoint) == Some(j),
{
    let path = mounts[j].mountpoint;
    lemma_at_path(mounts, path, 0);
    let i = at_path(mounts, path)->0;
    if i < j {
        assert(mounts[i].mountpoint != mounts[j].mountpoint);
    } else if j < i {
        assert(mounts[j].mountpoint != mounts[i].mountpoint);
    }
}

/// Mounts do not get in each other's way: what is mounted at a mountpoint, or taken away from
/// there, leaves what is found at any other as it was, and after it was taken away nothing is
/// found there.
pub proof fn law_mounts_are_independent(mounts: Seq<MountView>, m: MountView, path: Seq<char>)
    requires
        mounts_ok(mounts),
        m.wf(),
        path != m.mountpoint,
    ensures
        mounted_at(with_mount(mounts, m), m.mountpoint) == Some(m),
        mounted_at(with_mount(mounts, m), path) == mounted_at(mounts, path),
        at_path(mounts, m.mountpoint) matches Some(i) ==> mounted_at(
            mounts.remove(i),
            m.mountpoint,
        ) is None && mounted_at(mounts.remove(i), path) == mounted_at(mounts, path),
{
    let after = with_mount(mounts, m);
    lemma_with_mount(mounts, m);
    lemma_at_path(mounts, m.mountpoint, 0);
    lemma_at_path(mounts, path, 0);
    lemma_at_path(after, path, 0);
    match at_path(mounts, m.mountpoint) {
        Some(i) => {
            lemma_found_at(after, i);
        },
        None => {
            lemma_found_at(after, mounts.len() as int);
        },
    }
    match at_path(mounts, path) {
        Some(k) => {
            assert(after[k] == mounts[k]);
            lemma_found_at(after, k);
        },
        None => {
            if let Some(k) = at_path(after, path) {
                if k < mounts.len() {
                    assert(after[k] == mounts[k] || after[k] == m);
                }
            }
        },
    }
    if let Some(i) = at_path(mounts, m.mountpoint) {
        let less = mounts.remove(i);
        lemma_removed_ok(mounts, i);
        lemma_at_path(less, m.mountpoint, 0);
        lemma_at_path(less, path, 0);
        if let Some(k) = at_path(less, m.mountpoint) {
            let j = if k < i {
                k
            } else {
                k + 1
            };
            assert(less[k] == mounts[j]);
            lemma_found_at(mounts, j);
        }
        match at_path(mounts, path) {
            Some(k) => {
                let j = if k < i {
                    k
                } else {
                    k - 1
                };
                assert(less[j] == mounts[k]);
                lemma_found_at(less, j);
            },
            None => {
                if let Some(k) = at_path(less, path) {
                    let j = if k < i {
                        k
                    } else {
                        k + 1
                    };
                    assert(less[k] == mounts[j]);
                }
            },
        }
    }
}

} // verus!

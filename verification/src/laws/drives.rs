//! What can be relied on of the models of drives, and of what a mount of each shows.
use vstd::prelude::*;

use crate::cbmtype::{CbmDeviceInfo, CbmDeviceType};
use crate::server::file;
use crate::server::file::FileType;
use crate::server::fusermount;
use crate::server::fusermount::{FuserMount, ReadDirNext};
use crate::server::inode;
use crate::server::mount;
use crate::server::mount::Mount;
use crate::time::SystemTime;

verus! {

/// The model has two disk drives in one unit.
pub open spec fn is_dual(t: CbmDeviceType) -> bool {
    t is Cbm2040 || t is Cbm3040 || t is Cbm4040 || t is Cbm8050 || t is Cbm8250
}

/// A unit has two disk drives exactly if its model is one of 2040, 3040, 4040, 8050 and 8250,
/// none if its model is unknown, and one else.
pub proof fn law_drives_of_a_model(t: CbmDeviceType, n: u8)
    requires
        call_ensures(CbmDeviceType::num_disk_drives, (&t,), n),
    ensures
        n == 2 <==> is_dual(t),
        n == 0 <==> t is Unknown,
        n == 1 <==> !is_dual(t) && !(t is Unknown),
{
}

/// What is mounted has as many disks as its model has drives, and none before the model is
/// known.
pub proof fn law_disks_of_a_mount(mount: Mount, n: u8)
    requires
        mount@.wf(),
        call_ensures(Mount::num_drives, (&mount,), n),
    ensures
        mount.disk_info@.len() == n,
        match mount.drive_info {
            None => n == 0,
            Some(info) => if is_dual(info.device_type) {
                n == 2
            } else if info.device_type is Unknown {
                n == 0
            } else {
                n == 1
            },
        },
{
    assert(mount@.disks.len() == mount.disk_info@.len());
}

/// The root of a mount of a model with one drive holds the files of its one disk: besides
/// itself and what is above it, each control file and each file of the disk, by its name and
/// inode. Else it is first asked what is on that disk.
pub proof fn law_root_of_one_drive(
    f: FuserMount,
    mount: Mount,
    info: CbmDeviceInfo,
    now: SystemTime,
    r: ReadDirNext,
)
    requires
        mount@.wf(),
        mount.drive_info == Some(info),
        !is_dual(info.device_type),
        !(info.device_type is Unknown),
        call_ensures(FuserMount::readdir, (&f, &mount, 1, 0i64, now), r),
    ensures
        ({
            let disk = mount.disk_info@[0];
            let controls = disk.control_files@;
            let files = disk.cbm_files@;
            match r {
                ReadDirNext::Reply(entries) => {
                    &&& entries@.len() == 2 + controls.len() + files.len()
                    &&& entries@[0].name@ == "."@ && entries@[0].ino == 1
                    &&& entries@[1].name@ == ".."@ && entries@[1].ino == 1
                    &&& forall|i: int|
                        0 <= i < controls.len() ==> {
                            &&& (#[trigger] entries@[2 + i]).name@ == controls[i].fuse.name@
                            &&& entries@[2 + i].ino == controls[i].fuse.ino
                            &&& entries@[2 + i].kind == FileType::RegularFile
                        }
                    &&& forall|i: int|
                        0 <= i < files.len() ==> {
                            &&& (#[trigger] entries@[2 + controls.len() + i]).name@
                                == files[i].fuse.name@
                            &&& entries@[2 + controls.len() + i].ino == files[i].fuse.ino
                            &&& entries@[2 + controls.len() + i].kind == FileType::RegularFile
                        }
                },
                ReadDirNext::Request(s) => s.drive == 0 && s.ino == 1 && s.offset == 0 && s.count
                    == 0,
                _ => false,
            }
        }),
{
    let m = mount@;
    assert(m.disks.len() == 1);
    assert(mount::disk_ok(m.disks[0], 0, false));
    assert(m.disks[0] == mount.disk_info@[0]@);
    if let ReadDirNext::Reply(entries) = r {
        let shown = fusermount::entry_views(entries@);
        assert(shown == fusermount::dir_entries(1, m.drive_files(0), 0));
        assert(entries@.len() == shown.len());
        let disk = mount.disk_info@[0];
        let controls = disk.control_files@;
        let files = disk.cbm_files@;
        assert(m.drive_files(0) == file::file_views(controls) + file::file_views(files));
        assert(shown[0] == entries@[0]@);
        assert(shown[1] == entries@[1]@);
        assert forall|i: int| 0 <= i < controls.len() implies {
            &&& (#[trigger] entries@[2 + i]).name@ == controls[i].fuse.name@
            &&& entries@[2 + i].ino == controls[i].fuse.ino
            &&& entries@[2 + i].kind == FileType::RegularFile
        } by {
            assert(shown[2 + i] == entries@[2 + i]@);
            assert(m.drive_files(0)[i] == controls[i]@);
            assert(m.disks[0].control_files[i].native is ControlFile);
        }
        assert forall|i: int| 0 <= i < files.len() implies {
            &&& (#[trigger] entries@[2 + controls.len() + i]).name@ == files[i].fuse.name@
            &&& entries@[2 + controls.len() + i].ino == files[i].fuse.ino
            &&& entries@[2 + controls.len() + i].kind == FileType::RegularFile
        } by {
            assert(shown[2 + controls.len() + i] == entries@[2 + controls.len() + i]@);
            assert(m.drive_files(0)[controls.len() + i] == files[i]@);
            assert(m.disks[0].cbm_files[i].native is CbmFile);
        }
    }
}

/// The root of a mount of a model with two drives holds a directory for each.
pub proof fn law_root_of_two_drives(
    f: FuserMount,
    mount: Mount,
    info: CbmDeviceInfo,
    now: SystemTime,
    r: ReadDirNext,
)
    requires
        mount@.wf(),
        mount.drive_info == Some(info),
        is_dual(info.device_type),
        call_ensures(FuserMount::readdir, (&f, &mount, 1, 0i64, now), r),
    ensures
        r matches ReadDirNext::Reply(entries) && {
            &&& entries@.len() == 4
            &&& entries@[0].name@ == "."@ && entries@[0].ino == 1
            &&& entries@[1].name@ == ".."@ && entries@[1].ino == 1
            &&& forall|k: int|
                0 <= k < 2 ==> (mount.disk_info@[k].disk_dir matches Some(dir) && (
                #[trigger] entries@[2 + k]).name@ == dir.fuse.name@ && entries@[2 + k].ino == 2 + k
                    && entries@[2 + k].kind == FileType::Directory)
        },
{
    let m = mount@;
    assert(m.disks.len() == 2);
    assert(m.disks[0] == mount.disk_info@[0]@);
    assert(m.disks[1] == mount.disk_info@[1]@);
    assert(mount::disk_ok(m.disks[0], 0, true));
    assert(mount::disk_ok(m.disks[1], 1, true));
    reveal_with_fuel(fusermount::drive_dirs, 3);
    let dirs = fusermount::drive_dirs(m, 2);
    assert(dirs =~= seq![m.disks[0].disk_dir->0, m.disks[1].disk_dir->0]);
    if let ReadDirNext::Reply(entries) = r {
        let shown = fusermount::entry_views(entries@);
        assert(shown == fusermount::dir_entries(1, dirs, 0));
        assert(entries@.len() == shown.len());
        assert(shown[0] == entries@[0]@);
        assert(shown[1] == entries@[1]@);
        assert(shown[2] == entries@[2]@);
        assert(shown[3] == entries@[3]@);
    }
}

} // verus!

//! What can be relied on when drives are mounted and unmounted.
use vstd::prelude::*;

use crate::cbm::CbmDriveUnit;
use crate::cbmtype::{CbmDeviceInfo, CbmError, CbmErrorNumber, CbmStatus};
use crate::client::args::{Args, ClientOperation};
use crate::error::Error;
use crate::laws::drives::is_dual;
use crate::number;
use crate::server::bg::OpType;
use crate::server::drivemgr::DriveManager;
use crate::server::file;
use crate::server::ipc::{handle_client_request, ClientAction};
use crate::server::mount;
use crate::server::mount::{
    validate_mount_request, validate_unmount_request, Mount, MountOption, MountView,
};
use crate::server::mountsvc;
use crate::server::mountsvc::MountService;
use crate::text;
use crate::time::SystemTime;
use crate::validate;
use crate::validate::{
    has_write_permission, validate_bus_device, validate_device, validate_mountpoint,
    DeviceValidation, FileMode, PathFacts, UserIds, ValidationType,
};

verus! {

// ---------------------------------------------------------------------------
// What may be asked for
// ---------------------------------------------------------------------------

/// Drives have the numbers 8 to 15, and 8 where none is given and one is needed; devices on
/// the bus have the numbers 8 to 30.
pub proof fn law_numbers_of_devices(
    device: Option<u8>,
    v: DeviceValidation,
    n: u8,
    r: Result<Option<u8>, CbmError>,
    bus: Result<(), CbmError>,
)
    requires
        call_ensures(validate_device, (device, v), r),
        call_ensures(validate_bus_device, (n,), bus),
    ensures
        match device {
            Some(d) => (r is Ok <==> 8 <= d <= 15) && (r is Ok ==> r == Ok::<
                Option<u8>,
                CbmError,
            >(Some(d))),
            None => match v {
                DeviceValidation::Required => r is Err,
                DeviceValidation::Optional => r == Ok::<Option<u8>, CbmError>(None),
                DeviceValidation::Default => r == Ok::<Option<u8>, CbmError>(Some(8)),
            },
        },
        r matches Err(e) ==> e is ValidationError,
        bus is Ok <==> 8 <= n <= 30,
        bus matches Err(e) ==> e is ValidationError,
{
}

/// The permission that counts is the owner's for the owner, the group's for others of the
/// group, and everyone's for the rest; without any information there is none.
pub proof fn law_permission_to_write(m: FileMode, user: UserIds, r: bool, none: bool)
    requires
        call_ensures(has_write_permission, (Some(m), user), r),
        call_ensures(has_write_permission, (None::<FileMode>, user), none),
    ensures
        user.uid == m.uid ==> (r <==> m.mode & 0o200 != 0),
        user.uid != m.uid && user.gid == m.gid ==> (r <==> m.mode & 0o020 != 0),
        user.uid != m.uid && user.gid != m.gid ==> (r <==> m.mode & 0o002 != 0),
        !none,
{
}

/// A path begins at the root.
pub open spec fn begins_at_root(path: Seq<char>) -> bool {
    path.len() > 0 && path[0] == '/'
}

/// A mountpoint is an absolute path to a directory that the user may write to, and one that is
/// empty where something is to be mounted there. A path that is absolute stays as it is; any
/// other is put in its absolute form where that is asked for, and else refused.
pub proof fn law_mountpoints(
    path: &str,
    v: ValidationType,
    canonicalize: bool,
    facts: PathFacts,
    may: bool,
    r: Result<String, CbmError>,
)
    requires
        call_ensures(validate_mountpoint, (path, v, canonicalize, &facts), r),
        call_ensures(has_write_permission, (facts.mode, facts.user), may),
    ensures
        r is Ok ==> facts.is_dir && may && (v is Mount ==> (facts.has_entries matches Ok(b) && !b)),
        r matches Ok(p) ==> (begins_at_root(path@) ==> p@ == path@) && (!begins_at_root(path@)
            ==> canonicalize && facts.exists && (facts.canonical matches Ok(c) && p@ == c@)),
        facts.is_dir && may && (v is Unmount || (facts.has_entries matches Ok(b) && !b)) && (
        begins_at_root(path@) || (canonicalize && facts.exists && facts.canonical is Ok))
            ==> r is Ok,
        r matches Err(e) ==> e is ValidationError,
{
    reveal_strlit("/");
    if begins_at_root(path@) {
        assert(path@.subrange(0, 1) =~= "/"@);
    } else if path@.len() > 0 {
        assert(path@.subrange(0, 1)[0] == path@[0]);
    }
}

/// A request to mount names a device on the bus and an empty directory by its absolute path,
/// which comes back as it is; all such requests are in order, and no others.
pub proof fn law_requests_to_mount(
    path: &str,
    device: u8,
    facts: PathFacts,
    may: bool,
    r: Result<String, Error>,
)
    requires
        call_ensures(validate_mount_request, (path, device, &facts), r),
        call_ensures(has_write_permission, (facts.mode, facts.user), may),
    ensures
        r is Ok <==> 8 <= device <= 30 && begins_at_root(path@) && facts.is_dir && may
            && (facts.has_entries matches Ok(b) && !b),
        r matches Ok(p) ==> p@ == path@,
{
    reveal_strlit("/");
    if begins_at_root(path@) {
        assert(path@.subrange(0, 1) =~= "/"@);
    } else if path@.len() > 0 {
        assert(path@.subrange(0, 1)[0] == path@[0]);
    }
}

/// A request to unmount names a device on the bus or a directory, and not both.
pub proof fn law_requests_to_unmount(
    path: &str,
    device: u8,
    facts: PathFacts,
    may: bool,
    none: Result<(), Error>,
    both: Result<(), Error>,
    by_device: Result<(), Error>,
    by_path: Result<(), Error>,
)
    requires
        call_ensures(validate_unmount_request, (None::<&str>, None::<u8>, &facts), none),
        call_ensures(validate_unmount_request, (Some(path), Some(device), &facts), both),
        call_ensures(validate_unmount_request, (None::<&str>, Some(device), &facts), by_device),
        call_ensures(validate_unmount_request, (Some(path), None::<u8>, &facts), by_path),
        call_ensures(has_write_permission, (facts.mode, facts.user), may),
    ensures
        none is Err,
        both is Err,
        by_device is Ok <==> 8 <= device <= 30,
        by_path is Ok <==> begins_at_root(path@) && facts.is_dir && may,
{
    reveal_strlit("/");
    if begins_at_root(path@) {
        assert(path@.subrange(0, 1) =~= "/"@);
    } else if path@.len() > 0 {
        assert(path@.subrange(0, 1)[0] == path@[0]);
    }
}

/// What the client has found to be in order asks for the same as before: the same device, and
/// the path in its absolute form. A device that cannot be on the bus is refused, and so is an
/// unmount that names nothing or too much.
pub proof fn law_client_validates(args: Args, facts: PathFacts, r: Result<Args, Error>)
    requires
        call_ensures(Args::validate, (args, &facts), r),
    ensures
        match args.operation {
            ClientOperation::Resetbus => r matches Ok(a) && a.operation is Resetbus,
            ClientOperation::Kill => r matches Ok(a) && a.operation is Kill,
            ClientOperation::Identify { device } => (r is Ok <==> 8 <= device <= 30) && (
            r matches Ok(a) ==> a.operation == (ClientOperation::Identify { device })),
            ClientOperation::Getstatus { device } => (r is Ok <==> 8 <= device <= 30) && (
            r matches Ok(a) ==> a.operation == (ClientOperation::Getstatus { device })),
            ClientOperation::Mount { device, dummy_formats, mountpoint, .. } => r matches Ok(a)
                ==> 8 <= device <= 30 && (a.operation matches ClientOperation::Mount {
                device: d,
                dummy_formats: f,
                mountpoint: m,
                path,
            } && d == device && f == dummy_formats && (begins_at_root(mountpoint@) ==> m@
                == mountpoint@) && (path matches Some(p) && p@ == m@)),
            ClientOperation::Unmount { device, mountpoint, .. } => {
                &&& device is Some == mountpoint is Some ==> r is Err
                &&& device matches Some(n) ==> (mountpoint is None ==> (r is Ok <==> 8 <= n <= 30))
                &&& r matches Ok(a) ==> (a.operation matches ClientOperation::Unmount {
                    device: d,
                    mountpoint: m,
                    ..
                } && d == device && m is Some == mountpoint is Some && (mountpoint matches Some(p)
                    ==> (begins_at_root(p@) ==> (m matches Some(q) && q@ == p@))))
            },
        },
{
    reveal_strlit("/");
    let path = match args.operation {
        ClientOperation::Mount { mountpoint, .. } => mountpoint@,
        ClientOperation::Unmount { mountpoint: Some(p), .. } => p@,
        _ => Seq::empty(),
    };
    if begins_at_root(path) {
        assert(path.subrange(0, 1) =~= "/"@);
    }
}

/// A mount that is in order is queued: what the client may ask for is done.
pub proof fn law_mount_is_accepted(
    path: String,
    device: u8,
    dummy_formats: bool,
    bus_reset: bool,
    facts: PathFacts,
    may: bool,
    r: Result<ClientAction, Error>,
)
    requires
        call_ensures(
            handle_client_request,
            (
                crate::ipc::Request::Mount { mountpoint: path, device, dummy_formats, bus_reset },
                &facts,
            ),
            r,
        ),
        call_ensures(has_write_permission, (facts.mode, facts.user), may),
    ensures
        r is Ok <==> 8 <= device <= 30 && begins_at_root(path@) && facts.is_dir && may
            && (facts.has_entries matches Ok(b) && !b),
{
    reveal_strlit("/");
    if begins_at_root(path@) {
        assert(path@.subrange(0, 1) =~= "/"@);
    } else if path@.len() > 0 {
        assert(path@.subrange(0, 1)[0] == path@[0]);
    }
}

// ---------------------------------------------------------------------------
// A mount
// ---------------------------------------------------------------------------

/// A mount that is new is for the device and the path that were asked for, has no disks, and is
/// not known to the kernel; file inodes begin with 256.
pub proof fn law_new_mount(device: u8, path: &str, dummy_formats: bool, m: Mount)
    requires
        call_ensures(Mount::new, (device, path, dummy_formats), m),
    ensures
        m.device_num == device,
        m.mountpoint@ == path@,
        m.dummy_formats == dummy_formats,
        m.next_inode == 256,
        !m.mounted && !m.shared && !m.has_handler && m.has_receiver && !m.dir_outstanding,
        m.drive_info is None,
        m.disk_info@.len() == 0,
        m.drive_xattrs@.len() == 0,
{
    assert(m@.disks.len() == m.disk_info@.len());
    assert(m@.disks.len() == 0);
}

/// What is mounted where is told as it is.
pub proof fn law_mount_tells(
    m: Mount,
    a: u8,
    b: u8,
    path: &str,
    info: Option<&CbmDeviceInfo>,
    s: String,
)
    requires
        call_ensures(Mount::get_device_num, (&m,), a),
        call_ensures(Mount::device_number, (&m,), b),
        call_ensures(Mount::get_mountpoint, (&m,), path),
        call_ensures(Mount::drive_info, (&m,), info),
        call_ensures(Mount::to_string, (&m,), s),
    ensures
        a == m.device_num && b == m.device_num,
        path@ == m.mountpoint@,
        info is Some <==> m.drive_info is Some,
        info matches Some(i) ==> i.device_type == m.drive_info->0.device_type && i.description@
            == m.drive_info->0.description@,
        s@ == "Mount { device_num: "@ + number::decimal(m.device_num as nat) + ", path: "@
            + m.mountpoint@ + " }"@,
{
}

/// The file system is named after the model in lower case and the number of the device, with
/// both drives where there are two.
pub proof fn law_name_of_the_file_system(m: Mount, s: String)
    requires
        call_ensures(Mount::fs_name, (&m,), s),
    ensures
        ({
            let unit = "_u"@ + number::decimal(m.device_num as nat);
            match m.drive_info {
                None => s@ == "cbm"@ + unit,
                Some(info) => s@ == (if is_dual(info.device_type) {
                    text::lowered(info.device_type.fs_name()) + unit + ("_d"@ + seq!['0']) + ("_d"@
                        + seq!['1'])
                } else {
                    text::lowered(info.device_type.fs_name()) + unit
                }),
            }
        }),
{
    reveal_with_fuel(mount::drive_parts, 3);
    reveal_with_fuel(number::decimal, 2);
    assert(number::decimal(0) =~= seq!['0']);
    assert(number::decimal(1) =~= seq!['1']);
    let unit = "_u"@ + number::decimal(m.device_num as nat);
    match m.drive_info {
        None => {
            assert("cbm"@ + "_u"@ + number::decimal(m.device_num as nat) =~= "cbm"@ + unit);
        },
        Some(info) => {
            let name = text::lowered(info.device_type.fs_name());
            assert(name + "_u"@ + number::decimal(m.device_num as nat) =~= name + unit);
            if is_dual(info.device_type) {
                assert(name + unit + mount::drive_parts(2) =~= name + unit + ("_d"@ + seq!['0']) + (
                "_d"@ + seq!['1']));
            }
        },
    }
}

/// The kernel mounts the file system to be read only, under its name and type, and takes it
/// away by itself only where that is asked for.
pub proof fn law_options_of_a_mount(
    m: Mount,
    autounmount: bool,
    options: Vec<MountOption>,
    name: String,
)
    requires
        call_ensures(Mount::fuser_mount_options, (&m, autounmount), options),
        call_ensures(Mount::fs_name, (&m,), name),
    ensures
        options@.len() == (if autounmount {
            10
        } else {
            8int
        }),
        options@[0] is RO && options@[1] is NoSuid && options@[2] is NoAtime && options@[3] is Sync
            && options@[4] is DirSync && options@[5] is NoDev,
        options@[6] matches MountOption::FSName(s) && s@ == name@,
        options@[7] matches MountOption::Subtype(s) && s@ == "1541fs"@,
        autounmount ==> options@[8] is AllowRoot && options@[9] is AutoUnmount,
{
    let all = mount::option_views(options@);
    assert(all.len() == options@.len());
    assert(all[0] == options@[0]@);
    assert(all[1] == options@[1]@);
    assert(all[2] == options@[2]@);
    assert(all[3] == options@[3]@);
    assert(all[4] == options@[4]@);
    assert(all[5] == options@[5]@);
    assert(all[6] == options@[6]@);
    assert(all[7] == options@[7]@);
    if autounmount {
        assert(all[8] == options@[8]@);
        assert(all[9] == options@[9]@);
    }
}

/// What keeps a drive from being mounted is not a missing or unreadable disk: the errors 20 to
/// 24, 27, 29, 73 and 74 are passed over, and no others. What is mounted already is not
/// mounted again.
pub proof fn law_errors_passed_over(m: Mount, r: Result<Vec<CbmErrorNumber>, Error>, e: CbmErrorNumber)
    requires
        call_ensures(Mount::begin_mount, (&m,), r),
    ensures
        r is Err <==> m.mounted,
        r matches Ok(list) ==> (list@.contains(e) <==> e is ReadErrorBlockHeaderNotFound
            || e is ReadErrorNoSyncCharacter || e is ReadErrorDataBlockNotPresent
            || e is ReadErrorChecksumErrorInDataBlock || e is ReadErrorByteDecodingError
            || e is ReadErrorChecksumErrorInHeader || e is DiskIdMismatch || e is DosMismatch
            || e is DriveNotReady),
{
    if let Ok(list) = r {
        let l = list@;
        assert(l.len() == 9);
        assert(l[0] is ReadErrorBlockHeaderNotFound);
        assert(l[1] is ReadErrorNoSyncCharacter);
        assert(l[2] is ReadErrorDataBlockNotPresent);
        assert(l[3] is ReadErrorChecksumErrorInDataBlock);
        assert(l[4] is ReadErrorByteDecodingError);
        assert(l[5] is ReadErrorChecksumErrorInHeader);
        assert(l[6] is DiskIdMismatch);
        assert(l[7] is DosMismatch);
        assert(l[8] is DriveNotReady);
    }
}

/// Drives that were initialised are taken in: without any answer, or with one that is an error,
/// there is no mount; else it is said whether a disk is in one of them, which is the case where
/// a status is below 20.
pub proof fn law_initialised_drives(
    m: &mut Mount,
    results: Vec<Result<CbmStatus, Error>>,
    now: SystemTime,
    r: Result<bool, Error>,
    i: int,
)
    requires
        call_ensures(Mount::drive_init, (m, &results, now), r),
        0 <= i < results@.len() || results@.len() == 0,
    ensures
        results@.len() == 0 ==> r is Err,
        results@.len() > 0 && results@[i] is Err ==> r is Err,
        r is Err ==> results@.len() == 0 || exists|j: int|
            0 <= j < results@.len() && #[trigger] results@[j] is Err,
        r matches Ok(has_disk) ==> (results@[i]->Ok_0.number < 20 ==> has_disk),
        r == Ok::<bool, Error>(true) ==> exists|j: int|
            0 <= j < results@.len() && (#[trigger] results@[j] matches Ok(s) && s.number < 20),
        final(m)@.disks == old(m)@.disks,
{
    lemma_first_failure(results@, 0);
    if r == Ok::<bool, Error>(true) {
        let n = results@.len() as int;
        let j = choose|j: int|
            0 <= j < n && (#[trigger] results@[j] matches Ok(status)
                && crate::cbmtype::ok_of(status@.number) == crate::cbmtype::CbmErrorNumberOk::Okay);
        assert(results@[j] matches Ok(s) && s.number < 20);
    }
}

/// The statuses of the drives are noted one after the other, so that the last one stays.
pub proof fn law_statuses_are_noted(
    m: &mut Mount,
    results: Vec<Result<CbmStatus, Error>>,
    now: SystemTime,
    r: Result<bool, Error>,
    a: CbmStatus,
    b: CbmStatus,
)
    requires
        call_ensures(Mount::drive_init, (m, &results, now), r),
    ensures
        results@ == seq![Ok::<CbmStatus, Error>(a)] ==> final(m)@.drive_xattrs
            == mount::with_status(old(m)@.drive_xattrs, a, now),
        results@ == seq![Ok::<CbmStatus, Error>(a), Ok::<CbmStatus, Error>(b)]
            ==> final(m)@.drive_xattrs == mount::with_status(
            mount::with_status(old(m)@.drive_xattrs, a, now),
            b,
            now,
        ),
{
    lemma_first_failure(results@, 0);
    reveal_with_fuel(mount::with_statuses, 3);
}

proof fn lemma_first_failure(results: Seq<Result<CbmStatus, Error>>, from: int)
    requires
        0 <= from,
    ensures
        match mount::first_failure(results, from) {
            Some(k) => from <= k < results.len() && results[k] is Err && (forall|j: int|
                from <= j < k ==> #[trigger] results[j] is Ok),
            None => forall|j: int| from <= j < results.len() ==> #[trigger] results[j] is Ok,
        },
    decreases results.len() - from,
{
    if from < results.len() && results[from] is Ok {
        lemma_first_failure(results, from + 1);
    }
}

/// The directory is asked for on the device of the mount, and not again before an answer has
/// come; a file on a disk is asked for by its name there, and nothing else is.
pub proof fn law_mount_asks(
    m: Mount,
    dir: Option<OpType>,
    ino: u64,
    op: Result<OpType, Error>,
)
    requires
        call_ensures(Mount::dir_request, (&m,), dir),
        call_ensures(Mount::read_file_sync, (&m, ino), op),
    ensures
        m.dir_outstanding <==> dir is None,
        dir matches Some(o) ==> o == (OpType::ReadDirectory { device: m.device_num }),
        match m@.file(ino) {
            Some(f) => match f.native {
                file::FileEntryTypeView::CbmFile(
                    crate::dir::CbmFileEntryView::ValidFile { filename, .. },
                ) => op matches Ok(OpType::ReadFile { device, path, inode }) && device
                    == m.device_num && path@ == filename && inode == ino,
                _ => op is Err,
            },
            None => op is Err,
        },
{
}

/// A directory that was asked for is outstanding until its answer has come.
pub proof fn law_directory_is_outstanding(
    n: &mut Mount,
    sent: Option<Result<(), String>>,
    r: Result<(), Error>,
    p: &mut Mount,
    ok: bool,
    done: (),
    outstanding: bool,
    q: &mut Mount,
)
    requires
        call_ensures(Mount::do_dir_sync, (n, sent), r),
        call_ensures(Mount::do_dir, (p, ok), done),
        call_ensures(Mount::set_dir_outstanding, (q, outstanding), done),
    ensures
        final(n).dir_outstanding <==> old(n).dir_outstanding || sent matches Some(Ok(_)),
        r is Err <==> sent matches Some(Err(_)),
        final(p).dir_outstanding <==> old(p).dir_outstanding || ok,
        final(q).dir_outstanding == outstanding,
{
}

/// A mount is shared once; only then it can be waited for, and once too.
pub proof fn law_mount_is_shared_once(
    m: &mut Mount,
    n: &mut Mount,
    p: &mut Mount,
    a: Result<(), Error>,
    b: Result<(), Error>,
    done: (),
    q: &mut Mount,
)
    requires
        call_ensures(Mount::set_shared_self, (m,), a),
        call_ensures(Mount::create_bg_response_thread, (n,), b),
        call_ensures(Mount::unmount, (p,), done),
        call_ensures(Mount::update_fuser, (q,), done),
    ensures
        a is Ok <==> !old(m).shared,
        final(m).shared,
        b is Ok <==> old(n).shared && old(n).has_receiver && !old(n).has_handler,
        b is Ok ==> final(n).has_handler && !final(n).has_receiver,
        b is Err ==> final(n).has_handler == old(n).has_handler && final(n).has_receiver
            == old(n).has_receiver,
        !final(p).mounted && !final(p).shared && !final(p).has_handler,
        final(p).device_num == old(p).device_num && final(p).mountpoint@ == old(p).mountpoint@,
        final(q).mounted,
        final(q).device_num == old(q).device_num && final(q).mountpoint@ == old(q).mountpoint@,
{
}

// ---------------------------------------------------------------------------
// All mounts
// ---------------------------------------------------------------------------

/// A drive can be mounted where it was found, has a number from 8 to 15, and is not in use; it
/// is in use then, and the mount is new and for the device and path that were asked for.
pub proof fn law_mount_begins(
    s: MountService,
    drives: &mut DriveManager,
    device: u8,
    path: &str,
    dummy_formats: bool,
    found: Result<CbmDriveUnit, CbmError>,
    r: Result<(Mount, Vec<CbmErrorNumber>), Error>,
)
    requires
        call_ensures(
            MountService::begin_mount,
            (&s, drives, device, path, dummy_formats, found),
            r,
        ),
    ensures
        r is Ok <==> 8 <= device <= 15 && found is Ok && !old(drives)@.contains_key(device),
        r is Ok ==> final(drives)@.contains_key(device) && final(drives)@[device] == found->Ok_0,
        r is Err ==> final(drives)@ == old(drives)@,
        r matches Ok((m, _)) ==> m.device_num == device && m.mountpoint@ == path@
            && m.dummy_formats == dummy_formats && !m.mounted && m.disk_info@.len() == 0,
{
    if let Ok((m, _)) = r {
        assert(m@.disks.len() == m.disk_info@.len());
        assert(m@.disks.len() == 0);
    }
}

/// What the kernel was given is among the mounts, at its mountpoint, and is mounted; a mount
/// that the kernel did not take is not.
pub proof fn law_mount_ends(
    s: &mut MountService,
    drives: &mut DriveManager,
    m: Mount,
    spawned: Result<(), String>,
    r: Result<(), Error>,
)
    requires
        mountsvc::mounts_ok(old(s)@),
        m@.wf(),
        call_ensures(MountService::finish_mount, (s, drives, m, spawned), r),
    ensures
        spawned is Err ==> r is Err && final(s)@ == old(s)@,
        spawned is Ok ==> (r is Ok <==> !(exists|i: int|
            0 <= i < old(s)@.len() && (#[trigger] old(s)@[i]).mountpoint == m.mountpoint@)),
        spawned is Ok ==> exists|i: int|
            0 <= i < final(s)@.len() && (#[trigger] final(s)@[i]).mountpoint == m.mountpoint@
                && final(s)@[i].device_num == m.device_num && final(s)@[i].mounted,
        r is Ok ==> final(s)@.len() == old(s)@.len() + 1,
{
    lemma_at_path(old(s)@, m@.mountpoint, 0);
    if spawned is Ok {
        match mountsvc::at_path(old(s)@, m@.mountpoint) {
            Some(i) => {
                assert(old(s)@[i].mountpoint == m.mountpoint@);
                assert(final(s)@[i].mountpoint == m.mountpoint@);
            },
            None => {
                let i = old(s)@.len() as int;
                assert(final(s)@[i].mountpoint == m.mountpoint@);
            },
        }
    }
}

proof fn lemma_at_path(mounts: Seq<MountView>, path: Seq<char>, from: int)
    requires
        0 <= from,
    ensures
        match mountsvc::at_path_from(mounts, path, from) {
            Some(i) => from <= i < mounts.len() && mounts[i].mountpoint == path && (forall|j: int|
                from <= j < i ==> (#[trigger] mounts[j]).mountpoint != path),
            None => forall|j: int|
                from <= j < mounts.len() ==> (#[trigger] mounts[j]).mountpoint != path,
        },
    decreases mounts.len() - from,
{
    if from < mounts.len() && mounts[from].mountpoint != path {
        lemma_at_path(mounts, path, from + 1);
    }
}

proof fn lemma_of_device(mounts: Seq<MountView>, device: u8, from: int)
    requires
        0 <= from,
    ensures
        match mountsvc::of_device_from(mounts, device, from) {
            Some(i) => from <= i < mounts.len() && mounts[i].device_num == device && (forall|
                j: int,
            |
                from <= j < i ==> (#[trigger] mounts[j]).device_num != device),
            None => forall|j: int|
                from <= j < mounts.len() ==> (#[trigger] mounts[j]).device_num != device,
        },
    decreases mounts.len() - from,
{
    if from < mounts.len() && mounts[from].device_num != device {
        lemma_of_device(mounts, device, from + 1);
    }
}

/// A mount is found by its mountpoint and by its device, and what is not mounted is not found.
pub proof fn law_mount_is_found(
    s: MountService,
    path: &str,
    device: u8,
    a: Result<&Mount, Error>,
    b: Result<&Mount, Error>,
    i: int,
)
    requires
        call_ensures(MountService::get_mount, (&s, path), a),
        call_ensures(MountService::get_mount_from_device_num, (&s, device), b),
        0 <= i < s@.len() || s@.len() == 0,
    ensures
        a matches Ok(m) ==> m.mountpoint@ == path@,
        s@.len() > 0 && s@[i].mountpoint == path@ ==> a is Ok,
        b matches Ok(m) ==> m.device_num == device,
        s@.len() > 0 && s@[i].device_num == device ==> b is Ok,
        s@.len() == 0 ==> a is Err && b is Err,
{
    lemma_at_path(s@, path@, 0);
    lemma_of_device(s@, device, 0);
}

/// A drive that is unmounted is out of use, and is no longer among the mounts; one that is at
/// work stays, unless it is forced to go. No other mount changes.
pub proof fn law_unmounting(
    s: &mut MountService,
    drives: &mut DriveManager,
    device: u8,
    force: bool,
    r: Result<(), Error>,
    k: int,
)
    requires
        mountsvc::mounts_ok(old(s)@),
        0 <= k < old(s)@.len(),
        old(s)@[k].device_num == device,
        forall|j: int| 0 <= j < k ==> (#[trigger] old(s)@[j]).device_num != device,
        call_ensures(MountService::unmount, (s, drives, Some(device), None::<&str>, force), r),
    ensures
        r is Ok <==> force || (old(drives)@.contains_key(device) && !old(drives)@[device].busy),
        r is Ok ==> final(s)@ == old(s)@.remove(k),
        r is Err ==> final(s)@.len() == old(s)@.len() && final(s)@[k].mountpoint
            == old(s)@[k].mountpoint && final(s)@[k].device_num == device && !final(s)@[k].mounted
            && !final(s)@[k].shared && !final(s)@[k].has_handler,
        r is Err ==> forall|j: int|
            0 <= j < old(s)@.len() && j != k ==> #[trigger] final(s)@[j] == old(s)@[j],
        old(drives)@.contains_key(device) && !old(drives)@[device].busy
            ==> !final(drives)@.contains_key(device),
{
    lemma_of_device(old(s)@, device, 0);
}

/// Of nothing that is mounted anything is left in the end, and what was not mounted is left as
/// it was.
pub proof fn law_all_is_unmounted(
    s: &mut MountService,
    drives: &mut DriveManager,
    done: (),
    i: int,
    device: u8,
    other: u8,
)
    requires
        mountsvc::mounts_ok(old(s)@),
        call_ensures(MountService::cleanup, (s, drives), done),
        0 <= i < old(s)@.len(),
        old(s)@[i].device_num == device,
        old(drives)@.contains_key(device) ==> !old(drives)@[device].busy,
    ensures
        final(s)@.len() == 0,
        !final(drives)@.contains_key(device),
        old(drives)@.contains_key(other) && (forall|j: int|
            0 <= j < old(s)@.len() ==> (#[trigger] old(s)@[j]).device_num != other) ==> final(
            drives)@.contains_key(other) && final(drives)@[other] == old(drives)@[other],
        final(drives)@.contains_key(other) ==> old(drives)@.contains_key(other),
{
    assert(mountsvc::has_device(old(s)@, device));
}

} // verus!

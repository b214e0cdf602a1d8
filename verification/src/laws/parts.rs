//! What can be relied on of the smaller parts.
use vstd::prelude::*;

use crate::cbm::{CbmChannelManager, CbmDriveUnit};
use crate::cbmtype;
use crate::cbmtype::{CbmDeviceType, CbmError, CbmErrorView, CbmFileType, CbmStatus};
use crate::client::args::ClientOperation;
use crate::client::launch::{LaunchSession, LaunchStep};
use crate::client::request::{ResponseBuffer, SendSession, SendStep};
use crate::dir::CbmDirListing;
use crate::error::{Error, ErrorView, Fs1541ErrorView};
use crate::fuse::FileHandle;
use crate::ipc;
use crate::ipc::Response;
use crate::number;
use crate::opencbm;
use crate::opencbm::{BusReply, CommandOutcome, OpenCbmError, OpenCbmErrorView};
use crate::server::args::{Args, Levels};
use crate::server::bg;
use crate::server::bg::{
    Notice, OpResponse, OpResponseType, Operation, OperationQueues, Proc, Purge,
};
use crate::server::cbm::{create_cbm, CBM};
use crate::server::daemon;
use crate::server::daemon::{Aborts, MainSession, MainStep, Progress};
use crate::server::drivemgr::DriveManager;
use crate::server::error::DaemonError;
use crate::server::file::{
    Buffer, ControlFile, ControlFilePurpose, DiskInfo, FileCache, FileEntry, FuseFile,
};
use crate::server::ipc::IpcServer;
use crate::server::mountsvc::MountService;
use crate::server::run::Run;
use crate::server::xattr::{CacheStatus, DiskXattr, RwType};
use crate::session::{InitSession, Next, StatusList};
use crate::shell;
use crate::text;
use crate::time::{Instant, SystemTime};

verus! {

/// A new server answers nobody. Each of its parts starts and stops by itself.
pub proof fn law_server_parts(
    pid: i32,
    fresh: IpcServer,
    a: &mut IpcServer,
    b: &mut IpcServer,
    c: &mut IpcServer,
    d: &mut IpcServer,
    e: &mut IpcServer,
)
    requires
        call_ensures(IpcServer::new, (pid,), fresh),
        call_ensures(IpcServer::start_ipc_listener, (a,), ()),
        call_ensures(IpcServer::start_bg_receiver, (b,), ()),
        call_ensures(IpcServer::stop_ipc_listener, (c,), ()),
        call_ensures(IpcServer::stop_bg_listener, (d,), ()),
        call_ensures(IpcServer::stop_all, (e,), ()),
    ensures
        !fresh.ipc_server_run && !fresh.bg_listener_run && fresh.pid == pid,
        final(a).ipc_server_run && final(a).bg_listener_run == old(a).bg_listener_run,
        final(b).bg_listener_run && final(b).ipc_server_run == old(b).ipc_server_run,
        !final(c).ipc_server_run && final(c).bg_listener_run == old(c).bg_listener_run,
        !final(d).bg_listener_run && final(d).ipc_server_run == old(d).ipc_server_run,
        !final(e).ipc_server_run && !final(e).bg_listener_run,
        final(a).pid == old(a).pid && final(b).pid == old(b).pid && final(c).pid == old(c).pid
            && final(d).pid == old(d).pid && final(e).pid == old(e).pid,
{
}

/// What was done is told as what it was, and what has no answer is told so.
pub proof fn law_answers(rsp: OpResponseType, r: Response)
    requires
        call_ensures(Response::from_response, (rsp,), r),
    ensures
        r is MountSuccess <==> rsp is Mount,
        r is UnmountSuccess <==> rsp is Unmount,
        r is BusResetSuccess <==> rsp is BusReset,
        r is Identified <==> rsp is Identify,
        r is GotStatus <==> rsp is GetStatus,
        r matches Response::Identified { description, .. } ==> (rsp matches OpResponseType::Identify {
            info,
        } && description@ == info.description@),
        r matches Response::Error(s) ==> s@ == "Unsupported response type"@,
{
    assert(r@ is MountSuccess == r is MountSuccess);
}

/// The state of a drive is made for a device from 8 to 15 and a drive of 0 or 1, where it was
/// never opened, and each of its channels has its own number.
pub proof fn law_state_of_a_drive(
    mountpoint: &str,
    device: u8,
    drive: u8,
    r: Result<CBM, &'static str>,
    place: &mut Option<CBM>,
    i: int,
)
    requires
        call_ensures(CBM::new, (mountpoint, device, drive), r),
        call_ensures(create_cbm, (place, mountpoint, device, drive), ()),
        0 <= i < 16,
    ensures
        r is Ok <==> 8 <= device <= 15 && drive <= 1,
        r matches Ok(c) ==> c.mountpoint@ == mountpoint@ && c.device_num == device && c.drive_num
            == drive && !c.is_initialized && !c.dir_is_clean && c.fd == -1 && c.fuse_fh == -1
            && c.files@.len() == 0 && c.channels@[i].num == i && !c.dummy_formats
            && !c.force_bus_reset,
        *final(place) matches Some(c) && c.mountpoint@ == mountpoint@ && c.device_num == device
            && c.drive_num == drive && !c.is_initialized && c.channels@[i].num == i,
{
}

/// A drive is open from when it is opened until it is left clean, and its directory is read
/// once that was noted. Its files are forgotten when it is left.
pub proof fn law_life_of_a_drive(
    a: &mut CBM,
    b: &mut CBM,
    clean: bool,
    c: &mut CBM,
)
    requires
        call_ensures(CBM::_initialize, (a,), ()),
        call_ensures(CBM::destroy, (b, clean), ()),
        call_ensures(CBM::_update_directory, (c,), ()),
    ensures
        final(a).is_initialized && final(a).dir_is_clean == old(a).dir_is_clean,
        final(a).mountpoint == old(a).mountpoint && final(a).device_num == old(a).device_num,
        final(b).files@.len() == 0,
        final(b).is_initialized <==> old(b).is_initialized && !clean,
        clean && old(b).is_initialized ==> final(b).fd == -1,
        final(b).mountpoint == old(b).mountpoint && final(b).device_num == old(b).device_num,
        final(c).dir_is_clean && final(c).is_initialized == old(c).is_initialized,
        final(c).files == old(c).files,
{
}

/// The table of mounts shows a drive with the numbers of its device and of the drive in it.
pub proof fn law_names_of_a_drive(c: CBM, name: String, kind: String)
    requires
        call_ensures(CBM::get_device_name, (&c,), name),
        call_ensures(CBM::get_sub_type, (&c,), kind),
    ensures
        name@ == "cbm_dev"@ + number::decimal(c.device_num as nat) + "_drv"@ + number::decimal(
            c.drive_num as nat,
        ),
        kind@ == "1541"@,
{
}

/// A unit is at work while its drives are initialised, and not after that, even where the
/// driver has crashed. Nothing else of the unit changes.
pub proof fn law_unit_while_initialised(
    u: &mut CbmDriveUnit,
    init: InitSession,
    reply: BusReply,
    r: Next<InitSession, StatusList>,
    v: &mut CbmDriveUnit,
    payload: Option<&str>,
    e: CbmError,
    w: CbmDriveUnit,
    busy: bool,
    responding: bool,
)
    requires
        call_ensures(CbmDriveUnit::init_next, (u, init, reply), r),
        call_ensures(CbmDriveUnit::init_panicked, (v, payload), e),
        call_ensures(CbmDriveUnit::is_busy, (&w,), busy),
        call_ensures(CbmDriveUnit::is_responding, (&w,), responding),
    ensures
        final(u).busy <==> r is Ask,
        final(u).device_number == old(u).device_number && final(u).device_type == old(
            u,
        ).device_type,
        !final(v).busy && final(v).device_number == old(v).device_number,
        payload matches Some(s) ==> e@ == (CbmErrorView::DeviceError {
            device: 0,
            message: "Panic in opencbm: "@ + s@,
        }),
        payload is None ==> e@ == (CbmErrorView::DeviceError {
            device: 0,
            message: "Panic in opencbm: "@ + "Unknown panic"@,
        }),
        busy == w.busy,
        responding,
{
}

/// A crash of the driver is told with the words that it left, if any.
pub proof fn law_crashes(payload: Option<&str>, e: CbmError)
    requires
        call_ensures(CbmError::from_panic, (payload,), e),
    ensures
        e@ matches CbmErrorView::DeviceError { device, message } && device == 0 && (payload
            matches Some(s) ==> message == "Panic in opencbm: "@ + s@) && (payload is None ==> message
            == "Panic in opencbm: "@ + "Unknown panic"@),
{
}

/// A driver that is not there is told as an adapter that may not be plugged in, and any other
/// error of the system by its words.
pub proof fn law_errors_of_the_system(code: Option<i32>, words: String, e: OpenCbmError)
    requires
        call_ensures(OpenCbmError::from_os_error, (code, words), e),
    ensures
        e@ is ConnectionError <==> code == Some(0i32) || code == Some(19i32),
        e@ is ConnectionError || e@ == OpenCbmErrorView::Other(words@),
{
}

/// The commands for the adapter are known to have ended well only by what they print.
pub proof fn law_commands_for_the_adapter(
    outcome: CommandOutcome,
    listed: Result<String, OpenCbmError>,
    command: &str,
    reset: Result<(), OpenCbmError>,
    output: &str,
    device: &str,
    message: &str,
    told: bool,
    i: int,
)
    requires
        call_ensures(opencbm::run_lsusb, (outcome,), listed),
        call_ensures(opencbm::run_usbreset, (command, outcome), reset),
        call_ensures(opencbm::parse_usbreset_output, (output, device, message), told),
    ensures
        listed matches Ok(s) ==> (outcome matches CommandOutcome::Ran { code: Some(0), stdout, .. }
            && s@ == text::lossy_text(stdout@)),
        outcome matches CommandOutcome::Ran { code: Some(0), .. } ==> listed is Ok,
        reset is Ok ==> (outcome matches CommandOutcome::Ran { code: Some(0), .. }),
        0 <= i < text::lines_of(output@).len() && text::has_part(
            text::lines_of(output@)[i],
            device@,
        ) && text::has_part(text::lines_of(output@)[i], message@) ==> told,
        text::lines_of(output@).len() == 0 ==> !told,
{
}

/// What is answered with an error goes to the one who asked. An operation has one client at
/// most, who is not replaced.
pub proof fn law_streams<S, W>(
    error: Error,
    stream: Option<W>,
    r: OpResponse<W>,
    op: &mut Operation<S, W>,
    w: W,
    q: Result<(), Error>,
    words: &str,
    e: Error,
)
    requires
        call_ensures(OpResponse::<W>::with_error, (error, stream), r),
        call_ensures(Operation::<S, W>::set_stream, (op, w), q),
        call_ensures(bg::send_failed, (words,), e),
    ensures
        r.rsp == Err::<OpResponseType, Error>(error) && r.stream == stream,
        q is Ok <==> old(op).stream is None,
        q is Ok ==> final(op).stream == Some(w),
        q is Err ==> *final(op) == *old(op),
        final(op).op_type == old(op).op_type && final(op).priority == old(op).priority,
        e@ == (ErrorView::Fs1541 {
            message: "Channel send error"@,
            error: Fs1541ErrorView::Internal("Failed to send response: "@ + words@),
        }),
{
}

/// A device has a number from 8 to 15.
pub proof fn law_device_numbers(n: u8, r: Result<(), Error>)
    requires
        call_ensures(DriveManager::check_device_number, (n,), r),
    ensures
        r is Ok <==> 8 <= n <= 15,
{
}

/// An error of input or output is told as one of a mount, with its words.
pub proof fn law_errors_of_input(words: String, e: DaemonError)
    requires
        call_ensures(DaemonError::from_io, (words,), e),
    ensures
        e == DaemonError::MountError(words),
{
}

/// Everything has stopped exactly where nothing is left to be ended.
pub proof fn law_what_is_left(p: Progress, done: bool, left: Aborts, name: &'static str)
    requires
        call_ensures(Progress::all_finished, (&p,), done),
        call_ensures(Progress::to_abort, (&p,), left),
        call_ensures(daemon::get_pid_filename, (), name),
    ensures
        done <==> !left.bg_proc && !left.ipc_server && !left.bg_listener,
        left.bg_proc <==> p.bg_proc == Some(false),
        left.ipc_server <==> p.ipc_server == Some(false),
        left.bg_listener <==> p.bg_listener == Some(false),
        name@ == "/tmp/1541d.pid"@,
{
}

/// What is noted of a buffer or a cache is what it tells, and nothing else of it changes.
pub proof fn law_buffers_and_caches(
    b: &mut Buffer,
    complete: bool,
    c: FileCache,
    cached: bool,
    n: usize,
    empty: bool,
    f: ControlFile,
    purpose: &ControlFilePurpose,
)
    requires
        call_ensures(Buffer::mark_complete, (b,), ()),
        call_ensures(Buffer::is_complete, (final(b),), complete),
        call_ensures(FileCache::is_fully_cached, (&c,), cached),
        call_ensures(FileCache::len, (&c,), n),
        call_ensures(FileCache::is_empty, (&c,), empty),
        call_ensures(ControlFile::purpose, (&f,), purpose),
    ensures
        complete,
        final(b)@.data == old(b)@.data,
        cached == c.is_complete,
        n == c.cache@.len(),
        empty <==> n == 0,
        *purpose == f.purpose,
{
}

/// The kind of a file on a disk shows at the end of its name.
pub proof fn law_names_by_kind(t: CbmFileType, s: &'static str)
    requires
        call_ensures(FuseFile::fuse_suffix, (&t,), s),
    ensures
        t is PRG ==> s@ == ".prg"@,
        t is SEQ ==> s@ == ".seq"@,
        t is USR ==> s@ == ".usr"@,
        t is REL ==> s@ == ".rel"@,
        t is Unknown ==> s@ == ""@,
{
}

/// A file takes the inode that it is given, and the contents that it is given are its cache,
/// all of them. A copy of a file is like it.
pub proof fn law_files_take(
    a: &mut FileEntry,
    ino: u64,
    b: &mut FileEntry,
    contents: &[u8],
    now: SystemTime,
    c: FileEntry,
    copy: FileEntry,
)
    requires
        call_ensures(FileEntry::set_inode, (a, ino), ()),
        call_ensures(FileEntry::set_cache, (b, contents, now), ()),
        call_ensures(FileEntry::copy, (&c,), copy),
    ensures
        final(a)@.ino == ino && final(a)@.name == old(a)@.name && final(a)@.cache == old(a)@.cache,
        final(b)@.cache matches Some(k) && k.cache == contents@ && k.is_complete,
        final(b)@.name == old(b)@.name && final(b)@.ino == old(b)@.ino,
        copy@ == c@,
{
    assert(Seq::<u8>::empty() + contents@ =~= contents@);
}

/// The blocks that the files of a listing take are told where their number is one of 16 bits.
pub proof fn law_blocks_are_counted(l: CbmDirListing, r: Option<u16>)
    requires
        call_ensures(CbmDirListing::checked_blocks_used, (&l,), r),
    ensures
        l@.files.len() == 0 ==> r == Some(0u16),
{
}

/// The arguments are logged one by one, each under its name.
pub proof fn law_arguments_are_logged(a: Args, levels: Levels, lines: Vec<String>)
    requires
        call_ensures(Args::log_args, (&a, &levels), lines),
    ensures
        lines@.len() == 24,
        lines@[2]@ == "  foreground:  "@ + ipc::bool_text(a.foreground),
        lines@[3]@ == "  std_logging: "@ + ipc::bool_text(a.std_logging),
        lines@[4]@ == "  autounmount: "@ + ipc::bool_text(a.autounmount),
        lines@[6]@ == "  dir_cache_expiry_secs:   "@ + number::decimal(
            a.dir_cache_expiry_secs as nat,
        ) + "s"@,
        lines@[7]@ == "  file_cache_expiry_secs:  "@ + number::decimal(
            a.file_cache_expiry_secs as nat,
        ) + "s"@,
        lines@[9]@ == "  dir_reread_timeout_secs:   "@ + number::decimal(
            a.dir_reread_timeout_secs as nat,
        ) + "s"@,
        lines@[10]@ == "  file_reread_timeout_secs:  "@ + number::decimal(
            a.file_reread_timeout_secs as nat,
        ) + "s"@,
        lines@[11]@ == "  dir_read_sleep_ms:         "@ + number::decimal(
            a.dir_read_sleep_ms as nat,
        ) + "ms"@,
        lines@[12]@ == "  file_read_sleep_ms:        "@ + number::decimal(
            a.file_read_sleep_ms as nat,
        ) + "ms"@,
        lines@[13]@ == "  bg_age_check_secs:         "@ + number::decimal(
            a.bg_age_check_secs as nat,
        ) + "s"@,
        lines@[15]@ == "  dir_attr_ttl_ms:     "@ + number::decimal(a.dir_attr_ttl_ms as nat)
            + "ms"@,
        lines@[16]@ == "  file_attr_ttl_ms:    "@ + number::decimal(a.file_attr_ttl_ms as nat)
            + "ms"@,
        lines@[17]@ == "  dir_lookup_ttl_ms:   "@ + number::decimal(a.dir_lookup_ttl_ms as nat)
            + "ms"@,
        lines@[18]@ == "  file_lookup_ttl_ms:  "@ + number::decimal(a.file_lookup_ttl_ms as nat)
            + "ms"@,
        lines@[20]@ == "  fuser:    "@ + levels.fuser.name(),
        lines@[21]@ == "  xum1541:  "@ + levels.xum1541.name(),
        lines@[22]@ == "  rs1541:   "@ + levels.rs1541.name(),
        lines@[23]@ == "  1541fsd:  "@ + levels.daemon.name(),
{
    let all = text::texts(lines@);
    assert(all.len() == lines@.len());
    assert forall|i: int| 0 <= i < lines@.len() implies all[i] == (#[trigger] lines@[i])@ by {}
}

/// What the client is asked to do is logged with the device and the path that it is about.
pub proof fn law_operations_are_logged(op: ClientOperation, s: String)
    requires
        call_ensures(ClientOperation::log, (&op,), s),
    ensures
        op is Resetbus ==> s@ == "Operation: Reset Bus"@,
        op is Kill ==> s@ == "Operation: Kill daemon"@,
        op matches ClientOperation::Identify { device } ==> s@ == "Operation: Identify device "@
            + number::decimal(device as nat),
        op matches ClientOperation::Getstatus { device } ==> s@
            == "Operation: Get status of device "@ + number::decimal(device as nat),
        op matches ClientOperation::Mount { device, mountpoint, dummy_formats, .. } ==> s@
            == "Operation: Mount device "@ + number::decimal(device as nat) + " at '"@ + mountpoint@
            + "'"@ + (if dummy_formats {
            " with dummy formats"@
        } else {
            ""@
        }),
        op matches ClientOperation::Unmount { device: Some(d), mountpoint: None, .. } ==> s@
            == "Operation: Unmount device "@ + number::decimal(d as nat) + " or mountpoint "@
            + ""@,
        op matches ClientOperation::Unmount { device: None, mountpoint: Some(path), .. } ==> s@
            == "Operation: Unmount device "@ + number::decimal(0) + " or mountpoint "@ + path@,
{
}

/// What came of an operation is told with the numbers and the status that it came to.
pub proof fn law_responses_are_told<W>(r: OpResponse<W>, s: String)
    requires
        call_ensures(OpResponse::<W>::to_string, (&r,), s),
        r.stream is None,
    ensures
        r.rsp matches Ok(OpResponseType::BusReset) ==> s@ == "Bus Reset"@,
        r.rsp matches Ok(OpResponseType::Mount) ==> s@ == "Mount"@,
        r.rsp matches Ok(OpResponseType::Unmount) ==> s@ == "Unmount"@,
        r.rsp matches Ok(OpResponseType::ReadFile { contents, status, .. }) ==> s@
            == "Read File - "@ + number::decimal(contents@.len()) + " bytes read, status: "@
            + cbmtype::status_text(status@),
        r.rsp matches Ok(OpResponseType::ReadFileCache { contents, status, .. }) ==> s@
            == "Read Cache File - "@ + number::decimal(contents@.len()) + " bytes read, status: "@
            + cbmtype::status_text(status@),
        r.rsp matches Ok(OpResponseType::GetStatus { status }) ==> s@ == "Get Status - "@
            + cbmtype::status_text(status@),
        r.rsp matches Ok(OpResponseType::InitDrive { status }) ==> s@ == "Init Drive - status: "@
            + cbmtype::status_text(status@),
        r.rsp matches Ok(OpResponseType::CancelDeviceCache { device }) ==> s@
            == "Cancel Device Cache "@ + number::decimal(device as nat),
        r.rsp matches Ok(OpResponseType::WriteFile { device, path, status, bytes_written }) ==> s@
            == "Write File "@ + number::decimal(device as nat) + " "@ + path@ + " - "@
            + number::decimal(bytes_written as nat) + " bytes written, status: "@
            + cbmtype::status_text(status@),
        r.rsp matches Err(e) ==> s@ == "Error: "@ + e@.text(),
{
}

/// A text is true or false by its name.
pub proof fn law_truth(b: bool, s: &'static str)
    requires
        call_ensures(ipc::bool_str, (b,), s),
    ensures
        b ==> s@ == "true"@,
        !b ==> s@ == "false"@,
{
}

/// The help of the shell names each command in a line of its own.
pub proof fn law_help(lines: Vec<String>)
    requires
        call_ensures(shell::help_lines, (), lines),
    ensures
        lines@.len() == 9,
        lines@[0]@ == "Available commands:"@,
        lines@[8]@ == "  q|x|quit|exit       - Exit program"@,
{
    let all = text::texts(lines@);
    assert(all.len() == lines@.len());
    assert(all[0] == lines@[0]@ && all[8] == lines@[8]@);
}

/// A part of a text are the characters from one place to another. A text begins with another,
/// or has it in it, where it does so at the beginning or at some place.
pub proof fn law_parts_of_texts(
    chars: Vec<char>,
    from: usize,
    to: usize,
    part: String,
    i: int,
    s: &str,
    pat: &str,
    begins: bool,
    found: bool,
    k: int,
)
    requires
        from <= to <= chars@.len(),
        call_ensures(text::substring, (&chars, from, to), part),
        call_ensures(text::starts_with, (s, pat), begins),
        call_ensures(text::contains, (s, pat), found),
    ensures
        part@.len() == to - from,
        0 <= i < to - from ==> part@[i] == chars@[from + i],
        begins <==> pat@.len() <= s@.len() && s@.take(pat@.len() as int) == pat@,
        0 <= k && k + pat@.len() <= s@.len() && s@.subrange(k, k + pat@.len()) == pat@ ==> found,
        pat@.len() > s@.len() ==> !found,
{
    if pat@.len() <= s@.len() {
        assert(s@.take(pat@.len() as int) =~= s@.subrange(0, pat@.len() as int));
    }
    if 0 <= k && k + pat@.len() <= s@.len() && s@.subrange(k, k + pat@.len()) == pat@ {
        text::lemma_has_part(s@, pat@, k);
    }
    if text::first_from(s@, pat@, 0) is Some {
        text::lemma_first_bounds(s@, pat@, 0);
    }
}

/// What is known of a disk is what it is made from, in order.
pub proof fn law_disk_attributes(
    name: &str,
    id: &str,
    free: u16,
    used: u16,
    total: u16,
    list: Vec<DiskXattr>,
)
    requires
        call_ensures(DiskXattr::new, (name, id, free, used, total), list),
    ensures
        list@.len() == 5,
        list@[0] matches DiskXattr::HeaderName(s) && s@ == name@,
        list@[1] matches DiskXattr::HeaderId(s) && s@ == id@,
        list@[2] == DiskXattr::BlocksFree(free),
        list@[3] == DiskXattr::BlocksUsed(used),
        list@[4] == DiskXattr::TotalBlocks(total),
{
}

/// A status that a drive has not sent has no number that a drive would send.
pub proof fn law_status_before_any(s: CbmStatus)
    requires
        call_ensures(<CbmStatus as Default>::default, (), s),
    ensures
        s.number == 255 && s.error_number is Unknown && s.message@ == "none"@,
        s.track == 0 && s.sector == 0 && s.device == 0,
{
    assert(s@.message == s.message@);
}

/// How a file can be used, and how far it is cached, have names.
pub proof fn law_names_of_uses(
    rw: RwType,
    r: &'static str,
    c: CacheStatus,
    q: &'static str,
)
    requires
        call_ensures(RwType::as_str, (&rw,), r),
        call_ensures(CacheStatus::as_str, (&c,), q),
    ensures
        rw is Read ==> r@ == "Read"@,
        rw is Write ==> r@ == "Write"@,
        rw is ReadWrite ==> r@ == "ReadWrite"@,
        c is Uncached ==> q@ == "Uncached"@,
        c is InProgress ==> q@ == "In progress"@,
        c is Complete ==> q@ == "Complete"@,
{
}

/// A new thing has nothing in it: no mount, no operation, no channel in use, and of a disk
/// only the control files. A control file is for what it was made for.
pub proof fn law_new_things<S, W>(
    service: MountService,
    queues: OperationQueues<S, W>,
    channels: CbmChannelManager,
    m: &mut CbmChannelManager,
    drive: u8,
    now: SystemTime,
    disk: DiskInfo,
    purpose: ControlFilePurpose,
    control: ControlFile,
    i: int,
)
    requires
        call_ensures(MountService::new, (), service),
        call_ensures(OperationQueues::<S, W>::new, (), queues),
        call_ensures(CbmChannelManager::new, (), channels),
        call_ensures(CbmChannelManager::reset, (m,), ()),
        call_ensures(DiskInfo::new, (drive, now), disk),
        call_ensures(ControlFile::new, (purpose,), control),
        0 <= i < 16,
    ensures
        service@.len() == 0,
        queues@.order().len() == 0,
        channels.slots().len() == 16 && channels.slots()[i] is None && channels.next() == 1,
        final(m).slots().len() == 16 && final(m).slots()[i] is None && final(m).next() == old(
            m,
        ).next(),
        disk@.drive_num == drive && disk@.cbm_files.len() == 0 && disk@.disk_read_time is None
            && disk@.disk_dir is None && disk@.header is None && disk@.blocks_free is None,
        control.purpose == purpose,
{
}

/// What a thing is made of is what it holds.
pub proof fn law_what_is_held(
    device: u8,
    drive: u8,
    channel: u8,
    sequence: u64,
    h: FileHandle,
    u: CbmDriveUnit,
    name: &'static str,
    s: String,
    f: FileEntry,
    ino: u64,
)
    requires
        call_ensures(FileHandle::new, (device, drive, channel, sequence), h),
        call_ensures(CbmDriveUnit::to_string, (&u,), s),
        call_ensures(CbmDeviceType::as_str, (&u.device_type,), name),
        call_ensures(FileEntry::inode, (&f,), ino),
    ensures
        h.device_number == device && h.drive_id == drive && h.channel_number == channel
            && h.sequence == sequence,
        s@ == "Drive "@ + number::decimal(u.device_number as nat) + " ("@ + name@ + ")"@,
        ino == f@.ino,
{
}

/// The background begins by looking whether it was told to stop, with what waits already.
pub proof fn law_background_begins<S, W>(p: Proc<S, W>, r: Run<S, W>)
    requires
        call_ensures(Proc::<S, W>::run, (p,), r),
    ensures
        r.step is Looking,
        r.proc == p,
{
}

/// What is to be done next is what the state says.
pub proof fn law_next_actions(
    l: LaunchSession,
    launch: LaunchStep,
    s: SendSession,
    send: SendStep,
    m: MainSession,
    main: MainStep,
)
    requires
        call_ensures(LaunchSession::action, (&l,), launch),
        call_ensures(SendSession::action, (&s,), send),
        call_ensures(MainSession::action, (&m,), main),
    ensures
        launch == l.step,
        send == s.step,
        main == m.step,
{
}

/// A response takes in part after part up to a megabyte, and what is too much leaves it as it
/// was.
pub proof fn law_response_buffer(
    fresh: ResponseBuffer,
    b: &mut ResponseBuffer,
    bytes: &[u8],
    r: Result<(), Error>,
)
    requires
        call_ensures(ResponseBuffer::new, (), fresh),
        call_ensures(ResponseBuffer::take, (b, bytes), r),
    ensures
        fresh.data@.len() == 0,
        r is Ok <==> vstd::utf8::encode_utf8(old(b).data@).len() + bytes@.len() <= 1_048_576,
        r is Ok ==> final(b).data@ == old(b).data@ + text::lossy_text(bytes@),
        r is Err ==> final(b).data@ == old(b).data@,
{
}

/// What has waited for too long is told of, each operation in its turn, and the same number of
/// operations leaves the queues.
pub proof fn law_queues_are_cleaned<S, W>(
    q: &mut OperationQueues<S, W>,
    now: Instant,
    notices: Vec<Notice<S, W>>,
    i: int,
)
    requires
        call_ensures(OperationQueues::<S, W>::cleanup_on_age, (q, now), notices),
    ensures
        notices@.len() == old(q)@.taken_out(Purge::Aged { now }).len(),
        0 <= i < notices@.len() ==> notices@[i].response.rsp is Err,
{
    if 0 <= i < notices@.len() {
        assert(bg::tells(
            notices@[i],
            old(q)@.taken_out(Purge::Aged { now })[i],
            Purge::Aged { now },
        ));
    }
}

} // verus!

//! What can be relied on of the programs: the daemon's life, how the client has it run, and
//! how the two talk.
use vstd::prelude::*;

use crate::cbmtype::{CbmError, CbmStatus};
use crate::client::launch;
use crate::client::launch::{LaunchEvent, LaunchNext, LaunchSession, LaunchStep};
use crate::client::request;
use crate::client::request::{SendEvent, SendNext, SendSession, SendStep};
use crate::error::{Error, ErrorView, Fs1541ErrorView};
use crate::ipc::Response;
use crate::number;
use crate::server::args;
use crate::server::args::{Args, Level};
use crate::server::bg::Operation;
use crate::server::daemon;
use crate::server::daemon::{
    Daemon, MainEvent, MainNext, MainSession, Part, PidFile, Progress, Shutdown, Stop,
};
use crate::server::drivemgr::DriveManager;
use crate::server::mountsvc::MountService;
use crate::server::run::{Run, RunAction, RunEvent};
use crate::server::signal::{OnSignal, SignalHandler};
use crate::shell;
use crate::shell::ShellCommandView;
use crate::text;
use crate::time::Instant;

verus! {

/// The background that is told to stop ends, with nothing mounted. One that is not told so
/// takes in what was sent, and goes on from there: after an operation it pauses, and after a
/// pause or when it has told of what was too old it looks again.
pub proof fn law_background_goes_round<S, W>(
    run: &mut Run<S, W>,
    service: &mut MountService,
    drive_mgr: &mut DriveManager,
    event: RunEvent<S, W>,
    action: RunAction<S, W>,
)
    requires
        call_ensures(Run::<S, W>::next, (run, service, drive_mgr, event), action),
    ensures
        event matches RunEvent::Looked { shutdown } ==> final(run).proc.shutdown == shutdown && (
        shutdown ==> action is Exit && final(run).step is Ended && final(service)@.len() == 0) && (
        !shutdown ==> final(run).step is Receiving && (action matches RunAction::Receive {
            age_check_period,
        } && age_check_period == old(run).proc.age_check_period)),
        !(event is Looked) ==> final(service)@ == old(service)@ && final(run).proc.shutdown == old(
            run,
        ).proc.shutdown && final(drive_mgr)@ == old(drive_mgr)@,
        event is Processed ==> action is Pause && final(run).step is Pausing,
        event is Paused || event is Told ==> action is Look && final(run).step is Looking,
        event matches RunEvent::AgeReached { now } ==> action is Tell && final(run).step is Telling
            && final(run).proc.last_cleanup == now,
        !(event is AgeReached) ==> final(run).proc.last_cleanup == old(run).proc.last_cleanup,
        event is Received ==> (action is Process && final(run).step is Processing || action is Pause
            && final(run).step is Pausing),
        !(event is Received) && !(event is AgeReached) ==> final(run).proc.queues@ == old(
            run,
        ).proc.queues@,
{
}

/// An operation that is sent while nothing waits is done next, and nothing waits after it.
/// Where nothing was sent and nothing waits, nothing is done.
pub proof fn law_what_is_sent_is_done<S, W>(
    run: &mut Run<S, W>,
    service: &mut MountService,
    drive_mgr: &mut DriveManager,
    ops: Vec<Operation<S, W>>,
    action: RunAction<S, W>,
)
    requires
        call_ensures(
            Run::<S, W>::next,
            (run, service, drive_mgr, RunEvent::Received(ops)),
            action,
        ),
        old(run).proc.queues@.critical.len() == 0,
        old(run).proc.queues@.high.len() == 0,
        old(run).proc.queues@.normal.len() == 0,
        old(run).proc.queues@.low.len() == 0,
    ensures
        ops@.len() == 0 ==> action is Pause,
        ops@.len() == 1 ==> action == RunAction::Process(ops@[0]),
{
    let before = old(run).proc.queues@;
    assert(before.order() =~= Seq::empty());
    reveal_with_fuel(crate::server::run::pushed_all, 3);
    if ops@.len() == 1 {
        assert(ops@.drop_last() =~= Seq::empty());
        assert(before.pushed(ops@[0]).order() =~= seq![ops@[0]]);
    }
}

/// The first signal asks the daemon to shut down, and each one after it ends the daemon.
pub proof fn law_second_signal_ends(
    s: &mut SignalHandler,
    t: &mut SignalHandler,
    r: OnSignal,
    q: OnSignal,
)
    requires
        call_ensures(SignalHandler::on_signal, (s,), r),
        call_ensures(SignalHandler::on_signal, (t,), q),
        *old(t) == *final(s),
    ensures
        !old(s).force_quit ==> r is Stop,
        old(s).force_quit ==> r is ForceQuit,
        q is ForceQuit,
{
}

/// A new handler takes its first signal as a wish to shut down.
pub proof fn law_first_signal_stops(fresh: SignalHandler, s: &mut SignalHandler, r: OnSignal)
    requires
        call_ensures(SignalHandler::new, (), fresh),
        call_ensures(SignalHandler::on_signal, (s,), r),
        *old(s) == fresh,
    ensures
        r is Stop,
{
}

/// The daemon opens the bus, starts the background, starts what answers clients, waits, and
/// stops, in this order, as long as each of it goes well.
pub proof fn law_life_of_the_daemon(pid: i32, first: MainSession, s: MainSession, n: MainNext)
    requires
        call_ensures(daemon::async_main, (pid,), first),
        call_ensures(MainSession::next, (s, MainEvent::Done), n),
    ensures
        first.step is OpenBus && first.daemon.pid == pid,
        s.step is OpenBus ==> (n matches MainNext::Act(t) && t.step is StartBgProc
            && t.daemon.has_bg_proc && t.daemon.has_ipc_server),
        s.step is StartBgProc ==> (n matches MainNext::Act(t) && t.step is StartIpcServer),
        s.step is StartIpcServer ==> (n matches MainNext::Act(t) && t.step is Wait),
        s.step is Wait ==> (n matches MainNext::Act(t) && t.step is Shutdown
            && t.daemon.bg_proc_shutdown && t.daemon.ipc_shutdown),
        s.step is Shutdown ==> n is Exit,
        n matches MainNext::Act(t) ==> t.daemon.pid == s.daemon.pid,
{
    assert(n@ == s.after(MainEvent::Done@));
}

/// Where a part of the daemon ends on its own, so does the daemon: with an error that tells
/// which part it was and holds its words, or without one where the part had none. Without a
/// driver there is no daemon.
pub proof fn law_end_of_the_daemon(
    s: MainSession,
    part: Part,
    words: String,
    n: MainNext,
    quiet: MainNext,
    bus: CbmError,
    m: MainNext,
)
    requires
        call_ensures(MainSession::next, (s, MainEvent::Ended(part, Some(words))), n),
        call_ensures(MainSession::next, (s, MainEvent::Ended(part, None)), quiet),
        call_ensures(MainSession::next, (s, MainEvent::NoBus(bus)), m),
    ensures
        quiet is Exit,
        n matches MainNext::Fail(e) && (e@ matches ErrorView::Fs1541 { message, error } && error
            == Fs1541ErrorView::Internal(words@) && (part is BgProc ==> message
            == "Background processor thread failed"@) && (part is IpcServer ==> message
            == "IPC server thread failed"@) && (part is BgListener ==> message
            == "Background response thread failed"@)),
        m matches MainNext::Fail(e) && (e@ matches ErrorView::Rs1541 { message, error } && error
            == bus@ && message == "Failed to initialize USB device"@),
{
    assert(n@ == s.after(MainEvent::Ended(part, Some(words))@));
    assert(quiet@ == s.after(MainEvent::Ended(part, None)@));
    assert(m@ == s.after(MainEvent::NoBus(bus)@));
}

/// A new daemon can still hand over its operations and responses, and nothing of it runs. A
/// part that is made takes over what is meant for it, and nothing else changes.
pub proof fn law_parts_are_made(
    pid: i32,
    d: Daemon,
    a: &mut Daemon,
    b: &mut Daemon,
    c: &mut Daemon,
    e: &mut Daemon,
)
    requires
        call_ensures(Daemon::new, (pid,), d),
        call_ensures(Daemon::create_bg_proc, (a,), ()),
        call_ensures(Daemon::create_ipc_server, (b,), ()),
        call_ensures(Daemon::start_bg_proc, (c,), ()),
        call_ensures(Daemon::start_ipc_server, (e,), ()),
    ensures
        d.pid == pid && d.has_bg_proc_rx && d.has_bg_rsp_rx,
        !d.has_ipc_server && !d.has_ipc_server_handle && !d.has_bg_listener_handle,
        !d.has_bg_proc && !d.has_bg_proc_handle && !d.bg_proc_shutdown && !d.ipc_shutdown,
        final(a).has_bg_proc && !final(a).has_bg_proc_rx,
        final(a).has_ipc_server == old(a).has_ipc_server && final(a).has_bg_rsp_rx == old(
            a,
        ).has_bg_rsp_rx,
        final(b).has_ipc_server && !final(b).has_bg_rsp_rx,
        final(b).has_bg_proc == old(b).has_bg_proc && final(b).has_bg_proc_rx == old(
            b,
        ).has_bg_proc_rx,
        final(c).has_bg_proc_handle && final(c).has_ipc_server_handle == old(
            c,
        ).has_ipc_server_handle,
        final(e).has_ipc_server_handle && final(e).has_bg_listener_handle
            && final(e).has_bg_proc_handle == old(e).has_bg_proc_handle,
        final(a).pid == old(a).pid && final(b).pid == old(b).pid && final(c).pid == old(c).pid
            && final(e).pid == old(e).pid,
{
}

/// A handle is given away once, and the others stay.
pub proof fn law_handles_are_given_away(a: &mut Daemon, b: &mut Daemon, c: &mut Daemon)
    requires
        call_ensures(Daemon::take_bg_proc_handle, (a,), ()),
        call_ensures(Daemon::take_ipc_server_handle_ref, (b,), ()),
        call_ensures(Daemon::take_bg_listener_handle, (c,), ()),
    ensures
        !final(a).has_bg_proc_handle && final(a).has_ipc_server_handle == old(
            a,
        ).has_ipc_server_handle && final(a).has_bg_listener_handle == old(a).has_bg_listener_handle,
        !final(b).has_ipc_server_handle && final(b).has_bg_proc_handle == old(b).has_bg_proc_handle
            && final(b).has_bg_listener_handle == old(b).has_bg_listener_handle,
        !final(c).has_bg_listener_handle && final(c).has_bg_proc_handle == old(c).has_bg_proc_handle
            && final(c).has_ipc_server_handle == old(c).has_ipc_server_handle,
{
}

/// A part that runs is told to stop, or is ended where it must be and its handle is there.
/// What does not run is left alone.
pub proof fn law_parts_are_stopped(a: &mut Daemon, b: &mut Daemon, hard: bool, r: Stop, q: Stop)
    requires
        call_ensures(Daemon::stop_bg_proc, (a, hard), r),
        call_ensures(Daemon::stop_ipc_all, (b, hard), q),
    ensures
        r is NotRunning <==> !old(a).has_bg_proc,
        r is Signal <==> old(a).has_bg_proc && !hard,
        r is Abort <==> old(a).has_bg_proc && hard && old(a).has_bg_proc_handle,
        final(a).bg_proc_shutdown == (old(a).bg_proc_shutdown || r is Signal),
        final(a).ipc_shutdown == old(a).ipc_shutdown,
        q is NotRunning <==> !old(b).has_ipc_server,
        q is Signal <==> old(b).has_ipc_server && !hard,
        q is Abort <==> old(b).has_ipc_server && hard && old(b).has_ipc_server_handle,
        final(b).ipc_shutdown == (old(b).ipc_shutdown || q is Signal),
        final(b).bg_proc_shutdown == old(b).bg_proc_shutdown,
        r is Abort ==> !final(a).has_bg_proc_handle,
        q is Abort ==> !final(b).has_bg_proc_handle,
{
}

/// A daemon has stopped once none of its parts runs any more. Until then it is looked at
/// again, as long as there is time; after that exactly the parts that still run are ended.
pub proof fn law_daemon_stops(d: Daemon, p: Progress, in_time: bool, r: Shutdown)
    requires
        call_ensures(Daemon::shutdown, (&d, &p, in_time), r),
    ensures
        r is Finished <==> p.bg_proc != Some(false) && p.ipc_server != Some(false)
            && p.bg_listener != Some(false),
        r is Sleep ==> in_time,
        in_time ==> r is Finished || r is Sleep,
        r matches Shutdown::Abort(a, e) ==> a.bg_proc == (p.bg_proc == Some(false)) && a.ipc_server
            == (p.ipc_server == Some(false)) && a.bg_listener == (p.bg_listener == Some(false)),
{
    assert(r@ == p.stopped(in_time));
}

/// A daemon is not started where its file names a process that runs. A file that names none,
/// or one that does not run, is left over.
pub proof fn law_one_daemon_at_a_time(
    content: Option<&str>,
    runs: bool,
    pid: Option<i32>,
    r: PidFile,
    none: PidFile,
)
    requires
        call_ensures(daemon::pid_in_file, (content,), pid),
        call_ensures(daemon::check_pid_file, (true, content, runs), r),
        call_ensures(daemon::check_pid_file, (false, content, runs), none),
    ensures
        none is Missing,
        content is None ==> pid is None,
        pid is None ==> r is Stale,
        !runs ==> r is Stale,
        runs && pid is Some ==> r == PidFile::Running(pid->0),
{
}

/// The number of a process that is written down is read back, with white space around it.
pub proof fn law_process_is_read_back(n: i32, content: &str, pid: Option<i32>)
    requires
        n >= 0,
        text::trimmed(content@) == number::decimal(n as nat),
        call_ensures(daemon::pid_in_file, (Some(content),), pid),
    ensures
        pid == Some(n),
{
    number::lemma_decimal(n as nat);
    number::law_number_round_trip(n as nat, 0x7fff_ffff);
    assert(number::is_digit(number::decimal(n as nat)[0]));
}

/// The daemon is well only where it has answered a ping with a pong. An error of its own is
/// handed on.
pub proof fn law_daemon_is_well(answer: Result<Response, Error>, r: Result<(), Error>)
    requires
        call_ensures(launch::check_daemon_health, (answer,), r),
    ensures
        r is Ok <==> (answer matches Ok(rsp) && rsp is Pong),
        answer matches Err(e) ==> r == Err::<(), Error>(e),
{
}

/// A daemon that is well is not started; one that is not is started first and then looked at.
/// It runs where a look finds it well, and is looked at again after a sleep where it does not.
/// Five seconds after the beginning it has taken too long.
pub proof fn law_daemon_is_launched(
    started: Instant,
    first: LaunchSession,
    s: LaunchSession,
    path: &str,
    now: Instant,
    done: LaunchNext,
    not_found: bool,
    words: String,
    failed: LaunchNext,
)
    requires
        call_ensures(launch::ensure_daemon_running, (started,), first),
        call_ensures(LaunchSession::next, (s, LaunchEvent::Done, path, now), done),
        call_ensures(
            LaunchSession::next,
            (s, LaunchEvent::Failed { not_found, words }, path, now),
            failed,
        ),
    ensures
        first.started == started && first.step is CheckHealth,
        s.step is CheckHealth || s.step is Look ==> done is Running,
        s.step is CheckHealth ==> failed == LaunchNext::Act(
            LaunchSession { started: s.started, step: LaunchStep::Launch },
        ),
        s.step is Look ==> failed == LaunchNext::Act(
            LaunchSession { started: s.started, step: LaunchStep::Sleep },
        ),
        s.step is Launch ==> (failed matches LaunchNext::Fail(e) && (!not_found ==> e@
            == (ErrorView::Io { message: "Failed to start daemon"@, error: words@ })) && (not_found
            ==> e@ == (ErrorView::Fs1541 {
            message: "Failed to start daemon"@,
            error: Fs1541ErrorView::Operation("Daemon executable '"@ + path@ + "' not found"@),
        }))),
        s.step is Launch || s.step is Sleep ==> if now.nanos - s.started.nanos < 5_000_000_000 {
            done == LaunchNext::Act(
                LaunchSession { started: s.started, step: LaunchStep::Look },
            )
        } else {
            done matches LaunchNext::Fail(e) && (e@ matches ErrorView::Fs1541 { message, error }
                && message == "Daemon startup failed"@ && (error matches Fs1541ErrorView::Timeout(
                _,
                d,
            ) && d.secs == 5 && d.nanos == 0))
        },
{
    assert(done@ == s.after(LaunchEvent::Done, path@, now));
    assert(failed@ == s.after(LaunchEvent::Failed { not_found, words }, path@, now));
}

/// A look finds the daemon running only where it is well and its process is there.
pub proof fn law_look_needs_both(h: Result<(), Error>, p: Result<(), Error>, r: LaunchEvent)
    requires
        call_ensures(launch::looked, (&h, &p), r),
    ensures
        r is Done <==> h is Ok && p is Ok,
{
}

/// The process that the daemon's file names is its number, with white space around it. What
/// is no number names none.
pub proof fn law_process_of_the_daemon(
    n: u32,
    contents: String,
    r: Result<u32, Error>,
    why: String,
    q: Result<u32, Error>,
)
    requires
        call_ensures(launch::daemon_pid, (Ok(contents),), r),
        call_ensures(launch::daemon_pid, (Err(why),), q),
    ensures
        text::trimmed(contents@) == number::decimal(n as nat) ==> r == Ok::<u32, Error>(n),
        text::trimmed(contents@).len() == 0 ==> r is Err,
        q matches Err(e) && e@ == (ErrorView::Fs1541 {
            message: "Failed to read PID file"@,
            error: Fs1541ErrorView::Validation(why@),
        }),
{
    number::lemma_decimal(n as nat);
    number::law_number_round_trip(n as nat, 0xffff_ffff);
}

proof fn lemma_last_piece(dir: Seq<char>, name: Seq<char>, path: Seq<char>)
    requires
        path == dir + seq!['/'] + name || path == name,
        !name.contains('/'),
    ensures
        text::split_on(path, '/').len() > 0,
        text::split_on(path, '/').last() == name,
    decreases path.len(),
{
    if path.contains('/') {
        assert(path[dir.len() as int] == '/');
        path.index_of_first_ensures('/');
        let i = path.index_of_first('/')->0;
        assert(0 <= i <= dir.len());
        let rest = path.skip(i + 1);
        if i == dir.len() {
            assert(rest =~= name);
            lemma_last_piece(dir, name, rest);
        } else {
            assert(rest =~= dir.skip(i + 1) + seq!['/'] + name);
            lemma_last_piece(dir.skip(i + 1), name, rest);
        }
        assert(text::split_on(path, '/') == seq![path.take(i)] + text::split_on(rest, '/'));
    } else {
        if path == dir + seq!['/'] + name {
            assert(path[dir.len() as int] == '/');
        }
        assert(text::split_on(path, '/') == seq![path]);
    }
}

/// Whatever is in front of the last slash, the name of a file is what follows it, unless that
/// is empty or a dot or two.
pub proof fn law_names_of_files(dir: Seq<char>, name: Seq<char>, path: &str, r: Option<String>)
    requires
        path@ == dir + seq!['/'] + name || path@ == name,
        !name.contains('/'),
        name.len() > 2,
        call_ensures(launch::file_name, (path,), r),
    ensures
        r matches Some(s) && s@ == name,
{
    let pieces = text::split_on(path@, '/');
    lemma_last_piece(dir, name, path@);
    assert(pieces.last() == name);
    reveal_strlit("");
    reveal_strlit(".");
    reveal_strlit("..");
    assert(name != ""@ && name != "."@ && name != ".."@);
}

/// The program of the daemon is in the directory that is given, under its own name.
pub proof fn law_program_of_the_daemon(dir: &str, s: String)
    requires
        call_ensures(launch::daemon_path, (dir,), s),
    ensures
        dir@.len() == 0 || dir@.last() == '/' ==> s@ == dir@ + "1541fsd"@,
        dir@.len() > 0 && dir@.last() != '/' ==> s@ == dir@ + "/"@ + "1541fsd"@,
{
}

/// A process is the daemon where its command line begins with a path to the daemon's program,
/// and is not where it begins with another name, or could not be read.
pub proof fn law_process_is_the_daemon(
    dir: Seq<char>,
    name: Seq<char>,
    rest: Seq<char>,
    cmdline: &str,
    r: Result<(), Error>,
    unread: Result<(), Error>,
)
    requires
        !dir.contains('\0') && !name.contains('\0'),
        !name.contains('/'),
        name.len() > 2,
        cmdline@ == dir + seq!['/'] + name + seq!['\0'] + rest || cmdline@ == dir + seq!['/'] + name,
        call_ensures(launch::verify_daemon_process, (Some(cmdline),), r),
        call_ensures(launch::verify_daemon_process, (None,), unread),
    ensures
        unread is Err,
        r is Ok <==> name == "1541fsd"@,
{
    let path = dir + seq!['/'] + name;
    assert(!path.contains('\0'));
    if cmdline@ == path {
        assert(text::split_on(cmdline@, '\0') == seq![path]);
    } else {
        text::lemma_split_on(path, '\0', rest);
    }
    lemma_last_piece(dir, name, path);
    reveal_strlit("");
    reveal_strlit(".");
    reveal_strlit("..");
    assert(name != ""@ && name != "."@ && name != ".."@);
}

/// A request is sent step by step, and only then a response is read.
pub proof fn law_request_is_sent(first: SendSession, s: SendSession, n: SendNext)
    requires
        call_ensures(request::send_request, (), first),
        call_ensures(SendSession::next, (s, SendEvent::Done), n),
    ensures
        first.step is Connect && first.buffer.data@.len() == 0,
        n matches SendNext::Act(t) && t.buffer.data@ == s.buffer.data@ && (s.step is Connect
            ==> t.step is SetReadTimeout) && (s.step is SetReadTimeout
            ==> t.step is SetWriteTimeout) && (s.step is SetWriteTimeout
            ==> t.step is WriteRequest) && (s.step is WriteRequest ==> t.step is WriteNewline)
            && (s.step is WriteNewline ==> t.step is Flush) && (s.step is Flush ==> t.step is Read),
{
    assert(n@ == s@.next(SendEvent::Done));
}

/// A response is read part by part, and each part goes behind what was read. It has at most
/// a megabyte. With an empty part it has ended, and all of it is handed on.
pub proof fn law_response_is_read(s: SendSession, bytes: Vec<u8>, n: SendNext)
    requires
        s.step is Read,
        call_ensures(SendSession::next, (s, SendEvent::Part(bytes)), n),
    ensures
        bytes@.len() == 0 ==> (n matches SendNext::Parse(all) && all@ == s.buffer.data@),
        bytes@.len() > 0 ==> if vstd::utf8::encode_utf8(s.buffer.data@).len() + bytes@.len()
            <= 1_048_576 {
            n matches SendNext::Act(t) && t.step is Read && t.buffer.data@ == s.buffer.data@
                + text::lossy_text(bytes@)
        } else {
            n matches SendNext::Fail(e) && (e@ matches ErrorView::Fs1541 { message, .. } && message
                == "Response size exceeded limit"@)
        },
{
    assert(n@ == s@.next(SendEvent::Part(bytes)));
}

/// A step that fails ends the request, with an error that tells which step it was and holds
/// the words of the failure. A response that does not come is waited for for a minute.
pub proof fn law_request_fails(s: SendSession, would_block: bool, error: String, n: SendNext)
    requires
        call_ensures(SendSession::next, (s, SendEvent::Failed { would_block, error }), n),
    ensures
        n matches SendNext::Fail(e) && match e@ {
            ErrorView::Io { message, error: words } => words == error@ && message == match s.step {
                SendStep::Connect => "Failed to connect to daemon"@,
                SendStep::SetReadTimeout => "Failed to set read timeout"@,
                SendStep::SetWriteTimeout => "Failed to set write timeout"@,
                SendStep::WriteNewline => "Failed to write newline"@,
                SendStep::Flush => "Failed to flush request"@,
                _ => "Failed to read response"@,
            } && !(s.step is WriteRequest) && !(s.step is Read && would_block),
            ErrorView::Serde { message, error: words } => s.step is WriteRequest && words == error@
                && message == "Failed to serialize request"@,
            ErrorView::Fs1541 { message, error: what } => s.step is Read && would_block && message
                == "Operation timed out"@ && (what matches Fs1541ErrorView::Timeout(_, d) && d.secs
                == 60 && d.nanos == 0),
            _ => false,
        },
{
    assert(n@ == s@.next(SendEvent::Failed { would_block, error }));
}

/// A response that cannot be parsed is told with the words of the failure.
pub proof fn law_response_is_not_parsed(words: String, e: Error)
    requires
        call_ensures(request::parse_error, (words,), e),
    ensures
        e@ == (ErrorView::Serde { message: "Failed to parse response"@, error: words@ }),
{
}

/// The more is switched on of tracing, debugging, information and warnings, in this order, the
/// more is logged. Each level has its own name.
pub proof fn law_levels(
    trace: bool,
    debug: bool,
    info: bool,
    warn: bool,
    r: Level,
    name: &'static str,
)
    requires
        call_ensures(args::get_effective_level, (trace, debug, info, warn), r),
        call_ensures(Level::as_str, (&r,), name),
    ensures
        r is Trace <==> trace,
        r is Debug <==> debug && !trace,
        r is Info <==> info && !debug && !trace,
        r is Warn <==> warn && !info && !debug && !trace,
        r is Trace ==> name@ == "Trace"@,
        r is Debug ==> name@ == "Debug"@,
        r is Info ==> name@ == "Info"@,
        r is Warn ==> name@ == "Warn"@,
        r is Error ==> name@ == "Error"@,
{
}

/// The daemon goes to the background, and caches and waits as its help says, unless it is
/// told otherwise.
pub proof fn law_defaults(a: Args)
    requires
        call_ensures(<Args as Default>::default, (), a),
    ensures
        !a.foreground && !a.std_logging && a.autounmount,
        a.dir_cache_expiry_secs == 60 && a.file_cache_expiry_secs == 300,
        a.dir_reread_timeout_secs == 10 && a.file_reread_timeout_secs == 30,
        a.dir_read_sleep_ms == 1000 && a.file_read_sleep_ms == 1000,
        a.bg_age_check_secs == 5,
        a.dir_attr_ttl_ms == 5000 && a.file_attr_ttl_ms == 5000,
        a.dir_lookup_ttl_ms == 5000 && a.file_lookup_ttl_ms == 5000,
{
}

/// The first word that is typed in tells the command, under its short names and its long
/// ones. What follows goes to the drive as it stands, one space between its words.
pub proof fn law_commands_of_the_shell(first: Seq<char>, a: Seq<char>, b: Seq<char>)
    ensures
        shell::command_of(Seq::empty()) is Nothing,
        shell::command_of(seq![first]) is Quit <==> first == "quit"@ || first == "exit"@ || first
            == "q"@ || first == "x"@,
        first == "identify"@ || first == "id"@ || first == "i"@ ==> shell::command_of(
            seq![first],
        ) is Identify,
        first == "status"@ || first == "getstatus"@ || first == "s"@ ==> shell::command_of(
            seq![first],
        ) is Status,
        first == "reset"@ || first == "resetbus"@ || first == "busreset"@ || first == "r"@ || first
            == "b"@ ==> shell::command_of(seq![first]) is ResetBus,
        first == "u"@ || first == "usbreset"@ || first == "resetusb"@ ==> shell::command_of(
            seq![first],
        ) is ResetUsb,
        first == "help"@ || first == "h"@ || first == "?"@ ==> shell::command_of(
            seq![first],
        ) is Help,
        first == "command"@ || first == "cmd"@ || first == "c"@ ==> shell::command_of(
            seq![first],
        ) is Usage && shell::command_of(seq![first, a]) == ShellCommandView::Command(a)
            && shell::command_of(seq![first, a, b]) == ShellCommandView::Command(a + " "@ + b),
        first == "format"@ || first == "f"@ ==> shell::command_of(seq![first]) is Usage
            && shell::command_of(seq![first, a]) is Usage && shell::command_of(seq![first, a, b])
            == (ShellCommandView::Format { name: a, id: b }),
{
    lemma_names_of_commands();
    assert(seq![first, a].skip(1) =~= seq![a]);
    assert(seq![first, a, b].skip(1) =~= seq![a, b]);
    assert(seq![a, b].drop_last() =~= seq![a]);
    reveal_with_fuel(shell::joined, 3);
}

proof fn lemma_names_of_commands()
    ensures
        "quit"@.len() == 4 && "quit"@[0] == 'q',
        "exit"@.len() == 4 && "exit"@[0] == 'e',
        "q"@.len() == 1 && "q"@[0] == 'q',
        "x"@.len() == 1 && "x"@[0] == 'x',
        "identify"@.len() == 8 && "identify"@[0] == 'i',
        "id"@.len() == 2 && "id"@[0] == 'i',
        "i"@.len() == 1 && "i"@[0] == 'i',
        "status"@.len() == 6 && "status"@[0] == 's',
        "getstatus"@.len() == 9 && "getstatus"@[0] == 'g',
        "s"@.len() == 1 && "s"@[0] == 's',
        "reset"@.len() == 5 && "reset"@[0] == 'r',
        "resetbus"@.len() == 8 && "resetbus"@[0] == 'r' && "resetbus"@[5] == 'b',
        "busreset"@.len() == 8 && "busreset"@[0] == 'b',
        "r"@.len() == 1 && "r"@[0] == 'r',
        "b"@.len() == 1 && "b"@[0] == 'b',
        "u"@.len() == 1 && "u"@[0] == 'u',
        "usbreset"@.len() == 8 && "usbreset"@[0] == 'u',
        "resetusb"@.len() == 8 && "resetusb"@[0] == 'r' && "resetusb"@[5] == 'u',
        "command"@.len() == 7 && "command"@[0] == 'c',
        "cmd"@.len() == 3 && "cmd"@[0] == 'c',
        "c"@.len() == 1 && "c"@[0] == 'c',
        "format"@.len() == 6 && "format"@[0] == 'f',
        "f"@.len() == 1 && "f"@[0] == 'f',
        "help"@.len() == 4 && "help"@[0] == 'h',
        "h"@.len() == 1 && "h"@[0] == 'h',
        "?"@.len() == 1 && "?"@[0] == '?',
{
    reveal_strlit("quit");
    reveal_strlit("exit");
    reveal_strlit("q");
    reveal_strlit("x");
    reveal_strlit("identify");
    reveal_strlit("id");
    reveal_strlit("i");
    reveal_strlit("status");
    reveal_strlit("getstatus");
    reveal_strlit("s");
    reveal_strlit("reset");
    reveal_strlit("resetbus");
    reveal_strlit("busreset");
    reveal_strlit("r");
    reveal_strlit("b");
    reveal_strlit("u");
    reveal_strlit("usbreset");
    reveal_strlit("resetusb");
    reveal_strlit("command");
    reveal_strlit("cmd");
    reveal_strlit("c");
    reveal_strlit("format");
    reveal_strlit("f");
    reveal_strlit("help");
    reveal_strlit("h");
    reveal_strlit("?");
}

/// What the shell reports of a command is what was to be shown, or the error and nothing else.
pub proof fn law_reports_of_the_shell(
    done: &str,
    r: Result<(), CbmError>,
    s: String,
    q: Result<CbmStatus, CbmError>,
    t: String,
)
    requires
        call_ensures(shell::report, (done, &r), s),
        call_ensures(shell::report_status, (&q,), t),
    ensures
        r is Ok ==> s@ == done@,
        r matches Err(e) ==> s@ == "Error: "@ + e@.text(),
        q matches Err(e) ==> t@ == "Error: "@ + e@.text(),
{
}

} // verus!

//! The daemon: which of its parts run, and how they are stopped.
use vstd::prelude::*;

use crate::cbmtype::{CbmError, CbmErrorView};
use crate::error::{Error, ErrorView, Fs1541Error, Fs1541ErrorView};
use crate::ipc::DAEMON_PID_FILENAME;
use crate::number;
use crate::number::parse_i32;
use crate::server::error::{DaemonError, DaemonErrorView};
use crate::server::mount;
use crate::text;
use crate::text::trim;

verus! {

/// How often to look whether everything has stopped, in milliseconds.
pub const CLEANUP_LOOP_MS: u64 = 10;

/// How long everything may take to stop, in seconds.
pub const CLEANUP_OVERALL_SECS: u64 = 5;

/// Which parts of the daemon there are.
#[derive(Debug, Clone, Copy, PartialEq, Eq, Structural)]
pub struct Daemon {
    pub pid: i32,
    /// The operations for the background can still be handed over
    pub has_bg_proc_rx: bool,
    /// The responses from the background can still be handed over
    pub has_bg_rsp_rx: bool,
    pub has_ipc_server: bool,
    pub has_ipc_server_handle: bool,
    pub has_bg_listener_handle: bool,
    pub has_bg_proc: bool,
    pub has_bg_proc_handle: bool,
    /// The background is to stop
    pub bg_proc_shutdown: bool,
    /// What answers clients is to stop, and what waits for responses with it
    pub ipc_shutdown: bool,
}

/// How a part of the daemon is stopped.
#[derive(Debug, Clone, Copy, PartialEq, Eq, Structural)]
pub enum Stop {
    /// It does not run
    NotRunning,
    /// It is told to stop
    Signal,
    /// It is ended
    Abort,
    /// It was to be ended, but somebody else has its handle
    NoHandle,
}

/// How each part of the daemon has got on with stopping: whether it is finished, where it
/// ever ran.
#[derive(Debug, Clone, Copy, PartialEq, Eq, Structural)]
pub struct Progress {
    pub bg_proc: Option<bool>,
    pub ipc_server: Option<bool>,
    pub bg_listener: Option<bool>,
}

/// Which parts of the daemon are to be ended.
#[derive(Debug, Clone, Copy, PartialEq, Eq, Structural)]
pub struct Aborts {
    pub bg_proc: bool,
    pub ipc_server: bool,
    pub bg_listener: bool,
}

/// What comes of a look at a daemon that is stopping.
#[derive(Debug)]
pub enum Shutdown {
    /// Everything has stopped
    Finished,
    /// Sleep, and look again
    Sleep,
    /// It has taken too long: these parts are ended, and this is the error
    Abort(Aborts, DaemonError),
}

/// What comes of a look, with texts as sequences of characters.
#[verifier::ext_equal]
pub enum ShutdownView {
    Finished,
    Sleep,
    Abort(Aborts, DaemonErrorView),
}

impl View for Shutdown {
    type V = ShutdownView;

    open spec fn view(&self) -> ShutdownView {
        match *self {
            Shutdown::Finished => ShutdownView::Finished,
            Shutdown::Sleep => ShutdownView::Sleep,
            Shutdown::Abort(a, e) => ShutdownView::Abort(a, e@),
        }
    }
}

fn is_running(part: Option<bool>) -> (r: bool)
    ensures
        r == (part == Some(false)),
{
    match part {
        Some(finished) => !finished,
        None => false,
    }
}

impl Progress {
    /// Whether everything has stopped. What never ran has.
    pub open spec fn is_done(self) -> bool {
        self.bg_proc != Some(false) && self.ipc_server != Some(false) && self.bg_listener != Some(
            false,
        )
    }

    /// The parts that still run.
    pub open spec fn running(self) -> Aborts {
        Aborts {
            bg_proc: self.bg_proc == Some(false),
            ipc_server: self.ipc_server == Some(false),
            bg_listener: self.bg_listener == Some(false),
        }
    }

    /// What comes of a look at how the parts have got on.
    pub open spec fn stopped(self, in_time: bool) -> ShutdownView {
        if self.is_done() {
            ShutdownView::Finished
        } else if in_time {
            ShutdownView::Sleep
        } else {
            ShutdownView::Abort(
                self.running(),
                DaemonErrorView::InternalError("Timed out trying to clean up"@),
            )
        }
    }

    /// Whether everything has stopped. What never ran has.
    pub fn all_finished(&self) -> (r: bool)
        ensures
            r == self.is_done(),
    {
        !is_running(self.bg_proc) && !is_running(self.ipc_server) && !is_running(self.bg_listener)
    }

    /// Which parts are to be ended where stopping has taken too long: those that still run.
    pub fn to_abort(&self) -> (a: Aborts)
        ensures
            a == self.running(),
    {
        Aborts {
            bg_proc: is_running(self.bg_proc),
            ipc_server: is_running(self.ipc_server),
            bg_listener: is_running(self.bg_listener),
        }
    }
}

impl Daemon {
    /// Nothing runs yet.
    pub fn new(pid: i32) -> (d: Self)
        ensures
            d == Daemon::fresh(pid),
    {
        Daemon {
            pid,
            has_bg_proc_rx: true,
            has_bg_rsp_rx: true,
            has_ipc_server: false,
            has_ipc_server_handle: false,
            has_bg_listener_handle: false,
            has_bg_proc: false,
            has_bg_proc_handle: false,
            bg_proc_shutdown: false,
            ipc_shutdown: false,
        }
    }

    /// The one who waits for responses gives its handle away.
    pub fn take_bg_listener_handle(&mut self)
        requires
            old(self).has_bg_listener_handle,
        ensures
            *final(self) == (Daemon { has_bg_listener_handle: false, ..*old(self) }),
    {
        self.has_bg_listener_handle = false;
    }

    /// The background gives its handle away.
    pub fn take_bg_proc_handle(&mut self)
        requires
            old(self).has_bg_proc_handle,
        ensures
            *final(self) == (Daemon { has_bg_proc_handle: false, ..*old(self) }),
    {
        self.has_bg_proc_handle = false;
    }

    /// The one who waits for clients gives its handle away.
    pub fn take_ipc_server_handle_ref(&mut self)
        requires
            old(self).has_ipc_server_handle,
        ensures
            *final(self) == (Daemon { has_ipc_server_handle: false, ..*old(self) }),
    {
        self.has_ipc_server_handle = false;
    }

    /// What answers clients is made, once, and is handed the responses.
    pub fn create_ipc_server(&mut self)
        requires
            !old(self).has_ipc_server,
            old(self).has_bg_rsp_rx,
        ensures
            *final(self) == (Daemon {
                has_ipc_server: true,
                has_bg_rsp_rx: false,
                ..*old(self)
            }),
    {
        self.has_bg_rsp_rx = false;
        self.has_ipc_server = true;
    }

    /// What answers clients has started.
    pub fn start_ipc_server(&mut self)
        requires
            old(self).has_ipc_server,
        ensures
            *final(self) == (Daemon {
                has_ipc_server_handle: true,
                has_bg_listener_handle: true,
                ..*old(self)
            }),
    {
        self.has_bg_listener_handle = true;
        self.has_ipc_server_handle = true;
    }

    /// The background is made, once, and is handed the operations.
    pub fn create_bg_proc(&mut self)
        requires
            !old(self).has_bg_proc,
            old(self).has_bg_proc_rx,
        ensures
            *final(self) == (Daemon { has_bg_proc: true, has_bg_proc_rx: false, ..*old(self) }),
    {
        self.has_bg_proc_rx = false;
        self.has_bg_proc = true;
    }

    /// The background has started.
    pub fn start_bg_proc(&mut self)
        requires
            old(self).has_bg_proc,
        ensures
            *final(self) == (Daemon { has_bg_proc_handle: true, ..*old(self) }),
    {
        self.has_bg_proc_handle = true;
    }

    /// Stops the background: it is told to, or it is ended.
    pub fn stop_bg_proc(&mut self, hard: bool) -> (r: Stop)
        ensures
            if !old(self).has_bg_proc {
                r == Stop::NotRunning && *final(self) == *old(self)
            } else if !hard {
                r == Stop::Signal && *final(self) == (Daemon {
                    bg_proc_shutdown: true,
                    ..*old(self)
                })
            } else if old(self).has_bg_proc_handle {
                r == Stop::Abort && *final(self) == (Daemon {
                    has_bg_proc_handle: false,
                    ..*old(self)
                })
            } else {
                r == Stop::NoHandle && *final(self) == *old(self)
            },
    {
        if self.has_bg_proc {
            if !hard {
                self.bg_proc_shutdown = true;
                Stop::Signal
            } else if self.has_bg_proc_handle {
                self.has_bg_proc_handle = false;
                Stop::Abort
            } else {
                Stop::NoHandle
            }
        } else {
            Stop::NotRunning
        }
    }

    /// Stops what answers clients: it is told to, or it is ended. Where it is ended, the
    /// background's handle is given up, not its own.
    pub fn stop_ipc_all(&mut self, hard: bool) -> (r: Stop)
        ensures
            if !old(self).has_ipc_server {
                r == Stop::NotRunning && *final(self) == *old(self)
            } else if !hard {
                r == Stop::Signal && *final(self) == (Daemon { ipc_shutdown: true, ..*old(self) })
            } else if old(self).has_ipc_server_handle {
                r == Stop::Abort && *final(self) == (Daemon {
                    has_bg_proc_handle: false,
                    ..*old(self)
                })
            } else {
                r == Stop::NoHandle && *final(self) == *old(self)
            },
    {
        if self.has_ipc_server {
            if !hard {
                self.ipc_shutdown = true;
                Stop::Signal
            } else if self.has_ipc_server_handle {
                self.has_bg_proc_handle = false;
                Stop::Abort
            } else {
                Stop::NoHandle
            }
        } else {
            Stop::NotRunning
        }
    }

    /// Stops the daemon: what comes of a look at how its parts have got on. There is a look
    /// after a while where some still run, and those are ended once it has taken too long.
    pub fn shutdown(&self, progress: &Progress, in_time: bool) -> (r: Shutdown)
        ensures
            r@ == progress.stopped(in_time),
    {
        if progress.all_finished() {
            Shutdown::Finished
        } else if in_time {
            Shutdown::Sleep
        } else {
            Shutdown::Abort(
                progress.to_abort(),
                DaemonError::InternalError("Timed out trying to clean up".to_owned()),
            )
        }
    }
}

/// Where the daemon leaves the number of its process.
pub fn get_pid_filename() -> (r: &'static str)
    ensures
        r@ == DAEMON_PID_FILENAME@,
{
    DAEMON_PID_FILENAME
}

/// The process that the daemon's file names, where it can be read and names one.
pub fn pid_in_file(content: Option<&str>) -> (r: Option<i32>)
    ensures
        match content {
            Some(s) => match number::signed_number_of(text::trimmed(s@), 0x7fff_ffff) {
                Some(n) => r == Some(n as i32),
                None => r is None,
            },
            None => r is None,
        },
{
    match content {
        Some(s) => parse_i32(trim(s).as_str()),
        None => None,
    }
}

/// What is done about the file that names the daemon's process.
#[derive(Debug, Clone, Copy, PartialEq, Eq, Structural)]
pub enum PidFile {
    /// There is none
    Missing,
    /// Another daemon runs, as this process
    Running(i32),
    /// It is left over, and is removed
    Stale,
}

/// What is done about the file that names the daemon's process, from whether it is there,
/// what it holds, and whether the process that it names runs.
pub fn check_pid_file(exists: bool, content: Option<&str>, runs: bool) -> (r: PidFile)
    ensures
        r == (if !exists {
            PidFile::Missing
        } else {
            match content {
                Some(s) => match number::signed_number_of(text::trimmed(s@), 0x7fff_ffff) {
                    Some(n) => if runs {
                        PidFile::Running(n as i32)
                    } else {
                        PidFile::Stale
                    },
                    None => PidFile::Stale,
                },
                None => PidFile::Stale,
            }
        }),
{
    if !exists {
        return PidFile::Missing;
    }
    match pid_in_file(content) {
        Some(pid) => if runs {
            PidFile::Running(pid)
        } else {
            PidFile::Stale
        },
        None => PidFile::Stale,
    }
}

// ---------------------------------------------------------------------------
// The daemon's life
// ---------------------------------------------------------------------------

/// What is to be done next in the daemon's life.
#[derive(Debug, Clone, Copy, PartialEq, Eq, Structural)]
pub enum MainStep {
    /// Open the driver of the bus
    OpenBus,
    StartBgProc,
    StartIpcServer,
    /// Wait until a part of the daemon ends, or a signal comes
    Wait,
    /// Stop the daemon
    Shutdown,
}

/// A part of the daemon that has ended.
#[derive(Debug, Clone, Copy, PartialEq, Eq, Structural)]
pub enum Part {
    BgProc,
    IpcServer,
    BgListener,
}

/// What came of it.
#[derive(Debug)]
pub enum MainEvent {
    Done,
    /// The driver of the bus could not be opened
    NoBus(CbmError),
    /// The daemon could not go on
    Failed(DaemonError),
    /// A part of the daemon has ended, with an error or without
    Ended(Part, Option<String>),
}

/// What came of it, with texts as sequences of characters.
#[verifier::ext_equal]
pub enum MainEventView {
    Done,
    NoBus(CbmErrorView),
    Failed(DaemonErrorView),
    Ended(Part, Option<Seq<char>>),
}

impl View for MainEvent {
    type V = MainEventView;

    open spec fn view(&self) -> MainEventView {
        match *self {
            MainEvent::Done => MainEventView::Done,
            MainEvent::NoBus(e) => MainEventView::NoBus(e@),
            MainEvent::Failed(e) => MainEventView::Failed(e@),
            MainEvent::Ended(part, Some(words)) => MainEventView::Ended(part, Some(words@)),
            MainEvent::Ended(part, None) => MainEventView::Ended(part, None),
        }
    }
}

/// The daemon's life: what runs, and what is next.
#[derive(Debug, Clone, Copy, PartialEq, Eq, Structural)]
pub struct MainSession {
    pub daemon: Daemon,
    pub step: MainStep,
}

/// What follows on an event: another action, or the end.
#[derive(Debug)]
pub enum MainNext {
    Act(MainSession),
    Exit,
    Fail(Error),
    /// The daemon itself could not go on
    Stopped(DaemonError),
}

/// What follows on an event, with texts as sequences of characters.
#[verifier::ext_equal]
pub enum MainNextView {
    Act(MainSession),
    Exit,
    Fail(ErrorView),
    Stopped(DaemonErrorView),
}

impl View for MainNext {
    type V = MainNextView;

    open spec fn view(&self) -> MainNextView {
        match *self {
            MainNext::Act(s) => MainNextView::Act(s),
            MainNext::Exit => MainNextView::Exit,
            MainNext::Fail(e) => MainNextView::Fail(e@),
            MainNext::Stopped(e) => MainNextView::Stopped(e@),
        }
    }
}

impl Daemon {
    /// Nothing runs, and nothing was made.
    pub open spec fn fresh(pid: i32) -> Daemon {
        Daemon {
            pid,
            has_bg_proc_rx: true,
            has_bg_rsp_rx: true,
            has_ipc_server: false,
            has_ipc_server_handle: false,
            has_bg_listener_handle: false,
            has_bg_proc: false,
            has_bg_proc_handle: false,
            bg_proc_shutdown: false,
            ipc_shutdown: false,
        }
    }

    /// Background and server are made, and nothing runs.
    pub open spec fn made(pid: i32) -> Daemon {
        Daemon {
            has_bg_proc_rx: false,
            has_bg_rsp_rx: false,
            has_ipc_server: true,
            has_bg_proc: true,
            ..Daemon::fresh(pid)
        }
    }
}

/// The error where a part of the daemon has failed.
pub open spec fn part_fault(part: Part, words: Seq<char>) -> ErrorView {
    mount::fault(
        match part {
            Part::BgProc => "Background processor thread failed"@,
            Part::IpcServer => "IPC server thread failed"@,
            Part::BgListener => "Background response thread failed"@,
        },
        Fs1541ErrorView::Internal(words),
    )
}

impl MainSession {
    /// The parts of the daemon are there as far as it has started.
    pub open spec fn wf(self) -> bool {
        let pid = self.daemon.pid;
        match self.step {
            MainStep::OpenBus => self.daemon == Daemon::fresh(pid),
            MainStep::StartBgProc => self.daemon == Daemon::made(pid),
            MainStep::StartIpcServer => self.daemon == (Daemon {
                has_bg_proc_handle: true,
                ..Daemon::made(pid)
            }),
            MainStep::Wait => self.daemon == Daemon::made(pid),
            MainStep::Shutdown => self.daemon == (Daemon {
                bg_proc_shutdown: true,
                ipc_shutdown: true,
                ..Daemon::made(pid)
            }),
        }
    }

    /// What follows on an event. The background runs before the server that hands it work.
    /// The handles of what runs are given away to be waited on. When a part has ended the
    /// daemon ends, and when a signal has come it is stopped first.
    pub open spec fn after(self, event: MainEventView) -> MainNextView {
        let pid = self.daemon.pid;
        match event {
            MainEventView::NoBus(e) => MainNextView::Fail(
                ErrorView::Rs1541 { message: "Failed to initialize USB device"@, error: e },
            ),
            MainEventView::Failed(e) => MainNextView::Stopped(e),
            MainEventView::Ended(part, Some(words)) => MainNextView::Fail(part_fault(part, words)),
            MainEventView::Ended(part, None) => MainNextView::Exit,
            MainEventView::Done => match self.step {
                MainStep::OpenBus => MainNextView::Act(
                    MainSession { daemon: Daemon::made(pid), step: MainStep::StartBgProc },
                ),
                MainStep::StartBgProc => MainNextView::Act(
                    MainSession {
                        daemon: Daemon { has_bg_proc_handle: true, ..Daemon::made(pid) },
                        step: MainStep::StartIpcServer,
                    },
                ),
                MainStep::StartIpcServer => MainNextView::Act(
                    MainSession { daemon: Daemon::made(pid), step: MainStep::Wait },
                ),
                MainStep::Wait => MainNextView::Act(
                    MainSession {
                        daemon: Daemon {
                            bg_proc_shutdown: true,
                            ipc_shutdown: true,
                            ..Daemon::made(pid)
                        },
                        step: MainStep::Shutdown,
                    },
                ),
                MainStep::Shutdown => MainNextView::Exit,
            },
        }
    }

    /// What is to be done next.
    pub fn action(&self) -> (r: MainStep)
        ensures
            r == self.step,
    {
        self.step
    }

    /// Goes on with what came of the action.
    pub fn next(self, event: MainEvent) -> (r: MainNext)
        requires
            self.wf(),
        ensures
            r@ == self.after(event@),
            r matches MainNext::Act(s) ==> s.wf(),
    {
        match event {
            MainEvent::NoBus(error) => {
                return MainNext::Fail(
                    Error::Rs1541 { message: "Failed to initialize USB device".to_owned(), error },
                );
            },
            MainEvent::Failed(e) => return MainNext::Stopped(e),
            MainEvent::Ended(part, Some(words)) => {
                let message: &str = match part {
                    Part::BgProc => "Background processor thread failed",
                    Part::IpcServer => "IPC server thread failed",
                    Part::BgListener => "Background response thread failed",
                };
                return MainNext::Fail(
                    Error::Fs1541 {
                        message: message.to_owned(),
                        error: Fs1541Error::Internal(words),
                    },
                );
            },
            MainEvent::Ended(_, None) => return MainNext::Exit,
            MainEvent::Done => {},
        }
        let mut daemon = self.daemon;
        let step = match self.step {
            MainStep::OpenBus => {
                daemon.create_bg_proc();
                daemon.create_ipc_server();
                MainStep::StartBgProc
            },
            MainStep::StartBgProc => {
                daemon.start_bg_proc();
                MainStep::StartIpcServer
            },
            MainStep::StartIpcServer => {
                daemon.start_ipc_server();
                daemon.take_bg_proc_handle();
                daemon.take_ipc_server_handle_ref();
                daemon.take_bg_listener_handle();
                MainStep::Wait
            },
            MainStep::Wait => {
                daemon.stop_bg_proc(false);
                daemon.stop_ipc_all(false);
                MainStep::Shutdown
            },
            MainStep::Shutdown => return MainNext::Exit,
        };
        MainNext::Act(MainSession { daemon, step })
    }
}

/// The daemon's life begins with opening the driver of the bus.
pub fn async_main(pid: i32) -> (s: MainSession)
    ensures
        s == (MainSession { daemon: Daemon::fresh(pid), step: MainStep::OpenBus }),
        s.wf(),
{
    MainSession { daemon: Daemon::new(pid), step: MainStep::OpenBus }
}

/// What is finished is not ended, and where nothing is left to end everything has stopped.
pub proof fn law_aborts(p: Progress)
    ensures
        p.is_done() == (!p.running().bg_proc && !p.running().ipc_server && !p.running().bg_listener),
        p.stopped(false) matches ShutdownView::Abort(a, _) ==> a == p.running() && (a.bg_proc
            || a.ipc_server || a.bg_listener),
{
}

/// Nothing runs without the bus, and clients are served only once the background runs. While
/// the daemon waits it holds no handle, so each part can be waited on. Background and server
/// are told to stop after a signal, and not before.
pub proof fn law_order_of_starting(s: MainSession)
    requires
        s.wf(),
    ensures
        s.step == MainStep::OpenBus ==> !s.daemon.has_bg_proc && !s.daemon.has_ipc_server,
        s.step == MainStep::StartIpcServer ==> s.daemon.has_bg_proc_handle,
        s.step == MainStep::Wait ==> !s.daemon.has_bg_proc_handle && !s.daemon.has_ipc_server_handle
            && !s.daemon.has_bg_listener_handle,
        s.daemon.bg_proc_shutdown <==> s.step == MainStep::Shutdown,
        s.daemon.ipc_shutdown <==> s.step == MainStep::Shutdown,
        s.step == MainStep::Wait ==> (s.after(MainEventView::Done) matches MainNextView::Act(t)
            && t.step == MainStep::Shutdown && t.daemon.bg_proc_shutdown && t.daemon.ipc_shutdown),
{
}

} // verus!

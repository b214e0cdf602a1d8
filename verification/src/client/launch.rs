//! How the client finds the daemon, and starts it where it does not run.
use vstd::prelude::*;

use crate::error::{Error, ErrorView, Fs1541Error, Fs1541ErrorView};
use crate::ipc::{Response, DAEMON_PNAME};
use crate::number;
use crate::number::parse_number;
use crate::server::mount;
use crate::text;
use crate::text::{same, split, trim};
use crate::time::{Duration, Instant};

verus! {

/// How long to wait before trying again to reach the daemon, in milliseconds.
pub const CONNECT_RETRY_DELAY_MS: u64 = 1000;

/// How long the daemon may take to start, in seconds.
pub const STARTUP_TIMEOUT_SECS: u64 = 5;

fn fs_error(message: &str, error: Fs1541Error) -> (e: Error)
    ensures
        e@ == mount::fault(message@, error@),
{
    Error::Fs1541 { message: message.to_owned(), error }
}

/// Whether the daemon is well: it has answered as it should.
pub fn check_daemon_health(answer: Result<Response, Error>) -> (r: Result<(), Error>)
    ensures
        match answer {
            Ok(Response::Pong) => r is Ok,
            Ok(_) => r matches Err(e) && e@ == mount::fault(
                "Daemon health check failed"@,
                Fs1541ErrorView::Validation("Received invalid ping response from server"@),
            ),
            Err(e) => r == Err::<(), Error>(e),
        },
{
    match answer {
        Ok(Response::Pong) => Ok(()),
        Ok(_) => Err(
            fs_error(
                "Daemon health check failed",
                Fs1541Error::Validation(
                    "Received invalid ping response from server".to_owned(),
                ),
            ),
        ),
        Err(e) => Err(e),
    }
}

/// The process that a file of the daemon's names, or why there is none.
pub fn daemon_pid(contents: Result<String, String>) -> (r: Result<u32, Error>)
    ensures
        match contents {
            Err(s) => r matches Err(e) && e@ == mount::fault(
                "Failed to read PID file"@,
                Fs1541ErrorView::Validation(s@),
            ),
            Ok(s) => match number::number_of(text::trimmed(s@), u32::MAX as nat) {
                Some(n) => r == Ok::<u32, Error>(n as u32),
                None => r matches Err(e) && e@ == mount::fault(
                    "Failed to parse PID"@,
                    Fs1541ErrorView::Validation("Invalid PID file content"@),
                ),
            },
        },
{
    match contents {
        Err(s) => Err(fs_error("Failed to read PID file", Fs1541Error::Validation(s))),
        Ok(s) => match parse_number(trim(s.as_str()).as_str(), u32::MAX as u64) {
            Some(n) => Ok(n as u32),
            None => Err(
                fs_error(
                    "Failed to parse PID",
                    Fs1541Error::Validation("Invalid PID file content".to_owned()),
                ),
            ),
        },
    }
}

/// The last of the parts of a path that is neither empty nor a single dot.
pub open spec fn last_part(parts: Seq<Seq<char>>) -> Option<Seq<char>>
    decreases parts.len(),
{
    if parts.len() == 0 {
        None
    } else if parts.last() == ""@ || parts.last() == "."@ {
        last_part(parts.drop_last())
    } else {
        Some(parts.last())
    }
}

/// The name of the file that a path leads to, where it does not lead up.
pub open spec fn file_name_of(path: Seq<char>) -> Option<Seq<char>> {
    match last_part(text::split_on(path, '/')) {
        Some(name) => if name == ".."@ {
            None
        } else {
            Some(name)
        },
        None => None,
    }
}

/// The name of the file that a path leads to, where it does not lead up.
pub fn file_name(path: &str) -> (r: Option<String>)
    ensures
        match r {
            Some(s) => file_name_of(path@) == Some(s@),
            None => file_name_of(path@) is None,
        },
{
    let parts = split(path, '/');
    let ghost all = text::texts(parts@);
    let mut n: usize = parts.len();
    assert(all.take(n as int) =~= all);
    while n > 0
        invariant
            n <= parts@.len(),
            all == text::texts(parts@),
            all == text::split_on(path@, '/'),
            last_part(all) == last_part(all.take(n as int)),
        decreases n,
    {
        let part = parts[n - 1].as_str();
        assert(all.take(n as int).last() == part@);
        assert(all.take(n as int).drop_last() =~= all.take(n - 1));
        if same(part, "") || same(part, ".") {
            n = n - 1;
        } else if same(part, "..") {
            return None;
        } else {
            return Some(parts[n - 1].clone());
        }
    }
    None
}

/// The command line is that of the daemon: its first word is a path to the program.
pub open spec fn is_daemon(cmdline: Seq<char>) -> bool {
    file_name_of(text::split_on(cmdline, '\0')[0]) == Some(DAEMON_PNAME@)
}

/// Whether a process is the daemon, by its command line, where that could be read.
pub fn verify_daemon_process(cmdline: Option<&str>) -> (r: Result<(), Error>)
    ensures
        if cmdline matches Some(s) && is_daemon(s@) {
            r is Ok
        } else {
            r matches Err(e) && e@ == mount::fault(
                "Process verification failed"@,
                Fs1541ErrorView::Validation("Daemon process not found"@),
            )
        },
{
    if let Some(s) = cmdline {
        let words = split(s, '\0');
        assert(text::texts(words@)[0] == words@[0]@);
        if let Some(name) = file_name(words[0].as_str()) {
            if same(name.as_str(), DAEMON_PNAME) {
                return Ok(());
            }
        }
    }
    Err(
        fs_error(
            "Process verification failed",
            Fs1541Error::Validation("Daemon process not found".to_owned()),
        ),
    )
}

/// Where the daemon's program is, in a directory.
pub open spec fn program_in(dir: Seq<char>) -> Seq<char> {
    if dir.len() == 0 || dir.last() == '/' {
        dir + DAEMON_PNAME@
    } else {
        dir + "/"@ + DAEMON_PNAME@
    }
}

/// Where the daemon's program is, in a directory.
pub fn daemon_path(dir: &str) -> (s: String)
    ensures
        s@ == program_in(dir@),
{
    let chars = text::chars_of(dir);
    let n: usize = chars.len();
    let mut s = dir.to_owned();
    if n > 0 && chars[n - 1] != '/' {
        s.append("/");
    }
    s.append(DAEMON_PNAME);
    s
}

/// The error for a daemon that cannot be started.
pub open spec fn start_fault(path: Seq<char>, not_found: bool, words: Seq<char>) -> ErrorView {
    if not_found {
        mount::fault(
            "Failed to start daemon"@,
            Fs1541ErrorView::Operation("Daemon executable '"@ + path + "' not found"@),
        )
    } else {
        ErrorView::Io { message: "Failed to start daemon"@, error: words }
    }
}

/// The error for a daemon that cannot be started.
pub fn start_error(path: &str, not_found: bool, words: String) -> (e: Error)
    ensures
        e@ == start_fault(path@, not_found, words@),
{
    if not_found {
        let mut s = "Daemon executable '".to_owned();
        s.append(path);
        s.append("' not found");
        fs_error("Failed to start daemon", Fs1541Error::Operation(s))
    } else {
        Error::Io { message: "Failed to start daemon".to_owned(), error: words }
    }
}

/// Whether there is still time for the daemon to start.
pub fn has_time(started: &Instant, now: &Instant) -> (r: bool)
    ensures
        r == in_time(*started, *now),
{
    now.since(started) < STARTUP_TIMEOUT_SECS as u128 * 1_000_000_000
}

/// There is still time for the daemon to start.
pub open spec fn in_time(started: Instant, now: Instant) -> bool {
    now.nanos < started.nanos + STARTUP_TIMEOUT_SECS * 1_000_000_000
}

/// The error for a daemon that takes too long to start.
pub open spec fn startup_timeout() -> ErrorView {
    mount::fault(
        "Daemon startup failed"@,
        Fs1541ErrorView::Timeout(
            "Timed out waiting for daemon to start"@,
            Duration { secs: STARTUP_TIMEOUT_SECS, nanos: 0 },
        ),
    )
}

/// What is to be done next to have the daemon run.
#[derive(Debug, Clone, Copy, PartialEq, Eq, Structural)]
pub enum LaunchStep {
    /// See whether it is well
    CheckHealth,
    /// Start it
    Launch,
    /// See whether it is well, and whether its process is found
    Look,
    Sleep,
}

/// What came of it.
#[derive(Debug)]
pub enum LaunchEvent {
    Done,
    Failed { not_found: bool, words: String },
}

/// Having the daemon run.
#[derive(Debug, Clone, Copy, PartialEq, Eq, Structural)]
pub struct LaunchSession {
    pub started: Instant,
    pub step: LaunchStep,
}

/// What follows on an event: another action, or the end.
#[derive(Debug)]
pub enum LaunchNext {
    Act(LaunchSession),
    /// The daemon runs
    Running,
    Fail(Error),
}

/// What follows on an event, with texts as sequences of characters.
#[verifier::ext_equal]
pub enum LaunchNextView {
    Act(LaunchSession),
    Running,
    Fail(ErrorView),
}

impl View for LaunchNext {
    type V = LaunchNextView;

    open spec fn view(&self) -> LaunchNextView {
        match *self {
            LaunchNext::Act(s) => LaunchNextView::Act(s),
            LaunchNext::Running => LaunchNextView::Running,
            LaunchNext::Fail(e) => LaunchNextView::Fail(e@),
        }
    }
}

impl LaunchSession {
    /// The same session at another step.
    pub open spec fn at(self, step: LaunchStep) -> LaunchNextView {
        LaunchNextView::Act(LaunchSession { started: self.started, step })
    }

    /// The daemon is looked at, while there is time.
    pub open spec fn look(self, now: Instant) -> LaunchNextView {
        if in_time(self.started, now) {
            self.at(LaunchStep::Look)
        } else {
            LaunchNextView::Fail(startup_timeout())
        }
    }

    /// What follows on an event. A daemon that is well is not started. One that was started
    /// runs once it is well and its process is found.
    pub open spec fn after(self, event: LaunchEvent, path: Seq<char>, now: Instant) -> LaunchNextView {
        match self.step {
            LaunchStep::CheckHealth => match event {
                LaunchEvent::Done => LaunchNextView::Running,
                LaunchEvent::Failed { .. } => self.at(LaunchStep::Launch),
            },
            LaunchStep::Launch => match event {
                LaunchEvent::Done => self.look(now),
                LaunchEvent::Failed { not_found, words } => LaunchNextView::Fail(
                    start_fault(path, not_found, words@),
                ),
            },
            LaunchStep::Look => match event {
                LaunchEvent::Done => LaunchNextView::Running,
                LaunchEvent::Failed { .. } => self.at(LaunchStep::Sleep),
            },
            LaunchStep::Sleep => self.look(now),
        }
    }

    fn look_again(self, now: Instant) -> (r: LaunchNext)
        ensures
            r@ == self.look(now),
    {
        if has_time(&self.started, &now) {
            LaunchNext::Act(LaunchSession { started: self.started, step: LaunchStep::Look })
        } else {
            LaunchNext::Fail(
                fs_error(
                    "Daemon startup failed",
                    Fs1541Error::Timeout(
                        "Timed out waiting for daemon to start".to_owned(),
                        Duration::from_secs(STARTUP_TIMEOUT_SECS),
                    ),
                ),
            )
        }
    }

    /// What is to be done next.
    pub fn action(&self) -> (r: LaunchStep)
        ensures
            r == self.step,
    {
        self.step
    }

    /// Goes on with what came of the action, at a time. The daemon's program is at a path.
    pub fn next(self, event: LaunchEvent, path: &str, now: Instant) -> (r: LaunchNext)
        ensures
            r@ == self.after(event, path@, now),
    {
        let started = self.started;
        match self.step {
            LaunchStep::CheckHealth => match event {
                LaunchEvent::Done => LaunchNext::Running,
                LaunchEvent::Failed { .. } => LaunchNext::Act(
                    LaunchSession { started, step: LaunchStep::Launch },
                ),
            },
            LaunchStep::Launch => match event {
                LaunchEvent::Done => self.look_again(now),
                LaunchEvent::Failed { not_found, words } => LaunchNext::Fail(
                    start_error(path, not_found, words),
                ),
            },
            LaunchStep::Look => match event {
                LaunchEvent::Done => LaunchNext::Running,
                LaunchEvent::Failed { .. } => LaunchNext::Act(
                    LaunchSession { started, step: LaunchStep::Sleep },
                ),
            },
            LaunchStep::Sleep => self.look_again(now),
        }
    }
}

/// Having the daemon run begins with seeing whether it does.
pub fn ensure_daemon_running(started: Instant) -> (s: LaunchSession)
    ensures
        s == (LaunchSession { started, step: LaunchStep::CheckHealth }),
{
    LaunchSession { started, step: LaunchStep::CheckHealth }
}

/// What a look at a daemon that was started comes to: it is well, and its process is found.
pub fn looked(health: &Result<(), Error>, process: &Result<(), Error>) -> (r: LaunchEvent)
    ensures
        match r {
            LaunchEvent::Done => *health is Ok && *process is Ok,
            LaunchEvent::Failed { not_found, words } => !(*health is Ok && *process is Ok)
                && !not_found && words@ == Seq::<char>::empty(),
        },
{
    if health.is_ok() && process.is_ok() {
        LaunchEvent::Done
    } else {
        LaunchEvent::Failed { not_found: false, words: String::new() }
    }
}

/// The daemon is started once at most, is never looked at once it has taken too long, and
/// counts as running only after a look, or where it was well before it was started.
pub proof fn law_daemon_is_started_once(
    s: LaunchSession,
    event: LaunchEvent,
    path: Seq<char>,
    now: Instant,
)
    ensures
        match s.after(event, path, now) {
            LaunchNextView::Act(t) => t.started == s.started && t.step != LaunchStep::CheckHealth
                && (t.step == LaunchStep::Launch ==> s.step == LaunchStep::CheckHealth) && (t.step
                == LaunchStep::Look ==> in_time(s.started, now)),
            LaunchNextView::Running => event is Done && (s.step == LaunchStep::CheckHealth
                || s.step == LaunchStep::Look),
            LaunchNextView::Fail(_) => s.step == LaunchStep::Launch || !in_time(s.started, now),
        },
{
}

} // verus!

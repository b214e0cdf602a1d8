//! The life of the background: it does operations until it is told to stop, and then
//! unmounts what is mounted.
use vstd::prelude::*;

use crate::server::bg;
use crate::server::bg::{Notice, Operation, Proc, Purge, QueuesView};
use crate::server::drivemgr::DriveManager;
use crate::server::mount::MountView;
use crate::server::mountsvc;
use crate::server::mountsvc::MountService;
use crate::time::{Duration, Instant};

verus! {

/// How long the background lets others run after an operation, in milliseconds.
pub const RUN_PAUSE_MS: u64 = 10;

/// What the background is doing.
#[derive(Debug, Clone, Copy, PartialEq, Eq, Structural)]
pub enum RunStep {
    /// Looking whether it was told to stop
    Looking,
    /// Taking in what was sent
    Receiving,
    /// Doing an operation
    Processing,
    /// Letting others run
    Pausing,
    /// Telling of what has waited for too long
    Telling,
    Ended,
}

/// What came of it.
#[allow(inconsistent_fields)]
#[derive(Debug)]
pub enum RunEvent<S, W> {
    /// Whether it was told to stop
    Looked { shutdown: bool },
    /// These operations were sent
    Received(Vec<Operation<S, W>>),
    Processed,
    Paused,
    Told,
    /// The time for the age check has come; what was being done is given up
    AgeReached { now: Instant },
}

/// What is to be done next.
#[allow(inconsistent_fields)]
#[derive(Debug)]
pub enum RunAction<S, W> {
    /// See whether it was told to stop
    Look,
    /// Take in what was sent. The age check comes after this time, however far the
    /// background has got until then
    Receive { age_check_period: Duration },
    Process(Operation<S, W>),
    Pause,
    Tell(Vec<Notice<S, W>>),
    Exit,
}

impl RunStep {
    /// The event is one that can come while the background does this.
    pub open spec fn expects<S, W>(self, event: RunEvent<S, W>) -> bool {
        match event {
            RunEvent::Looked { .. } => self == RunStep::Looking,
            RunEvent::Received(_) => self == RunStep::Receiving,
            RunEvent::Processed => self == RunStep::Processing,
            RunEvent::Paused => self == RunStep::Pausing,
            RunEvent::Told => self == RunStep::Telling,
            RunEvent::AgeReached { .. } => self == RunStep::Receiving || self == RunStep::Processing
                || self == RunStep::Pausing,
        }
    }

    /// How many events come at most before the background looks whether it was told to stop.
    pub open spec fn events_to_look(self) -> int {
        match self {
            RunStep::Looking => 0,
            RunStep::Receiving => 4,
            RunStep::Processing => 3,
            RunStep::Pausing => 2,
            RunStep::Telling => 1,
            RunStep::Ended => 0,
        }
    }
}

/// The queues with operations put in one after the other.
pub open spec fn pushed_all<S, W>(
    queues: QueuesView<S, W>,
    ops: Seq<Operation<S, W>>,
) -> QueuesView<S, W>
    decreases ops.len(),
{
    if ops.len() == 0 {
        queues
    } else {
        pushed_all(queues, ops.drop_last()).pushed(ops.last())
    }
}

/// What the background does after an event.
pub open spec fn step_after<S, W>(queues: QueuesView<S, W>, event: RunEvent<S, W>) -> RunStep {
    match event {
        RunEvent::Looked { shutdown } => if shutdown {
            RunStep::Ended
        } else {
            RunStep::Receiving
        },
        RunEvent::Received(ops) => if pushed_all(queues, ops@).order().len() > 0 {
            RunStep::Processing
        } else {
            RunStep::Pausing
        },
        RunEvent::Processed => RunStep::Pausing,
        RunEvent::Paused => RunStep::Looking,
        RunEvent::Told => RunStep::Looking,
        RunEvent::AgeReached { .. } => RunStep::Telling,
    }
}

/// The queues after an event.
pub open spec fn queues_after<S, W>(
    queues: QueuesView<S, W>,
    event: RunEvent<S, W>,
) -> QueuesView<S, W> {
    match event {
        RunEvent::Received(ops) => pushed_all(queues, ops@).popped(),
        RunEvent::AgeReached { now } => queues.purged(Purge::Aged { now }),
        _ => queues,
    }
}

/// The action is what is to be done after an event.
pub open spec fn action_after<S, W>(
    queues: QueuesView<S, W>,
    age_check_period: Duration,
    event: RunEvent<S, W>,
    action: RunAction<S, W>,
) -> bool {
    match event {
        RunEvent::Looked { shutdown } => if shutdown {
            action == RunAction::<S, W>::Exit
        } else {
            action == (RunAction::<S, W>::Receive { age_check_period })
        },
        RunEvent::Received(ops) => {
            let waiting = pushed_all(queues, ops@).order();
            if waiting.len() > 0 {
                action == RunAction::Process(waiting[0])
            } else {
                action == RunAction::<S, W>::Pause
            }
        },
        RunEvent::Processed => action == RunAction::<S, W>::Pause,
        RunEvent::Paused => action == RunAction::<S, W>::Look,
        RunEvent::Told => action == RunAction::<S, W>::Look,
        RunEvent::AgeReached { now } => action matches RunAction::Tell(notices) && bg::tells_all(
            notices@,
            queues.taken_out(Purge::Aged { now }),
            Purge::Aged { now },
        ),
    }
}

/// The mounts after an event: none once the background was told to stop.
pub open spec fn mounts_after<S, W>(
    mounts: Seq<MountView>,
    event: RunEvent<S, W>,
) -> Seq<MountView> {
    match event {
        RunEvent::Looked { shutdown: true } => Seq::empty(),
        _ => mounts,
    }
}

/// The background at work.
#[derive(Debug)]
pub struct Run<S, W> {
    pub proc: Proc<S, W>,
    pub step: RunStep,
}

impl<S, W> Proc<S, W> {
    /// The background begins by looking whether it was told to stop.
    pub fn run(self) -> (r: Run<S, W>)
        ensures
            r == (Run { proc: self, step: RunStep::Looking }),
    {
        Run { proc: self, step: RunStep::Looking }
    }
}

impl<S, W> Run<S, W> {
    /// Goes on with what came of the last action. Operations are taken in, and the most urgent
    /// one is done. What has waited for too long is taken out from time to time. Once it was
    /// told to stop, everything is unmounted, and the background ends.
    pub fn next(
        &mut self,
        service: &mut MountService,
        drive_mgr: &mut DriveManager,
        event: RunEvent<S, W>,
    ) -> (action: RunAction<S, W>)
        requires
            old(self).step.expects(event),
            mountsvc::mounts_ok(old(service)@),
        ensures
            action_after(
                old(self).proc.queues@,
                old(self).proc.age_check_period,
                event,
                action,
            ),
            final(self).step == step_after(old(self).proc.queues@, event),
            final(self).proc.queues@ == queues_after(old(self).proc.queues@, event),
            final(self).proc.last_cleanup == (match event {
                RunEvent::AgeReached { now } => now,
                _ => old(self).proc.last_cleanup,
            }),
            final(self).proc.shutdown == (match event {
                RunEvent::Looked { shutdown } => shutdown,
                _ => old(self).proc.shutdown,
            }),
            final(self).proc.age_check_period == old(self).proc.age_check_period,
            final(service)@ == mounts_after(old(service)@, event),
            mountsvc::mounts_ok(final(service)@),
            if final(self).step == RunStep::Ended {
                mountsvc::drives_are_freed(old(service)@, old(drive_mgr)@, final(drive_mgr)@)
            } else {
                final(drive_mgr)@ == old(drive_mgr)@
            },
    {
        match event {
            RunEvent::Looked { shutdown } => {
                self.proc.shutdown = shutdown;
                if shutdown {
                    service.cleanup(drive_mgr);
                    self.step = RunStep::Ended;
                    RunAction::Exit
                } else {
                    self.step = RunStep::Receiving;
                    RunAction::Receive { age_check_period: self.proc.age_check_period }
                }
            },
            RunEvent::Received(ops) => {
                self.receive(ops);
                match self.proc.queues.pop_next() {
                    Some(op) => {
                        self.step = RunStep::Processing;
                        RunAction::Process(op)
                    },
                    None => {
                        self.step = RunStep::Pausing;
                        RunAction::Pause
                    },
                }
            },
            RunEvent::Processed => {
                self.step = RunStep::Pausing;
                RunAction::Pause
            },
            RunEvent::Paused => {
                self.step = RunStep::Looking;
                RunAction::Look
            },
            RunEvent::Told => {
                self.step = RunStep::Looking;
                RunAction::Look
            },
            RunEvent::AgeReached { now } => {
                let notices = self.proc.age_check(now);
                self.step = RunStep::Telling;
                RunAction::Tell(notices)
            },
        }
    }

    fn receive(&mut self, ops: Vec<Operation<S, W>>)
        ensures
            final(self).proc.queues@ == pushed_all(old(self).proc.queues@, ops@),
            final(self).proc.last_cleanup == old(self).proc.last_cleanup,
            final(self).proc.shutdown == old(self).proc.shutdown,
            final(self).proc.age_check_period == old(self).proc.age_check_period,
            final(self).step == old(self).step,
    {
        let ghost all = ops@;
        let ghost before = *self;
        assert(all.take(0) =~= Seq::empty());
        for op in waiting: ops
            invariant
                waiting.seq() == all,
                self.proc.queues@ == pushed_all(before.proc.queues@, all.take(waiting.index())),
                self.proc.last_cleanup == before.proc.last_cleanup,
                self.proc.shutdown == before.proc.shutdown,
                self.proc.age_check_period == before.proc.age_check_period,
                self.step == before.step,
        {
            assert(all.take(waiting.index() + 1).drop_last() =~= all.take(waiting.index()));
            self.proc.queues.push(op);
        }
        assert(all.take(all.len() as int) =~= all);
    }
}

/// The background ends exactly when it sees that it was told to stop, and then nothing is
/// mounted any more.
pub proof fn law_clean_exit<S, W>(
    step: RunStep,
    queues: QueuesView<S, W>,
    mounts: Seq<MountView>,
    event: RunEvent<S, W>,
)
    requires
        step.expects(event),
    ensures
        step_after(queues, event) == RunStep::Ended <==> event == (RunEvent::<S, W>::Looked {
            shutdown: true,
        }),
        step_after(queues, event) == RunStep::Ended ==> mounts_after(mounts, event) == Seq::<
            MountView,
        >::empty(),
        step_after(queues, event) != RunStep::Ended ==> mounts_after(mounts, event) == mounts,
{
}

/// Whatever the background does, it looks again whether it was told to stop after a few
/// events, and so it always ends once it was.
pub proof fn law_stop_is_seen<S, W>(step: RunStep, queues: QueuesView<S, W>, event: RunEvent<S, W>)
    requires
        step.expects(event),
    ensures
        step != RunStep::Ended,
        step != RunStep::Looking ==> 0 <= step_after(queues, event).events_to_look()
            < step.events_to_look(),
        step == RunStep::Looking ==> event is Looked,
{
}

} // verus!

//! Opening the driver. A stuck adapter is reset and tried once more.
use vstd::prelude::*;

use crate::cbmtype::{CbmError, CbmErrorView};
use crate::opencbm::{
    CommandOutcome, OpenCbm, OpenCbmError, OpenCbmErrorView, UsbReset, UsbResetNext,
    UsbResetNextView, UsbResetView,
};

verus! {

/// How long to wait for the USB subsystem to settle, in milliseconds.
pub const OPENCBM_DROP_SLEEP_DURATION: u64 = 500;

/// The device that is asked whether the driver works.
pub const PROBE_DEVICE: u8 = 8;

/// What is to be done next to open the driver.
#[derive(Debug, Clone, Copy, PartialEq, Eq, Structural)]
pub enum StartAction {
    OpenDriver,
    ResetBus,
    /// Ask a device for its status
    Probe,
    /// Close the driver
    CloseDriver,
    /// Reset the adapter
    ResetUsb,
    Pause,
}

/// What came of it.
#[derive(Debug)]
pub enum StartEvent {
    Done,
    Failed(OpenCbmError),
}

/// What came of it, with texts as sequences of characters.
#[verifier::ext_equal]
pub enum StartEventView {
    Done,
    Failed(OpenCbmErrorView),
}

impl View for StartEvent {
    type V = StartEventView;

    open spec fn view(&self) -> StartEventView {
        match *self {
            StartEvent::Done => StartEventView::Done,
            StartEvent::Failed(e) => StartEventView::Failed(e@),
        }
    }
}

/// How far the driver is opened.
#[derive(Debug)]
pub enum StartStep {
    Opening,
    /// The first try has timed out, and the adapter is reset
    ResettingForOpen,
    PausingForOpen,
    OpeningAgain,
    ResettingBus,
    /// The bus could not be reset
    PausingAfterReset(OpenCbmError),
    Probing,
    /// The attempt has failed with the driver open
    Closing(OpenCbmError),
    /// The first attempt has failed, and the adapter is reset
    PausingBeforeReset,
    ResettingUsb,
    PausingAfterUsb,
}

/// How far the driver is opened, with texts as sequences of characters.
#[verifier::ext_equal]
pub enum StartStepView {
    Opening,
    ResettingForOpen,
    PausingForOpen,
    OpeningAgain,
    ResettingBus,
    PausingAfterReset(OpenCbmErrorView),
    Probing,
    Closing(OpenCbmErrorView),
    PausingBeforeReset,
    ResettingUsb,
    PausingAfterUsb,
}

/// Opens the driver.
#[derive(Debug)]
pub struct StartSession {
    pub first_attempt: bool,
    pub step: StartStep,
}

/// The driver while it is opened, with texts as sequences of characters.
#[verifier::ext_equal]
pub struct StartView {
    pub first_attempt: bool,
    pub step: StartStepView,
}

impl View for StartSession {
    type V = StartView;

    open spec fn view(&self) -> StartView {
        StartView {
            first_attempt: self.first_attempt,
            step: match self.step {
                StartStep::Opening => StartStepView::Opening,
                StartStep::ResettingForOpen => StartStepView::ResettingForOpen,
                StartStep::PausingForOpen => StartStepView::PausingForOpen,
                StartStep::OpeningAgain => StartStepView::OpeningAgain,
                StartStep::ResettingBus => StartStepView::ResettingBus,
                StartStep::PausingAfterReset(e) => StartStepView::PausingAfterReset(e@),
                StartStep::Probing => StartStepView::Probing,
                StartStep::Closing(e) => StartStepView::Closing(e@),
                StartStep::PausingBeforeReset => StartStepView::PausingBeforeReset,
                StartStep::ResettingUsb => StartStepView::ResettingUsb,
                StartStep::PausingAfterUsb => StartStepView::PausingAfterUsb,
            },
        }
    }
}

/// What follows on an event: another action, or the end.
#[derive(Debug)]
pub enum StartNext {
    Act(StartSession),
    Open,
    GiveUp(OpenCbmError),
}

/// What follows on an event, with texts as sequences of characters.
#[verifier::ext_equal]
pub enum StartNextView {
    Act(StartView),
    Open,
    GiveUp(OpenCbmErrorView),
}

impl View for StartNext {
    type V = StartNextView;

    open spec fn view(&self) -> StartNextView {
        match *self {
            StartNext::Act(s) => StartNextView::Act(s@),
            StartNext::Open => StartNextView::Open,
            StartNext::GiveUp(e) => StartNextView::GiveUp(e@),
        }
    }
}

/// The driver is taken to work unless its answer is an error of the adapter itself.
pub open spec fn works(event: StartEventView) -> bool {
    !(event matches StartEventView::Failed(OpenCbmErrorView::UsbError(_, _)))
}

impl StartView {
    /// The same attempt at another step.
    pub open spec fn at(self, step: StartStepView) -> StartNextView {
        StartNextView::Act(StartView { first_attempt: self.first_attempt, step })
    }

    /// What follows on a failed attempt: after the first one the adapter is reset, after
    /// the second one there is no other.
    pub open spec fn attempt_failed(self, e: OpenCbmErrorView) -> StartNextView {
        if self.first_attempt {
            self.at(StartStepView::PausingBeforeReset)
        } else {
            StartNextView::GiveUp(e)
        }
    }

    /// What is to be done next.
    pub open spec fn action(self) -> StartAction {
        match self.step {
            StartStepView::Opening => StartAction::OpenDriver,
            StartStepView::ResettingForOpen => StartAction::ResetUsb,
            StartStepView::PausingForOpen => StartAction::Pause,
            StartStepView::OpeningAgain => StartAction::OpenDriver,
            StartStepView::ResettingBus => StartAction::ResetBus,
            StartStepView::PausingAfterReset(_) => StartAction::Pause,
            StartStepView::Probing => StartAction::Probe,
            StartStepView::Closing(_) => StartAction::CloseDriver,
            StartStepView::PausingBeforeReset => StartAction::Pause,
            StartStepView::ResettingUsb => StartAction::ResetUsb,
            StartStepView::PausingAfterUsb => StartAction::Pause,
        }
    }

    /// What follows on an event. An attempt that has failed with the driver open closes it,
    /// whatever comes of that.
    pub open spec fn next(self, event: StartEventView) -> StartNextView {
        match self.step {
            StartStepView::Opening => match event {
                StartEventView::Done => self.at(StartStepView::ResettingBus),
                StartEventView::Failed(OpenCbmErrorView::ThreadTimeout) => self.at(
                    StartStepView::ResettingForOpen,
                ),
                StartEventView::Failed(e) => self.attempt_failed(e),
            },
            StartStepView::ResettingForOpen => match event {
                StartEventView::Done => self.at(StartStepView::PausingForOpen),
                StartEventView::Failed(e) => self.attempt_failed(
                    OpenCbmErrorView::Other("USB device reset failed "@ + e.text()),
                ),
            },
            StartStepView::PausingForOpen => self.at(StartStepView::OpeningAgain),
            StartStepView::OpeningAgain => match event {
                StartEventView::Done => self.at(StartStepView::ResettingBus),
                StartEventView::Failed(e) => self.attempt_failed(e),
            },
            StartStepView::ResettingBus => match event {
                StartEventView::Done => self.at(StartStepView::Probing),
                StartEventView::Failed(e) => self.at(StartStepView::PausingAfterReset(e)),
            },
            StartStepView::PausingAfterReset(e) => self.at(StartStepView::Closing(e)),
            StartStepView::Probing => if works(event) {
                StartNextView::Open
            } else {
                self.at(StartStepView::Closing(event->0))
            },
            StartStepView::Closing(e) => self.attempt_failed(e),
            StartStepView::PausingBeforeReset => self.at(StartStepView::ResettingUsb),
            StartStepView::ResettingUsb => match event {
                StartEventView::Done => self.at(StartStepView::PausingAfterUsb),
                StartEventView::Failed(e) => StartNextView::GiveUp(e),
            },
            StartStepView::PausingAfterUsb => StartNextView::Act(
                StartView { first_attempt: false, step: StartStepView::Opening },
            ),
        }
    }
}

impl StartSession {
    /// The first attempt.
    pub fn new() -> (s: Self)
        ensures
            s@ == (StartView { first_attempt: true, step: StartStepView::Opening }),
    {
        StartSession { first_attempt: true, step: StartStep::Opening }
    }

    fn at(first_attempt: bool, step: StartStep) -> (r: StartNext)
        ensures
            r@ == StartNextView::Act((StartSession { first_attempt, step })@),
    {
        StartNext::Act(StartSession { first_attempt, step })
    }

    fn attempt_failed(first_attempt: bool, e: OpenCbmError) -> (r: StartNext)
        ensures
            r@ == (StartView { first_attempt, step: StartStepView::Opening }).attempt_failed(e@),
    {
        if first_attempt {
            StartSession::at(first_attempt, StartStep::PausingBeforeReset)
        } else {
            StartNext::GiveUp(e)
        }
    }

    /// What is to be done next.
    pub fn action(&self) -> (r: StartAction)
        ensures
            r == self@.action(),
    {
        match self.step {
            StartStep::Opening => StartAction::OpenDriver,
            StartStep::ResettingForOpen => StartAction::ResetUsb,
            StartStep::PausingForOpen => StartAction::Pause,
            StartStep::OpeningAgain => StartAction::OpenDriver,
            StartStep::ResettingBus => StartAction::ResetBus,
            StartStep::PausingAfterReset(_) => StartAction::Pause,
            StartStep::Probing => StartAction::Probe,
            StartStep::Closing(_) => StartAction::CloseDriver,
            StartStep::PausingBeforeReset => StartAction::Pause,
            StartStep::ResettingUsb => StartAction::ResetUsb,
            StartStep::PausingAfterUsb => StartAction::Pause,
        }
    }

    /// Goes on with what came of the action.
    pub fn next(self, event: StartEvent) -> (r: StartNext)
        ensures
            r@ == self@.next(event@),
    {
        let first: bool = self.first_attempt;
        match self.step {
            StartStep::Opening => match event {
                StartEvent::Done => StartSession::at(first, StartStep::ResettingBus),
                StartEvent::Failed(OpenCbmError::ThreadTimeout) => StartSession::at(
                    first,
                    StartStep::ResettingForOpen,
                ),
                StartEvent::Failed(e) => StartSession::attempt_failed(first, e),
            },
            StartStep::ResettingForOpen => match event {
                StartEvent::Done => StartSession::at(first, StartStep::PausingForOpen),
                StartEvent::Failed(e) => {
                    let mut s = "USB device reset failed ".to_owned();
                    s.append(e.to_string().as_str());
                    StartSession::attempt_failed(first, OpenCbmError::Other(s))
                },
            },
            StartStep::PausingForOpen => StartSession::at(first, StartStep::OpeningAgain),
            StartStep::OpeningAgain => match event {
                StartEvent::Done => StartSession::at(first, StartStep::ResettingBus),
                StartEvent::Failed(e) => StartSession::attempt_failed(first, e),
            },
            StartStep::ResettingBus => match event {
                StartEvent::Done => StartSession::at(first, StartStep::Probing),
                StartEvent::Failed(e) => StartSession::at(first, StartStep::PausingAfterReset(e)),
            },
            StartStep::PausingAfterReset(e) => StartSession::at(first, StartStep::Closing(e)),
            StartStep::Probing => match event {
                StartEvent::Failed(OpenCbmError::UsbError(rc, name)) => StartSession::at(
                    first,
                    StartStep::Closing(OpenCbmError::UsbError(rc, name)),
                ),
                _ => StartNext::Open,
            },
            StartStep::Closing(e) => StartSession::attempt_failed(first, e),
            StartStep::PausingBeforeReset => StartSession::at(first, StartStep::ResettingUsb),
            StartStep::ResettingUsb => match event {
                StartEvent::Done => StartSession::at(first, StartStep::PausingAfterUsb),
                StartEvent::Failed(e) => StartNext::GiveUp(e),
            },
            StartStep::PausingAfterUsb => StartSession::at(false, StartStep::Opening),
        }
    }
}

/// How many actions are left at most.
pub open spec fn actions_left(s: StartView) -> int {
    (if s.first_attempt {
        10int
    } else {
        0int
    }) + match s.step {
        StartStepView::Opening => 10int,
        StartStepView::ResettingForOpen => 9int,
        StartStepView::PausingForOpen => 8int,
        StartStepView::OpeningAgain => 7int,
        StartStepView::ResettingBus => 6int,
        StartStepView::PausingAfterReset(_) => 5int,
        StartStepView::Probing => 5int,
        StartStepView::Closing(_) => 4int,
        StartStepView::PausingBeforeReset => 3int,
        StartStepView::ResettingUsb => 2int,
        StartStepView::PausingAfterUsb => 1int,
    }
}

/// The adapter is reset between the first attempt and the second, and not after it.
pub open spec fn is_under_way(s: StartView) -> bool {
    s.first_attempt || !(s.step is PausingBeforeReset || s.step is ResettingUsb
        || s.step is PausingAfterUsb)
}

/// Opening the driver ends, whatever happens.
pub proof fn law_start_ends(s: StartView, event: StartEventView)
    requires
        is_under_way(s),
    ensures
        s.next(event) matches StartNextView::Act(t) ==> is_under_way(t) && 0 <= actions_left(t)
            < actions_left(s),
{
}

/// The driver counts as open only after the bus was reset and a device was asked, and
/// the answer did not point to a broken adapter.
pub proof fn law_start_is_probed(s: StartView, event: StartEventView)
    requires
        s.next(event) == StartNextView::Open,
    ensures
        s.step == StartStepView::Probing,
        works(event),
{
}

/// Whether the driver works, from what came of asking a device what it is: a device that
/// is not known is asked again, and counts as an answer the second time.
#[derive(Debug)]
pub enum ProbeVerdict {
    Works,
    AskAgain,
    Broken(OpenCbmError),
}

/// Judges what came of asking a device what it is.
pub fn verify_device_identification(second: bool, event: StartEvent) -> (r: ProbeVerdict)
    ensures
        match event@ {
            StartEventView::Done => r == ProbeVerdict::Works,
            StartEventView::Failed(OpenCbmErrorView::UnknownDevice(_)) => r == (if second {
                ProbeVerdict::Works
            } else {
                ProbeVerdict::AskAgain
            }),
            StartEventView::Failed(e) => r matches ProbeVerdict::Broken(x) && x@ == e,
        },
{
    match event {
        StartEvent::Done => ProbeVerdict::Works,
        StartEvent::Failed(OpenCbmError::UnknownDevice(_)) => if second {
            ProbeVerdict::Works
        } else {
            ProbeVerdict::AskAgain
        },
        StartEvent::Failed(e) => ProbeVerdict::Broken(e),
    }
}

/// What is to be done next to reset the adapter under an open driver.
#[derive(Debug, Clone, Copy, PartialEq, Eq, Structural)]
pub enum ResetAction {
    CloseDriver,
    Start(StartAction),
}

/// How far the adapter is reset under an open driver: the driver is closed, the adapter is
/// reset, and the driver is opened as at the start.
#[derive(Debug)]
pub enum DeviceReset {
    Closing,
    PausingClosed,
    ResettingUsb,
    PausingReset,
    Starting(StartSession),
}

/// How far the adapter is reset, with texts as sequences of characters.
#[verifier::ext_equal]
pub enum DeviceResetView {
    Closing,
    PausingClosed,
    ResettingUsb,
    PausingReset,
    Starting(StartView),
}

impl View for DeviceReset {
    type V = DeviceResetView;

    open spec fn view(&self) -> DeviceResetView {
        match *self {
            DeviceReset::Closing => DeviceResetView::Closing,
            DeviceReset::PausingClosed => DeviceResetView::PausingClosed,
            DeviceReset::ResettingUsb => DeviceResetView::ResettingUsb,
            DeviceReset::PausingReset => DeviceResetView::PausingReset,
            DeviceReset::Starting(s) => DeviceResetView::Starting(s@),
        }
    }
}

/// What follows on an event: another action, or the end.
#[derive(Debug)]
pub enum ResetNext {
    Act(DeviceReset),
    Open,
    GiveUp(OpenCbmError),
}

/// What follows on an event, with texts as sequences of characters.
#[verifier::ext_equal]
pub enum ResetNextView {
    Act(DeviceResetView),
    Open,
    GiveUp(OpenCbmErrorView),
}

impl View for ResetNext {
    type V = ResetNextView;

    open spec fn view(&self) -> ResetNextView {
        match *self {
            ResetNext::Act(s) => ResetNextView::Act(s@),
            ResetNext::Open => ResetNextView::Open,
            ResetNext::GiveUp(e) => ResetNextView::GiveUp(e@),
        }
    }
}

impl DeviceResetView {
    /// What is to be done next.
    pub open spec fn action(self) -> ResetAction {
        match self {
            DeviceResetView::Closing => ResetAction::CloseDriver,
            DeviceResetView::PausingClosed => ResetAction::Start(StartAction::Pause),
            DeviceResetView::ResettingUsb => ResetAction::Start(StartAction::ResetUsb),
            DeviceResetView::PausingReset => ResetAction::Start(StartAction::Pause),
            DeviceResetView::Starting(s) => ResetAction::Start(s.action()),
        }
    }

    /// What follows on an event. A failure to close the driver or to reset the adapter is
    /// the end.
    pub open spec fn next(self, event: StartEventView) -> ResetNextView {
        match self {
            DeviceResetView::Closing => match event {
                StartEventView::Done => ResetNextView::Act(DeviceResetView::PausingClosed),
                StartEventView::Failed(e) => ResetNextView::GiveUp(e),
            },
            DeviceResetView::PausingClosed => ResetNextView::Act(DeviceResetView::ResettingUsb),
            DeviceResetView::ResettingUsb => match event {
                StartEventView::Done => ResetNextView::Act(DeviceResetView::PausingReset),
                StartEventView::Failed(e) => ResetNextView::GiveUp(e),
            },
            DeviceResetView::PausingReset => ResetNextView::Act(
                DeviceResetView::Starting(
                    StartView { first_attempt: true, step: StartStepView::Opening },
                ),
            ),
            DeviceResetView::Starting(s) => match s.next(event) {
                StartNextView::Act(t) => ResetNextView::Act(DeviceResetView::Starting(t)),
                StartNextView::Open => ResetNextView::Open,
                StartNextView::GiveUp(e) => ResetNextView::GiveUp(e),
            },
        }
    }
}

impl DeviceReset {
    /// What is to be done next.
    pub fn action(&self) -> (r: ResetAction)
        ensures
            r == self@.action(),
    {
        match self {
            DeviceReset::Closing => ResetAction::CloseDriver,
            DeviceReset::PausingClosed => ResetAction::Start(StartAction::Pause),
            DeviceReset::ResettingUsb => ResetAction::Start(StartAction::ResetUsb),
            DeviceReset::PausingReset => ResetAction::Start(StartAction::Pause),
            DeviceReset::Starting(s) => ResetAction::Start(s.action()),
        }
    }

    /// Goes on with what came of the action.
    pub fn next(self, event: StartEvent) -> (r: ResetNext)
        ensures
            r@ == self@.next(event@),
    {
        match self {
            DeviceReset::Closing => match event {
                StartEvent::Done => ResetNext::Act(DeviceReset::PausingClosed),
                StartEvent::Failed(e) => ResetNext::GiveUp(e),
            },
            DeviceReset::PausingClosed => ResetNext::Act(DeviceReset::ResettingUsb),
            DeviceReset::ResettingUsb => match event {
                StartEvent::Done => ResetNext::Act(DeviceReset::PausingReset),
                StartEvent::Failed(e) => ResetNext::GiveUp(e),
            },
            DeviceReset::PausingReset => ResetNext::Act(DeviceReset::Starting(StartSession::new())),
            DeviceReset::Starting(s) => match s.next(event) {
                StartNext::Act(t) => ResetNext::Act(DeviceReset::Starting(t)),
                StartNext::Open => ResetNext::Open,
                StartNext::GiveUp(e) => ResetNext::GiveUp(e),
            },
        }
    }
}

impl OpenCbm {
    /// Resetting the adapter begins with closing the driver: from here on there is no handle,
    /// and the one that there was is to be closed.
    pub fn usb_device_reset(&mut self) -> (r: (isize, DeviceReset))
        ensures
            r.0 == old(self).handle,
            r.1@ == DeviceResetView::Closing,
            *final(self) == (OpenCbm { handle: 0, driver_opened: false }),
    {
        let handle: isize = self.close_driver();
        self.driver_opened = false;
        (handle, DeviceReset::Closing)
    }

    /// Takes over the handle of a driver that was opened anew.
    pub fn reopened(&mut self, opened: OpenCbm)
        ensures
            *final(self) == (OpenCbm { handle: opened.handle, driver_opened: true }),
    {
        let (handle, _): (isize, bool) = opened.into_raw_values();
        self.handle = handle;
        self.driver_opened = true;
    }
}

/// How many actions are left at most when the adapter is reset.
pub open spec fn reset_actions_left(s: DeviceResetView) -> int {
    match s {
        DeviceResetView::Closing => 25int,
        DeviceResetView::PausingClosed => 24int,
        DeviceResetView::ResettingUsb => 23int,
        DeviceResetView::PausingReset => 22int,
        DeviceResetView::Starting(t) => actions_left(t),
    }
}

/// Resetting the adapter ends, whatever happens, and the driver is open again only after it
/// was opened and probed as at the start.
pub proof fn law_reset_ends(s: DeviceResetView, event: StartEventView)
    requires
        s matches DeviceResetView::Starting(t) ==> is_under_way(t),
    ensures
        s.next(event) matches ResetNextView::Act(t) ==> 0 <= reset_actions_left(t)
            < reset_actions_left(s) && (t matches DeviceResetView::Starting(u) ==> is_under_way(u)),
        s.next(event) == ResetNextView::Open ==> (s matches DeviceResetView::Starting(t) && t.step
            == StartStepView::Probing && works(event)),
{
    if let DeviceResetView::Starting(t) = s {
        law_start_ends(t, event);
    }
}

/// How a command has ended, where the code that it has returned does not count.
pub open spec fn whatever_code(outcome: CommandOutcome) -> CommandOutcome {
    match outcome {
        CommandOutcome::NotRun { code, error } => CommandOutcome::NotRun { code, error },
        CommandOutcome::Ran { code, stdout, stderr } => CommandOutcome::Ran {
            code: Some(0i32),
            stdout,
            stderr,
        },
    }
}

/// What follows on a command that has ended where the adapter is reset for the whole bus: the
/// next command, if any, or the error.
pub open spec fn bus_reset_next(s: UsbResetView, outcome: CommandOutcome) -> Result<
    Option<UsbResetView>,
    CbmErrorView,
> {
    match s.next(whatever_code(outcome)) {
        UsbResetNextView::Run(t) => Ok(Some(t)),
        UsbResetNextView::Finished(Ok(_)) => Ok(None),
        UsbResetNextView::Finished(Err(e)) => Err(CbmErrorView::UsbError(e->UsbError_1)),
    }
}

/// Goes on with resetting the adapter for the whole bus: the codes that the commands return
/// do not count, only what they print. Gives the command to run next, if any.
pub fn bus_usb_reset(s: UsbReset, outcome: CommandOutcome) -> (r: Result<
    Option<UsbReset>,
    CbmError,
>)
    ensures
        match r {
            Ok(Some(u)) => bus_reset_next(s@, outcome) == Ok::<Option<UsbResetView>, CbmErrorView>(
                Some(u@),
            ),
            Ok(None) => bus_reset_next(s@, outcome) == Ok::<Option<UsbResetView>, CbmErrorView>(
                None,
            ),
            Err(e) => bus_reset_next(s@, outcome) == Err::<Option<UsbResetView>, CbmErrorView>(e@),
        },
{
    let outcome = match outcome {
        CommandOutcome::NotRun { code, error } => CommandOutcome::NotRun { code, error },
        CommandOutcome::Ran { stdout, stderr, .. } => CommandOutcome::Ran {
            code: Some(0),
            stdout,
            stderr,
        },
    };
    match s.next(outcome) {
        UsbResetNext::Run(t) => Ok(Some(t)),
        UsbResetNext::Finished(Ok(_)) => Ok(None),
        UsbResetNext::Finished(Err(OpenCbmError::UsbError(_, message))) => Err(
            CbmError::UsbError(message),
        ),
        UsbResetNext::Finished(Err(_)) => Ok(None),
    }
}

} // verus!

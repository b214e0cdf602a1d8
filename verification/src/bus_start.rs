//! Opening the bus for a program: the driver is opened, the bus is reset, and a device is
//! asked what it is. What has failed is tried once more, after the adapter was reset.
use vstd::prelude::*;

use crate::cbmtype;
use crate::cbmtype::{CbmError, CbmErrorView};
use crate::opencbm::{
    usb_reset, CommandOutcome, OpenCbmError, OpenCbmErrorView, UsbReset, UsbResetView,
};
use crate::session::Cbm;
use crate::start;
use crate::start::{bus_usb_reset, verify_device_identification, ProbeVerdict, StartEvent};

verus! {

/// How long to wait for the USB subsystem to settle, in milliseconds.
pub const CBM_DROP_SLEEP_DURATION: u64 = 500;

/// What is to be done next to open the bus.
#[derive(Debug)]
pub enum BusAction {
    OpenDriver,
    ResetBus,
    /// Ask the device with the lowest number what it is
    Identify,
    /// Close the driver, if it is open
    CloseDriver,
    /// Run a command
    Run(String),
    Pause,
}

/// What is to be done next, with the command as a sequence of characters.
#[verifier::ext_equal]
pub enum BusActionView {
    OpenDriver,
    ResetBus,
    Identify,
    CloseDriver,
    Run(Seq<char>),
    Pause,
}

impl View for BusAction {
    type V = BusActionView;

    open spec fn view(&self) -> BusActionView {
        match *self {
            BusAction::OpenDriver => BusActionView::OpenDriver,
            BusAction::ResetBus => BusActionView::ResetBus,
            BusAction::Identify => BusActionView::Identify,
            BusAction::CloseDriver => BusActionView::CloseDriver,
            BusAction::Run(command) => BusActionView::Run(command@),
            BusAction::Pause => BusActionView::Pause,
        }
    }
}

/// What came of it.
#[derive(Debug)]
pub enum BusEvent {
    Done,
    Failed(OpenCbmError),
    /// How the command has ended
    Ran(CommandOutcome),
}

/// What came of it, with texts as sequences of characters.
#[verifier::ext_equal]
pub enum BusEventView {
    Done,
    Failed(OpenCbmErrorView),
    Ran(CommandOutcome),
}

impl View for BusEvent {
    type V = BusEventView;

    open spec fn view(&self) -> BusEventView {
        match *self {
            BusEvent::Done => BusEventView::Done,
            BusEvent::Failed(e) => BusEventView::Failed(e@),
            BusEvent::Ran(outcome) => BusEventView::Ran(outcome),
        }
    }
}

impl BusActionView {
    /// The event can come of the action.
    pub open spec fn answered_by(self, event: BusEventView) -> bool {
        self is Run <==> event is Ran
    }
}

/// How far the bus is opened.
#[derive(Debug)]
pub enum BusStep {
    Opening,
    /// The driver could not be opened in time, and the adapter is reset
    ResettingForOpen(UsbReset),
    PausingForOpen,
    OpeningAgain,
    ResettingBus,
    Probing,
    /// The device was not known, and is asked once more
    ProbingAgain,
    /// The attempt has failed with the driver open
    PausingAfterFailure(OpenCbmError),
    Closing(OpenCbmError),
    /// The first attempt has failed
    PausingBeforeReset,
    ResettingUsb(UsbReset),
    PausingAfterUsb,
}

/// How far the bus is opened, with texts as sequences of characters.
#[verifier::ext_equal]
pub enum BusStepView {
    Opening,
    ResettingForOpen(UsbResetView),
    PausingForOpen,
    OpeningAgain,
    ResettingBus,
    Probing,
    ProbingAgain,
    PausingAfterFailure(OpenCbmErrorView),
    Closing(OpenCbmErrorView),
    PausingBeforeReset,
    ResettingUsb(UsbResetView),
    PausingAfterUsb,
}

/// Opens the bus.
#[derive(Debug)]
pub struct BusStart {
    pub first_attempt: bool,
    pub step: BusStep,
}

/// The bus while it is opened, with texts as sequences of characters.
#[verifier::ext_equal]
pub struct BusStartView {
    pub first_attempt: bool,
    pub step: BusStepView,
}

impl View for BusStart {
    type V = BusStartView;

    open spec fn view(&self) -> BusStartView {
        BusStartView {
            first_attempt: self.first_attempt,
            step: match self.step {
                BusStep::Opening => BusStepView::Opening,
                BusStep::ResettingForOpen(u) => BusStepView::ResettingForOpen(u@),
                BusStep::PausingForOpen => BusStepView::PausingForOpen,
                BusStep::OpeningAgain => BusStepView::OpeningAgain,
                BusStep::ResettingBus => BusStepView::ResettingBus,
                BusStep::Probing => BusStepView::Probing,
                BusStep::ProbingAgain => BusStepView::ProbingAgain,
                BusStep::PausingAfterFailure(e) => BusStepView::PausingAfterFailure(e@),
                BusStep::Closing(e) => BusStepView::Closing(e@),
                BusStep::PausingBeforeReset => BusStepView::PausingBeforeReset,
                BusStep::ResettingUsb(u) => BusStepView::ResettingUsb(u@),
                BusStep::PausingAfterUsb => BusStepView::PausingAfterUsb,
            },
        }
    }
}

/// What follows on an event: another action, or the end.
#[derive(Debug)]
pub enum BusNext {
    Act(BusStart),
    Open,
    GiveUp(CbmError),
}

/// What follows on an event, with texts as sequences of characters.
#[verifier::ext_equal]
pub enum BusNextView {
    Act(BusStartView),
    Open,
    GiveUp(CbmErrorView),
}

impl View for BusNext {
    type V = BusNextView;

    open spec fn view(&self) -> BusNextView {
        match *self {
            BusNext::Act(s) => BusNextView::Act(s@),
            BusNext::Open => BusNextView::Open,
            BusNext::GiveUp(e) => BusNextView::GiveUp(e@),
        }
    }
}

impl BusStartView {
    /// The first attempt, at its beginning.
    pub open spec fn first() -> BusStartView {
        BusStartView { first_attempt: true, step: BusStepView::Opening }
    }

    /// The same attempt at another step.
    pub open spec fn at(self, step: BusStepView) -> BusNextView {
        BusNextView::Act(BusStartView { first_attempt: self.first_attempt, step })
    }

    /// What follows on a failed attempt: after the first one the adapter is reset, after the
    /// second one there is no other.
    pub open spec fn attempt_failed(self, e: OpenCbmErrorView) -> BusNextView {
        if self.first_attempt {
            self.at(BusStepView::PausingBeforeReset)
        } else {
            BusNextView::GiveUp(cbmtype::driver_error(e))
        }
    }

    /// What is to be done next.
    pub open spec fn action(self) -> BusActionView {
        match self.step {
            BusStepView::Opening => BusActionView::OpenDriver,
            BusStepView::ResettingForOpen(u) => BusActionView::Run(u.command()),
            BusStepView::PausingForOpen => BusActionView::Pause,
            BusStepView::OpeningAgain => BusActionView::OpenDriver,
            BusStepView::ResettingBus => BusActionView::ResetBus,
            BusStepView::Probing => BusActionView::Identify,
            BusStepView::ProbingAgain => BusActionView::Identify,
            BusStepView::PausingAfterFailure(_) => BusActionView::Pause,
            BusStepView::Closing(_) => BusActionView::CloseDriver,
            BusStepView::PausingBeforeReset => BusActionView::Pause,
            BusStepView::ResettingUsb(u) => BusActionView::Run(u.command()),
            BusStepView::PausingAfterUsb => BusActionView::Pause,
        }
    }

    /// What follows on an event. An attempt that has failed with the driver open waits for a
    /// while, and then closes it, whatever comes of that.
    pub open spec fn next(self, event: BusEventView) -> BusNextView {
        match self.step {
            BusStepView::Opening => match event {
                BusEventView::Failed(OpenCbmErrorView::ThreadTimeout) => self.at(
                    BusStepView::ResettingForOpen(UsbResetView::Listing),
                ),
                BusEventView::Failed(e) => self.attempt_failed(e),
                _ => self.at(BusStepView::ResettingBus),
            },
            BusStepView::ResettingForOpen(u) => match start::bus_reset_next(u, event->Ran_0) {
                Ok(Some(v)) => self.at(BusStepView::ResettingForOpen(v)),
                Ok(None) => self.at(BusStepView::PausingForOpen),
                Err(e) => self.attempt_failed(
                    OpenCbmErrorView::Other("USB device reset failed "@ + e.text()),
                ),
            },
            BusStepView::PausingForOpen => self.at(BusStepView::OpeningAgain),
            BusStepView::OpeningAgain => match event {
                BusEventView::Failed(e) => self.attempt_failed(e),
                _ => self.at(BusStepView::ResettingBus),
            },
            BusStepView::ResettingBus => match event {
                BusEventView::Failed(e) => self.at(BusStepView::PausingAfterFailure(e)),
                _ => self.at(BusStepView::Probing),
            },
            BusStepView::Probing => match event {
                BusEventView::Failed(OpenCbmErrorView::UnknownDevice(_)) => self.at(
                    BusStepView::ProbingAgain,
                ),
                BusEventView::Failed(e) => self.at(BusStepView::PausingAfterFailure(e)),
                _ => BusNextView::Open,
            },
            BusStepView::ProbingAgain => match event {
                BusEventView::Failed(OpenCbmErrorView::UnknownDevice(_)) => BusNextView::Open,
                BusEventView::Failed(e) => self.at(BusStepView::PausingAfterFailure(e)),
                _ => BusNextView::Open,
            },
            BusStepView::PausingAfterFailure(e) => self.at(BusStepView::Closing(e)),
            BusStepView::Closing(e) => self.attempt_failed(e),
            BusStepView::PausingBeforeReset => self.at(
                BusStepView::ResettingUsb(UsbResetView::Listing),
            ),
            BusStepView::ResettingUsb(u) => match start::bus_reset_next(u, event->Ran_0) {
                Ok(Some(v)) => self.at(BusStepView::ResettingUsb(v)),
                Ok(None) => self.at(BusStepView::PausingAfterUsb),
                Err(e) => BusNextView::GiveUp(e),
            },
            BusStepView::PausingAfterUsb => BusNextView::Act(
                BusStartView { first_attempt: false, step: BusStepView::Opening },
            ),
        }
    }
}

impl BusStart {
    fn at(first_attempt: bool, step: BusStep) -> (r: BusNext)
        ensures
            r@ == BusNextView::Act((BusStart { first_attempt, step })@),
    {
        BusNext::Act(BusStart { first_attempt, step })
    }

    fn attempt_failed(first_attempt: bool, e: OpenCbmError) -> (r: BusNext)
        ensures
            r@ == (BusStartView { first_attempt, step: BusStepView::Opening }).attempt_failed(e@),
    {
        if first_attempt {
            BusStart::at(first_attempt, BusStep::PausingBeforeReset)
        } else {
            BusNext::GiveUp(CbmError::from_driver(e))
        }
    }

    /// Judges what came of asking the device what it is.
    fn probed(first_attempt: bool, second: bool, event: BusEvent) -> (r: BusNext)
        requires
            !(event is Ran),
        ensures
            r@ == (BusStartView {
                first_attempt,
                step: if second {
                    BusStepView::ProbingAgain
                } else {
                    BusStepView::Probing
                },
            }).next(event@),
    {
        let answer = match event {
            BusEvent::Failed(e) => StartEvent::Failed(e),
            _ => StartEvent::Done,
        };
        match verify_device_identification(second, answer) {
            ProbeVerdict::Works => BusNext::Open,
            ProbeVerdict::AskAgain => BusStart::at(first_attempt, BusStep::ProbingAgain),
            ProbeVerdict::Broken(e) => BusStart::at(
                first_attempt,
                BusStep::PausingAfterFailure(e),
            ),
        }
    }

    /// What is to be done next.
    pub fn action(&self) -> (r: BusAction)
        ensures
            r@ == self@.action(),
    {
        match &self.step {
            BusStep::Opening => BusAction::OpenDriver,
            BusStep::ResettingForOpen(u) => BusAction::Run(u.command()),
            BusStep::PausingForOpen => BusAction::Pause,
            BusStep::OpeningAgain => BusAction::OpenDriver,
            BusStep::ResettingBus => BusAction::ResetBus,
            BusStep::Probing => BusAction::Identify,
            BusStep::ProbingAgain => BusAction::Identify,
            BusStep::PausingAfterFailure(_) => BusAction::Pause,
            BusStep::Closing(_) => BusAction::CloseDriver,
            BusStep::PausingBeforeReset => BusAction::Pause,
            BusStep::ResettingUsb(u) => BusAction::Run(u.command()),
            BusStep::PausingAfterUsb => BusAction::Pause,
        }
    }

    /// Goes on with what came of the action.
    pub fn next(self, event: BusEvent) -> (r: BusNext)
        requires
            self@.action().answered_by(event@),
        ensures
            r@ == self@.next(event@),
    {
        let first: bool = self.first_attempt;
        match self.step {
            BusStep::Opening => match event {
                BusEvent::Failed(OpenCbmError::ThreadTimeout) => BusStart::at(
                    first,
                    BusStep::ResettingForOpen(usb_reset()),
                ),
                BusEvent::Failed(e) => BusStart::attempt_failed(first, e),
                _ => BusStart::at(first, BusStep::ResettingBus),
            },
            BusStep::ResettingForOpen(u) => match event {
                BusEvent::Ran(outcome) => match bus_usb_reset(u, outcome) {
                    Ok(Some(v)) => BusStart::at(first, BusStep::ResettingForOpen(v)),
                    Ok(None) => BusStart::at(first, BusStep::PausingForOpen),
                    Err(e) => {
                        let mut s = "USB device reset failed ".to_owned();
                        s.append(e.to_string().as_str());
                        BusStart::attempt_failed(first, OpenCbmError::Other(s))
                    },
                },
                _ => BusStart::at(first, BusStep::PausingForOpen),
            },
            BusStep::PausingForOpen => BusStart::at(first, BusStep::OpeningAgain),
            BusStep::OpeningAgain => match event {
                BusEvent::Failed(e) => BusStart::attempt_failed(first, e),
                _ => BusStart::at(first, BusStep::ResettingBus),
            },
            BusStep::ResettingBus => match event {
                BusEvent::Failed(e) => BusStart::at(first, BusStep::PausingAfterFailure(e)),
                _ => BusStart::at(first, BusStep::Probing),
            },
            BusStep::Probing => BusStart::probed(first, false, event),
            BusStep::ProbingAgain => BusStart::probed(first, true, event),
            BusStep::PausingAfterFailure(e) => BusStart::at(first, BusStep::Closing(e)),
            BusStep::Closing(e) => BusStart::attempt_failed(first, e),
            BusStep::PausingBeforeReset => BusStart::at(
                first,
                BusStep::ResettingUsb(usb_reset()),
            ),
            BusStep::ResettingUsb(u) => match event {
                BusEvent::Ran(outcome) => match bus_usb_reset(u, outcome) {
                    Ok(Some(v)) => BusStart::at(first, BusStep::ResettingUsb(v)),
                    Ok(None) => BusStart::at(first, BusStep::PausingAfterUsb),
                    Err(e) => BusNext::GiveUp(e),
                },
                _ => BusStart::at(first, BusStep::PausingAfterUsb),
            },
            BusStep::PausingAfterUsb => BusStart::at(false, BusStep::Opening),
        }
    }
}

// ---------------------------------------------------------------------------
// Resetting the adapter under an open bus
// ---------------------------------------------------------------------------

/// How far the adapter is reset under an open bus: the driver is closed, the adapter is
/// reset, and the bus is opened anew.
#[derive(Debug)]
pub enum BusReset {
    Closing,
    PausingClosed,
    ResettingUsb(UsbReset),
    PausingReset,
    Starting(BusStart),
}

/// How far the adapter is reset, with texts as sequences of characters.
#[verifier::ext_equal]
pub enum BusResetView {
    Closing,
    PausingClosed,
    ResettingUsb(UsbResetView),
    PausingReset,
    Starting(BusStartView),
}

impl View for BusReset {
    type V = BusResetView;

    open spec fn view(&self) -> BusResetView {
        match *self {
            BusReset::Closing => BusResetView::Closing,
            BusReset::PausingClosed => BusResetView::PausingClosed,
            BusReset::ResettingUsb(u) => BusResetView::ResettingUsb(u@),
            BusReset::PausingReset => BusResetView::PausingReset,
            BusReset::Starting(s) => BusResetView::Starting(s@),
        }
    }
}

/// What follows on an event: another action, or the end.
#[derive(Debug)]
pub enum BusResetNext {
    Act(BusReset),
    Open,
    GiveUp(CbmError),
}

/// What follows on an event, with texts as sequences of characters.
#[verifier::ext_equal]
pub enum BusResetNextView {
    Act(BusResetView),
    Open,
    GiveUp(CbmErrorView),
}

impl View for BusResetNext {
    type V = BusResetNextView;

    open spec fn view(&self) -> BusResetNextView {
        match *self {
            BusResetNext::Act(s) => BusResetNextView::Act(s@),
            BusResetNext::Open => BusResetNextView::Open,
            BusResetNext::GiveUp(e) => BusResetNextView::GiveUp(e@),
        }
    }
}

impl BusResetView {
    /// What is to be done next.
    pub open spec fn action(self) -> BusActionView {
        match self {
            BusResetView::Closing => BusActionView::CloseDriver,
            BusResetView::PausingClosed => BusActionView::Pause,
            BusResetView::ResettingUsb(u) => BusActionView::Run(u.command()),
            BusResetView::PausingReset => BusActionView::Pause,
            BusResetView::Starting(s) => s.action(),
        }
    }

    /// What follows on an event. A failure to reset the adapter is the end.
    pub open spec fn next(self, event: BusEventView) -> BusResetNextView {
        match self {
            BusResetView::Closing => BusResetNextView::Act(BusResetView::PausingClosed),
            BusResetView::PausingClosed => BusResetNextView::Act(
                BusResetView::ResettingUsb(UsbResetView::Listing),
            ),
            BusResetView::ResettingUsb(u) => match start::bus_reset_next(u, event->Ran_0) {
                Ok(Some(v)) => BusResetNextView::Act(BusResetView::ResettingUsb(v)),
                Ok(None) => BusResetNextView::Act(BusResetView::PausingReset),
                Err(e) => BusResetNextView::GiveUp(e),
            },
            BusResetView::PausingReset => BusResetNextView::Act(
                BusResetView::Starting(BusStartView::first()),
            ),
            BusResetView::Starting(s) => match s.next(event) {
                BusNextView::Act(t) => BusResetNextView::Act(BusResetView::Starting(t)),
                BusNextView::Open => BusResetNextView::Open,
                BusNextView::GiveUp(e) => BusResetNextView::GiveUp(e),
            },
        }
    }
}

impl BusReset {
    /// What is to be done next.
    pub fn action(&self) -> (r: BusAction)
        ensures
            r@ == self@.action(),
    {
        match self {
            BusReset::Closing => BusAction::CloseDriver,
            BusReset::PausingClosed => BusAction::Pause,
            BusReset::ResettingUsb(u) => BusAction::Run(u.command()),
            BusReset::PausingReset => BusAction::Pause,
            BusReset::Starting(s) => s.action(),
        }
    }

    /// Goes on with what came of the action.
    pub fn next(self, event: BusEvent) -> (r: BusResetNext)
        requires
            self@.action().answered_by(event@),
        ensures
            r@ == self@.next(event@),
    {
        match self {
            BusReset::Closing => BusResetNext::Act(BusReset::PausingClosed),
            BusReset::PausingClosed => BusResetNext::Act(BusReset::ResettingUsb(usb_reset())),
            BusReset::ResettingUsb(u) => match event {
                BusEvent::Ran(outcome) => match bus_usb_reset(u, outcome) {
                    Ok(Some(v)) => BusResetNext::Act(BusReset::ResettingUsb(v)),
                    Ok(None) => BusResetNext::Act(BusReset::PausingReset),
                    Err(e) => BusResetNext::GiveUp(e),
                },
                _ => BusResetNext::Act(BusReset::PausingReset),
            },
            BusReset::PausingReset => BusResetNext::Act(BusReset::Starting(Cbm::new())),
            BusReset::Starting(s) => match s.next(event) {
                BusNext::Act(t) => BusResetNext::Act(BusReset::Starting(t)),
                BusNext::Open => BusResetNext::Open,
                BusNext::GiveUp(e) => BusResetNext::GiveUp(e),
            },
        }
    }
}

impl Cbm {
    /// Opening the bus begins with opening the driver.
    pub fn new() -> (s: BusStart)
        ensures
            s@ == BusStartView::first(),
    {
        BusStart { first_attempt: true, step: BusStep::Opening }
    }

    /// Resetting the adapter under an open bus begins with closing the driver.
    pub fn blocking_usb_reset_will_lock() -> (s: BusReset)
        ensures
            s@ == BusResetView::Closing,
    {
        BusReset::Closing
    }
}

// ---------------------------------------------------------------------------
// Laws
// ---------------------------------------------------------------------------

/// How many commands are left at most to reset the adapter.
pub open spec fn commands_left(u: UsbResetView) -> int {
    match u {
        UsbResetView::Listing => 2,
        UsbResetView::Resetting(_) => 1,
    }
}

/// How many actions are left at most.
pub open spec fn actions_left(s: BusStartView) -> int {
    (if s.first_attempt {
        20int
    } else {
        0int
    }) + match s.step {
        BusStepView::Opening => 14int,
        BusStepView::ResettingForOpen(u) => 11 + commands_left(u),
        BusStepView::PausingForOpen => 11int,
        BusStepView::OpeningAgain => 10int,
        BusStepView::ResettingBus => 9int,
        BusStepView::Probing => 8int,
        BusStepView::ProbingAgain => 7int,
        BusStepView::PausingAfterFailure(_) => 6int,
        BusStepView::Closing(_) => 5int,
        BusStepView::PausingBeforeReset => 4int,
        BusStepView::ResettingUsb(u) => 1 + commands_left(u),
        BusStepView::PausingAfterUsb => 1int,
    }
}

/// The adapter is reset between the first attempt and the second, and not after it.
pub open spec fn is_under_way(s: BusStartView) -> bool {
    s.first_attempt || !(s.step is PausingBeforeReset || s.step is ResettingUsb
        || s.step is PausingAfterUsb)
}

/// Opening the bus ends, whatever happens.
pub proof fn law_bus_start_ends(s: BusStartView, event: BusEventView)
    requires
        is_under_way(s),
        s.action().answered_by(event),
    ensures
        s.next(event) matches BusNextView::Act(t) ==> is_under_way(t) && 0 <= actions_left(t)
            < actions_left(s),
{
}

/// The bus counts as open only after it was reset and a device was asked what it is. A device
/// that is not known is asked twice, and only then taken for an answer.
pub proof fn law_bus_is_probed(s: BusStartView, event: BusEventView)
    requires
        s.action().answered_by(event),
        s.next(event) == BusNextView::Open,
    ensures
        s.action() == BusActionView::Identify,
        event == BusEventView::Done || (s.step == BusStepView::ProbingAgain && event matches
            BusEventView::Failed(OpenCbmErrorView::UnknownDevice(_))),
{
}

/// An attempt that fails with the driver open closes it, after a pause, before anything else
/// is done.
pub proof fn law_failed_bus_is_closed(s: BusStartView, e: OpenCbmErrorView)
    requires
        s.step == BusStepView::ResettingBus || s.step == BusStepView::Probing || s.step
            == BusStepView::ProbingAgain,
        e is UnknownDevice ==> s.step == BusStepView::ResettingBus,
    ensures
        s.next(BusEventView::Failed(e)) matches BusNextView::Act(t) && t.action()
            == BusActionView::Pause && (t.next(BusEventView::Done) matches BusNextView::Act(u)
            && u.action() == BusActionView::CloseDriver),
{
}

/// How many actions are left at most when the adapter is reset.
pub open spec fn reset_actions_left(s: BusResetView) -> int {
    match s {
        BusResetView::Closing => 39int,
        BusResetView::PausingClosed => 38int,
        BusResetView::ResettingUsb(u) => 35 + commands_left(u),
        BusResetView::PausingReset => 35int,
        BusResetView::Starting(t) => actions_left(t),
    }
}

/// Resetting the adapter under an open bus ends, whatever happens, and the bus is open again
/// only after it was opened and probed as at the start.
pub proof fn law_bus_reset_ends(s: BusResetView, event: BusEventView)
    requires
        s matches BusResetView::Starting(t) ==> is_under_way(t),
        s.action().answered_by(event),
    ensures
        s.next(event) matches BusResetNextView::Act(t) ==> 0 <= reset_actions_left(t)
            < reset_actions_left(s) && (t matches BusResetView::Starting(u) ==> is_under_way(u)),
        s.next(event) == BusResetNextView::Open ==> (s matches BusResetView::Starting(t)
            && t.action() == BusActionView::Identify),
{
    if let BusResetView::Starting(t) = s {
        law_bus_start_ends(t, event);
    }
}

} // verus!

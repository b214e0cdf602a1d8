//! What can be relied on of the driver and its adapter: how they are opened and reset.
use vstd::prelude::*;

use crate::bus_start::{
    BusAction, BusEvent, BusNext, BusReset, BusResetNext, BusResetView, BusStart, BusStepView,
};
use crate::cbmtype;
use crate::cbmtype::{CbmError, CbmErrorView};
use crate::opencbm;
use crate::opencbm::{
    BusRequest, CallOutcome, CommandOutcome, OpenCbm, OpenCbmError, OpenCbmErrorView, UsbReset,
    UsbResetNext,
};
use crate::session::Cbm;
use crate::start;
use crate::start::{
    DeviceReset, ProbeVerdict, ResetAction, ResetNext, StartAction, StartEvent, StartNext,
    StartSession, StartStepView,
};
use crate::text;

verus! {

/// The driver is opened, the bus is reset, and a device is asked, and then the driver is open:
/// these are the actions as long as each goes well.
pub proof fn law_driver_is_opened(
    first: StartSession,
    s: StartSession,
    action: StartAction,
    n: StartNext,
)
    requires
        call_ensures(StartSession::new, (), first),
        call_ensures(StartSession::action, (&s,), action),
        call_ensures(StartSession::next, (s, StartEvent::Done), n),
    ensures
        first.first_attempt && first.step is Opening,
        s.step is Opening || s.step is OpeningAgain ==> action is OpenDriver && (n
            matches StartNext::Act(t) && t.step is ResettingBus && t.first_attempt
            == s.first_attempt),
        s.step is ResettingBus ==> action is ResetBus && (n matches StartNext::Act(t)
            && t.step is Probing && t.first_attempt == s.first_attempt),
        s.step is Probing ==> action is Probe && n is Open,
        n is Open ==> s.step is Probing,
{
    assert(n@ == s@.next(StartEvent::Done@));
}

/// An attempt that fails closes the driver where it was open, and the adapter is reset before
/// there is another. After the second attempt there is none, and its error is told.
pub proof fn law_driver_is_tried_twice(
    s: StartSession,
    e: OpenCbmError,
    action: StartAction,
    failed: StartNext,
    done: StartNext,
)
    requires
        call_ensures(StartSession::action, (&s,), action),
        call_ensures(StartSession::next, (s, StartEvent::Failed(e)), failed),
        call_ensures(StartSession::next, (s, StartEvent::Done), done),
    ensures
        s.step is Opening && e is ThreadTimeout ==> (failed matches StartNext::Act(t)
            && t.step is ResettingForOpen),
        (s.step is Opening && !(e is ThreadTimeout)) || s.step is OpeningAgain
            ==> if s.first_attempt {
            failed matches StartNext::Act(t) && t.step is PausingBeforeReset && t.first_attempt
        } else {
            failed matches StartNext::GiveUp(x) && x@ == e@
        },
        s.step is ResettingBus ==> (failed matches StartNext::Act(t) && t@.step
            == StartStepView::PausingAfterReset(e@)),
        s@.step matches StartStepView::PausingAfterReset(x) ==> action is Pause && (done
            matches StartNext::Act(t) && t@.step == StartStepView::Closing(x)),
        s.step is Probing && e is UsbError ==> (failed matches StartNext::Act(t) && t@.step
            == StartStepView::Closing(e@)),
        s.step is Probing && !(e is UsbError) ==> failed is Open,
        s@.step matches StartStepView::Closing(x) ==> action is CloseDriver && if s.first_attempt {
            done matches StartNext::Act(t) && t.step is PausingBeforeReset && t.first_attempt
        } else {
            done matches StartNext::GiveUp(y) && y@ == x
        },
        s.step is PausingBeforeReset ==> action is Pause && (done matches StartNext::Act(t)
            && t.step is ResettingUsb),
        s.step is ResettingUsb ==> action is ResetUsb && (done matches StartNext::Act(t)
            && t.step is PausingAfterUsb) && (failed matches StartNext::GiveUp(x) && x@ == e@),
        s.step is PausingAfterUsb ==> action is Pause && (done matches StartNext::Act(t)
            && t.step is Opening && !t.first_attempt),
        s.step is ResettingForOpen ==> action is ResetUsb && (done matches StartNext::Act(t)
            && t.step is PausingForOpen) && (!s.first_attempt ==> (failed matches StartNext::GiveUp(
            x,
        ) && x@ == OpenCbmErrorView::Other("USB device reset failed "@ + e@.text()))),
        s.step is PausingForOpen ==> action is Pause && (done matches StartNext::Act(t)
            && t.step is OpeningAgain),
{
    assert(failed@ == s@.next(StartEvent::Failed(e)@));
    assert(done@ == s@.next(StartEvent::Done@));
}

/// A driver answers where the device does; a device that is not known is asked once more, and
/// then the driver answers too. Any other error tells that it is broken.
pub proof fn law_driver_is_probed(
    second: bool,
    e: OpenCbmError,
    done: ProbeVerdict,
    failed: ProbeVerdict,
)
    requires
        call_ensures(start::verify_device_identification, (second, StartEvent::Done), done),
        call_ensures(start::verify_device_identification, (second, StartEvent::Failed(e)), failed),
    ensures
        done is Works,
        e is UnknownDevice ==> (second ==> failed is Works) && (!second ==> failed is AskAgain),
        !(e is UnknownDevice) ==> (failed matches ProbeVerdict::Broken(x) && x@ == e@),
{
    assert(StartEvent::Failed(e)@ is Failed);
}

/// The adapter is reset under an open driver: the driver is closed first, and opened as at the
/// start at last. What fails before that ends it.
pub proof fn law_adapter_is_reset(
    s: DeviceReset,
    e: OpenCbmError,
    action: ResetAction,
    done: ResetNext,
    failed: ResetNext,
)
    requires
        call_ensures(DeviceReset::action, (&s,), action),
        call_ensures(DeviceReset::next, (s, StartEvent::Done), done),
        call_ensures(DeviceReset::next, (s, StartEvent::Failed(e)), failed),
    ensures
        s is Closing ==> action is CloseDriver && (done matches ResetNext::Act(t)
            && t is PausingClosed) && (failed matches ResetNext::GiveUp(x) && x@ == e@),
        s is PausingClosed ==> action == ResetAction::Start(StartAction::Pause) && (done
            matches ResetNext::Act(t) && t is ResettingUsb),
        s is ResettingUsb ==> action == ResetAction::Start(StartAction::ResetUsb) && (done
            matches ResetNext::Act(t) && t is PausingReset) && (failed matches ResetNext::GiveUp(x)
            && x@ == e@),
        s is PausingReset ==> action == ResetAction::Start(StartAction::Pause) && (done
            matches ResetNext::Act(t) && (t matches DeviceReset::Starting(u) && u.first_attempt
            && u.step is Opening)),
        s matches DeviceReset::Starting(u) ==> forall|a: StartAction|
            call_ensures(StartSession::action, (&u,), a) ==> action == ResetAction::Start(a),
        done is Open ==> (s matches DeviceReset::Starting(u) && u.step is Probing),
{
    assert(done@ == s@.next(StartEvent::Done@));
    assert(failed@ == s@.next(StartEvent::Failed(e)@));
}

/// What was open is closed by its own handle, and from there on nothing is open until it is
/// opened anew, under the new handle.
pub proof fn law_handles_of_the_driver(
    d: &mut OpenCbm,
    r: (isize, DeviceReset),
    c: &mut OpenCbm,
    handle: isize,
    o: &mut OpenCbm,
    opened: OpenCbm,
    raw: (isize, bool),
)
    requires
        call_ensures(OpenCbm::usb_device_reset, (d,), r),
        call_ensures(OpenCbm::close_driver, (c,), handle),
        call_ensures(OpenCbm::reopened, (o, opened), ()),
        call_ensures(OpenCbm::into_raw_values, (opened,), raw),
    ensures
        r.0 == old(d).handle && r.1 is Closing,
        final(d).handle == 0 && !final(d).driver_opened,
        handle == old(c).handle && final(c).handle == 0 && final(c).driver_opened == old(
            c,
        ).driver_opened,
        final(o).handle == opened.handle && final(o).driver_opened,
        raw.0 == opened.handle && raw.1 == opened.driver_opened,
{
}

/// A driver that was opened has the handle that it was given, and one that could not be is
/// none. The bus is reset only with a handle above 0.
pub proof fn law_driver_has_a_handle(
    outcome: CallOutcome,
    handle: isize,
    r: Result<OpenCbm, OpenCbmError>,
    d: OpenCbm,
    q: Result<BusRequest, OpenCbmError>,
    device: u8,
    channel: u8,
    name: &str,
    f: BusRequest,
)
    requires
        call_ensures(OpenCbm::open_driver, (outcome, handle), r),
        call_ensures(OpenCbm::reset, (&d,), q),
        call_ensures(OpenCbm::open_file, (&d, device, channel, name), f),
    ensures
        r matches Ok(o) ==> o.handle == handle && o.driver_opened,
        outcome matches CallOutcome::Returned(x) && x.code == 0 ==> r is Ok,
        outcome matches CallOutcome::Returned(x) && x.code != 0 ==> r is Err,
        q is Ok <==> d.handle > 0,
        q matches Ok(request) ==> request is Reset,
        f matches BusRequest::Open { device: at, channel: on, name: what } && at == device && on
            == channel && what@ == name@,
{
}

/// A call is made again only once, and only where it has timed out.
pub proof fn law_calls_are_made_again(attempt: u8, code: i32, os_code: Option<i32>, r: bool)
    requires
        call_ensures(opencbm::should_retry, (attempt, code, os_code), r),
    ensures
        r <==> code != 0 && attempt == 1 && os_code == Some(110i32),
{
}

/// What a command has printed counts only where it was run and has returned 0. Otherwise the
/// error tells the command, and what went wrong.
pub proof fn law_commands_are_run(
    command: &str,
    code: Option<i32>,
    out: Vec<u8>,
    err: Vec<u8>,
    error: String,
    ran: Result<String, OpenCbmError>,
    not_run: Result<String, OpenCbmError>,
)
    requires
        call_ensures(
            opencbm::command_stdout,
            (command, CommandOutcome::Ran { code, stdout: out, stderr: err }),
            ran,
        ),
        call_ensures(
            opencbm::command_stdout,
            (command, CommandOutcome::NotRun { code, error }),
            not_run,
        ),
    ensures
        ran is Ok <==> code == Some(0i32),
        ran matches Ok(s) ==> s@ == text::lossy_text(out@),
        ran matches Err(e) ==> e@ == OpenCbmErrorView::UsbError(
            code,
            "Failed to run "@ + command@ + ": "@ + text::lossy_text(err@),
        ),
        not_run matches Err(e) && e@ == OpenCbmErrorView::UsbError(
            code,
            "Failed to run "@ + command@ + ": "@ + error@,
        ),
{
}

/// The adapter is found in the first line that has its vendor and its product behind `ID`: it
/// is on the bus that the second word tells, and is the device of the fourth one.
pub proof fn law_adapter_is_found(
    stdout: &str,
    i: int,
    rest: Seq<char>,
    r: Result<(String, String), OpenCbmError>,
)
    requires
        call_ensures(opencbm::get_xum1541_bus_device_id, (stdout,), r),
        0 <= i < text::lines_of(stdout@).len(),
        forall|j: int|
            0 <= j < i ==> text::second_part(#[trigger] text::lines_of(stdout@)[j], "ID "@) is None,
        text::second_part(text::lines_of(stdout@)[i], "ID "@) == Some(rest),
        text::words_of(rest).len() > 0,
        text::words_of(rest)[0] == seq!['1', '6', 'd', '0', ':', '0', '5', '0', '4'],
        text::words_of(text::lines_of(stdout@)[i]).len() >= 4,
    ensures
        r matches Ok(found) && found.0@ == text::words_of(text::lines_of(stdout@)[i])[1]
            && found.1@ == text::without_trailing(text::words_of(text::lines_of(stdout@)[i])[3], ':'),
{
    let lines = text::lines_of(stdout@);
    reveal_strlit("16d0");
    reveal_strlit("0504");
    let vendor = seq!['1', '6', 'd', '0'];
    let product = seq!['0', '5', '0', '4'];
    assert("16d0"@ =~= vendor);
    assert("0504"@ =~= product);
    let id = text::words_of(rest)[0];
    assert(id =~= vendor + seq![':'] + product);
    text::lemma_split_on(vendor, ':', product);
    text::lemma_split_on(product, ':', seq![]);
    assert(text::split_on(id, ':') =~= seq![vendor, product]);
    lemma_first_line(lines, i);
}

proof fn lemma_first_line(lines: Seq<Seq<char>>, i: int)
    requires
        0 <= i < lines.len(),
        forall|j: int| 0 <= j < i ==> text::second_part(#[trigger] lines[j], "ID "@) is None,
        opencbm::usb_line(lines[i], "16d0"@, "0504"@) is Some,
    ensures
        opencbm::usb_device(lines, "16d0"@, "0504"@) == opencbm::usb_line(
            lines[i],
            "16d0"@,
            "0504"@,
        ),
    decreases i,
{
    if i > 0 {
        assert(text::second_part(lines[0], "ID "@) is None);
        assert forall|j: int| 0 <= j < i - 1 implies text::second_part(
            #[trigger] lines.skip(1)[j],
            "ID "@,
        ) is None by {
            assert(lines.skip(1)[j] == lines[j + 1]);
        }
        assert(lines.skip(1)[i - 1] == lines[i]);
        lemma_first_line(lines.skip(1), i - 1);
    }
}

/// Without a line that has `ID` in it there is no adapter.
pub proof fn law_adapter_is_missing(stdout: &str, r: Result<(String, String), OpenCbmError>)
    requires
        call_ensures(opencbm::get_xum1541_bus_device_id, (stdout,), r),
        forall|j: int|
            0 <= j < text::lines_of(stdout@).len() ==> text::second_part(
                #[trigger] text::lines_of(stdout@)[j],
                "ID "@,
            ) is None,
    ensures
        r matches Err(e) && e@ == OpenCbmErrorView::UsbError(
            None,
            "Failed to parse lsusb output: "@ + stdout@,
        ),
{
    lemma_no_line(text::lines_of(stdout@));
}

proof fn lemma_no_line(lines: Seq<Seq<char>>)
    requires
        forall|j: int|
            0 <= j < lines.len() ==> text::second_part(#[trigger] lines[j], "ID "@) is None,
    ensures
        opencbm::usb_device(lines, "16d0"@, "0504"@) is None,
    decreases lines.len(),
{
    if lines.len() > 0 {
        assert(text::second_part(lines[0], "ID "@) is None);
        assert forall|j: int| 0 <= j < lines.skip(1).len() implies text::second_part(
            #[trigger] lines.skip(1)[j],
            "ID "@,
        ) is None by {
            assert(lines.skip(1)[j] == lines[j + 1]);
        }
        lemma_no_line(lines.skip(1));
    }
}

/// The adapter is looked for with `lsusb`, and then it is reset with `usbreset` on the bus and
/// as the device where it was found. It counts as reset where some line names it and says ok.
pub proof fn law_adapter_is_reset_by_commands(
    first: UsbReset,
    listing: String,
    bus: &str,
    device: &str,
    command: String,
    outcome: CommandOutcome,
    n: UsbResetNext,
    last: UsbResetNext,
    reset: String,
)
    requires
        call_ensures(opencbm::usb_reset, (), first),
        call_ensures(UsbReset::command, (&first,), listing),
        call_ensures(opencbm::usbreset_command, (bus, device), command),
        call_ensures(UsbReset::next, (first, outcome), n),
        call_ensures(UsbReset::next, (UsbReset::Resetting(reset), outcome), last),
    ensures
        listing@ == "lsusb"@,
        command@ == "usbreset "@ + bus@ + "/"@ + device@,
        outcome matches CommandOutcome::Ran { code: Some(0), stdout, .. } ==> (match (
            n,
            opencbm::usb_device(text::lines_of(text::lossy_text(stdout@)), "16d0"@, "0504"@),
        ) {
            (UsbResetNext::Run(t), Some((b, d))) => t@.command() == "usbreset "@ + b + "/"@ + d,
            (UsbResetNext::Finished(Err(_)), None) => true,
            _ => false,
        }) && (last matches UsbResetNext::Finished(r) && (r is Ok <==> exists|i: int|
            0 <= i < text::lines_of(text::lossy_text(stdout@)).len() && text::has_part(
                #[trigger] text::lines_of(text::lossy_text(stdout@))[i],
                "xum1541"@,
            ) && text::has_part(text::lines_of(text::lossy_text(stdout@))[i], "ok"@))),
        !(outcome matches CommandOutcome::Ran { code: Some(0), .. }) ==> (n
            matches UsbResetNext::Finished(Err(_))) && (last matches UsbResetNext::Finished(
            Err(_),
        )),
{
    assert(n@ == first@.next(outcome));
    assert(last@ == UsbReset::Resetting(reset)@.next(outcome));
}

/// The bus is opened like the driver, and a device is asked what it is. One that is not known
/// is asked again, and then the bus is open.
pub proof fn law_bus_is_opened(first: BusStart, s: BusStart, action: BusAction, n: BusNext)
    requires
        call_ensures(Cbm::new, (), first),
        call_ensures(BusStart::action, (&s,), action),
        call_ensures(BusStart::next, (s, BusEvent::Done), n),
    ensures
        first.first_attempt && first.step is Opening,
        s.step is Opening || s.step is OpeningAgain ==> action is OpenDriver && (n
            matches BusNext::Act(t) && t.step is ResettingBus && t.first_attempt
            == s.first_attempt),
        s.step is ResettingBus ==> action is ResetBus && (n matches BusNext::Act(t)
            && t.step is Probing && t.first_attempt == s.first_attempt),
        s.step is Probing || s.step is ProbingAgain ==> action is Identify && n is Open,
        s.step is PausingForOpen ==> action is Pause && (n matches BusNext::Act(t)
            && t.step is OpeningAgain),
        s@.step matches BusStepView::PausingAfterFailure(e) ==> action is Pause && (n
            matches BusNext::Act(t) && t@.step == BusStepView::Closing(e)),
        s.step is Closing && s.first_attempt ==> action is CloseDriver && (n matches BusNext::Act(t)
            && t.step is PausingBeforeReset),
        s.step is Closing && !s.first_attempt ==> action is CloseDriver && n is GiveUp,
        s.step is PausingBeforeReset ==> action is Pause && (n matches BusNext::Act(t)
            && t.step is ResettingUsb),
        s.step is PausingAfterUsb ==> action is Pause && (n matches BusNext::Act(t)
            && t.step is Opening && !t.first_attempt),
{
    assert(first@.step is Opening);
    assert(n@ == s@.next(BusEvent::Done@));
}

/// A step of opening the bus that fails leads on as for the driver: an adapter that does not
/// answer in time is reset, and so is it before the second attempt, after which there is none.
pub proof fn law_bus_is_tried_twice(s: BusStart, e: OpenCbmError, n: BusNext)
    requires
        call_ensures(BusStart::next, (s, BusEvent::Failed(e)), n),
    ensures
        s.step is Opening && e is ThreadTimeout ==> (n matches BusNext::Act(t)
            && t.step is ResettingForOpen),
        s.first_attempt && ((s.step is Opening && !(e is ThreadTimeout)) || s.step is OpeningAgain)
            ==> (n matches BusNext::Act(t) && t.step is PausingBeforeReset && t.first_attempt),
        !s.first_attempt && ((s.step is Opening && !(e is ThreadTimeout)) || s.step is OpeningAgain)
            ==> n is GiveUp,
        s.step is ResettingBus ==> (n matches BusNext::Act(t) && t@.step
            == BusStepView::PausingAfterFailure(e@)),
        s.step is Probing && e is UnknownDevice ==> (n matches BusNext::Act(t)
            && t.step is ProbingAgain),
        s.step is ProbingAgain && e is UnknownDevice ==> n is Open,
        (s.step is Probing || s.step is ProbingAgain) && !(e is UnknownDevice) ==> (n
            matches BusNext::Act(t) && t@.step == BusStepView::PausingAfterFailure(e@)),
{
    assert(n@ == s@.next(BusEvent::Failed(e)@));
}

/// For the bus the adapter is reset by the same two commands, whose codes do not count. One
/// that cannot be run ends it, with an error that tells of it.
pub proof fn law_bus_resets_the_adapter(
    s: UsbReset,
    code: Option<i32>,
    stdout: Vec<u8>,
    stderr: Vec<u8>,
    error: String,
    ran: Result<Option<UsbReset>, CbmError>,
    plain: UsbResetNext,
    not_run: Result<Option<UsbReset>, CbmError>,
)
    requires
        call_ensures(
            start::bus_usb_reset,
            (s, CommandOutcome::Ran { code, stdout, stderr }),
            ran,
        ),
        call_ensures(
            UsbReset::next,
            (s, CommandOutcome::Ran { code: Some(0i32), stdout, stderr }),
            plain,
        ),
        call_ensures(start::bus_usb_reset, (s, CommandOutcome::NotRun { code, error }), not_run),
    ensures
        plain matches UsbResetNext::Run(t) ==> (ran matches Ok(Some(u)) && u@ == t@),
        plain matches UsbResetNext::Finished(Ok(_)) ==> (ran matches Ok(None)),
        plain matches UsbResetNext::Finished(Err(OpenCbmError::UsbError(_, words))) ==> (ran
            matches Err(e) && e@ == CbmErrorView::UsbError(words@)),
        not_run matches Err(e) && e@ == CbmErrorView::UsbError(
            "Failed to run "@ + s@.command() + ": "@ + error@,
        ),
{
    assert(plain@ == s@.next(CommandOutcome::Ran { code: Some(0i32), stdout, stderr }));
}

/// The adapter is reset under an open bus: the driver is closed, whatever comes of it, the
/// adapter is reset, and the bus is opened as at the start.
pub proof fn law_bus_is_reset(first: BusReset, s: BusReset, action: BusAction, n: BusResetNext)
    requires
        call_ensures(Cbm::blocking_usb_reset_will_lock, (), first),
        call_ensures(BusReset::action, (&s,), action),
        call_ensures(BusReset::next, (s, BusEvent::Done), n),
    ensures
        first is Closing,
        s is Closing ==> action is CloseDriver && (n matches BusResetNext::Act(t)
            && t is PausingClosed),
        s is PausingClosed ==> action is Pause && (n matches BusResetNext::Act(t)
            && t@ == BusResetView::ResettingUsb(UsbReset::Listing@)),
        s is PausingReset ==> action is Pause && (n matches BusResetNext::Act(t) && (t
            matches BusReset::Starting(u) && u.first_attempt && u.step is Opening)),
        n is Open ==> s is Starting,
{
    assert(first@ is Closing);
    assert(n@ == s@.next(BusEvent::Done@));
}

/// An adapter that cannot be reset because no command can be run ends the second attempt to open
/// the bus, with an error that tells of the reset; before the second attempt it ends all.
pub proof fn law_bus_without_an_adapter(s: BusStart, code: Option<i32>, error: String, n: BusNext)
    requires
        s.step is ResettingForOpen || s.step is ResettingUsb,
        call_ensures(BusStart::next, (s, BusEvent::Ran(CommandOutcome::NotRun { code, error })), n),
    ensures
        s.step is ResettingForOpen && s.first_attempt ==> (n matches BusNext::Act(t)
            && t.step is PausingBeforeReset),
        s@.step matches BusStepView::ResettingForOpen(u) ==> !s.first_attempt ==> (n
            matches BusNext::GiveUp(e) && e@ == cbmtype::driver_error(
            OpenCbmErrorView::Other(
                "USB device reset failed "@ + CbmErrorView::UsbError(
                    "Failed to run "@ + u.command() + ": "@ + error@,
                ).text(),
            ),
        )),
        s@.step matches BusStepView::ResettingUsb(u) ==> (n matches BusNext::GiveUp(e) && e@
            == CbmErrorView::UsbError("Failed to run "@ + u.command() + ": "@ + error@)),
{
    assert(n@ == s@.next(BusEvent::Ran(CommandOutcome::NotRun { code, error })@));
}

} // verus!

//! What can be relied on of the operations that wait to be done.
use vstd::prelude::*;

use crate::error::{Error, ErrorView, Fs1541ErrorView};
use crate::number;
use crate::server::bg;
use crate::server::bg::{
    Notice, OpResponse, OpResponseType, OpType, Operation, OperationQueues, Pending, Priority,
    Proc, ProcStep, Purge, QueuesView,
};
use crate::time::{Duration, Instant};

verus! {

/// A reset of the bus, and making room by cancelling the cache of a device, are the most
/// urgent; then come mounts and unmounts, then what the kernel asks for, and last what is
/// only read ahead. What is more urgent has less time.
pub proof fn law_urgency(op: OpType, p: Priority, name: &'static str, d: Duration, e: Duration)
    requires
        call_ensures(OpType::priority, (&op,), p),
        call_ensures(Priority::timeout, (&p,), d),
        call_ensures(OpType::timeout, (&op,), e),
        call_ensures(Priority::as_str, (&p,), name),
    ensures
        p is Critical <==> op is BusReset || op is CancelDeviceCache,
        p is High <==> op is Mount || op is Unmount,
        p is Low <==> op is ReadFileCache,
        d.nanos == 0,
        e == d,
        p is Critical ==> d.secs == 30 && name@ == "Critical"@,
        p is High ==> d.secs == 60 && name@ == "High"@,
        p is Normal ==> d.secs == 120 && name@ == "Normal"@,
        p is Low ==> d.secs == 300 && name@ == "Low"@,
{
}

/// The name of an operation is that of its kind; only a reset is for the whole bus, and only
/// cancelling a cache can do without the drive.
pub proof fn law_kinds_of_operations(op: OpType, name: &'static str, bus: bool, drive: bool)
    requires
        call_ensures(OpType::as_str, (&op,), name),
        call_ensures(OpType::affects_bus, (&op,), bus),
        call_ensures(OpType::requires_drive_access, (&op,), drive),
    ensures
        bus <==> op is BusReset,
        drive <==> !(op is CancelDeviceCache),
        op is BusReset ==> name@ == "BusReset"@,
        op is Mount ==> name@ == "Mount"@,
        op is Unmount ==> name@ == "Unmount"@,
        op is ReadDirectory ==> name@ == "ReadDirectory"@,
        op is ReadFile ==> name@ == "ReadFile"@,
        op is WriteFile ==> name@ == "WriteFile"@,
        op is InitDrive ==> name@ == "InitDrive"@,
        op is Identify ==> name@ == "Identify"@,
        op is GetStatus ==> name@ == "GetStatus"@,
        op is ReadFileCache ==> name@ == "ReadFileCache"@,
        op is CancelDeviceCache ==> name@ == "CancelDeviceCache"@,
{
}

/// An operation that comes up holds what it was made of: what is to be done, whom to tell, and
/// since when it waits. It may wait as long as it may take.
pub proof fn law_operation_is_made<S, W>(
    op: OpType,
    priority: Priority,
    sender: S,
    stream: Option<W>,
    now: Instant,
    plain: Operation<S, W>,
    own: Operation<S, W>,
    d: Duration,
    urgency: Priority,
)
    requires
        call_ensures(Operation::<S, W>::new, (op, sender, stream, now), plain),
        call_ensures(Operation::<S, W>::with_priority, (priority, op, sender, stream, now), own),
        call_ensures(Operation::<S, W>::priority_timeout, (&own,), d),
        call_ensures(OpType::priority, (&op,), urgency),
    ensures
        plain.op_type == op && plain.sender == sender && plain.stream == stream && plain.created_at
            == now && plain.priority == urgency,
        own.op_type == op && own.sender == sender && own.stream == stream && own.created_at == now
            && own.priority == priority,
        d.nanos == 0 && d.secs == (match priority {
            Priority::Critical => 30u64,
            Priority::High => 60u64,
            Priority::Normal => 120u64,
            Priority::Low => 300u64,
        }),
{
}

/// Where an operation that comes up is put: behind what is as urgent or more urgent.
pub open spec fn place_for<S, W>(q: QueuesView<S, W>, op: Operation<S, W>) -> int {
    let place = match op.priority {
        Priority::Critical => q.critical.len(),
        Priority::High => q.critical.len() + q.high.len(),
        Priority::Normal => q.critical.len() + q.high.len() + q.normal.len(),
        Priority::Low => q.critical.len() + q.high.len() + q.normal.len() + q.low.len(),
    };
    place as int
}

proof fn lemma_priority_at<S, W>(q: QueuesView<S, W>, i: int)
    requires
        q.wf(),
        0 <= i < q.order().len(),
    ensures
        i < q.critical.len() ==> q.order()[i].priority is Critical,
        q.critical.len() <= i < q.critical.len() + q.high.len() ==> q.order()[i].priority is High,
        q.critical.len() + q.high.len() <= i < q.critical.len() + q.high.len() + q.normal.len()
            ==> q.order()[i].priority is Normal,
        q.critical.len() + q.high.len() + q.normal.len() <= i ==> q.order()[i].priority is Low,
{
    let c = q.critical.len() as int;
    let h = c + q.high.len();
    let n = h + q.normal.len();
    if i < c {
        assert(q.order()[i] == q.critical[i]);
    } else if i < h {
        assert(q.order()[i] == q.high[i - c]);
    } else if i < n {
        assert(q.order()[i] == q.normal[i - h]);
    } else {
        assert(q.order()[i] == q.low[i - n]);
    }
}

/// What comes up first among operations of one priority is done first, and what is more
/// urgent before what is less: an operation that comes up is put behind all that are as urgent
/// or more urgent, and in front of all others, which stay in order.
pub proof fn law_first_come_first_done<S, W>(
    q: &mut OperationQueues<S, W>,
    op: Operation<S, W>,
    done: (),
    j: int,
)
    requires
        call_ensures(OperationQueues::<S, W>::push, (q, op), done),
        old(q)@.wf(),
        0 <= j < old(q)@.order().len(),
    ensures
        final(q)@.order().len() == old(q)@.order().len() + 1,
        final(q)@.order()[place_for(old(q)@, op)] == op,
        j < place_for(old(q)@, op) ==> {
            &&& final(q)@.order()[j] == old(q)@.order()[j]
            &&& old(q)@.order()[j].priority.rank() <= op.priority.rank()
        },
        j >= place_for(old(q)@, op) ==> {
            &&& final(q)@.order()[j + 1] == old(q)@.order()[j]
            &&& old(q)@.order()[j].priority.rank() > op.priority.rank()
        },
{
    let v = old(q)@;
    bg::law_push_order(v, op);
    lemma_priority_at(v, j);
}

/// The ranks of the priorities are their order, from the most urgent on.
pub proof fn law_ranks(p: Priority, q: Priority)
    ensures
        Priority::Critical.rank() < Priority::High.rank() < Priority::Normal.rank()
            < Priority::Low.rank(),
        p.rank() == q.rank() ==> p == q,
{
}

/// What is taken to be done is what comes first in order, and the rest stays in order; from
/// empty queues nothing is taken.
pub proof fn law_next_is_taken<S, W>(q: &mut OperationQueues<S, W>, r: Option<Operation<S, W>>)
    requires
        call_ensures(OperationQueues::<S, W>::pop_next, (q,), r),
    ensures
        match r {
            Some(op) => old(q)@.order().len() > 0 && op == old(q)@.order()[0] && final(q)@.order()
                == old(q)@.order().skip(1),
            None => old(q)@.order().len() == 0 && final(q)@.order().len() == 0,
        },
{
    bg::law_pop_order(old(q)@);
}

/// An operation has waited for too long after 30 seconds where it is critical, and after 60,
/// 120 and 300 where it is less urgent, and not a moment before. The cache of a device is
/// filled by reading ahead on that device only.
pub proof fn law_what_is_purged<S, W>(op: Operation<S, W>, now: Instant, device: u8)
    ensures
        (Purge::Aged { now }).takes(op) <==> now.nanos - op.created_at.nanos >= 1_000_000_000 * (
        match op.priority {
            Priority::Critical => 30int,
            Priority::High => 60int,
            Priority::Normal => 120int,
            Priority::Low => 300int,
        }),
        (Purge::DeviceCache { device }).takes(op) <==> (op.op_type matches OpType::ReadFileCache {
            device: d,
            ..
        } && d == device),
{
}

/// Who waits for an operation that is taken out is told why: that it has waited for too long,
/// and for how long, or that the cache of the device was cleared.
pub proof fn law_reasons_of_a_purge<S, W>(
    notice: Notice<S, W>,
    op: Operation<S, W>,
    now: Instant,
    device: u8,
)
    ensures
        bg::tells(notice, op, Purge::Aged { now }) ==> {
            &&& notice.sender == op.sender
            &&& notice.response.stream == op.stream
            &&& notice.response.rsp matches Err(e) && (e@ matches ErrorView::Fs1541 {
                error: Fs1541ErrorView::Timeout(words, span),
                ..
            } && words == "Priority "@ + op.priority.name() && span.nanos == 0 && span.secs == (
            match op.priority {
                Priority::Critical => 30u64,
                Priority::High => 60u64,
                Priority::Normal => 120u64,
                Priority::Low => 300u64,
            }))
        },
        bg::tells(notice, op, Purge::DeviceCache { device }) ==> {
            &&& notice.sender == op.sender
            &&& notice.response.stream == op.stream
            &&& notice.response.rsp matches Err(e) && (e@ matches ErrorView::Fs1541 {
                error: Fs1541ErrorView::Cancelled(words),
                ..
            } && words == "Device "@ + number::decimal(device as nat) + " cache cleared"@)
        },
{
}

/// Taking out what has waited for too long leaves what has not, and tells of each that is
/// taken out, and of no other.
pub proof fn law_age_check<S, W>(p: &mut Proc<S, W>, now: Instant, notices: Vec<Notice<S, W>>, i: int)
    requires
        call_ensures(Proc::<S, W>::age_check, (p, now), notices),
    ensures
        final(p).last_cleanup == now,
        final(p).shutdown == old(p).shutdown,
        notices@.len() + final(p).queues@.order().len() == old(p).queues@.order().len(),
        0 <= i < final(p).queues@.critical.len() ==> !(Purge::Aged { now }).takes(
            final(p).queues@.critical[i],
        ),
        0 <= i < final(p).queues@.high.len() ==> !(Purge::Aged { now }).takes(
            final(p).queues@.high[i],
        ),
        0 <= i < final(p).queues@.normal.len() ==> !(Purge::Aged { now }).takes(
            final(p).queues@.normal[i],
        ),
        0 <= i < final(p).queues@.low.len() ==> !(Purge::Aged { now }).takes(
            final(p).queues@.low[i],
        ),
{
    let q = old(p).queues@;
    let purge = Purge::Aged { now };
    bg::law_purge(q.critical, purge);
    bg::law_purge(q.high, purge);
    bg::law_purge(q.normal, purge);
    bg::law_purge(q.low, purge);
}

/// To cancel the cache of a device is done at once, and answered; any other operation is to be
/// carried out, its sender is told of what comes of it, and it may take the time of its
/// priority.
pub proof fn law_operation_is_started<S, W>(
    p: &mut Proc<S, W>,
    op: Operation<S, W>,
    r: ProcStep<S, W>,
)
    requires
        call_ensures(Proc::<S, W>::process_operation, (p, op), r),
    ensures
        match op.op_type {
            OpType::CancelDeviceCache { device } => r matches ProcStep::Finished { notices, reply }
                && reply.sender == op.sender && reply.response.stream == op.stream && (
            reply.response.rsp matches Ok(OpResponseType::CancelDeviceCache { device: d }) && d
                == device) && notices@.len() + final(p).queues@.order().len()
                == old(p).queues@.order().len(),
            _ => final(p).queues@ == old(p).queues@ && (r matches ProcStep::Execute {
                action,
                pending,
            } && pending.sender == op.sender && pending.stream == op.stream && pending.timeout.nanos
                == 0 && pending.timeout.secs == (match op.priority {
                Priority::Critical => 30u64,
                Priority::High => 60u64,
                Priority::Normal => 120u64,
                Priority::Low => 300u64,
            }) && (old(p).shutdown ==> action is Reject)),
        },
{
    if let OpType::CancelDeviceCache { device } = op.op_type {
        let q = old(p).queues@;
        let purge = Purge::DeviceCache { device };
        bg::law_purge(q.critical, purge);
        bg::law_purge(q.high, purge);
        bg::law_purge(q.normal, purge);
        bg::law_purge(q.low, purge);
    }
}

/// What comes of an operation goes to who asked for it, as it is; an operation that has taken
/// too long is answered by an error that says so, with the time that it had.
pub proof fn law_operation_is_ended<S, W>(
    pending: Pending<S, W>,
    outcome: Option<Result<OpResponseType, Error>>,
    reply: Notice<S, W>,
)
    requires
        call_ensures(Proc::<S, W>::finish_operation, (pending, outcome), reply),
    ensures
        reply.sender == pending.sender,
        reply.response.stream == pending.stream,
        match outcome {
            Some(Ok(t)) => reply.response.rsp matches Ok(x) && x@ == t@,
            Some(Err(e)) => reply.response.rsp matches Err(x) && x@ == e@,
            None => reply.response.rsp matches Err(x) && (x@ matches ErrorView::Fs1541 {
                error: Fs1541ErrorView::Timeout(_, span),
                ..
            } && span == pending.timeout),
        },
{
}

/// Nothing waits at first, and the daemon does not shut down then.
pub proof fn law_nothing_waits_at_first<S, W>(secs: u64, now: Instant, p: Proc<S, W>)
    requires
        call_ensures(Proc::<S, W>::new, (secs, now), p),
    ensures
        p.queues@.order().len() == 0,
        p.queues@.wf(),
        !p.shutdown,
        p.last_cleanup == now,
        p.age_check_period.secs == secs && p.age_check_period.nanos == 0,
{
}

/// The empty answer to an operation is of its kind, for the same device, path and inode, and
/// holds nothing yet. A stream is handed on, and taken once.
pub proof fn law_empty_answers<W>(
    op: OpType,
    r: OpResponseType,
    rsp: &mut OpResponse<W>,
    stream: Result<W, Error>,
)
    requires
        call_ensures(OpResponseType::from_operation, (op,), r),
        call_ensures(OpResponse::<W>::take_stream, (rsp,), stream),
    ensures
        match op {
            OpType::BusReset => r is BusReset,
            OpType::Mount { .. } => r is Mount,
            OpType::Unmount { .. } => r is Unmount,
            OpType::ReadDirectory { .. } => r matches OpResponseType::ReadDirectory {
                status,
                listings,
            } && status.number == 255 && listings@.len() == 0,
            OpType::ReadFile { device, path, inode } => r matches OpResponseType::ReadFile {
                device: d,
                path: p,
                inode: i,
                status,
                contents,
            } && d == device && p@ == path@ && i == inode && status.number == 255 && contents@.len()
                == 0,
            OpType::WriteFile { device, path, .. } => r matches OpResponseType::WriteFile {
                device: d,
                path: p,
                status,
                bytes_written,
            } && d == device && p@ == path@ && status.number == 255 && bytes_written == 0,
            OpType::InitDrive { .. } => r matches OpResponseType::InitDrive { status }
                && status.number == 255,
            OpType::Identify { .. } => r matches OpResponseType::Identify { info }
                && info.device_type is Unknown,
            OpType::GetStatus { .. } => r matches OpResponseType::GetStatus { status }
                && status.number == 255,
            OpType::ReadFileCache { device, path, inode } => r matches
                OpResponseType::ReadFileCache { device: d, path: p, inode: i, status, contents }
                && d == device && p@ == path@ && i == inode && status.number == 255
                && contents@.len() == 0,
            OpType::CancelDeviceCache { device } => r matches OpResponseType::CancelDeviceCache {
                device: d,
            } && d == device,
        },
        final(rsp).stream is None,
        final(rsp).rsp == old(rsp).rsp,
        old(rsp).stream matches Some(w) ==> stream == Ok::<W, Error>(w),
        old(rsp).stream is None ==> stream is Err,
{
}

} // verus!

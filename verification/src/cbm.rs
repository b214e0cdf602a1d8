//! Drive units and the channels to them.
use vstd::prelude::*;

use crate::cbmtype::{
    CbmDeviceType, CbmError, CbmErrorNumber, CbmErrorView, CbmStatus,
};
use crate::fuse;
use crate::fuse::FileHandle;
use crate::number;
use crate::number::push_decimal;
use crate::opencbm::{BusReply, BusRequest, BusRequestView};
use crate::session;
use crate::session::{Cbm, InitSession, Next, StatusList};

verus! {

/// A handle for a channel.
pub type CbmFileHandle = FileHandle;

/// Purpose for which a channel is being used
#[derive(Debug, Clone, Copy, PartialEq, Eq, Structural)]
pub enum CbmChannelPurpose {
    /// Channel 15, kept for reset commands
    Reset,
    /// Reading directory
    Directory,
    /// Reading a file
    FileRead,
    /// Writing a file
    FileWrite,
    /// Other command channel operations
    Command,
}

/// A channel to a drive, of which each drive has sixteen.
#[derive(Debug, Clone, Copy, PartialEq, Eq, Structural)]
pub struct CbmChannel {
    pub number: u8,
    pub purpose: CbmChannelPurpose,
    /// Present when allocated for file operations
    pub handle: Option<CbmFileHandle>,
}

/// The channel that is kept for reset commands.
pub const RESET_CHANNEL: u8 = 15;

/// How many channels a drive has.
pub const NUM_CHANNELS: usize = 16;

/// Hands out the channels of a drive unit. Channel 15 is only used for resets.
#[derive(Debug)]
pub struct CbmChannelManager {
    channels: Vec<Option<CbmChannel>>,
    next_sequence: u64,
}

/// The first free channel at or after `from`, other than the last one.
pub open spec fn first_free(channels: Seq<Option<CbmChannel>>, from: int) -> Option<int>
    decreases RESET_CHANNEL - from,
{
    if from < 0 || from >= RESET_CHANNEL {
        None
    } else if channels[from] is None {
        Some(from)
    } else {
        first_free(channels, from + 1)
    }
}

/// The channel that is given out next for a purpose.
pub open spec fn channel_for(
    channels: Seq<Option<CbmChannel>>,
    purpose: CbmChannelPurpose,
) -> Option<int> {
    if purpose == CbmChannelPurpose::Reset {
        if channels[RESET_CHANNEL as int] is None {
            Some(RESET_CHANNEL as int)
        } else {
            None
        }
    } else {
        first_free(channels, 0)
    }
}

/// A channel that is in use knows its number, and has a handle that does too; and the
/// last channel is in use for resets only, which use no other.
pub open spec fn channel_ok(channels: Seq<Option<CbmChannel>>, i: int) -> bool {
    channels[i] matches Some(c) ==> {
        &&& c.number == i
        &&& c.handle matches Some(h) && h.channel_number == i
        &&& (c.purpose == CbmChannelPurpose::Reset <==> i == RESET_CHANNEL)
    }
}

impl CbmChannelManager {
    /// The channels, each with what it is used for.
    pub closed spec fn slots(&self) -> Seq<Option<CbmChannel>> {
        self.channels@
    }

    /// The sequence number of the next handle.
    pub closed spec fn next(&self) -> u64 {
        self.next_sequence
    }

    /// There are sixteen channels, each in order.
    pub open spec fn wf(&self) -> bool {
        &&& self.slots().len() == NUM_CHANNELS
        &&& forall|i: int| 0 <= i < NUM_CHANNELS ==> #[trigger] channel_ok(self.slots(), i)
    }

    /// No channel is in use. Sequence numbers start at 1, so that no handle is 0.
    pub fn new() -> (m: Self)
        ensures
            m.wf(),
            m.slots() == Seq::new(16, |i: int| None::<CbmChannel>),
            m.next() == 1,
    {
        let mut channels: Vec<Option<CbmChannel>> = Vec::new();
        let mut i: usize = 0;
        while i < NUM_CHANNELS
            invariant
                i <= NUM_CHANNELS,
                channels@ == Seq::new(i as nat, |j: int| None::<CbmChannel>),
            decreases NUM_CHANNELS - i,
        {
            channels.push(None);
            i = i + 1;
            assert(channels@ =~= Seq::new(i as nat, |j: int| None::<CbmChannel>));
        }
        CbmChannelManager { channels, next_sequence: 1 }
    }

    fn take(&mut self, i: usize, device_number: u8, drive_id: u8, purpose: CbmChannelPurpose) -> (r: (
        u8,
        u64,
    ))
        requires
            old(self).wf(),
            i < NUM_CHANNELS,
            purpose == CbmChannelPurpose::Reset <==> i == RESET_CHANNEL,
        ensures
            final(self).wf(),
            r.0 == i,
            r.1 == fuse::packed(
                FileHandle {
                    device_number,
                    drive_id,
                    channel_number: i as u8,
                    sequence: old(self).next(),
                },
            ),
            final(self).slots() == old(self).slots().update(
                i as int,
                Some(
                    CbmChannel {
                        number: i as u8,
                        purpose,
                        handle: Some(
                            FileHandle {
                                device_number,
                                drive_id,
                                channel_number: i as u8,
                                sequence: old(self).next(),
                            },
                        ),
                    },
                ),
            ),
            final(self).next() == old(self).next().wrapping_add(1),
    {
        let handle = FileHandle::new(device_number, drive_id, i as u8, self.next_sequence);
        self.next_sequence = self.next_sequence.wrapping_add(1);
        self.channels.set(i, Some(CbmChannel { number: i as u8, purpose, handle: Some(handle) }));
        assert forall|j: int| 0 <= j < NUM_CHANNELS implies #[trigger] channel_ok(
            self.slots(),
            j,
        ) by {
            assert(channel_ok(old(self).slots(), j));
        }
        (i as u8, handle.to_u64())
    }

    /// Hands out a channel for a purpose, with a handle for it, or nothing where none
    /// is free. Resets get channel 15, and everything else the first free of the others.
    pub fn allocate(&mut self, device_number: u8, drive_id: u8, purpose: CbmChannelPurpose) -> (r:
        Option<(u8, u64)>)
        requires
            old(self).wf(),
        ensures
            final(self).wf(),
            match channel_for(old(self).slots(), purpose) {
                None => r is None && *final(self) == *old(self),
                Some(k) => {
                    let handle = FileHandle {
                        device_number,
                        drive_id,
                        channel_number: k as u8,
                        sequence: old(self).next(),
                    };
                    &&& r == Some((k as u8, fuse::packed(handle)))
                    &&& final(self).slots() == old(self).slots().update(
                        k,
                        Some(CbmChannel { number: k as u8, purpose, handle: Some(handle) }),
                    )
                    &&& final(self).next() == old(self).next().wrapping_add(1)
                },
            },
    {
        if purpose == CbmChannelPurpose::Reset {
            if self.channels[15].is_none() {
                return Some(self.take(15, device_number, drive_id, purpose));
            }
            return None;
        }
        let mut i: usize = 0;
        while i < 15
            invariant
                i <= 15,
                self.wf(),
                *self == *old(self),
                purpose != CbmChannelPurpose::Reset,
                first_free(self.slots(), 0) == first_free(self.slots(), i as int),
            decreases 15 - i,
        {
            if self.channels[i].is_none() {
                return Some(self.take(i, device_number, drive_id, purpose));
            }
            i = i + 1;
        }
        None
    }

    /// The channel that a handle is for, if it is in use.
    pub fn get_channel(&self, handle: u64) -> (r: Option<&CbmChannel>)
        requires
            self.wf(),
        ensures
            ({
                let k = fuse::unpacked(handle).channel_number as int;
                match r {
                    Some(c) => k < NUM_CHANNELS && self.slots()[k] == Some(*c),
                    None => k >= NUM_CHANNELS || self.slots()[k] is None,
                }
            }),
    {
        let k: usize = FileHandle::from_u64(handle).channel_number as usize;
        if k < NUM_CHANNELS {
            self.channels[k].as_ref()
        } else {
            None
        }
    }

    /// Frees the channel that a handle is for, where it is still the handle's.
    pub fn deallocate(&mut self, handle: u64)
        requires
            old(self).wf(),
        ensures
            final(self).wf(),
            final(self).next() == old(self).next(),
            final(self).slots() == ({
                let h = fuse::unpacked(handle);
                let k = h.channel_number as int;
                if k < NUM_CHANNELS && old(self).slots()[k] is Some && (
                old(self).slots()[k]->0.handle matches Some(g) && g.sequence == h.sequence) {
                    old(self).slots().update(k, None)
                } else {
                    old(self).slots()
                }
            }),
    {
        let decoded = FileHandle::from_u64(handle);
        let k: usize = decoded.channel_number as usize;
        if k < NUM_CHANNELS {
            let free: bool = match &self.channels[k] {
                Some(channel) => match &channel.handle {
                    Some(h) => h.sequence == decoded.sequence,
                    None => false,
                },
                None => false,
            };
            if free {
                self.channels.set(k, None);
                assert forall|j: int| 0 <= j < NUM_CHANNELS implies #[trigger] channel_ok(
                    self.slots(),
                    j,
                ) by {
                    assert(channel_ok(old(self).slots(), j));
                }
            }
        }
    }

    /// Frees every channel.
    pub fn reset(&mut self)
        requires
            old(self).wf(),
        ensures
            final(self).wf(),
            final(self).slots() == Seq::new(16, |i: int| None::<CbmChannel>),
            final(self).next() == old(self).next(),
    {
        let mut i: usize = 0;
        while i < NUM_CHANNELS
            invariant
                i <= NUM_CHANNELS,
                self.channels@.len() == NUM_CHANNELS,
                forall|j: int| 0 <= j < i ==> self.channels@[j] is None,
                self.next() == old(self).next(),
            decreases NUM_CHANNELS - i,
        {
            self.channels.set(i, None);
            i = i + 1;
        }
        assert(self.slots() =~= Seq::new(16, |i: int| None::<CbmChannel>));
    }
}

/// What is free is found: the channel handed out for anything but a reset is free, is
/// none but the first free one, and is not the channel kept for resets.
pub proof fn lemma_first_free(channels: Seq<Option<CbmChannel>>, from: int)
    requires
        0 <= from,
    ensures
        match first_free(channels, from) {
            Some(k) => from <= k < RESET_CHANNEL && channels[k] is None && forall|j: int|
                from <= j < k ==> channels[j] is Some,
            None => forall|j: int| from <= j < RESET_CHANNEL ==> channels[j] is Some,
        },
    decreases RESET_CHANNEL - from,
{
    if from < RESET_CHANNEL && channels[from] is Some {
        lemma_first_free(channels, from + 1);
    }
}

/// A channel is handed out exactly while one is free for the purpose, and the channel
/// handed out was free. Channel 15 is handed out for resets and for nothing else.
pub proof fn law_allocation(channels: Seq<Option<CbmChannel>>, purpose: CbmChannelPurpose)
    requires
        channels.len() == NUM_CHANNELS,
    ensures
        match channel_for(channels, purpose) {
            Some(k) => 0 <= k < NUM_CHANNELS && channels[k] is None && (k == RESET_CHANNEL <==> purpose
                == CbmChannelPurpose::Reset),
            None => forall|j: int|
                0 <= j < NUM_CHANNELS && (j == RESET_CHANNEL <==> purpose
                    == CbmChannelPurpose::Reset) ==> #[trigger] channels[j] is Some,
        },
{
    lemma_first_free(channels, 0);
}

/// Freeing the handle that was handed out leaves the channels as they were before,
/// for the first 2^40 - 1 handles. A later handle has lost the top of its sequence
/// number and frees nothing.
pub proof fn law_deallocation_undoes_allocation(
    channels: Seq<Option<CbmChannel>>,
    purpose: CbmChannelPurpose,
    handle: FileHandle,
)
    requires
        channels.len() == NUM_CHANNELS,
        channel_for(channels, purpose) == Some(handle.channel_number as int),
        handle.sequence < fuse::SEQUENCE_LIMIT,
    ensures
        ({
            let k = handle.channel_number as int;
            let used = channels.update(
                k,
                Some(CbmChannel { number: k as u8, purpose, handle: Some(handle) }),
            );
            let h = fuse::unpacked(fuse::packed(handle));
            &&& h.channel_number == k
            &&& used[k]->0.handle == Some(h)
            &&& used.update(k, None) == channels
        }),
{
    law_allocation(channels, purpose);
    fuse::law_handle_round_trip(handle);
    let k = handle.channel_number as int;
    let used = channels.update(
        k,
        Some(CbmChannel { number: k as u8, purpose, handle: Some(handle) }),
    );
    assert(used.update(k, None) =~= channels);
}

/// No handle of the first 2^40 - 1 is 0.
pub proof fn law_handle_is_not_zero(handle: FileHandle)
    requires
        1 <= handle.sequence < fuse::SEQUENCE_LIMIT,
    ensures
        fuse::packed(handle) != 0,
{
}

/// A physical drive unit, which may hold one or two drives.
#[derive(Debug)]
pub struct CbmDriveUnit {
    pub device_number: u8,
    pub device_type: CbmDeviceType,
    pub channel_manager: CbmChannelManager,
    pub busy: bool,
}

impl CbmDriveUnit {
    /// The channels are in order.
    pub open spec fn wf(&self) -> bool {
        self.channel_manager.wf()
    }

    /// A unit that is not at work, with no channel in use.
    pub fn new(device_number: u8, device_type: CbmDeviceType) -> (u: Self)
        ensures
            u.wf(),
            u.device_number == device_number,
            u.device_type == device_type,
            !u.busy,
            u.channel_manager.slots() == Seq::new(16, |i: int| None::<CbmChannel>),
            u.channel_manager.next() == 1,
    {
        CbmDriveUnit {
            device_number,
            device_type,
            channel_manager: CbmChannelManager::new(),
            busy: false,
        }
    }

    /// Number and model.
    pub fn to_string(&self) -> (s: String)
        ensures
            s@ == "Drive "@ + number::decimal(self.device_number as nat) + " ("@
                + self.device_type.name() + ")"@,
    {
        let mut s = "Drive ".to_owned();
        push_decimal(&mut s, self.device_number as u64);
        s.append(" (");
        s.append(self.device_type.as_str());
        s.append(")");
        s
    }

    /// The unit is the same but for whether it is at work.
    pub open spec fn same_but_busy(&self, other: &CbmDriveUnit) -> bool {
        &&& self.device_number == other.device_number
        &&& self.device_type == other.device_type
        &&& self.channel_manager == other.channel_manager
    }

    /// Asks for the status of the unit, which is at work until the reply has come.
    pub fn ask_status(&mut self) -> (r: BusRequest)
        ensures
            r@ == (BusRequestView::Status { device: old(self).device_number }),
            final(self).busy,
            final(self).same_but_busy(old(self)),
    {
        self.busy = true;
        BusRequest::Status { device: self.device_number }
    }

    /// Takes the status of the unit from the reply, after which it is no longer at work,
    /// whatever the reply is.
    pub fn get_status(&mut self, reply: BusReply) -> (r: Result<CbmStatus, CbmError>)
        requires
            (BusRequestView::Status { device: old(self).device_number }).answered_by(reply@),
        ensures
            session::status_view(r) == session::status_result(old(self).device_number, reply@),
            !final(self).busy,
            final(self).same_but_busy(old(self)),
    {
        let r = Cbm::get_status(self.device_number, reply);
        self.busy = false;
        r
    }

    /// Starts to initialise the drives of the unit, which is at work until that has ended.
    pub fn send_init(&mut self, ignore_errors: Vec<CbmErrorNumber>) -> (r: Next<
        InitSession,
        StatusList,
    >)
        ensures
            r@ == session::init_from(
                old(self).device_number,
                old(self).device_type.drives(),
                0,
                ignore_errors@,
                Seq::empty(),
            ),
            r matches Next::Ask(s) ==> s@.wf(),
            final(self).busy == (r is Ask),
            final(self).same_but_busy(old(self)),
    {
        let drives: u8 = self.num_disk_drives();
        let r = InitSession::send_init(self.device_number, drives, ignore_errors);
        self.busy = match &r {
            Next::Ask(_) => true,
            Next::Done(_) => false,
        };
        r
    }

    /// Goes on with initialising the drives of the unit. Once that has ended, well or not, the
    /// unit is no longer at work.
    pub fn init_next(&mut self, init: InitSession, reply: BusReply) -> (r: Next<
        InitSession,
        StatusList,
    >)
        requires
            init@.wf(),
            init@.request().answered_by(reply@),
        ensures
            r@ == init@.next(reply@),
            r matches Next::Ask(s) ==> s@.wf(),
            final(self).busy == (r is Ask),
            final(self).same_but_busy(old(self)),
    {
        let r = init.next(reply);
        self.busy = match &r {
            Next::Ask(_) => true,
            Next::Done(_) => false,
        };
        r
    }

    /// The error where initialising the drives has ended in a panic, after which the unit is no
    /// longer at work either.
    pub fn init_panicked(&mut self, payload: Option<&str>) -> (e: CbmError)
        ensures
            e@ == (CbmErrorView::DeviceError {
                device: 0,
                message: "Panic in opencbm: "@ + match payload {
                    Some(s) => s@,
                    None => "Unknown panic"@,
                },
            }),
            !final(self).busy,
            final(self).same_but_busy(old(self)),
    {
        self.busy = false;
        CbmError::from_panic(payload)
    }

    /// Frees every channel. The unit is at work until it has answered.
    pub fn reset(&mut self) -> (r: Result<(), CbmError>)
        requires
            old(self).wf(),
        ensures
            r is Ok,
            final(self).wf(),
            final(self).busy,
            final(self).device_number == old(self).device_number,
            final(self).device_type == old(self).device_type,
            final(self).channel_manager.slots() == Seq::new(16, |i: int| None::<CbmChannel>),
            final(self).channel_manager.next() == old(self).channel_manager.next(),
    {
        self.busy = true;
        self.channel_manager.reset();
        Ok(())
    }

    /// How many drives the unit has.
    pub fn num_disk_drives(&self) -> (n: u8)
        ensures
            n == self.device_type.drives(),
    {
        self.device_type.num_disk_drives()
    }

    /// The numbers of the drives of the unit.
    pub fn num_disk_drives_iter(&self) -> (r: Vec<u8>)
        ensures
            r@ == Seq::new(self.device_type.drives() as nat, |i: int| i as u8),
    {
        let n: u8 = self.num_disk_drives();
        let mut r: Vec<u8> = Vec::new();
        let mut i: u8 = 0;
        while i < n
            invariant
                i <= n,
                r@ == Seq::new(i as nat, |j: int| j as u8),
            decreases n - i,
        {
            r.push(i);
            i = i + 1;
            assert(r@ =~= Seq::new(i as nat, |j: int| j as u8));
        }
        r
    }

    /// A unit is taken to be responding.
    pub open spec fn responds(&self) -> bool {
        true
    }

    /// A unit is taken to be responding.
    pub fn is_responding(&self) -> (r: bool)
        ensures
            r == self.responds(),
    {
        true
    }

    /// Whether the unit is at work.
    pub fn is_busy(&self) -> (r: bool)
        ensures
            r == self.busy,
    {
        self.busy
    }
}

} // verus!

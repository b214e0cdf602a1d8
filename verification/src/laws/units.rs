//! What can be relied on of handles, channels, drive units and those that are in use.
use vstd::prelude::*;

use crate::cbm::{CbmChannel, CbmChannelManager, CbmChannelPurpose, CbmDriveUnit};
use crate::cbmtype::{CbmDeviceInfo, CbmDeviceType, CbmError, CbmErrorNumber, CbmStatus};
use crate::error::{Error, ErrorView, Fs1541ErrorView};
use crate::number;
use crate::fuse;
use crate::fuse::FileHandle;
use crate::laws::drives::is_dual;
use crate::opencbm::{BusReply, BusRequest};
use crate::server::drivemgr::DriveManager;
use crate::session::{InitSession, Next, StatusList};

verus! {

/// The device is in the highest byte of a packed handle, and then come the drive, the channel,
/// and the sequence number in the lower five bytes; and each is found there again.
pub proof fn law_places_in_a_handle(h: FileHandle, n: u64, back: FileHandle)
    requires
        h.sequence < 0x100_0000_0000,
        call_ensures(FileHandle::to_u64, (&h,), n),
        call_ensures(FileHandle::from_u64, (n,), back),
    ensures
        n == h.device_number * 0x100_0000_0000_0000 + h.drive_id * 0x1_0000_0000_0000
            + h.channel_number * 0x100_0000_0000 + h.sequence,
        back == h,
{
    fuse::law_handle_round_trip(h);
}

/// A channel that is handed out was free, is the lowest that was, and is for the purpose and
/// the drive that were asked for; channel 15 is for resets alone. No other channel changes,
/// and none is handed out where none is free.
pub proof fn law_channel_is_handed_out(
    m: &mut CbmChannelManager,
    device: u8,
    drive: u8,
    purpose: CbmChannelPurpose,
    r: Option<(u8, u64)>,
    j: int,
)
    requires
        old(m).wf(),
        call_ensures(CbmChannelManager::allocate, (m, device, drive, purpose), r),
        0 <= j < 16,
    ensures
        match r {
            Some((k, handle)) => {
                &&& k < 16
                &&& purpose is Reset <==> k == 15
                &&& old(m).slots()[k as int] is None
                &&& !(purpose is Reset) && j < k ==> old(m).slots()[j] is Some
                &&& final(m).slots()[k as int] matches Some(c) && c.number == k && c.purpose
                    == purpose && (c.handle matches Some(h) && h.device_number == device
                    && h.drive_id == drive && h.channel_number == k && handle == fuse::packed(h))
                &&& j != k ==> final(m).slots()[j] == old(m).slots()[j]
            },
            None => {
                &&& purpose is Reset ==> old(m).slots()[15] is Some
                &&& !(purpose is Reset) && j < 15 ==> old(m).slots()[j] is Some
                &&& final(m).slots()[j] == old(m).slots()[j]
            },
        },
{
    crate::cbm::law_allocation(old(m).slots(), purpose);
    crate::cbm::lemma_first_free(old(m).slots(), 0);
}

/// A handle finds the channel that it was handed out for, and frees that channel and no other.
pub proof fn law_channel_is_found_and_freed(
    m: &mut CbmChannelManager,
    h: FileHandle,
    handle: u64,
    found: Option<&CbmChannel>,
    done: (),
    j: int,
)
    requires
        old(m).wf(),
        h.channel_number < 16,
        h.sequence < 0x100_0000_0000,
        old(m).slots()[h.channel_number as int] matches Some(c) && c.handle == Some(h),
        call_ensures(FileHandle::to_u64, (&h,), handle),
        call_ensures(CbmChannelManager::get_channel, (old(m), handle), found),
        call_ensures(CbmChannelManager::deallocate, (m, handle), done),
        0 <= j < 16,
    ensures
        found matches Some(c) && c.number == h.channel_number && c.handle == Some(h),
        final(m).slots()[h.channel_number as int] is None,
        j != h.channel_number ==> final(m).slots()[j] == old(m).slots()[j],
{
    fuse::law_handle_round_trip(h);
    assert(crate::cbm::channel_ok(old(m).slots(), h.channel_number as int));
}

/// A new unit is the one that was asked for, is not at work, and has all of its channels free;
/// and a unit that was reset has all of them free again.
pub proof fn law_unit_is_free_at_first(
    device: u8,
    model: CbmDeviceType,
    u: CbmDriveUnit,
    v: &mut CbmDriveUnit,
    r: Result<(), CbmError>,
    j: int,
)
    requires
        call_ensures(CbmDriveUnit::new, (device, model), u),
        call_ensures(CbmDriveUnit::reset, (v,), r),
        0 <= j < 16,
    ensures
        u.device_number == device && u.device_type == model && !u.busy,
        u.channel_manager.slots().len() == 16 && u.channel_manager.slots()[j] is None,
        u.channel_manager.next() == 1,
        r is Ok,
        final(v).channel_manager.slots().len() == 16,
        final(v).channel_manager.slots()[j] is None,
        final(v).device_number == old(v).device_number,
        final(v).device_type == old(v).device_type,
{
}

/// The drives of a unit are numbered from 0 on, as many as its model has.
pub proof fn law_drives_of_a_unit(u: CbmDriveUnit, n: u8, all: Vec<u8>, i: int)
    requires
        call_ensures(CbmDriveUnit::num_disk_drives, (&u,), n),
        call_ensures(CbmDriveUnit::num_disk_drives_iter, (&u,), all),
    ensures
        n == (if is_dual(u.device_type) {
            2
        } else if u.device_type is Unknown {
            0int
        } else {
            1
        }),
        all@.len() == n,
        0 <= i < n ==> all@[i] == i,
{
}

/// A unit is asked for its own status, and is at work from the question to the answer. To
/// initialise it, every drive of its model is.
pub proof fn law_unit_is_at_work(
    u: &mut CbmDriveUnit,
    q: BusRequest,
    v: &mut CbmDriveUnit,
    reply: BusReply,
    status: Result<CbmStatus, CbmError>,
    w: &mut CbmDriveUnit,
    ignore: Vec<CbmErrorNumber>,
    init: Next<InitSession, StatusList>,
)
    requires
        call_ensures(CbmDriveUnit::ask_status, (u,), q),
        call_ensures(CbmDriveUnit::get_status, (v, reply), status),
        call_ensures(CbmDriveUnit::send_init, (w, ignore), init),
    ensures
        q matches BusRequest::Status { device } && device == old(u).device_number,
        final(u).busy,
        !final(v).busy,
        final(v).device_number == old(v).device_number,
        status matches Ok(s) ==> crate::session::status_result(
            old(v).device_number,
            reply@,
        ) matches Ok(t) && t == s@,
        status matches Err(e) ==> crate::session::status_result(
            old(v).device_number,
            reply@,
        ) matches Err(x) && x == e@,
        init is Ask <==> !(old(w).device_type is Unknown),
        final(w).busy <==> init is Ask,
        init matches Next::Ask(s) ==> s.device == old(w).device_number && s.drive == 0 && s.drives
            == (if is_dual(old(w).device_type) {
            2
        } else {
            1int
        }) && s.ignore@ == ignore@,
{
}

/// Devices 8 to 15 can be put to use, and no others, each once: what is in use already stays,
/// and so does all else. Nothing is in use at first.
pub proof fn law_drive_is_put_to_use(
    none: DriveManager,
    m: &mut DriveManager,
    device: u8,
    found: Result<CbmDriveUnit, CbmError>,
    r: Result<(), Error>,
    other: u8,
)
    requires
        call_ensures(DriveManager::new, (), none),
        call_ensures(DriveManager::add_drive, (m, device, found), r),
    ensures
        !none@.contains_key(device),
        r is Ok <==> 8 <= device <= 15 && found is Ok && !old(m)@.contains_key(device),
        r is Ok ==> final(m)@.contains_key(device) && final(m)@[device] == found->Ok_0,
        r is Err ==> final(m)@ == old(m)@,
        other != device ==> (final(m)@.contains_key(other) <==> old(m)@.contains_key(other)) && (
        old(m)@.contains_key(other) ==> final(m)@[other] == old(m)@[other]),
{
}

/// A drive is taken out of use unless it is at work, and with it no other; a drive that is not
/// in use is an error.
pub proof fn law_drive_is_taken_out_of_use(
    m: &mut DriveManager,
    device: u8,
    r: Result<(), Error>,
    other: u8,
)
    requires
        call_ensures(DriveManager::remove_drive, (m, device), r),
    ensures
        r is Ok <==> old(m)@.contains_key(device) && !old(m)@[device].busy,
        r is Ok ==> !final(m)@.contains_key(device),
        r is Err ==> final(m)@ == old(m)@,
        other != device ==> (final(m)@.contains_key(other) <==> old(m)@.contains_key(other)) && (
        old(m)@.contains_key(other) ==> final(m)@[other] == old(m)@[other]),
{
}

/// What is in use is found, and nothing else; and all of it is out of use in the end.
pub proof fn law_drives_in_use(
    m: DriveManager,
    device: u8,
    drive: Result<&CbmDriveUnit, Error>,
    there: bool,
    fine: Result<(), Error>,
    all: Vec<u8>,
    n: &mut DriveManager,
    done: (),
)
    requires
        call_ensures(DriveManager::get_drive, (&m, device), drive),
        call_ensures(DriveManager::drive_exists, (&m, device), there),
        call_ensures(DriveManager::validate_drive, (&m, device), fine),
        call_ensures(DriveManager::connected_drives, (&m,), all),
        call_ensures(DriveManager::cleanup_drives, (n,), done),
    ensures
        there <==> m@.contains_key(device),
        drive is Ok <==> there,
        drive matches Ok(u) ==> *u == m@[device],
        fine is Ok <==> there,
        all@.contains(device) <==> there,
        all@.no_duplicates(),
        !final(n)@.contains_key(device),
{
}

/// What a drive answers is handed on, and what fails is told with the number of the drive.
pub proof fn law_answers_of_drives(
    m: DriveManager,
    device: u8,
    info: Result<CbmDeviceInfo, CbmError>,
    status: Result<CbmStatus, CbmError>,
    reset: Result<(), CbmError>,
    a: Result<CbmDeviceInfo, Error>,
    b: Result<CbmStatus, Error>,
    c: Result<(), Error>,
)
    requires
        call_ensures(DriveManager::identify_drive, (&m, device, info), a),
        call_ensures(DriveManager::get_drive_status, (&m, device, status), b),
        call_ensures(DriveManager::reset_bus, (&m, reset), c),
    ensures
        info matches Ok(i) ==> a == Ok::<CbmDeviceInfo, Error>(i),
        info matches Err(e) ==> (a matches Err(Error::Rs1541 { error, .. }) && error@ == e@),
        status matches Ok(s) ==> b == Ok::<CbmStatus, Error>(s),
        status matches Err(e) ==> (b matches Err(Error::Rs1541 { error, .. }) && error@ == e@),
        reset is Ok <==> c is Ok,
        reset matches Err(e) ==> (c matches Err(Error::Rs1541 { error, .. }) && error@ == e@),
{
}

/// Each answer to the initialisation of a unit is handed on in its place, and the unit is no
/// longer at work; a unit that is not in use has no answers.
pub proof fn law_unit_was_initialised(
    m: &mut DriveManager,
    device: u8,
    answers: Vec<Result<CbmStatus, CbmError>>,
    r: Result<Vec<Result<CbmStatus, Error>>, Error>,
    i: int,
)
    requires
        call_ensures(DriveManager::init_drive, (m, device, answers), r),
    ensures
        r is Ok <==> old(m)@.contains_key(device),
        r is Ok ==> final(m)@.contains_key(device) && !final(m)@[device].busy,
        r matches Ok(list) ==> list@.len() == answers@.len(),
        r matches Ok(list) ==> (0 <= i < list@.len() ==> match answers@[i] {
            Ok(s) => list@[i] == Ok::<CbmStatus, Error>(s),
            Err(e) => list@[i] matches Err(Error::Rs1541 { error, .. }) && error@ == e@,
        }),
{
}

/// A drive that cannot be put to use, or taken out of use, is told with its number and with why.
pub proof fn law_refusals_of_drives(
    m: &mut DriveManager,
    device: u8,
    found: Result<CbmDriveUnit, CbmError>,
    r: Result<(), Error>,
    d: &mut DriveManager,
    q: Result<(), Error>,
)
    requires
        call_ensures(DriveManager::add_drive, (m, device, found), r),
        call_ensures(DriveManager::remove_drive, (d, device), q),
    ensures
        8 <= device <= 15 && found is Ok && old(m)@.contains_key(device) ==> (r matches Err(e) && e@
            == (ErrorView::Fs1541 {
            message: "Failed to add drive unit "@ + number::decimal(device as nat) + ""@,
            error: Fs1541ErrorView::Operation(
                "Drive "@ + number::decimal(device as nat) + " already exists"@,
            ),
        })),
        !old(d)@.contains_key(device) ==> (q matches Err(e) && e@ == (ErrorView::Fs1541 {
            message: "Drive "@ + number::decimal(device as nat) + " not found"@,
            error: Fs1541ErrorView::Validation("Drive does not exist"@),
        })),
        old(d)@.contains_key(device) && old(d)@[device].busy ==> (q matches Err(e) && e@
            == (ErrorView::Fs1541 {
            message: "Drive "@ + number::decimal(device as nat) + " is busy"@,
            error: Fs1541ErrorView::Operation("Drive is busy"@),
        })),
{
}

} // verus!

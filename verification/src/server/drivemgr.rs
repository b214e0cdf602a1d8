//! The drives that are in use.
use std::collections::HashMap;
use vstd::prelude::*;

use crate::cbm::CbmDriveUnit;
use crate::cbmtype::{CbmDeviceInfo, CbmError, CbmStatus};
use crate::error::{Error, ErrorView, Fs1541Error, Fs1541ErrorView};
use crate::number;
use crate::number::push_decimal;
use crate::{MAX_DEVICE_NUM, MIN_DEVICE_NUM};

verus! {

broadcast use vstd::std_specs::hash::group_hash_axioms;

/// The drives that are in use, each under the number of its device.
#[derive(Debug)]
pub struct DriveManager {
    pub drives: HashMap<u8, CbmDriveUnit>,
}

impl View for DriveManager {
    type V = Map<u8, CbmDriveUnit>;

    open spec fn view(&self) -> Map<u8, CbmDriveUnit> {
        self.drives@
    }
}

/// A number with words round it.
pub open spec fn with_number(before: Seq<char>, n: u8, after: Seq<char>) -> Seq<char> {
    before + number::decimal(n as nat) + after
}

fn numbered_text(before: &str, n: u8, after: &str) -> (s: String)
    ensures
        s@ == with_number(before@, n, after@),
{
    let mut s = before.to_owned();
    push_decimal(&mut s, n as u64);
    s.append(after);
    s
}

/// The error for a number that no device has.
pub open spec fn bad_number(device: u8) -> ErrorView {
    ErrorView::Fs1541 {
        message: with_number("Invalid device number "@, device, ""@),
        error: Fs1541ErrorView::Validation(
            with_number("Device number must be "@, MIN_DEVICE_NUM, "-"@) + number::decimal(
                MAX_DEVICE_NUM as nat,
            ),
        ),
    }
}

/// The error for a drive that is in use already.
pub open spec fn already_there(device: u8) -> ErrorView {
    ErrorView::Fs1541 {
        message: with_number("Failed to add drive unit "@, device, ""@),
        error: Fs1541ErrorView::Operation(with_number("Drive "@, device, " already exists"@)),
    }
}

/// The error for a drive that is not in use.
pub open spec fn not_there(device: u8) -> ErrorView {
    ErrorView::Fs1541 {
        message: with_number("Drive "@, device, " not found"@),
        error: Fs1541ErrorView::Validation("Drive does not exist"@),
    }
}

/// The error for a drive that is at work.
pub open spec fn at_work(device: u8) -> ErrorView {
    ErrorView::Fs1541 {
        message: with_number("Drive "@, device, " is busy"@),
        error: Fs1541ErrorView::Operation("Drive is busy"@),
    }
}

/// The error for a drive that does not answer.
pub open spec fn silent(device: u8) -> ErrorView {
    ErrorView::Fs1541 {
        message: with_number("Drive "@, device, " is not responding"@),
        error: Fs1541ErrorView::Operation("Drive not responding"@),
    }
}

/// An error from the bus, with what failed.
pub open spec fn bus_error(message: Seq<char>, device: u8, error: CbmError) -> ErrorView {
    ErrorView::Rs1541 { message: with_number(message, device, ""@), error: error@ }
}

fn not_found(device: u8) -> (e: Error)
    ensures
        e@ == not_there(device),
{
    Error::Fs1541 {
        message: numbered_text("Drive ", device, " not found"),
        error: Fs1541Error::Validation("Drive does not exist".to_owned()),
    }
}

/// What is wrong with taking a drive out of use.
pub open spec fn remove_fault(drives: Map<u8, CbmDriveUnit>, device: u8) -> Option<ErrorView> {
    if !drives.contains_key(device) {
        Some(not_there(device))
    } else if drives[device].busy {
        Some(at_work(device))
    } else {
        None
    }
}

/// The drives after one was to be taken out of use.
pub open spec fn removed(drives: Map<u8, CbmDriveUnit>, device: u8) -> Map<u8, CbmDriveUnit> {
    if remove_fault(drives, device) is None {
        drives.remove(device)
    } else {
        drives
    }
}

/// The results of an initialization, with what failed.
pub open spec fn init_results(
    results: Seq<Result<CbmStatus, CbmError>>,
    wrapped: Seq<Result<CbmStatus, Error>>,
    device: u8,
) -> bool {
    &&& wrapped.len() == results.len()
    &&& forall|i: int|
        0 <= i < results.len() ==> match #[trigger] results[i] {
            Ok(status) => wrapped[i] == Ok::<CbmStatus, Error>(status),
            Err(e) => wrapped[i] matches Err(x) && x@ == bus_error(
                "Failed to initialize drive "@,
                device,
                e,
            ),
        }
}

impl DriveManager {
    /// No drive is in use.
    pub fn new() -> (m: Self)
        ensures
            m@ == Map::<u8, CbmDriveUnit>::empty(),
    {
        DriveManager { drives: HashMap::new() }
    }

    /// Checks the number of a drive that is to be put to use.
    pub fn check_device_number(device_number: u8) -> (r: Result<(), Error>)
        ensures
            if MIN_DEVICE_NUM <= device_number <= MAX_DEVICE_NUM {
                r is Ok
            } else {
                r matches Err(e) && e@ == bad_number(device_number)
            },
    {
        if device_number < MIN_DEVICE_NUM || device_number > MAX_DEVICE_NUM {
            let mut words = numbered_text("Device number must be ", MIN_DEVICE_NUM, "-");
            push_decimal(&mut words, MAX_DEVICE_NUM as u64);
            return Err(
                Error::Fs1541 {
                    message: numbered_text("Invalid device number ", device_number, ""),
                    error: Fs1541Error::Validation(words),
                },
            );
        }
        Ok(())
    }

    /// Puts a drive to use that was found on the bus, or was not. Where one is in use already
    /// under its number, that one stays, and the new one is dropped with an error.
    pub fn add_drive(
        &mut self,
        device_number: u8,
        found: Result<CbmDriveUnit, CbmError>,
    ) -> (r: Result<(), Error>)
        ensures
            if !(MIN_DEVICE_NUM <= device_number <= MAX_DEVICE_NUM) {
                final(self)@ == old(self)@ && (r matches Err(e) && e@ == bad_number(device_number))
            } else {
                match found {
                    Err(c) => final(self)@ == old(self)@ && (r matches Err(e) && e@ == bus_error(
                        "Failed to create drive "@,
                        device_number,
                        c,
                    )),
                    Ok(unit) => final(self)@ == added(old(self)@, device_number, unit) && (if old(
                        self,
                    )@.contains_key(device_number) {
                        r matches Err(e) && e@ == already_there(device_number)
                    } else {
                        r is Ok
                    }),
                }
            },
    {
        match DriveManager::check_device_number(device_number) {
            Ok(_) => {},
            Err(e) => return Err(e),
        }
        match found {
            Err(error) => Err(
                Error::Rs1541 {
                    message: numbered_text("Failed to create drive ", device_number, ""),
                    error,
                },
            ),
            Ok(unit) => {
                if self.drives.contains_key(&device_number) {
                    return Err(
                        Error::Fs1541 {
                            message: numbered_text("Failed to add drive unit ", device_number, ""),
                            error: Fs1541Error::Operation(
                                numbered_text("Drive ", device_number, " already exists"),
                            ),
                        },
                    );
                }
                let _ = self.drives.insert(device_number, unit);
                Ok(())
            },
        }
    }

    /// Takes a drive out of use, unless it is at work.
    pub fn remove_drive(&mut self, device_number: u8) -> (r: Result<(), Error>)
        ensures
            final(self)@ == removed(old(self)@, device_number),
            match remove_fault(old(self)@, device_number) {
                Some(f) => r matches Err(e) && e@ == f,
                None => r is Ok,
            },
    {
        match self.drives.get(&device_number) {
            Some(drive) => {
                if drive.is_busy() {
                    return Err(
                        Error::Fs1541 {
                            message: numbered_text("Drive ", device_number, " is busy"),
                            error: Fs1541Error::Operation("Drive is busy".to_owned()),
                        },
                    );
                }
            },
            None => return Err(not_found(device_number)),
        }
        let _ = self.drives.remove(&device_number);
        Ok(())
    }

    /// A drive that is in use.
    pub fn get_drive(&self, device_number: u8) -> (r: Result<&CbmDriveUnit, Error>)
        ensures
            if self@.contains_key(device_number) {
                r matches Ok(unit) && *unit == self@[device_number]
            } else {
                r matches Err(e) && e@ == not_there(device_number)
            },
    {
        match self.drives.get(&device_number) {
            Some(drive) => Ok(drive),
            None => Err(not_found(device_number)),
        }
    }

    /// What a drive has said of itself, or that it has not.
    pub fn identify_drive(
        &self,
        device_number: u8,
        answer: Result<CbmDeviceInfo, CbmError>,
    ) -> (r: Result<CbmDeviceInfo, Error>)
        ensures
            match answer {
                Ok(info) => r == Ok::<CbmDeviceInfo, Error>(info),
                Err(c) => r matches Err(e) && e@ == bus_error(
                    "Failed to identify drive "@,
                    device_number,
                    c,
                ),
            },
    {
        match answer {
            Ok(info) => Ok(info),
            Err(error) => Err(
                Error::Rs1541 {
                    message: numbered_text("Failed to identify drive ", device_number, ""),
                    error,
                },
            ),
        }
    }

    /// The status of a drive, or that there is none.
    pub fn get_drive_status(&self, device_number: u8, answer: Result<CbmStatus, CbmError>) -> (r:
        Result<CbmStatus, Error>)
        ensures
            match answer {
                Ok(status) => r == Ok::<CbmStatus, Error>(status),
                Err(c) => r matches Err(e) && e@ == bus_error(
                    "Failed to get status for drive "@,
                    device_number,
                    c,
                ),
            },
    {
        match answer {
            Ok(status) => Ok(status),
            Err(error) => Err(
                Error::Rs1541 {
                    message: numbered_text("Failed to get status for drive ", device_number, ""),
                    error,
                },
            ),
        }
    }

    /// How the disk drives of a unit were initialized, with what failed. The unit is no longer
    /// at work then.
    pub fn init_drive(
        &mut self,
        device_number: u8,
        answers: Vec<Result<CbmStatus, CbmError>>,
    ) -> (r: Result<Vec<Result<CbmStatus, Error>>, Error>)
        ensures
            final(self)@ == freed(old(self)@, device_number),
            if old(self)@.contains_key(device_number) {
                r matches Ok(results) && init_results(answers@, results@, device_number)
            } else {
                r matches Err(e) && e@ == not_there(device_number)
            },
    {
        let ghost before = self@;
        match self.drives.remove(&device_number) {
            Some(unit) => {
                let mut unit = unit;
                unit.busy = false;
                let _ = self.drives.insert(device_number, unit);
                assert(self@ =~= freed(before, device_number));
            },
            None => {
                assert(self@ =~= before);
                return Err(not_found(device_number));
            },
        }
        let ghost all = answers@;
        let mut answers = answers;
        let mut results: Vec<Result<CbmStatus, Error>> = Vec::new();
        assert(all.skip(0) =~= all);
        while answers.len() > 0
            invariant
                results@.len() + answers@.len() == all.len(),
                answers@ == all.skip(results@.len() as int),
                init_results(all.take(results@.len() as int), results@, device_number),
            decreases answers@.len(),
        {
            let ghost n = results@.len() as int;
            let ghost before = results@;
            let answer = answers.remove(0);
            assert(answer == all[n]);
            match answer {
                Ok(status) => {
                    results.push(Ok(status));
                },
                Err(error) => {
                    results.push(
                        Err(
                            Error::Rs1541 {
                                message: numbered_text(
                                    "Failed to initialize drive ",
                                    device_number,
                                    "",
                                ),
                                error,
                            },
                        ),
                    );
                },
            }
            proof {
                assert(answers@ =~= all.skip(n + 1));
                assert forall|i: int| 0 <= i < n + 1 implies match #[trigger] all.take(n + 1)[i] {
                    Ok(status) => results@[i] == Ok::<CbmStatus, Error>(status),
                    Err(e) => results@[i] matches Err(x) && x@ == bus_error(
                        "Failed to initialize drive "@,
                        device_number,
                        e,
                    ),
                } by {
                    if i < n {
                        assert(all.take(n)[i] == all.take(n + 1)[i]);
                        assert(results@[i] == before[i]);
                    }
                }
            }
        }
        assert(all.take(results@.len() as int) =~= all);
        Ok(results)
    }

    /// Whether the bus was reset.
    pub fn reset_bus(&self, answer: Result<(), CbmError>) -> (r: Result<(), Error>)
        ensures
            match answer {
                Ok(_) => r is Ok,
                Err(c) => r matches Err(e) && e@ == (ErrorView::Rs1541 {
                    message: "Failed to reset bus"@,
                    error: c@,
                }),
            },
    {
        match answer {
            Ok(_) => Ok(()),
            Err(error) => Err(Error::Rs1541 { message: "Failed to reset bus".to_owned(), error }),
        }
    }

    /// Whether a drive is in use and answers.
    pub fn validate_drive(&self, device_number: u8) -> (r: Result<(), Error>)
        ensures
            if !self@.contains_key(device_number) {
                r matches Err(e) && e@ == not_there(device_number)
            } else if !self@[device_number].responds() {
                r matches Err(e) && e@ == silent(device_number)
            } else {
                r is Ok
            },
    {
        match self.get_drive(device_number) {
            Ok(drive) => if drive.is_responding() {
                Ok(())
            } else {
                Err(
                    Error::Fs1541 {
                        message: numbered_text("Drive ", device_number, " is not responding"),
                        error: Fs1541Error::Operation("Drive not responding".to_owned()),
                    },
                )
            },
            Err(e) => Err(e),
        }
    }

    /// Whether a drive is in use.
    pub fn drive_exists(&self, device_number: u8) -> (r: bool)
        ensures
            r == self@.contains_key(device_number),
    {
        self.drives.contains_key(&device_number)
    }

    /// The numbers of the drives that are in use, each once.
    pub fn connected_drives(&self) -> (r: Vec<u8>)
        ensures
            forall|d: u8| r@.contains(d) <==> self@.contains_key(d),
            r@.no_duplicates(),
    {
        let mut numbers: Vec<u8> = Vec::new();
        let mut d: u16 = 0;
        while d < 256
            invariant
                d <= 256,
                forall|i: int| 0 <= i < numbers@.len() ==> #[trigger] numbers@[i] < d
                    && self@.contains_key(numbers@[i]),
                forall|x: u8| x < d && self@.contains_key(x) ==> #[trigger] numbers@.contains(x),
                numbers@.no_duplicates(),
            decreases 256 - d,
        {
            let n: u8 = d as u8;
            let ghost before = numbers@;
            if self.drives.contains_key(&n) {
                numbers.push(n);
                assert(numbers@[before.len() as int] == n);
                assert forall|x: u8| x < d + 1 && self@.contains_key(x) implies
                    #[trigger] numbers@.contains(x) by {
                    if x < d {
                        let i = choose|i: int| 0 <= i < before.len() && before[i] == x;
                        assert(before.contains(x));
                        assert(numbers@[i] == x);
                    }
                }
            }
            d = d + 1;
        }
        numbers
    }

    /// Takes every drive out of use, those at work too.
    pub fn cleanup_drives(&mut self)
        ensures
            final(self)@ == Map::<u8, CbmDriveUnit>::empty(),
    {
        let numbers = self.connected_drives();
        let ghost start = self@;
        let mut i: usize = 0;
        while i < numbers.len()
            invariant
                i <= numbers@.len(),
                forall|d: u8| numbers@.contains(d) <==> start.contains_key(d),
                forall|d: u8| #[trigger] self@.contains_key(d) ==> start.contains_key(d),
                forall|j: int| 0 <= j < i ==> !self@.contains_key(#[trigger] numbers@[j]),
            decreases numbers@.len() - i,
        {
            let n: u8 = numbers[i];
            let ghost before = self@;
            match self.remove_drive(n) {
                Ok(_) => {},
                Err(_) => {
                    let _ = self.drives.remove(&n);
                },
            }
            assert(self@ == before.remove(n));
            i = i + 1;
        }
        assert(self@ =~= Map::<u8, CbmDriveUnit>::empty()) by {
            assert forall|d: u8| !self@.contains_key(d) by {
                if self@.contains_key(d) {
                    assert(numbers@.contains(d));
                    let j = choose|j: int| 0 <= j < numbers@.len() && numbers@[j] == d;
                    assert(!self@.contains_key(numbers@[j]));
                }
            }
        }
    }
}

/// The drives after one was to be put to use that was found on the bus.
pub open spec fn added(
    drives: Map<u8, CbmDriveUnit>,
    device: u8,
    unit: CbmDriveUnit,
) -> Map<u8, CbmDriveUnit> {
    if drives.contains_key(device) {
        drives
    } else {
        drives.insert(device, unit)
    }
}

/// The drives with one that is no longer at work.
pub open spec fn freed(drives: Map<u8, CbmDriveUnit>, device: u8) -> Map<u8, CbmDriveUnit> {
    if drives.contains_key(device) {
        drives.insert(device, CbmDriveUnit { busy: false, ..drives[device] })
    } else {
        drives
    }
}

/// A drive that was initialized can be taken out of use, even where it was left at work.
pub proof fn law_freed_can_be_removed(drives: Map<u8, CbmDriveUnit>, device: u8)
    requires
        drives.contains_key(device),
    ensures
        remove_fault(freed(drives, device), device) is None,
        !removed(freed(drives, device), device).contains_key(device),
{
}

/// To put a drive to use changes none that is in use already, the one of its own number
/// among them.
pub proof fn law_added_keeps_drives(
    drives: Map<u8, CbmDriveUnit>,
    device: u8,
    unit: CbmDriveUnit,
    other: u8,
)
    requires
        drives.contains_key(other),
    ensures
        added(drives, device, unit).contains_key(other),
        added(drives, device, unit)[other] == drives[other],
{
}

/// A drive that was put to use can be taken out again as long as it is not at work, and
/// then all is as it was.
pub proof fn law_remove_undoes_add(drives: Map<u8, CbmDriveUnit>, device: u8, unit: CbmDriveUnit)
    requires
        !drives.contains_key(device),
        !unit.busy,
    ensures
        remove_fault(drives.insert(device, unit), device) is None,
        removed(drives.insert(device, unit), device) == drives,
{
    assert(drives.insert(device, unit).remove(device) =~= drives);
}

} // verus!

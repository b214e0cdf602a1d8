//! What can be relied on in the conversations with a drive.
use vstd::prelude::*;

use crate::cbmtype;
use crate::cbmtype::{
    CbmDeviceInfo, CbmError, CbmErrorNumber, CbmErrorView, CbmStatus, CbmStatusView,
};
use crate::dir::CbmDirListing;
use crate::dir_session::{DirSession, DirStepView, DirView};
use crate::number;
use crate::opencbm::{
    BusReply, BusReplyView, BusRequest, BusRequestView, CallOutcome, OpenCbmErrorView, RawReturn,
};
use crate::session;
use crate::session::{
    Cbm, CommandSession, CommandSessionView, DiskCommandSession, InitSession, InitStepView,
    InitView, Next, NextView, ReadFileSession, ReadFileView, StatusList, WriteFileSession,
    WriteFileView, WriteStepView,
};
use crate::text;

verus! {

// ---------------------------------------------------------------------------
// Directories
// ---------------------------------------------------------------------------

/// Reading a directory first opens, on the device that was asked for, a dollar sign followed
/// by the digit of the drive that was asked for, if one was. A unit has the drives 0 and 1,
/// and no others.
pub proof fn law_directory_of_the_drive(
    device: u8,
    drive: Option<u8>,
    n: Next<DirSession, CbmDirListing>,
    s: DirSession,
    r: BusRequest,
)
    requires
        call_ensures(Cbm::dir, (device, drive), n),
        n == Next::<DirSession, CbmDirListing>::Ask(s) ==> call_ensures(
            DirSession::request,
            (&s,),
            r,
        ),
    ensures
        (drive matches Some(k) && k > 1) <==> (n matches Next::Done(
            Err(CbmError::InvalidOperation { device: d, .. }),
        ) && d == device),
        (drive matches Some(k) ==> k <= 1) <==> n is Ask,
        n == Next::<DirSession, CbmDirListing>::Ask(s) ==> (r matches BusRequest::Open {
            device: d,
            channel,
            name,
        } && d == device && channel == 0 && name@ == (match drive {
            None => seq!['$'],
            Some(k) => if k == 0 {
                seq!['$', '0']
            } else {
                seq!['$', '1']
            },
        })),
{
    reveal_strlit("$");
    reveal_with_fuel(number::decimal, 2);
}

/// The directories of two drives of a unit are opened by different names.
pub proof fn law_directories_differ(
    device: u8,
    a: u8,
    b: u8,
    s: DirSession,
    t: DirSession,
    p: BusRequest,
    q: BusRequest,
)
    requires
        a < b <= 1,
        call_ensures(Cbm::dir, (device, Some(a)), Next::<DirSession, CbmDirListing>::Ask(s)),
        call_ensures(Cbm::dir, (device, Some(b)), Next::<DirSession, CbmDirListing>::Ask(t)),
        call_ensures(DirSession::request, (&s,), p),
        call_ensures(DirSession::request, (&t,), q),
    ensures
        p@ != q@,
{
    law_directory_of_the_drive(device, Some(a), Next::Ask(s), s, p);
    law_directory_of_the_drive(device, Some(b), Next::Ask(t), t, q);
    assert(seq!['$', '0'][1] != seq!['$', '1'][1]);
}

// ---------------------------------------------------------------------------
// Commands
// ---------------------------------------------------------------------------

/// A command goes to the command channel of the device that it is for: the drive is told to
/// listen there, is sent the PETSCII of the text, all of it and once, and is told to listen no
/// more.
pub proof fn law_command_is_sent(device: u8, text: &str, s: CommandSession, petscii: Seq<u8>)
    requires
        call_ensures(Cbm::send_command, (device, text), s),
        petscii.len() <= i32::MAX,
    ensures
        s@.request() == (BusRequestView::Listen { device, channel: 15 }),
        s@.next(BusReplyView::Done) matches NextView::Ask(convert) && {
            &&& convert.request() == (BusRequestView::ToPetscii { text: text@ })
            &&& convert.next(BusReplyView::Converted(petscii)) matches NextView::Ask(write) && {
                &&& write.request() == (BusRequestView::Write { data: petscii })
                &&& write.next(BusReplyView::Wrote(petscii.len() as i32)) matches NextView::Ask(
                    end,
                ) && {
                    &&& end.request() == BusRequestView::Unlisten
                    &&& end.next(BusReplyView::Done) == NextView::<CommandSessionView, ()>::Done(
                        Ok(()),
                    )
                }
            }
        },
{
}

/// A call that fails ends the command with an error for its device, which says what has
/// failed and why; so does a command of which not all was written. A command succeeds with
/// its last call only.
pub proof fn law_command_fails(s: CommandSessionView, reply: BusReplyView, e: OpenCbmErrorView)
    requires
        s.command.len() <= i32::MAX,
    ensures
        s.next(BusReplyView::NoHandle) == NextView::<CommandSessionView, ()>::Done(
            Err(CbmErrorView::UsbError("No CBM handle"@)),
        ),
        s.step is Listen ==> s.next(BusReplyView::Failed(e)) == NextView::<
            CommandSessionView,
            (),
        >::Done(
            Err(
                CbmErrorView::CommandError {
                    device: s.device,
                    message: "Listen failed: "@ + e.text(),
                },
            ),
        ),
        s.step is Write ==> s.next(BusReplyView::Failed(e)) == NextView::<
            CommandSessionView,
            (),
        >::Done(
            Err(
                CbmErrorView::CommandError {
                    device: s.device,
                    message: "Write failed: "@ + e.text(),
                },
            ),
        ),
        s.step is Unlisten ==> s.next(BusReplyView::Failed(e)) == NextView::<
            CommandSessionView,
            (),
        >::Done(
            Err(
                CbmErrorView::CommandError {
                    device: s.device,
                    message: "Unlisten failed: "@ + e.text(),
                },
            ),
        ),
        s.step is Write ==> (s.next(reply) is Ask <==> reply == BusReplyView::Wrote(
            s.command.len() as i32,
        )),
        s.step is Write && s.next(reply) is Done ==> s.next(reply)->Done_0 is Err,
        s.next(reply) == NextView::<CommandSessionView, ()>::Done(Ok(())) ==> s.step is Unlisten,
        s.next(reply) matches NextView::Ask(t) ==> t.device == s.device && t.text == s.text
            && t.step != s.step,
{
}

/// A disk is formatted, a file deleted and a disk validated by a command to the device that
/// was asked for: `N0:` with the name and the ID, `S0:` with the name, and `V`. An ID that is
/// not of two characters is refused before anything is sent.
pub proof fn law_disk_commands(
    device: u8,
    name: &str,
    id: &str,
    format: Next<DiskCommandSession, ()>,
    delete: DiskCommandSession,
    validate: DiskCommandSession,
)
    requires
        call_ensures(Cbm::format_disk, (device, name, id), format),
        call_ensures(Cbm::delete_file, (device, name), delete),
        call_ensures(Cbm::validate_disk, (device,), validate),
        vstd::utf8::encode_utf8(id@).len() <= usize::MAX,
    ensures
        if vstd::utf8::encode_utf8(id@).len() == 2 {
            format matches Next::Ask(DiskCommandSession::Sending(c)) && c.device == device
                && c.text@ == "N0:"@ + name@ + ","@ + id@ && c.step is Listen
        } else {
            format matches Next::Done(Err(CbmError::InvalidOperation { device: d, .. })) && d
                == device
        },
        delete matches DiskCommandSession::Sending(c) && c.device == device && c.text@ == "S0:"@
            + name@ && c.step is Listen,
        validate matches DiskCommandSession::Sending(c) && c.device == device && c.text@ == "V"@
            && c.step is Listen,
{
}

/// After a disk command the drive is asked for its status, and the command has succeeded
/// exactly if that status is below 20; a status of 20 or more is the error.
pub proof fn law_disk_command_needs_a_good_status(
    s: DiskCommandSession,
    reply: BusReply,
    n: Next<DiskCommandSession, ()>,
    r: BusRequest,
)
    requires
        call_ensures(DiskCommandSession::request, (&s,), r),
        call_ensures(DiskCommandSession::next, (s, reply), n),
    ensures
        match s {
            DiskCommandSession::Sending(c) => {
                &&& r@ == c@.request()
                &&& match c@.next(reply@) {
                    NextView::Ask(d) => n matches Next::Ask(DiskCommandSession::Sending(t)) && t@
                        == d,
                    NextView::Done(Err(e)) => n matches Next::Done(Err(x)) && x@ == e,
                    NextView::Done(Ok(_)) => n matches Next::Ask(
                        DiskCommandSession::Checking { device },
                    ) && device == c.device,
                }
            },
            DiskCommandSession::Checking { device } => {
                &&& r matches BusRequest::Status { device: d } && d == device
                &&& match session::status_result(device, reply@) {
                    Err(e) => n matches Next::Done(Err(x)) && x@ == e,
                    Ok(status) => if status.number < 20 {
                        n matches Next::Done(Ok(_))
                    } else {
                        n matches Next::Done(Err(x)) && x@ == (CbmErrorView::StatusError {
                            device: status.device,
                            status,
                        })
                    },
                }
            },
        },
{
}

proof fn lemma_status_part(status: CbmStatusView, rest: Seq<char>)
    requires
        !status.message.contains('\r'),
    ensures
        session::status_part(cbmtype::status_text(status) + seq!['\r'] + rest)
            == cbmtype::status_text(status),
{
    let t = cbmtype::status_text(status);
    let full = t + seq!['\r'] + rest;
    let head = number::two_digits(status.number as nat);
    let track = number::two_digits(status.track as nat);
    let sector = number::two_digits(status.sector as nat);
    reveal_strlit("\r");
    reveal_strlit(",");
    number::law_two_digits_round_trip(status.number as nat, 255);
    number::law_two_digits_round_trip(status.track as nat, 255);
    number::law_two_digits_round_trip(status.sector as nat, 255);
    let off = head.len() + 1;
    let end = off + status.message.len();
    assert forall|i: int| 0 <= i < t.len() implies #[trigger] t[i] != '\r' by {
        if i < head.len() {
            assert(t[i] == head[i]);
            assert(number::is_digit(head[i]));
        } else if off <= i < end {
            assert(t[i] == status.message[i - off]);
            assert(status.message.contains(status.message[i - off]));
        } else if i > end && i < end + 1 + track.len() {
            assert(t[i] == track[i - end - 1]);
            assert(number::is_digit(track[i - end - 1]));
        } else if i > end + 1 + track.len() {
            assert(t[i] == sector[i - end - 2 - track.len()]);
            assert(number::is_digit(sector[i - end - 2 - track.len()]));
        }
    }
    let n = t.len() as int;
    assert(full.subrange(n, n + 1) =~= "\r"@);
    text::lemma_has_part(full, "\r"@, n);
    let k = text::first_from(full, "\r"@, 0)->0;
    text::lemma_first_bounds(full, "\r"@, 0);
    assert(full.subrange(k, k + 1)[0] == full[k]);
    if k < n {
        assert(full[k] == t[k]);
    }
    assert(full.take(n) =~= t);
    assert(t[0] == head[0] && number::is_digit(head[0]));
    assert(t.last() == sector.last() && number::is_digit(sector[sector.len() - 1]));
    text::lemma_trimmed_id(t);
}

/// What is read as a drive's status is what the drive has sent, up to a carriage return;
/// whatever stands behind that is passed over. A call that has failed is an error for the
/// device.
pub proof fn law_status_is_what_was_sent(
    device: u8,
    data: Vec<u8>,
    count: i32,
    status: CbmStatusView,
    rest: Seq<char>,
    r: Result<CbmStatus, CbmError>,
)
    requires
        call_ensures(Cbm::get_status, (device, BusReply::Got(data, count)), r),
        cbmtype::is_plain_status(status),
        status.device == device,
        !status.message.contains('\r'),
        text::lossy_text(data@) == cbmtype::status_text(status) + seq!['\r'] + rest,
    ensures
        count >= 0 ==> (r matches Ok(s) && s@ == status),
        count < 0 ==> (r matches Err(CbmError::DeviceError { device: d, .. }) && d == device),
{
    if count >= 0 {
        lemma_status_part(status, rest);
        cbmtype::law_status_round_trip(status);
    }
}

// ---------------------------------------------------------------------------
// Files
// ---------------------------------------------------------------------------

/// The status that the drive sends after a file was opened to be written decides. One of 20
/// or more ends it at once, with an error that holds that status. After one below 20, and
/// only then, the drive is told to listen on the file's channel, for the same bytes.
pub proof fn law_write_needs_a_good_status(
    s: WriteFileSession,
    reply: BusReply,
    n: Next<WriteFileSession, ()>,
    t: WriteFileSession,
    r: BusRequest,
)
    requires
        s.step is Checking,
        call_ensures(WriteFileSession::next, (s, reply), n),
        n == Next::<WriteFileSession, ()>::Ask(t) ==> call_ensures(
            WriteFileSession::request,
            (&t,),
            r,
        ),
    ensures
        match session::status_result(s.device, reply@) {
            Err(e) => n matches Next::Done(Err(x)) && x@ == e,
            Ok(status) => if status.number >= 20 {
                n matches Next::Done(Err(x)) && x@ == (CbmErrorView::StatusError {
                    device: status.device,
                    status,
                })
            } else {
                &&& n is Ask
                &&& n == Next::<WriteFileSession, ()>::Ask(t) ==> (r matches BusRequest::Listen {
                    device,
                    channel,
                } && device == s.device && channel == 2 && t.data@ == s.data@)
            },
        },
{
}

/// To read a file, its name is sent as a command, and to write one, its name behind `@:`, so
/// that it takes the place of one of that name. What is to be written is what was given.
pub proof fn law_files_are_named(
    device: u8,
    name: &str,
    data: Vec<u8>,
    read: ReadFileSession,
    write: WriteFileSession,
)
    requires
        call_ensures(Cbm::read_file, (device, name), read),
        call_ensures(Cbm::write_file, (device, name, data), write),
    ensures
        read matches ReadFileSession::Sending(c) && c.device == device && c.text@ == name@
            && c.step is Listen,
        write.device == device && write.data@ == data@,
        write@.step matches WriteStepView::Sending(c) && c.device == device && c.text == "@:"@
            + name@ && c.step is Listen,
{
}

/// While the command that names the file is sent, a file that is read or written asks for the
/// calls of the command, and then for the status; a command that fails ends it.
pub proof fn law_files_begin_with_a_command(
    c: CommandSessionView,
    data: Seq<u8>,
    reply: BusReplyView,
)
    ensures
        ({
            let read = ReadFileView::Sending(c);
            let write = WriteFileView {
                device: c.device,
                data,
                step: WriteStepView::Sending(c),
            };
            &&& read.request() == c.request()
            &&& write.request() == c.request()
            &&& match c.next(reply) {
                NextView::Ask(d) => read.next(reply) == NextView::<ReadFileView, Seq<u8>>::Ask(
                    ReadFileView::Sending(d),
                ) && write.next(reply) == NextView::<WriteFileView, ()>::Ask(
                    WriteFileView { device: c.device, data, step: WriteStepView::Sending(d) },
                ),
                NextView::Done(Err(e)) => read.next(reply) == NextView::<
                    ReadFileView,
                    Seq<u8>,
                >::Done(Err(e)) && write.next(reply) == NextView::<WriteFileView, ()>::Done(
                    Err(e),
                ),
                NextView::Done(Ok(_)) => (read.next(reply) matches NextView::Ask(t) && t.request()
                    == (BusRequestView::Status { device: c.device })) && (write.next(
                    reply,
                ) matches NextView::Ask(t) && t.request() == (BusRequestView::Status {
                    device: c.device,
                }) && t.data == data),
            }
        }),
{
}

/// The status that the drive sends after a file was opened to be read decides. One of 20 or
/// more ends it at once, with an error that holds that status. After one below 20, and only
/// then, the drive is told to talk on the file's channel.
pub proof fn law_read_needs_a_good_status(
    device: u8,
    reply: BusReply,
    n: Next<ReadFileSession, Vec<u8>>,
    t: ReadFileSession,
    r: BusRequest,
)
    requires
        call_ensures(ReadFileSession::next, (ReadFileSession::Checking { device }, reply), n),
        n == Next::<ReadFileSession, Vec<u8>>::Ask(t) ==> call_ensures(
            ReadFileSession::request,
            (&t,),
            r,
        ),
    ensures
        match session::status_result(device, reply@) {
            Err(e) => n matches Next::Done(Err(x)) && x@ == e,
            Ok(status) => if status.number >= 20 {
                n matches Next::Done(Err(x)) && x@ == (CbmErrorView::StatusError {
                    device: status.device,
                    status,
                })
            } else {
                &&& n is Ask
                &&& n == Next::<ReadFileSession, Vec<u8>>::Ask(t) ==> (r matches BusRequest::Talk {
                    device: d,
                    channel,
                } && d == device && channel == 2)
            },
        },
{
}

/// A file is read in chunks of 256 bytes from nothing on, until the drive has none left; then
/// the drive is told to talk no more, and what it has sent is the result. No byte is lost,
/// and none comes from elsewhere. A call that fails is an error for the device.
pub proof fn law_read_collects(
    device: u8,
    data: Seq<u8>,
    buffer: Seq<u8>,
    count: i32,
    e: OpenCbmErrorView,
)
    requires
        0 <= count <= buffer.len(),
    ensures
        ({
            let talking = ReadFileView::Talking { device };
            let reading = ReadFileView::Reading { device, data };
            let ending = ReadFileView::Untalking { device, data };
            &&& talking.next(BusReplyView::Done) == NextView::<ReadFileView, Seq<u8>>::Ask(
                ReadFileView::Reading { device, data: Seq::empty() },
            )
            &&& reading.request() == (BusRequestView::Read { size: 256 })
            &&& match reading.next(BusReplyView::Got(buffer, count)) {
                NextView::Ask(ReadFileView::Reading { device: d, data: all }) => count > 0 && d
                    == device && all.len() == data.len() + count && (forall|i: int|
                    0 <= i < data.len() ==> #[trigger] all[i] == data[i]) && (forall|i: int|
                    0 <= i < count ==> #[trigger] all[data.len() + i] == buffer[i]),
                NextView::Ask(t) => count == 0 && t.request() == BusRequestView::Untalk && t.next(
                    BusReplyView::Done,
                ) == NextView::<ReadFileView, Seq<u8>>::Done(Ok(data)),
                NextView::Done(_) => false,
            }
            &&& ending.next(BusReplyView::Done) == NextView::<ReadFileView, Seq<u8>>::Done(
                Ok(data),
            )
            &&& talking.next(BusReplyView::Failed(e)) == NextView::<ReadFileView, Seq<u8>>::Done(
                Err(CbmErrorView::FileError { device, message: "Talk failed: "@ + e.text() }),
            )
            &&& reading.next(BusReplyView::Failed(e)) == NextView::<ReadFileView, Seq<u8>>::Done(
                Err(CbmErrorView::FileError { device, message: "Read failed: "@ + e.text() }),
            )
            &&& ending.next(BusReplyView::Failed(e)) == NextView::<ReadFileView, Seq<u8>>::Done(
                Err(CbmErrorView::FileError { device, message: "Untalk failed: "@ + e.text() }),
            )
            &&& talking.next(BusReplyView::NoHandle) == NextView::<ReadFileView, Seq<u8>>::Done(
                Err(CbmErrorView::FileError { device, message: "No CBM handle"@ }),
            )
            &&& reading.next(BusReplyView::NoHandle) == NextView::<ReadFileView, Seq<u8>>::Done(
                Err(CbmErrorView::FileError { device, message: "No CBM handle"@ }),
            )
            &&& ending.next(BusReplyView::NoHandle) == NextView::<ReadFileView, Seq<u8>>::Done(
                Err(CbmErrorView::FileError { device, message: "No CBM handle"@ }),
            )
        }),
{
}

/// A file is written from its first byte on, in chunks of 256 bytes and a last one with what
/// is left. Each chunk is followed by the one behind it, and the last by the end of the
/// listening, which is what success takes. A chunk that was not written whole is an error.
pub proof fn law_write_hands_out_all(
    s: WriteFileView,
    pos: usize,
    count: i32,
    e: OpenCbmErrorView,
)
    requires
        s.wf(),
        s.data.len() <= usize::MAX,
    ensures
        s.step is Listening ==> {
            &&& s.request() == (BusRequestView::Listen { device: s.device, channel: 2 })
            &&& s.next(BusReplyView::Done) matches NextView::Ask(t) && t.device == s.device
                && t.data == s.data && (if s.data.len() == 0 {
                t.request() == BusRequestView::Unlisten
            } else {
                t.step == WriteStepView::Writing(0)
            })
            &&& s.next(BusReplyView::Failed(e)) == NextView::<WriteFileView, ()>::Done(
                Err(
                    CbmErrorView::FileError {
                        device: s.device,
                        message: "Listen failed: "@ + e.text(),
                    },
                ),
            )
        },
        s.step == WriteStepView::Writing(pos) ==> ({
            let size = if pos + 256 <= s.data.len() {
                256int
            } else {
                s.data.len() - pos
            };
            &&& s.request() matches BusRequestView::Write { data } && data.len() == size && (
            forall|i: int| 0 <= i < size ==> #[trigger] data[i] == s.data[pos + i])
            &&& s.next(BusReplyView::Wrote(count)) is Ask <==> count == size
            &&& s.next(BusReplyView::Wrote(count)) matches NextView::Ask(t) ==> t.device
                == s.device && t.data == s.data && (if pos + size == s.data.len() {
                t.request() == BusRequestView::Unlisten
            } else {
                t.step == WriteStepView::Writing((pos + size) as usize)
            })
            &&& s.next(BusReplyView::Wrote(count)) matches NextView::Done(r) ==> r == Err::<
                (),
                CbmErrorView,
            >(
                CbmErrorView::FileError {
                    device: s.device,
                    message: "Failed to write complete chunk"@,
                },
            )
            &&& s.next(BusReplyView::Failed(e)) == NextView::<WriteFileView, ()>::Done(
                Err(
                    CbmErrorView::FileError {
                        device: s.device,
                        message: "Write failed: "@ + e.text(),
                    },
                ),
            )
        }),
        s.step is Unlistening ==> {
            &&& s.next(BusReplyView::Done) == NextView::<WriteFileView, ()>::Done(Ok(()))
            &&& s.next(BusReplyView::Failed(e)) == NextView::<WriteFileView, ()>::Done(
                Err(
                    CbmErrorView::FileError {
                        device: s.device,
                        message: "Unlisten failed: "@ + e.text(),
                    },
                ),
            )
        },
        s.next(BusReplyView::NoHandle) matches NextView::Done(r) && r is Err,
{
}

// ---------------------------------------------------------------------------
// Initialising drives
// ---------------------------------------------------------------------------

/// Every drive of a unit is initialised, from drive 0 on, by the command `i` and its number;
/// a unit without drives takes no call.
pub proof fn law_drives_are_initialised(
    device: u8,
    drives: u8,
    ignore: Vec<CbmErrorNumber>,
    n: Next<InitSession, StatusList>,
)
    requires
        call_ensures(InitSession::send_init, (device, drives, ignore), n),
    ensures
        drives == 0 ==> (n matches Next::Done(Ok(list)) && list.list@.len() == 0),
        drives > 0 ==> (n matches Next::Ask(s) && s.device == device && s.drives == drives
            && s.drive == 0 && s.ignore@ == ignore@ && s.statuses.list@.len() == 0 && (
        s@.step matches InitStepView::Sending(c) && c.device == device && c.text == seq!['i', '0']
            && c.step is Listen)),
{
    reveal_strlit("i");
    reveal_with_fuel(number::decimal, 2);
    if let Next::Done(Ok(list)) = n {
        assert(session::statuses(list.list@).len() == 0);
    }
    if let Next::Ask(s) = n {
        assert(session::statuses(s.statuses.list@).len() == 0);
    }
}

/// After the command for a drive its status is asked for. One below 20, or one whose error is
/// to be passed over, is put behind those of the drives before, and the next drive follows,
/// or the end with all statuses in the order of the drives. Any other status is an error that
/// names the command and the status.
pub proof fn law_drive_by_drive(s: InitView, reply: BusReplyView)
    requires
        s.wf(),
    ensures
        s.step matches InitStepView::Sending(c) ==> {
            &&& s.request() == c.request()
            &&& match c.next(reply) {
                NextView::Ask(d) => s.next(reply) == NextView::<InitView, Seq<CbmStatusView>>::Ask(
                    InitView { step: InitStepView::Sending(d), ..s },
                ),
                NextView::Done(Err(e)) => s.next(reply) == NextView::<
                    InitView,
                    Seq<CbmStatusView>,
                >::Done(Err(e)),
                NextView::Done(Ok(_)) => s.next(reply) == NextView::<
                    InitView,
                    Seq<CbmStatusView>,
                >::Ask(InitView { step: InitStepView::Checking, ..s }),
            }
        },
        s.step is Checking ==> {
            &&& s.request() == (BusRequestView::Status { device: s.device })
            &&& match session::status_result(s.device, reply) {
                Err(e) => s.next(reply) == NextView::<InitView, Seq<CbmStatusView>>::Done(Err(e)),
                Ok(status) => if status.number < 20 || s.ignore.contains(status.error_number) {
                    if s.drive + 1 == s.drives {
                        s.next(reply) == NextView::<InitView, Seq<CbmStatusView>>::Done(
                            Ok(s.statuses.push(status)),
                        )
                    } else {
                        s.next(reply) matches NextView::Ask(t) && t.device == s.device && t.drives
                            == s.drives && t.drive == s.drive + 1 && t.ignore == s.ignore
                            && t.statuses == s.statuses.push(status) && (t.step matches
                            InitStepView::Sending(c) && c.device == s.device && c.text == "i"@
                            + number::decimal((s.drive + 1) as nat) && c.step is Listen)
                    }
                } else {
                    s.next(reply) == NextView::<InitView, Seq<CbmStatusView>>::Done(
                        Err(
                            CbmErrorView::CommandError {
                                device: s.device,
                                message: "i"@ + number::decimal(s.drive as nat) + " "@
                                    + cbmtype::status_text(status),
                            },
                        ),
                    )
                },
            }
        },
{
}

// ---------------------------------------------------------------------------
// Lines of a directory
// ---------------------------------------------------------------------------

/// A directory is opened, and then the drive is asked for its status; where that is below 20
/// it is told to talk on the channel of directories, and else nothing more is asked for.
pub proof fn law_directory_is_opened(s: DirView, reply: BusReplyView, e: OpenCbmErrorView)
    ensures
        s.step is Opening ==> {
            &&& s.next(BusReplyView::Done) matches NextView::Ask(t) && t.request() == (
            BusRequestView::Status { device: s.device }) && t.step is CheckingOpen && t.output
                == s.output
            &&& s.next(BusReplyView::Failed(e)) matches NextView::Done(
                Err(CbmErrorView::DeviceError { device, message }),
            ) && device == s.device && message == "Failed to open directory "@ + (match s.drive_num {
                Some(k) => "$"@ + number::decimal(k as nat),
                None => "$"@,
            }) + ": "@ + e.text()
        },
        s.step is CheckingOpen ==> match session::status_result(s.device, reply) {
            Err(x) => s.next(reply) matches NextView::Done(Err(y)) && y == x,
            Ok(status) => if status.number < 20 {
                s.next(reply) matches NextView::Ask(t) && t.request() == (BusRequestView::Talk {
                    device: s.device,
                    channel: 0,
                }) && t.step is Talking && t.output == s.output
            } else {
                s.next(reply) matches NextView::Done(
                    Err(CbmErrorView::CommandError { device, message }),
                ) && device == s.device && message == "Got error status after dir open "@
                    + cbmtype::status_text(status)
            },
        },
        s.step is Talking ==> {
            &&& s.next(BusReplyView::Done) matches NextView::Ask(t) && t.request() == (
            BusRequestView::Read { size: 2 }) && t.step is ReadingLoadAddress && t.output
                == s.output
            &&& s.next(BusReplyView::Failed(e)) matches NextView::Ask(t) && t.request() == (
            BusRequestView::Close { device: s.device, channel: 0 })
        },
        !(s.step is FailUntalk) && !(s.step is FailClose) ==> (s.next(
            BusReplyView::NoHandle,
        ) matches NextView::Done(r) && r is Err),
{
}

/// A directory is read in steps of two bytes and of one: behind the load address, for each
/// line the link, then the size, the lower byte first, and then the name up to a NUL, which
/// the driver turns into a text. The line that comes of it holds both.
pub proof fn law_directory_line_is_read(
    s: DirView,
    buffer: Seq<u8>,
    name: Seq<u8>,
    converted: Seq<u8>,
)
    requires
        buffer.len() == 2 || buffer.len() == 1,
    ensures
        s.step is ReadingLoadAddress && buffer.len() == 2 ==> (s.next(
            BusReplyView::Got(buffer, 2),
        ) matches NextView::Ask(t) && t.step is ReadingLink && t.output == s.output),
        s.step is ReadingLink && buffer.len() == 2 ==> {
            &&& s.request() == (BusRequestView::Read { size: 2 })
            &&& s.next(BusReplyView::Got(buffer, 2)) matches NextView::Ask(t) && t.step
                is ReadingSize && t.output == s.output
        },
        s.step is ReadingSize && buffer.len() == 2 ==> {
            &&& s.request() == (BusRequestView::Read { size: 2 })
            &&& s.next(BusReplyView::Got(buffer, 2)) matches NextView::Ask(t) && t.step
                == DirStepView::ReadingName(Seq::empty()) && t.output == s.output
                + number::right_aligned(
                number::decimal((buffer[0] + 256 * buffer[1]) as nat),
                4,
            ) + " "@
        },
        s.step == DirStepView::ReadingName(name) ==> {
            &&& s.request() == (BusRequestView::Read { size: 1 })
            &&& buffer[0] != 0 ==> (s.next(BusReplyView::Got(buffer, 1)) matches NextView::Ask(t)
                && t.step == DirStepView::ReadingName(name.push(buffer[0])) && t.output
                == s.output)
            &&& buffer[0] == 0 ==> (s.next(BusReplyView::Got(buffer, 1)) matches NextView::Ask(t)
                && t.request() == (BusRequestView::ToAscii { data: name }) && t.step
                == DirStepView::Converting(name) && t.output == s.output)
        },
        s.step == DirStepView::Converting(name) ==> (s.next(
            BusReplyView::Converted(converted),
        ) matches NextView::Ask(t) && t.step is ReadingLink && t.output == s.output
            + text::lossy_text(converted) + "\n"@),
        s.step is ReadingLoadAddress || s.step is ReadingLink || s.step is ReadingSize ==> (s.next(
            BusReplyView::Got(buffer, 0),
        ) matches NextView::Ask(t) && t.request() == BusRequestView::Untalk && t.output
            == s.output),
{
}

/// A directory that was read is closed, the drive is asked for its status, and the listing is
/// handed on only where that is below 20.
pub proof fn law_directory_is_closed(s: DirView, reply: BusReplyView)
    ensures
        s.step is Untalking ==> (s.request() == BusRequestView::Untalk && (s.next(
            BusReplyView::Done,
        ) matches NextView::Ask(t) && t.request() == (BusRequestView::Close {
            device: s.device,
            channel: 0,
        }) && t.step is Closing && t.output == s.output)),
        s.step is Closing ==> (s.next(BusReplyView::Done) matches NextView::Ask(t) && t.request()
            == (BusRequestView::Status { device: s.device }) && t.step is CheckingEnd && t.output
            == s.output),
        s.step is CheckingEnd ==> match session::status_result(s.device, reply) {
            Err(x) => s.next(reply) matches NextView::Done(Err(y)) && y == x,
            Ok(status) => if status.number >= 20 {
                s.next(reply) matches NextView::Done(Err(y)) && y == (CbmErrorView::StatusError {
                    device: status.device,
                    status,
                })
            } else {
                s.next(reply) matches NextView::Done(r) && match crate::dir::listing_of(s.output) {
                    Ok(listing) => r matches Ok(l) && l == listing,
                    Err(_) => r matches Err(CbmErrorView::DeviceError { device, message })
                        && device == s.device && message == "Failed to parse directory listing"@,
                }
            },
        },
{
}

// ---------------------------------------------------------------------------
// Single calls
// ---------------------------------------------------------------------------

/// What a device has said of itself is handed on as it is, and so is whether the bus was
/// reset; a driver that is not open, and a call that has failed, are errors.
pub proof fn law_single_calls(
    device: u8,
    reply: BusReply,
    info: CbmDeviceInfo,
    reset: Result<(), CbmError>,
    identified: Result<CbmDeviceInfo, CbmError>,
    status: Result<CbmStatus, CbmError>,
)
    requires
        call_ensures(Cbm::reset_bus, (reply,), reset),
        call_ensures(Cbm::identify, (device, reply), identified),
        call_ensures(Cbm::get_status, (device, reply), status),
    ensures
        reply is NoHandle ==> {
            &&& reset matches Err(CbmError::UsbError(s)) && s@ == "No CBM handle"@
            &&& identified matches Err(CbmError::UsbError(s)) && s@ == "No CBM handle"@
            &&& status matches Err(CbmError::UsbError(s)) && s@ == "No CBM handle"@
        },
        reply matches BusReply::Failed(e) ==> {
            &&& reset matches Err(CbmError::DeviceError { device: d, message }) && d == 0
                && message@ == e@.text()
            &&& identified matches Err(CbmError::DeviceError { device: d, message }) && d == device
                && message@ == e@.text()
            &&& status matches Err(CbmError::DeviceError { device: d, message }) && d == device
                && message@ == e@.text()
        },
        reply is Done ==> reset is Ok,
        reply == BusReply::Identified(info) ==> (identified matches Ok(i) && i.device_type
            == info.device_type && i.description@ == info.description@),
{
}

/// What the driver's library has returned is handed on: a code of 0 is success for the calls
/// that move no bytes, a code that is not negative counts the bytes of a read or a write, and
/// the rest are failures that tell the code. A call that has taken too long, or has panicked,
/// has failed, whichever it was.
pub proof fn law_return_codes(request: BusRequest, ret: RawReturn, outcome: CallOutcome, r: BusReply)
    requires
        call_ensures(BusReply::new, (&request, outcome), r),
    ensures
        outcome is TimedOut ==> r@ == BusReplyView::Failed(OpenCbmErrorView::ThreadTimeout),
        outcome is Panicked ==> r@ == BusReplyView::Failed(OpenCbmErrorView::ThreadPanic),
        outcome == CallOutcome::Returned(ret) ==> match request {
            BusRequest::Reset => (r is Done <==> ret.code == 0) && (ret.code != 0 ==> r is Failed),
            BusRequest::Listen { .. } => r@ == (if ret.code == 0 {
                BusReplyView::Done
            } else {
                BusReplyView::Failed(OpenCbmErrorView::UsbError(Some(ret.code), "cbm_listen"@))
            }),
            BusRequest::Talk { .. } => r@ == (if ret.code == 0 {
                BusReplyView::Done
            } else {
                BusReplyView::Failed(OpenCbmErrorView::UsbError(Some(ret.code), "talk"@))
            }),
            BusRequest::Unlisten => r@ == (if ret.code == 0 {
                BusReplyView::Done
            } else {
                BusReplyView::Failed(OpenCbmErrorView::UsbError(Some(ret.code), "unlisten"@))
            }),
            BusRequest::Untalk => r@ == (if ret.code == 0 {
                BusReplyView::Done
            } else {
                BusReplyView::Failed(OpenCbmErrorView::UsbError(Some(ret.code), "untalk"@))
            }),
            BusRequest::Open { .. } => r@ == (if ret.code == 0 {
                BusReplyView::Done
            } else {
                BusReplyView::Failed(OpenCbmErrorView::UsbError(Some(ret.code), "open_file"@))
            }),
            BusRequest::Close { .. } => r@ == (if ret.code == 0 {
                BusReplyView::Done
            } else {
                BusReplyView::Failed(OpenCbmErrorView::UsbError(Some(ret.code), "close_file"@))
            }),
            BusRequest::Write { .. } => if ret.code >= 0 {
                r matches BusReply::Wrote(n) && n == ret.code
            } else {
                r@ == BusReplyView::Failed(
                    OpenCbmErrorView::FailedCall(ret.code, "cbm_raw_write"@),
                )
            },
            BusRequest::Read { .. } => if ret.code >= 0 {
                r matches BusReply::Got(data, n) && data@ == ret.data@ && n == ret.code
            } else {
                r@ == BusReplyView::Failed(OpenCbmErrorView::FailedCall(ret.code, "cbm_raw_read"@))
            },
            BusRequest::Status { .. } => if ret.code >= 0 && ret.data@.len() > 0 {
                r matches BusReply::Got(data, n) && data@ == ret.data@ && n == ret.code
            } else {
                r is Failed
            },
            BusRequest::Identify { .. } => if ret.code == 0 {
                r matches BusReply::Identified(info) && info.device_type
                    == cbmtype::device_type_of(ret.device_type) && info.description@
                    == ret.description@
            } else {
                r@ == BusReplyView::Failed(OpenCbmErrorView::UnknownDevice(ret.description@))
            },
            BusRequest::ToPetscii { .. } => r matches BusReply::Converted(data) && data@
                == ret.data@,
            BusRequest::ToAscii { .. } => r matches BusReply::Converted(data) && data@
                == ret.data@,
        },
{
}

/// A bus that could not be reset, where the operating system says nothing or that the device
/// is not there, has no adapter; else what the system says is handed on.
pub proof fn law_reset_tells_of_the_adapter(ret: RawReturn, r: BusReply)
    requires
        call_ensures(BusReply::new, (&BusRequest::Reset, CallOutcome::Returned(ret)), r),
        ret.code != 0,
    ensures
        ret.os_code == Some(0i32) || ret.os_code == Some(19i32) ==> r@ == BusReplyView::Failed(
            OpenCbmErrorView::ConnectionError("Cannot access the XUM1541 - is it plugged in?"@),
        ),
        ret.os_code != Some(0i32) && ret.os_code != Some(19i32) ==> r@ == BusReplyView::Failed(
            OpenCbmErrorView::Other(ret.os_text@),
        ),
{
}

/// A conversation with the drive asks for, and goes on with, what its state says, from the
/// first call to the last.
pub proof fn law_conversations_go_on(
    c: CommandSession,
    asked: BusRequest,
    reply: BusReply,
    n: Next<CommandSession, ()>,
    i: InitSession,
    next_init: Next<InitSession, StatusList>,
    init_asked: BusRequest,
    d: DirSession,
    next_dir: Next<DirSession, CbmDirListing>,
)
    requires
        call_ensures(CommandSession::request, (&c,), asked),
        call_ensures(CommandSession::next, (c, reply), n),
        call_ensures(InitSession::request, (&i,), init_asked),
        call_ensures(InitSession::next, (i, reply), next_init),
        call_ensures(DirSession::next, (d, reply), next_dir),
    ensures
        asked@ == c@.request(),
        n@ == c@.next(reply@),
        init_asked@ == i@.request(),
        next_init@ == i@.next(reply@),
        next_dir@ == d@.next(reply@),
        c.step is Listen ==> (asked matches BusRequest::Listen { device, channel } && device
            == c.device && channel == 15),
        c.step is Unlisten ==> asked is Unlisten,
        c.step is Unlisten && reply@ is Done ==> n matches Next::Done(Ok(_)),
{
}

} // verus!

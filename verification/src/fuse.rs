//! The handles that the kernel is given for open files.
use vstd::prelude::*;

verus! {

/// A file handle: device number, drive ID, channel number and a sequence number,
/// which pass through the kernel as one number.
///
/// Layout:
/// - Bits 56-63: Device number (8-15)
/// - Bits 48-55: Drive ID (0-1)
/// - Bits 40-47: Channel number (0-15)
/// - Bits 0-39:  Sequence number
#[derive(Debug, Clone, Copy, PartialEq, Eq, Structural)]
pub struct FileHandle {
    pub device_number: u8,
    pub drive_id: u8,
    pub channel_number: u8,
    pub sequence: u64,
}

/// The first sequence number that no longer fits in a handle.
pub const SEQUENCE_LIMIT: u64 = 0x100_0000_0000;

/// The number that a handle is packed into.
pub open spec fn packed(h: FileHandle) -> u64 {
    (h.device_number as int * 0x100_0000_0000_0000 + h.drive_id as int * 0x1_0000_0000_0000
        + h.channel_number as int * 0x100_0000_0000 + h.sequence as int % 0x100_0000_0000) as u64
}

/// The handle that a number holds.
pub open spec fn unpacked(n: u64) -> FileHandle {
    FileHandle {
        device_number: (n / 0x100_0000_0000_0000) as u8,
        drive_id: (n / 0x1_0000_0000_0000 % 256) as u8,
        channel_number: (n / 0x100_0000_0000 % 256) as u8,
        sequence: n % 0x100_0000_0000,
    }
}

impl FileHandle {
    /// Puts the parts of a handle together.
    pub fn new(device_number: u8, drive_id: u8, channel_number: u8, sequence: u64) -> (h: Self)
        ensures
            h == (FileHandle { device_number, drive_id, channel_number, sequence }),
    {
        FileHandle { device_number, drive_id, channel_number, sequence }
    }

    /// Packs the handle into a number. Of the sequence number the low 40 bits are kept.
    pub fn to_u64(&self) -> (n: u64)
        ensures
            n == packed(*self),
    {
        let a: u64 = self.device_number as u64;
        let b: u64 = self.drive_id as u64;
        let c: u64 = self.channel_number as u64;
        let d: u64 = self.sequence;
        assert(((a << 56) | (b << 48) | (c << 40) | (d & 0xFF_FFFF_FFFF)) == a
            * 0x100_0000_0000_0000 + b * 0x1_0000_0000_0000 + c * 0x100_0000_0000 + d
            % 0x100_0000_0000) by (bit_vector)
            requires
                a < 256,
                b < 256,
                c < 256,
        ;
        (a << 56) | (b << 48) | (c << 40) | (d & 0xFF_FFFF_FFFF)
    }

    /// Unpacks a handle.
    pub fn from_u64(handle: u64) -> (h: Self)
        ensures
            h == unpacked(handle),
    {
        assert((handle >> 56) & 0xFF == handle / 0x100_0000_0000_0000 && handle
            / 0x100_0000_0000_0000 < 256) by (bit_vector);
        assert((handle >> 48) & 0xFF == handle / 0x1_0000_0000_0000 % 256) by (bit_vector);
        assert((handle >> 40) & 0xFF == handle / 0x100_0000_0000 % 256) by (bit_vector);
        assert(handle & 0xFF_FFFF_FFFF == handle % 0x100_0000_0000) by (bit_vector);
        FileHandle {
            device_number: ((handle >> 56) & 0xFF) as u8,
            drive_id: ((handle >> 48) & 0xFF) as u8,
            channel_number: ((handle >> 40) & 0xFF) as u8,
            sequence: handle & 0xFF_FFFF_FFFF,
        }
    }
}

/// A handle comes back from its number as it was, where its sequence number fits in
/// 40 bits; of a larger one the low 40 bits come back.
pub proof fn law_handle_round_trip(h: FileHandle)
    ensures
        unpacked(packed(h)) == (FileHandle {
            sequence: (h.sequence % 0x100_0000_0000) as u64,
            ..h
        }),
        h.sequence < SEQUENCE_LIMIT ==> unpacked(packed(h)) == h,
{
    let a = h.device_number as u64;
    let b = h.drive_id as u64;
    let c = h.channel_number as u64;
    let d = (h.sequence % 0x100_0000_0000) as u64;
    let n = packed(h);
    assert(n == a * 0x100_0000_0000_0000 + b * 0x1_0000_0000_0000 + c * 0x100_0000_0000 + d);
    assert(n / 0x100_0000_0000_0000 == a && n / 0x1_0000_0000_0000 % 256 == b && n
        / 0x100_0000_0000 % 256 == c && n % 0x100_0000_0000 == d) by (bit_vector)
        requires
            a < 256,
            b < 256,
            c < 256,
            d < 0x100_0000_0000,
            n == a * 0x100_0000_0000_0000 + b * 0x1_0000_0000_0000 + c * 0x100_0000_0000 + d,
    ;
}

/// Every number is the number of the handle that it holds.
pub proof fn law_number_round_trip(n: u64)
    ensures
        packed(unpacked(n)) == n,
{
}

/// Two handles that differ have different numbers, where their sequence numbers fit.
pub proof fn law_handles_are_distinct(a: FileHandle, b: FileHandle)
    requires
        a.sequence < SEQUENCE_LIMIT,
        b.sequence < SEQUENCE_LIMIT,
        packed(a) == packed(b),
    ensures
        a == b,
{
    law_handle_round_trip(a);
    law_handle_round_trip(b);
}

} // verus!

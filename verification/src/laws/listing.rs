//! What can be relied on of the listing of a directory.
use vstd::prelude::*;

use crate::cbmtype;
use crate::cbmtype::CbmError;
use crate::dir;
use crate::dir::{CbmDirListing, CbmDiskHeader, CbmFileEntry, CbmFileEntryView};
use crate::number;
use crate::pattern;
use crate::text;

verus! {

/// The first line of a listing names the drive, the disk, without the spaces behind its name,
/// and the ID of the disk; a drive above 255 is an error, as is a line that is not of this
/// form.
pub proof fn law_header_is_read(
    line: &str,
    groups: Vec<String>,
    drive: nat,
    r: Result<CbmDiskHeader, CbmError>,
    none: Result<CbmDiskHeader, CbmError>,
)
    requires
        groups@.len() == 4,
        groups@[1]@ == number::decimal(drive),
        call_ensures(CbmDiskHeader::from_groups, (line, Some(groups)), r),
        call_ensures(CbmDiskHeader::from_groups, (line, None::<Vec<String>>), none),
    ensures
        drive <= 255 ==> (r matches Ok(h) && h.drive_number == drive && h.name@
            == text::trimmed_end(groups@[2]@) && h.id@ == groups@[3]@),
        drive > 255 ==> (r matches Err(CbmError::ParseError { .. })),
        none matches Err(CbmError::ParseError { message }) && message@ == "Invalid header format: "@
            + line@,
{
    let g = text::texts(groups@);
    assert(g.len() == 4 && g[1] == groups@[1]@ && g[2] == groups@[2]@ && g[3] == groups@[3]@);
    number::lemma_decimal(drive);
    assert(number::is_digit(number::decimal(drive)[0]));
}

/// The line of a file tells its blocks, its name and its type, and which is which; a line that
/// is not of this form, or has too many blocks, is kept as it is, and is no file.
pub proof fn law_file_line_is_read(
    line: &str,
    groups: Vec<String>,
    blocks: nat,
    r: CbmFileEntry,
    none: CbmFileEntry,
)
    requires
        groups@.len() == 4,
        groups@[1]@ == number::decimal(blocks),
        call_ensures(CbmFileEntry::from_groups, (line, Some(groups)), r),
        call_ensures(CbmFileEntry::from_groups, (line, None::<Vec<String>>), none),
    ensures
        blocks <= 65535 ==> (r matches CbmFileEntry::ValidFile { blocks: b, filename, file_type }
            && b == blocks && filename@ == groups@[2]@ && file_type == cbmtype::file_type_of(
            groups@[3]@,
        )),
        blocks > 65535 ==> (r matches CbmFileEntry::InvalidFile {
            raw_line,
            partial_blocks,
            partial_filename,
            ..
        } && raw_line@ == line@ && partial_blocks is None && (partial_filename matches Some(name)
            && name@ == groups@[2]@)),
        none matches CbmFileEntry::InvalidFile { raw_line, partial_blocks, partial_filename, error }
            && raw_line@ == line@ && partial_blocks is None && partial_filename is None && error@
            == "Could not parse line format"@,
{
    let g = text::texts(groups@);
    assert(g.len() == 4 && g[1] == groups@[1]@ && g[2] == groups@[2]@ && g[3] == groups@[3]@);
    number::lemma_decimal(blocks);
    let s = number::decimal(blocks);
    assert(number::is_digit(s[0]) && number::is_digit(s[s.len() - 1]));
    text::lemma_trimmed_id(s);
}

/// The last line tells the free blocks.
pub proof fn law_last_line_is_read(
    line: &str,
    groups: Vec<String>,
    blocks: nat,
    r: Result<u16, CbmError>,
    none: Result<u16, CbmError>,
)
    requires
        groups@.len() == 2,
        groups@[1]@ == number::decimal(blocks),
        call_ensures(CbmDirListing::blocks_free_from_groups, (line, Some(groups)), r),
        call_ensures(CbmDirListing::blocks_free_from_groups, (line, None::<Vec<String>>), none),
    ensures
        blocks <= 65535 ==> r == Ok::<u16, CbmError>(blocks as u16),
        blocks > 65535 ==> (r matches Err(CbmError::ParseError { .. })),
        none matches Err(CbmError::ParseError { message }) && message@
            == "Invalid blocks free format: "@ + line@,
{
    let g = text::texts(groups@);
    assert(g.len() == 2 && g[1] == groups@[1]@);
    number::lemma_decimal(blocks);
    assert(number::is_digit(number::decimal(blocks)[0]));
}

/// Each sort of line is told by its own expression.
pub proof fn law_lines_have_their_forms(
    line: &str,
    header: Result<CbmDiskHeader, CbmError>,
    entry: CbmFileEntry,
    free: Result<u16, CbmError>,
)
    requires
        call_ensures(CbmDirListing::parse_header, (line,), header),
        call_ensures(CbmDirListing::parse_file_entry, (line,), entry),
        call_ensures(CbmDirListing::parse_blocks_free, (line,), free),
    ensures
        pattern::captures_of(
            "^\\s*(\\d+)\\s+\\.\"([^\"]*)\" ([a-zA-Z0-9]{2})"@,
            line@,
        ) is None ==> header is Err,
        pattern::captures_of(
            "^\\s*(\\d+)\\s+\\.\"([^\"]*)\" ([a-zA-Z0-9]{2})"@,
            line@,
        ) matches Some(g) ==> match dir::header_from(line@, Some(g)) {
            Ok(h) => header matches Ok(x) && x@ == h,
            Err(e) => header matches Err(x) && x@ == e,
        },
        pattern::captures_of("^\\s*(\\d+)\\s+\"([^\"]+)\"\\s+(\\w+)\\s*$"@, line@) is None
            ==> entry is InvalidFile,
        pattern::captures_of("^\\s*(\\d+)\\s+\"([^\"]+)\"\\s+(\\w+)\\s*$"@, line@) matches Some(g)
            ==> entry@ == dir::entry_from(line@, Some(g)),
        pattern::captures_of("^\\s*(\\d+)\\s+blocks free"@, line@) is None ==> free is Err,
        pattern::captures_of("^\\s*(\\d+)\\s+blocks free"@, line@) matches Some(g)
            ==> match dir::blocks_free_from(line@, Some(g)) {
            Ok(n) => free == Ok::<u16, CbmError>(n),
            Err(e) => free matches Err(x) && x@ == e,
        },
{
}

proof fn lemma_last_line(lines: Seq<Seq<char>>, from: int)
    requires
        0 <= from,
    ensures
        match dir::last_line_from(lines, from) {
            Some(k) => from <= k < lines.len() && text::has_part(lines[k], "blocks free"@) && (
            forall|i: int| from <= i < k ==> !text::has_part(#[trigger] lines[i], "blocks free"@)),
            None => forall|i: int|
                from <= i < lines.len() ==> !text::has_part(#[trigger] lines[i], "blocks free"@),
        },
    decreases lines.len() - from,
{
    if from < lines.len() && !text::has_part(lines[from], "blocks free"@) {
        lemma_last_line(lines, from + 1);
    }
}

/// A listing has a header in its first line, and ends with the first line behind it that holds
/// `blocks free`. Each line between the two is an entry, in order, and there are no others;
/// what follows is not read. Without a first line, or without a last one, there is no listing.
pub proof fn law_listing_is_read(
    input: &str,
    k: int,
    r: Result<CbmDirListing, CbmError>,
    header: Result<CbmDiskHeader, CbmError>,
    free: Result<u16, CbmError>,
    first: &str,
    last: &str,
    i: int,
    line: &str,
    entry: CbmFileEntry,
)
    requires
        call_ensures(CbmDirListing::parse, (input,), r),
        ({
            let lines = text::lines_of(input@);
            &&& 1 <= k < lines.len()
            &&& text::has_part(lines[k], "blocks free"@)
            &&& forall|j: int| 1 <= j < k ==> !text::has_part(#[trigger] lines[j], "blocks free"@)
            &&& first@ == lines[0]
            &&& last@ == lines[k]
            &&& 0 <= i < k - 1 ==> line@ == lines[i + 1]
        }),
        call_ensures(CbmDirListing::parse_header, (first,), header),
        call_ensures(CbmDirListing::parse_blocks_free, (last,), free),
        call_ensures(CbmDirListing::parse_file_entry, (line,), entry),
    ensures
        header is Err || free is Err ==> r is Err,
        header matches Ok(h) ==> (free matches Ok(n) ==> (r matches Ok(l) && {
            &&& l.header@ == h@
            &&& l.blocks_free == n
            &&& l.files@.len() == k - 1
            &&& 0 <= i < k - 1 ==> l.files@[i]@ == entry@
        })),
{
    let lines = text::lines_of(input@);
    lemma_last_line(lines, 1);
    let found = dir::last_line_from(lines, 1)->0;
    assert(dir::last_line_from(lines, 1) is Some);
    assert(found == k) by {
        if found < k {
            assert(!text::has_part(lines[found], "blocks free"@));
        }
    }
    if let Ok(l) = r {
        assert(dir::entries(l.files@).len() == l.files@.len());
        if 0 <= i < k - 1 {
            assert(dir::entries(l.files@)[i] == l.files@[i]@);
            assert(lines.subrange(1, k)[i] == lines[i + 1]);
        }
    }
}

/// A text without lines, and one without a last line, are no listings.
pub proof fn law_no_listing(input: &str, r: Result<CbmDirListing, CbmError>)
    requires
        call_ensures(CbmDirListing::parse, (input,), r),
        ({
            let lines = text::lines_of(input@);
            forall|j: int|
                1 <= j < lines.len() ==> !text::has_part(#[trigger] lines[j], "blocks free"@)
        }),
    ensures
        r is Err,
        text::lines_of(input@).len() == 0 ==> (r matches Err(CbmError::ParseError { message })
            && message@ == "Missing header line"@),
{
    let lines = text::lines_of(input@);
    lemma_last_line(lines, 1);
}

/// A block holds 254 bytes of a file.
pub proof fn law_size_of_a_file(e: CbmFileEntry, r: Option<u64>)
    requires
        call_ensures(CbmFileEntry::max_size, (&e,), r),
    ensures
        match e {
            CbmFileEntry::ValidFile { blocks, .. } => r matches Some(n) && n == blocks * 254,
            CbmFileEntry::InvalidFile { partial_blocks: Some(blocks), .. } => r matches Some(n)
                && n == blocks * 254,
            CbmFileEntry::InvalidFile { partial_blocks: None, .. } => r is None,
        },
{
}

/// The blocks that are in use are those of the files that could be read, each counted once,
/// and the rest of the disk is free.
pub proof fn law_blocks_add_up(files: Seq<CbmFileEntryView>, f: CbmFileEntryView)
    ensures
        dir::used_blocks(Seq::empty()) == 0,
        dir::used_blocks(files.push(f)) == dir::used_blocks(files) + (match f {
            CbmFileEntryView::ValidFile { blocks, .. } => blocks as nat,
            CbmFileEntryView::InvalidFile { .. } => 0,
        }),
{
    assert(files.push(f).drop_last() =~= files);
}

/// What a disk has in all is what is in use and what is free; and every entry is counted as
/// one.
pub proof fn law_totals(l: CbmDirListing, used: u16, total: u16, count: usize)
    requires
        l@.total() <= 65535,
        call_ensures(CbmDirListing::num_blocks_used_valid, (&l,), used),
        call_ensures(CbmDirListing::total_blocks, (&l,), total),
        call_ensures(CbmDirListing::num_files, (&l,), count),
    ensures
        used == dir::used_blocks(l@.files),
        total == used + l.blocks_free,
        count == l.files@.len(),
{
}

/// How a listing is shown: the drive, name and ID of the disk, a line for each entry, and the
/// free blocks.
pub proof fn law_listing_is_shown(
    l: CbmDirListing,
    h: CbmDiskHeader,
    e: CbmFileEntry,
    whole: String,
    head: String,
    line: String,
)
    requires
        call_ensures(CbmDirListing::to_string, (&l,), whole),
        call_ensures(CbmDiskHeader::to_string, (&h,), head),
        call_ensures(CbmFileEntry::to_string, (&e,), line),
        l.header@ == h@,
        l.files@.len() == 1,
        l.files@[0]@ == e@,
    ensures
        head@ == "Drive "@ + number::decimal(h.drive_number as nat) + " Header: \""@ + h.name@
            + "\" ID: "@ + h.id@,
        whole@ == head@ + "\n"@ + (line@ + "\n"@) + "Free blocks: "@ + number::decimal(
            l.blocks_free as nat,
        ) + "\n"@,
        e matches CbmFileEntry::ValidFile { blocks, filename, file_type } ==> line@
            == "Filename: \""@ + filename@ + "."@ + file_type.name() + "\""@ + dir::spaces(
            (21 - vstd::utf8::encode_utf8(filename@).len()) as nat,
        ) + "Blocks: "@ + number::right_aligned(number::decimal(blocks as nat), 3),
{
    let all = l@.files;
    assert(all.len() == 1);
    assert(all[0] == e@);
    assert(all.drop_last() =~= Seq::empty());
    reveal_with_fuel(dir::entry_lines, 2);
    assert(dir::entry_lines(all) =~= line@ + "\n"@);
}

} // verus!

//! Directory listings of a disk.
use vstd::prelude::*;

use crate::cbmtype;
use crate::cbmtype::{CbmError, CbmErrorView, CbmFileType};
use crate::number;
use crate::number::{parse_u16, parse_u8, push_decimal, push_right_aligned};
use crate::pattern;
use crate::pattern::captures;
use crate::text;
use crate::text::{contains, lines, trim, trim_end};

verus! {

/// How many bytes of a file fit in a block of a disk.
pub const BYTES_PER_BLOCK: u64 = 254;

/// The first line of a listing, such as `   0 ."test/demo  1/85 " 8a 2a`.
pub const HEADER_PATTERN: &'static str = "^\\s*(\\d+)\\s+\\.\"([^\"]*)\" ([a-zA-Z0-9]{2})";

/// A line for a file.
pub const FILE_PATTERN: &'static str = "^\\s*(\\d+)\\s+\"([^\"]+)\"\\s+(\\w+)\\s*$";

/// The last line of a listing.
pub const BLOCKS_FREE_PATTERN: &'static str = "^\\s*(\\d+)\\s+blocks free";

/// An entry of a directory.
#[derive(Debug, PartialEq)]
pub enum CbmFileEntry {
    ValidFile { blocks: u16, filename: String, file_type: CbmFileType },
    /// A line that could not be read, with what could be made of it
    InvalidFile {
        raw_line: String,
        error: String,
        partial_blocks: Option<u16>,
        partial_filename: Option<String>,
    },
}

/// An entry of a directory, with its texts as sequences of characters.
#[verifier::ext_equal]
pub enum CbmFileEntryView {
    ValidFile { blocks: u16, filename: Seq<char>, file_type: CbmFileType },
    InvalidFile {
        raw_line: Seq<char>,
        error: Seq<char>,
        partial_blocks: Option<u16>,
        partial_filename: Option<Seq<char>>,
    },
}

impl View for CbmFileEntry {
    type V = CbmFileEntryView;

    open spec fn view(&self) -> CbmFileEntryView {
        match *self {
            CbmFileEntry::ValidFile { blocks, filename, file_type } => CbmFileEntryView::ValidFile {
                blocks,
                filename: filename@,
                file_type,
            },
            CbmFileEntry::InvalidFile {
                raw_line,
                error,
                partial_blocks,
                partial_filename,
            } => CbmFileEntryView::InvalidFile {
                raw_line: raw_line@,
                error: error@,
                partial_blocks,
                partial_filename: match partial_filename {
                    Some(s) => Some(s@),
                    None => None,
                },
            },
        }
    }
}

impl Clone for CbmFileEntry {
    fn clone(&self) -> (r: Self)
        ensures
            r == *self,
    {
        match self {
            CbmFileEntry::ValidFile { blocks, filename, file_type } => CbmFileEntry::ValidFile {
                blocks: *blocks,
                filename: filename.clone(),
                file_type: *file_type,
            },
            CbmFileEntry::InvalidFile {
                raw_line,
                error,
                partial_blocks,
                partial_filename,
            } => CbmFileEntry::InvalidFile {
                raw_line: raw_line.clone(),
                error: error.clone(),
                partial_blocks: *partial_blocks,
                partial_filename: match partial_filename {
                    Some(s) => Some(s.clone()),
                    None => None,
                },
            },
        }
    }
}

/// The first line of a listing: drive, name and ID of the disk.
#[derive(Debug, PartialEq)]
pub struct CbmDiskHeader {
    pub drive_number: u8,
    pub name: String,
    pub id: String,
}

/// The first line of a listing, with its texts as sequences of characters.
#[verifier::ext_equal]
pub struct CbmDiskHeaderView {
    pub drive_number: u8,
    pub name: Seq<char>,
    pub id: Seq<char>,
}

impl View for CbmDiskHeader {
    type V = CbmDiskHeaderView;

    open spec fn view(&self) -> CbmDiskHeaderView {
        CbmDiskHeaderView { drive_number: self.drive_number, name: self.name@, id: self.id@ }
    }
}

impl Clone for CbmDiskHeader {
    fn clone(&self) -> (r: Self)
        ensures
            r == *self,
    {
        CbmDiskHeader {
            drive_number: self.drive_number,
            name: self.name.clone(),
            id: self.id.clone(),
        }
    }
}

/// The directory of a disk.
#[derive(Debug, PartialEq)]
pub struct CbmDirListing {
    pub header: CbmDiskHeader,
    pub files: Vec<CbmFileEntry>,
    pub blocks_free: u16,
}

/// The directory of a disk, with its texts as sequences of characters.
#[verifier::ext_equal]
pub struct CbmDirListingView {
    pub header: CbmDiskHeaderView,
    pub files: Seq<CbmFileEntryView>,
    pub blocks_free: u16,
}

/// The entries of a directory.
pub open spec fn entries(files: Seq<CbmFileEntry>) -> Seq<CbmFileEntryView> {
    files.map_values(|e: CbmFileEntry| e@)
}

impl View for CbmDirListing {
    type V = CbmDirListingView;

    open spec fn view(&self) -> CbmDirListingView {
        CbmDirListingView {
            header: self.header@,
            files: entries(self.files@),
            blocks_free: self.blocks_free,
        }
    }
}

// ---------------------------------------------------------------------------
// Reading
// ---------------------------------------------------------------------------

/// The error for something in a listing that cannot be read.
pub open spec fn parse_error(what: Seq<char>, part: Seq<char>) -> CbmErrorView {
    CbmErrorView::ParseError { message: what + part }
}

/// What the first line says, from the groups that its pattern captured.
pub open spec fn header_from(line: Seq<char>, groups: Option<Seq<Seq<char>>>) -> Result<
    CbmDiskHeaderView,
    CbmErrorView,
> {
    match groups {
        Some(g) => if g.len() != 4 {
            Err(parse_error("Invalid header format: "@, line))
        } else {
            match number::number_of(g[1], 255) {
                Some(n) => Ok(
                    CbmDiskHeaderView {
                        drive_number: n as u8,
                        name: text::trimmed_end(g[2]),
                        id: g[3],
                    },
                ),
                None => Err(parse_error("Invalid drive number: "@, g[1])),
            }
        },
        None => Err(parse_error("Invalid header format: "@, line)),
    }
}

/// What a file's line says, from the groups that its pattern captured.
pub open spec fn entry_from(
    line: Seq<char>,
    groups: Option<Seq<Seq<char>>>,
) -> CbmFileEntryView {
    match groups {
        Some(g) => if g.len() != 4 {
            bad_line(line)
        } else {
            match number::number_of(text::trimmed(g[1]), 65535) {
                Some(n) => CbmFileEntryView::ValidFile {
                    blocks: n as u16,
                    filename: g[2],
                    file_type: cbmtype::file_type_of(g[3]),
                },
                None => CbmFileEntryView::InvalidFile {
                    raw_line: line,
                    error: "Invalid block count"@,
                    partial_blocks: None,
                    partial_filename: Some(g[2]),
                },
            }
        },
        None => bad_line(line),
    }
}

/// The entry for a line that is not a file's.
pub open spec fn bad_line(line: Seq<char>) -> CbmFileEntryView {
    CbmFileEntryView::InvalidFile {
        raw_line: line,
        error: "Could not parse line format"@,
        partial_blocks: None,
        partial_filename: None,
    }
}

/// What the last line says, from the groups that its pattern captured.
pub open spec fn blocks_free_from(line: Seq<char>, groups: Option<Seq<Seq<char>>>) -> Result<
    u16,
    CbmErrorView,
> {
    match groups {
        Some(g) => if g.len() != 2 {
            Err(parse_error("Invalid blocks free format: "@, line))
        } else {
            match number::number_of(g[1], 65535) {
                Some(n) => Ok(n as u16),
                None => Err(parse_error("Invalid blocks free number: "@, g[1])),
            }
        },
        None => Err(parse_error("Invalid blocks free format: "@, line)),
    }
}

/// What the first line of a listing says.
pub open spec fn header_of(line: Seq<char>) -> Result<CbmDiskHeaderView, CbmErrorView> {
    header_from(line, pattern::captures_of(HEADER_PATTERN@, line))
}

/// What a line between the first and the last says.
pub open spec fn entry_of(line: Seq<char>) -> CbmFileEntryView {
    entry_from(line, pattern::captures_of(FILE_PATTERN@, line))
}

/// What the last line of a listing says.
pub open spec fn blocks_free_of(line: Seq<char>) -> Result<u16, CbmErrorView> {
    blocks_free_from(line, pattern::captures_of(BLOCKS_FREE_PATTERN@, line))
}

/// A line that ends a listing.
pub open spec fn is_last_line(line: Seq<char>) -> bool {
    text::has_part(line, "blocks free"@)
}

/// The first line at or after `from` that ends the listing.
pub open spec fn last_line_from(lines: Seq<Seq<char>>, from: int) -> Option<int>
    decreases lines.len() - from,
{
    if from < 0 || from >= lines.len() {
        None
    } else if is_last_line(lines[from]) {
        Some(from)
    } else {
        last_line_from(lines, from + 1)
    }
}

/// The listing that lines of text stand for: a header, the files, and the line with
/// the free blocks. What follows that line is not read.
pub open spec fn listing_from(lines: Seq<Seq<char>>) -> Result<CbmDirListingView, CbmErrorView> {
    if lines.len() == 0 {
        Err(CbmErrorView::ParseError { message: "Missing header line"@ })
    } else {
        match header_of(lines[0]) {
            Err(e) => Err(e),
            Ok(header) => match last_line_from(lines, 1) {
                None => Err(CbmErrorView::ParseError { message: "Missing blocks free line"@ }),
                Some(k) => match blocks_free_of(lines[k]) {
                    Err(e) => Err(e),
                    Ok(blocks_free) => Ok(
                        CbmDirListingView {
                            header,
                            files: lines.subrange(1, k).map_values(|l: Seq<char>| entry_of(l)),
                            blocks_free,
                        },
                    ),
                },
            },
        }
    }
}

/// The listing that a text stands for.
pub open spec fn listing_of(input: Seq<char>) -> Result<CbmDirListingView, CbmErrorView> {
    listing_from(text::lines_of(input))
}

fn bad_parse(what: &str, part: &str) -> (e: CbmError)
    ensures
        e@ == parse_error(what@, part@),
{
    let mut message = what.to_owned();
    message.append(part);
    CbmError::ParseError { message }
}

/// The groups of a match, as texts.
pub open spec fn group_texts(groups: Option<Vec<String>>) -> Option<Seq<Seq<char>>> {
    match groups {
        Some(g) => Some(text::texts(g@)),
        None => None,
    }
}

impl CbmDiskHeader {
    /// Makes a header of the groups that its pattern captured in a line.
    pub fn from_groups(line: &str, groups: Option<Vec<String>>) -> (r: Result<Self, CbmError>)
        ensures
            match r {
                Ok(h) => header_from(line@, group_texts(groups)) == Ok::<
                    CbmDiskHeaderView,
                    CbmErrorView,
                >(h@),
                Err(e) => header_from(line@, group_texts(groups)) == Err::<
                    CbmDiskHeaderView,
                    CbmErrorView,
                >(e@),
            },
    {
        match groups {
            Some(g) => {
                assert(text::texts(g@).len() == g@.len());
                if g.len() != 4 {
                    return Err(bad_parse("Invalid header format: ", line));
                }
                assert(text::texts(g@)[1] == g@[1]@ && text::texts(g@)[2] == g@[2]@
                    && text::texts(g@)[3] == g@[3]@);
                match parse_u8(g[1].as_str()) {
                    Some(n) => Ok(
                        CbmDiskHeader {
                            drive_number: n,
                            name: trim_end(g[2].as_str()),
                            id: g[3].clone(),
                        },
                    ),
                    None => Err(bad_parse("Invalid drive number: ", g[1].as_str())),
                }
            },
            None => Err(bad_parse("Invalid header format: ", line)),
        }
    }

    /// Drive, name and ID.
    pub fn to_string(&self) -> (s: String)
        ensures
            s@ == self@.text(),
    {
        let mut s = "Drive ".to_owned();
        push_decimal(&mut s, self.drive_number as u64);
        s.append(" Header: \"");
        s.append(self.name.as_str());
        s.append("\" ID: ");
        s.append(self.id.as_str());
        s
    }
}

impl CbmDiskHeaderView {
    /// Drive, name and ID.
    pub open spec fn text(self) -> Seq<char> {
        "Drive "@ + number::decimal(self.drive_number as nat) + " Header: \""@ + self.name
            + "\" ID: "@ + self.id
    }
}

/// Some spaces.
pub open spec fn spaces(n: nat) -> Seq<char> {
    Seq::new(n, |i: int| ' ')
}

impl CbmFileEntryView {
    /// How many bytes the file can have at most, where its blocks are known.
    pub open spec fn size(self) -> Option<u64> {
        match self {
            CbmFileEntryView::ValidFile { blocks, .. } => Some(
                (blocks as int * BYTES_PER_BLOCK as int) as u64,
            ),
            CbmFileEntryView::InvalidFile { partial_blocks, .. } => match partial_blocks {
                Some(blocks) => Some((blocks as int * BYTES_PER_BLOCK as int) as u64),
                None => None,
            },
        }
    }

    /// The columns in front of the blocks are wide enough for the file name.
    pub open spec fn fits(self) -> bool {
        self matches CbmFileEntryView::ValidFile { filename, .. } ==> vstd::utf8::encode_utf8(
            filename,
        ).len() <= 21
    }

    /// The text of the entry.
    pub open spec fn text(self) -> Seq<char> {
        match self {
            CbmFileEntryView::ValidFile { blocks, filename, file_type } => "Filename: \""@ + filename
                + "."@ + file_type.name() + "\""@ + spaces(
                (21 - vstd::utf8::encode_utf8(filename).len()) as nat,
            ) + "Blocks: "@ + number::right_aligned(number::decimal(blocks as nat), 3),
            CbmFileEntryView::InvalidFile {
                raw_line,
                error,
                partial_blocks,
                partial_filename,
            } => {
                let head = "Invalid entry: "@ + raw_line + " ("@ + error + ")"@;
                let named = match partial_filename {
                    Some(f) => head + " [Filename: \""@ + f + "\"]"@,
                    None => head,
                };
                match partial_blocks {
                    Some(b) => named + " [Blocks: "@ + number::decimal(b as nat) + "]"@,
                    None => named,
                }
            },
        }
    }
}

impl CbmFileEntry {
    /// Makes an entry of the groups that its pattern captured in a line.
    pub fn from_groups(line: &str, groups: Option<Vec<String>>) -> (r: Self)
        ensures
            r@ == entry_from(line@, group_texts(groups)),
    {
        match groups {
            Some(g) => {
                assert(text::texts(g@).len() == g@.len());
                if g.len() != 4 {
                    return CbmFileEntry::bad_line(line);
                }
                assert(text::texts(g@)[1] == g@[1]@ && text::texts(g@)[2] == g@[2]@
                    && text::texts(g@)[3] == g@[3]@);
                match parse_u16(trim(g[1].as_str()).as_str()) {
                    Some(n) => CbmFileEntry::ValidFile {
                        blocks: n,
                        filename: g[2].clone(),
                        file_type: CbmFileType::from_text(g[3].as_str()),
                    },
                    None => CbmFileEntry::InvalidFile {
                        raw_line: line.to_owned(),
                        error: "Invalid block count".to_owned(),
                        partial_blocks: None,
                        partial_filename: Some(g[2].clone()),
                    },
                }
            },
            None => CbmFileEntry::bad_line(line),
        }
    }

    fn bad_line(line: &str) -> (r: Self)
        ensures
            r@ == bad_line(line@),
    {
        CbmFileEntry::InvalidFile {
            raw_line: line.to_owned(),
            error: "Could not parse line format".to_owned(),
            partial_blocks: None,
            partial_filename: None,
        }
    }

    /// How many bytes the file can have at most, where its blocks are known.
    pub fn max_size(&self) -> (r: Option<u64>)
        ensures
            r == self@.size(),
    {
        match self {
            CbmFileEntry::ValidFile { blocks, .. } => Some(*blocks as u64 * BYTES_PER_BLOCK),
            CbmFileEntry::InvalidFile { partial_blocks, .. } => match partial_blocks {
                Some(blocks) => Some(*blocks as u64 * BYTES_PER_BLOCK),
                None => None,
            },
        }
    }

    /// The text of the entry.
    pub fn to_string(&self) -> (s: String)
        requires
            self@.fits(),
        ensures
            s@ == self@.text(),
    {
        match self {
            CbmFileEntry::ValidFile { blocks, filename, file_type } => {
                let mut s = "Filename: \"".to_owned();
                s.append(filename.as_str());
                s.append(".");
                s.append(file_type.as_str());
                s.append("\"");
                let ghost head = s@;
                let len: usize = filename.as_str().len();
                let width: usize = 21 - len;
                let mut k: usize = 0;
                assert(head + spaces(0) =~= head);
                while k < width
                    invariant
                        k <= width,
                        s@ == head + spaces(k as nat),
                    decreases width - k,
                {
                    s.push(' ');
                    k = k + 1;
                    assert(s@ =~= head + spaces(k as nat));
                }
                s.append("Blocks: ");
                push_right_aligned(&mut s, *blocks as u64, 3);
                s
            },
            CbmFileEntry::InvalidFile { raw_line, error, partial_blocks, partial_filename } => {
                let mut s = "Invalid entry: ".to_owned();
                s.append(raw_line.as_str());
                s.append(" (");
                s.append(error.as_str());
                s.append(")");
                if let Some(filename) = partial_filename {
                    s.append(" [Filename: \"");
                    s.append(filename.as_str());
                    s.append("\"]");
                }
                if let Some(blocks) = partial_blocks {
                    s.append(" [Blocks: ");
                    push_decimal(&mut s, *blocks as u64);
                    s.append("]");
                }
                s
            },
        }
    }
}

/// How many blocks the files of a directory take up that could be read.
pub open spec fn used_blocks(files: Seq<CbmFileEntryView>) -> nat
    decreases files.len(),
{
    if files.len() == 0 {
        0
    } else {
        used_blocks(files.drop_last()) + match files.last() {
            CbmFileEntryView::ValidFile { blocks, .. } => blocks as nat,
            CbmFileEntryView::InvalidFile { .. } => 0,
        }
    }
}

/// The texts of entries, each on a line of its own.
pub open spec fn entry_lines(files: Seq<CbmFileEntryView>) -> Seq<char>
    decreases files.len(),
{
    if files.len() == 0 {
        Seq::empty()
    } else {
        entry_lines(files.drop_last()) + files.last().text() + "\n"@
    }
}

impl CbmDirListingView {
    /// How many blocks the disk has in all, where that fits in sixteen bits.
    pub open spec fn total(self) -> nat {
        used_blocks(self.files) + self.blocks_free as nat
    }

    /// Every entry fits in its line.
    pub open spec fn fits(self) -> bool {
        forall|i: int| 0 <= i < self.files.len() ==> (#[trigger] self.files[i]).fits()
    }

    /// The text of the listing.
    pub open spec fn text(self) -> Seq<char> {
        self.header.text() + "\n"@ + entry_lines(self.files) + "Free blocks: "@ + number::decimal(
            self.blocks_free as nat,
        ) + "\n"@
    }
}

proof fn lemma_used_blocks_grow(files: Seq<CbmFileEntryView>, i: int)
    requires
        0 <= i <= files.len(),
    ensures
        used_blocks(files.take(i)) <= used_blocks(files),
    decreases files.len() - i,
{
    if i < files.len() {
        lemma_used_blocks_grow(files, i + 1);
        assert(files.take(i + 1).drop_last() =~= files.take(i));
    } else {
        assert(files.take(i) =~= files);
    }
}

impl CbmDirListing {
    /// Reads a listing.
    pub fn parse(input: &str) -> (r: Result<Self, CbmError>)
        ensures
            match r {
                Ok(l) => listing_of(input@) == Ok::<CbmDirListingView, CbmErrorView>(l@),
                Err(e) => listing_of(input@) == Err::<CbmDirListingView, CbmErrorView>(e@),
            },
    {
        let all = lines(input);
        let ghost texts = text::texts(all@);
        assert(texts.len() == all@.len());
        if all.len() == 0 {
            return Err(CbmError::ParseError { message: "Missing header line".to_owned() });
        }
        assert(texts[0] == all@[0]@);
        let header = match CbmDirListing::parse_header(all[0].as_str()) {
            Ok(h) => h,
            Err(e) => return Err(e),
        };
        let mut files: Vec<CbmFileEntry> = Vec::new();
        let mut i: usize = 1;
        assert(entries(files@) =~= texts.subrange(1, 1).map_values(|l: Seq<char>| entry_of(l)));
        while i < all.len()
            invariant
                1 <= i <= all@.len(),
                texts == text::texts(all@),
                texts == text::lines_of(input@),
                header_of(texts[0]) == Ok::<CbmDiskHeaderView, CbmErrorView>(header@),
                entries(files@) == texts.subrange(1, i as int).map_values(
                    |l: Seq<char>| entry_of(l),
                ),
                last_line_from(texts, 1) == last_line_from(texts, i as int),
            decreases all@.len() - i,
        {
            assert(texts[i as int] == all@[i as int]@);
            let line = all[i].as_str();
            if contains(line, "blocks free") {
                match CbmDirListing::parse_blocks_free(line) {
                    Ok(blocks_free) => {
                        return Ok(CbmDirListing { header, files, blocks_free });
                    },
                    Err(e) => {
                        return Err(e);
                    },
                }
            }
            let entry = CbmDirListing::parse_file_entry(line);
            let ghost before = files@;
            files.push(entry);
            assert(entries(files@) =~= entries(before).push(entry@));
            assert(texts.subrange(1, i + 1) =~= texts.subrange(1, i as int).push(texts[i as int]));
            assert(entries(files@) =~= texts.subrange(1, i + 1).map_values(
                |l: Seq<char>| entry_of(l),
            ));
            i = i + 1;
        }
        Err(CbmError::ParseError { message: "Missing blocks free line".to_owned() })
    }

    /// Reads the first line of a listing.
    pub fn parse_header(line: &str) -> (r: Result<CbmDiskHeader, CbmError>)
        ensures
            match r {
                Ok(h) => header_of(line@) == Ok::<CbmDiskHeaderView, CbmErrorView>(h@),
                Err(e) => header_of(line@) == Err::<CbmDiskHeaderView, CbmErrorView>(e@),
            },
    {
        CbmDiskHeader::from_groups(line, captures(HEADER_PATTERN, line))
    }

    /// Reads a line for a file.
    pub fn parse_file_entry(line: &str) -> (r: CbmFileEntry)
        ensures
            r@ == entry_of(line@),
    {
        CbmFileEntry::from_groups(line, captures(FILE_PATTERN, line))
    }

    /// Reads the last line of a listing.
    pub fn parse_blocks_free(line: &str) -> (r: Result<u16, CbmError>)
        ensures
            match r {
                Ok(n) => blocks_free_of(line@) == Ok::<u16, CbmErrorView>(n),
                Err(e) => blocks_free_of(line@) == Err::<u16, CbmErrorView>(e@),
            },
    {
        CbmDirListing::blocks_free_from_groups(line, captures(BLOCKS_FREE_PATTERN, line))
    }

    /// Takes the number of free blocks from the groups that the pattern of the last
    /// line captured.
    pub fn blocks_free_from_groups(line: &str, groups: Option<Vec<String>>) -> (r: Result<
        u16,
        CbmError,
    >)
        ensures
            match r {
                Ok(n) => blocks_free_from(line@, group_texts(groups)) == Ok::<u16, CbmErrorView>(n),
                Err(e) => blocks_free_from(line@, group_texts(groups)) == Err::<u16, CbmErrorView>(
                    e@,
                ),
            },
    {
        match groups {
            Some(g) => {
                assert(text::texts(g@).len() == g@.len());
                if g.len() != 2 {
                    return Err(bad_parse("Invalid blocks free format: ", line));
                }
                assert(text::texts(g@)[1] == g@[1]@);
                match parse_u16(g[1].as_str()) {
                    Some(n) => Ok(n),
                    None => Err(bad_parse("Invalid blocks free number: ", g[1].as_str())),
                }
            },
            None => Err(bad_parse("Invalid blocks free format: ", line)),
        }
    }

    /// How many entries the directory has.
    pub fn num_files(&self) -> (n: usize)
        ensures
            n == self.files@.len(),
    {
        self.files.len()
    }

    /// How many blocks the files take up that could be read, or nothing where the
    /// sum does not fit in sixteen bits.
    pub fn checked_blocks_used(&self) -> (r: Option<u16>)
        ensures
            match r {
                Some(n) => n == used_blocks(self@.files),
                None => used_blocks(self@.files) > 65535,
            },
    {
        let ghost all = self@.files;
        let mut sum: u16 = 0;
        let mut i: usize = 0;
        assert(all.take(0) =~= Seq::empty());
        while i < self.files.len()
            invariant
                i <= self.files@.len(),
                all == entries(self.files@),
                sum == used_blocks(all.take(i as int)),
            decreases self.files@.len() - i,
        {
            assert(all.take(i + 1).drop_last() =~= all.take(i as int));
            assert(all.take(i + 1).last() == self.files@[i as int]@);
            if let CbmFileEntry::ValidFile { blocks, .. } = &self.files[i] {
                if sum > 65535 - *blocks {
                    proof {
                        lemma_used_blocks_grow(all, i + 1);
                    }
                    return None;
                }
                sum = sum + *blocks;
            }
            i = i + 1;
        }
        assert(all.take(i as int) =~= all);
        Some(sum)
    }

    /// How many blocks the files take up that could be read.
    pub fn num_blocks_used_valid(&self) -> (n: u16)
        requires
            used_blocks(self@.files) <= 65535,
        ensures
            n == used_blocks(self@.files),
    {
        match self.checked_blocks_used() {
            Some(n) => n,
            None => 0,
        }
    }

    /// How many blocks the disk has in all: used and free.
    pub fn total_blocks(&self) -> (n: u16)
        requires
            self@.total() <= 65535,
        ensures
            n == self@.total(),
    {
        self.num_blocks_used_valid() + self.blocks_free
    }

    /// The text of the listing.
    pub fn to_string(&self) -> (s: String)
        requires
            self@.fits(),
        ensures
            s@ == self@.text(),
    {
        let ghost all = self@.files;
        let mut s = self.header.to_string();
        s.append("\n");
        let ghost head = s@;
        let mut i: usize = 0;
        assert(all.take(0) =~= Seq::empty());
        assert(head + entry_lines(all.take(0)) =~= head);
        while i < self.files.len()
            invariant
                self@.fits(),
                i <= self.files@.len(),
                all == self@.files,
                s@ == head + entry_lines(all.take(i as int)),
            decreases self.files@.len() - i,
        {
            assert(all[i as int] == self.files@[i as int]@);
            assert(all.take(i + 1).drop_last() =~= all.take(i as int));
            let line = self.files[i].to_string();
            s.append(line.as_str());
            s.append("\n");
            assert(s@ =~= head + entry_lines(all.take(i + 1)));
            i = i + 1;
        }
        assert(all.take(i as int) =~= all);
        s.append("Free blocks: ");
        push_decimal(&mut s, self.blocks_free as u64);
        s.append("\n");
        assert(s@ =~= self@.text());
        s
    }
}

} // verus!

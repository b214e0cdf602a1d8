//! Inodes: every file of a mount gets a number of its own.
use vstd::prelude::*;

use crate::server::file;
use crate::server::file::{DiskInfo, DiskInfoView, FileEntry, FileEntryView, FUSE_ROOT_ID};

verus! {

/// The first inode of a file. Those below are for the directories of the drives.
pub const FIRST_FILE_INO: u64 = 256;

/// The inode of the directory of a drive.
pub open spec fn drive_ino(drive_num: u8) -> u64 {
    (drive_num + FUSE_ROOT_ID + 1) as u64
}

/// The inode of the directory of a drive.
pub fn get_drive_ino(drive_num: u8) -> (r: u64)
    ensures
        r == drive_ino(drive_num),
{
    drive_num as u64 + FUSE_ROOT_ID + 1
}

/// The inodes of files.
pub open spec fn inos(files: Seq<FileEntryView>) -> Seq<u64> {
    files.map_values(|f: FileEntryView| f.ino)
}

/// How many of the inodes are missing.
pub open spec fn missing(s: Seq<u64>) -> nat
    decreases s.len(),
{
    if s.len() == 0 {
        0
    } else {
        missing(s.drop_last()) + (if s.last() == 0 {
            1nat
        } else {
            0nat
        })
    }
}

/// The inodes with the missing ones filled in, in order, from a number on.
pub open spec fn filled(s: Seq<u64>, next: int) -> Seq<u64> {
    Seq::new(
        s.len(),
        |i: int|
            if s[i] == 0 {
                (next + missing(s.take(i))) as u64
            } else {
                s[i]
            },
    )
}

/// Files with the inodes that they lack, in order, from a number on.
pub open spec fn numbered(files: Seq<FileEntryView>, next: int) -> Seq<FileEntryView> {
    Seq::new(
        files.len(),
        |i: int| FileEntryView { ino: filled(inos(files), next)[i], ..files[i] },
    )
}

/// How many files of a disk lack an inode.
pub open spec fn disk_missing(d: DiskInfoView) -> nat {
    missing(inos(d.control_files)) + missing(inos(d.cbm_files))
}

/// A disk whose files have inodes, from a number on, and whose directory has its own.
pub open spec fn numbered_disk(d: DiskInfoView, next: int) -> DiskInfoView {
    DiskInfoView {
        control_files: numbered(d.control_files, next),
        cbm_files: numbered(d.cbm_files, next + missing(inos(d.control_files))),
        disk_dir: match d.disk_dir {
            Some(f) => if f.ino == 0 {
                Some(FileEntryView { ino: drive_ino(d.drive_num), ..f })
            } else {
                Some(f)
            },
            None => None,
        },
        ..d
    }
}

/// The inodes of all files of all disks.
pub open spec fn all_inos(disks: Seq<DiskInfoView>) -> Seq<u64>
    decreases disks.len(),
{
    if disks.len() == 0 {
        Seq::empty()
    } else {
        all_inos(disks.drop_last()) + (inos(disks.last().control_files) + inos(
            disks.last().cbm_files,
        ))
    }
}

/// Disks whose files have inodes, from a number on.
pub open spec fn numbered_disks(disks: Seq<DiskInfoView>, next: int) -> Seq<DiskInfoView>
    decreases disks.len(),
{
    if disks.len() == 0 {
        Seq::empty()
    } else {
        numbered_disks(disks.drop_last(), next).push(
            numbered_disk(disks.last(), next + missing(all_inos(disks.drop_last()))),
        )
    }
}

/// The inodes are in range and no two are the same, but for those that are missing.
pub open spec fn partly_ok(s: Seq<u64>, next: int) -> bool {
    &&& forall|i: int|
        0 <= i < s.len() ==> #[trigger] s[i] == 0 || FIRST_FILE_INO <= s[i] < next
    &&& forall|i: int, j: int|
        0 <= i < j < s.len() && #[trigger] s[i] != 0 ==> s[i] != #[trigger] s[j]
}

/// The inodes are in range, no two are the same, and none is missing.
pub open spec fn inos_ok(s: Seq<u64>, next: int) -> bool {
    &&& forall|i: int| 0 <= i < s.len() ==> FIRST_FILE_INO <= #[trigger] s[i] < next
    &&& forall|i: int, j: int| 0 <= i < j < s.len() ==> #[trigger] s[i] != #[trigger] s[j]
}

/// The views of disks.
pub open spec fn disk_views(disks: Seq<DiskInfo>) -> Seq<DiskInfoView> {
    disks.map_values(|d: DiskInfo| d@)
}

// ---------------------------------------------------------------------------
// Filling in
// ---------------------------------------------------------------------------

/// What is missing of two lists is missing of both.
pub proof fn lemma_missing_add(a: Seq<u64>, b: Seq<u64>)
    ensures
        missing(a + b) == missing(a) + missing(b),
    decreases b.len(),
{
    if b.len() == 0 {
        assert(a + b =~= a);
    } else {
        lemma_missing_add(a, b.drop_last());
        assert((a + b).drop_last() =~= a + b.drop_last());
    }
}

proof fn lemma_missing_take(s: Seq<u64>, i: int)
    requires
        0 <= i <= s.len(),
    ensures
        missing(s.take(i)) <= missing(s),
        i < s.len() && s[i] == 0 ==> missing(s.take(i)) + 1 <= missing(s),
{
    lemma_missing_add(s.take(i), s.skip(i));
    assert(s.take(i) + s.skip(i) =~= s);
    if i < s.len() && s[i] == 0 {
        assert(s.skip(i) =~= seq![0u64] + s.skip(i + 1));
        lemma_missing_add(seq![0u64], s.skip(i + 1));
        assert(seq![0u64].drop_last() =~= Seq::empty());
        assert(missing(Seq::<u64>::empty()) == 0);
        assert(missing(seq![0u64]) == 1);
    }
}

proof fn lemma_missing_between(s: Seq<u64>, i: int, j: int)
    requires
        0 <= i < j <= s.len(),
        s[i] == 0,
    ensures
        missing(s.take(i)) < missing(s.take(j)),
{
    lemma_missing_take(s.take(j), i);
    assert(s.take(j).take(i) =~= s.take(i));
}

/// To fill two lists in is to fill one in after the other.
pub proof fn lemma_filled_add(a: Seq<u64>, b: Seq<u64>, next: int)
    ensures
        filled(a + b, next) == filled(a, next) + filled(b, next + missing(a)),
{
    let s = a + b;
    assert forall|i: int| 0 <= i < s.len() implies #[trigger] filled(s, next)[i] == (filled(a, next)
        + filled(b, next + missing(a)))[i] by {
        if i < a.len() {
            assert(s.take(i) =~= a.take(i));
        } else {
            assert(s.take(i) =~= a + b.take(i - a.len()));
            lemma_missing_add(a, b.take(i - a.len()));
        }
    }
    assert(filled(s, next) =~= filled(a, next) + filled(b, next + missing(a)));
}

/// What is filled in leaves nothing missing, and no two the same.
pub proof fn lemma_filled_ok(s: Seq<u64>, next: int)
    requires
        partly_ok(s, next),
        FIRST_FILE_INO <= next,
        next + missing(s) <= u64::MAX + 1,
    ensures
        inos_ok(filled(s, next), next + missing(s)),
{
    let t = filled(s, next);
    assert forall|i: int| 0 <= i < t.len() implies FIRST_FILE_INO <= #[trigger] t[i] < next
        + missing(s) by {
        assert(s[i] == s[i]);
        lemma_missing_take(s, i);
    }
    assert forall|i: int, j: int| 0 <= i < j < t.len() implies #[trigger] t[i] != #[trigger] t[j] by {
        lemma_missing_take(s, i);
        lemma_missing_take(s, j);
        if s[i] == 0 && s[j] == 0 {
            lemma_missing_between(s, i, j);
        } else {
            assert(s[i] != 0 || s[j] != 0);
        }
    }
}

proof fn lemma_numbered_inos(files: Seq<FileEntryView>, next: int)
    ensures
        inos(numbered(files, next)) == filled(inos(files), next),
{
    assert(inos(numbered(files, next)) =~= filled(inos(files), next));
}

/// The inodes of numbered disks are those of the disks, filled in.
pub proof fn lemma_numbered_disks(disks: Seq<DiskInfoView>, next: int)
    ensures
        all_inos(numbered_disks(disks, next)) == filled(all_inos(disks), next),
        numbered_disks(disks, next).len() == disks.len(),
        forall|i: int|
            0 <= i < disks.len() ==> (#[trigger] numbered_disks(disks, next)[i]) == numbered_disk(
                disks[i],
                next + missing(all_inos(disks.take(i))),
            ),
    decreases disks.len(),
{
    if disks.len() == 0 {
        assert(all_inos(numbered_disks(disks, next)) =~= filled(all_inos(disks), next));
    } else {
        let before = disks.drop_last();
        lemma_numbered_disks(before, next);
        let last = disks.last();
        let start = next + missing(all_inos(before));
        let after = numbered_disks(disks, next);
        assert(after.drop_last() =~= numbered_disks(before, next));
        assert(after.last() == numbered_disk(last, start));
        let a = inos(last.control_files);
        let b = inos(last.cbm_files);
        lemma_numbered_inos(last.control_files, start);
        lemma_numbered_inos(last.cbm_files, start + missing(a));
        lemma_filled_add(a, b, start);
        lemma_filled_add(all_inos(before), a + b, next);
        assert forall|i: int| 0 <= i < disks.len() implies (#[trigger] after[i]) == numbered_disk(
            disks[i],
            next + missing(all_inos(disks.take(i))),
        ) by {
            if i < before.len() {
                assert(after[i] == numbered_disks(before, next)[i]);
                assert(before.take(i) =~= disks.take(i));
            } else {
                assert(disks.take(i) =~= before);
            }
        }
    }
}

/// The inodes of disks one after another are those of the first, then of the rest.
pub proof fn lemma_all_inos_add(a: Seq<DiskInfoView>, b: Seq<DiskInfoView>)
    ensures
        all_inos(a + b) == all_inos(a) + all_inos(b),
    decreases b.len(),
{
    if b.len() == 0 {
        assert(a + b =~= a);
        assert(all_inos(a) + all_inos(b) =~= all_inos(a));
    } else {
        lemma_all_inos_add(a, b.drop_last());
        assert((a + b).drop_last() =~= a + b.drop_last());
        let last = inos(b.last().control_files) + inos(b.last().cbm_files);
        assert((all_inos(a) + all_inos(b.drop_last())) + last =~= all_inos(a) + (all_inos(
            b.drop_last(),
        ) + last));
    }
}

/// Inodes that are in order stay so where some of them are replaced by missing ones.
pub proof fn lemma_partly_ok_replaced(
    x: Seq<u64>,
    y: Seq<u64>,
    z: Seq<u64>,
    w: Seq<u64>,
    next: int,
)
    requires
        partly_ok(x + y + z, next),
        forall|i: int| 0 <= i < w.len() ==> #[trigger] w[i] == 0,
    ensures
        partly_ok(x + w + z, next),
{
    let s = x + y + z;
    let t = x + w + z;
    assert forall|i: int| 0 <= i < t.len() implies #[trigger] t[i] == 0 || FIRST_FILE_INO <= t[i]
        < next by {
        if i < x.len() {
            assert(t[i] == s[i]);
        } else if i < x.len() + w.len() {
            assert(t[i] == w[i - x.len()]);
        } else {
            assert(t[i] == s[i - w.len() + y.len()]);
        }
    }
    assert forall|i: int, j: int| 0 <= i < j < t.len() && #[trigger] t[i] != 0 implies t[i]
        != #[trigger] t[j] by {
        let p = if i < x.len() {
            i
        } else {
            i - w.len() + y.len()
        };
        let q = if j < x.len() {
            j
        } else {
            j - w.len() + y.len()
        };
        if x.len() <= i < x.len() + w.len() {
            assert(t[i] == w[i - x.len()]);
        } else {
            assert(t[i] == s[p]);
            if x.len() <= j < x.len() + w.len() {
                assert(t[j] == w[j - x.len()]);
            } else {
                assert(t[j] == s[q]);
            }
        }
    }
}

// ---------------------------------------------------------------------------
// Numbering
// ---------------------------------------------------------------------------

/// Gives the files that lack an inode one, from a number on, and says which number is
/// next.
pub fn number_files(files: &mut Vec<FileEntry>, next: u64) -> (n: u64)
    requires
        next + missing(inos(file::file_views(old(files)@))) <= u64::MAX,
    ensures
        file::file_views(final(files)@) == numbered(file::file_views(old(files)@), next as int),
        n == next + missing(inos(file::file_views(old(files)@))),
{
    let ghost all = file::file_views(files@);
    let ghost done = numbered(all, next as int);
    let ghost nums = inos(all);
    let mut n: u64 = next;
    let mut i: usize = 0;
    assert(nums.take(0) =~= Seq::empty());
    while i < files.len()
        invariant
            i <= files@.len(),
            files@.len() == all.len(),
            done == numbered(all, next as int),
            nums == inos(all),
            next + missing(nums) <= u64::MAX,
            n == next + missing(nums.take(i as int)),
            forall|j: int| 0 <= j < i ==> (#[trigger] files@[j])@ == done[j],
            forall|j: int| i <= j < files@.len() ==> (#[trigger] files@[j])@ == all[j],
        decreases files@.len() - i,
    {
        proof {
            assert(files@[i as int]@ == all[i as int]);
            assert(nums.take(i + 1).drop_last() =~= nums.take(i as int));
            lemma_missing_take(nums, i as int);
        }
        if files[i].inode() == 0 {
            files[i].set_inode(n);
            n = n + 1;
        }
        assert(files@[i as int]@ == done[i as int]);
        i = i + 1;
    }
    assert(nums.take(i as int) =~= nums);
    assert(file::file_views(files@) =~= done);
    n
}

/// Gives the files of a disk that lack an inode one, and its directory its own.
pub fn number_disk(disk: &mut DiskInfo, next: u64) -> (n: u64)
    requires
        next + disk_missing(old(disk)@) <= u64::MAX,
    ensures
        final(disk)@ == numbered_disk(old(disk)@, next as int),
        n == next + disk_missing(old(disk)@),
{
    let n: u64 = number_files(&mut disk.control_files, next);
    let n: u64 = number_files(&mut disk.cbm_files, n);
    match disk.disk_dir.take() {
        Some(dir) => {
            let mut dir = dir;
            if dir.inode() == 0 {
                dir.set_inode(get_drive_ino(disk.drive_num));
            }
            disk.disk_dir = Some(dir);
        },
        None => {},
    }
    n
}

proof fn lemma_missing_disks(disks: Seq<DiskInfoView>, i: int)
    requires
        0 <= i < disks.len(),
    ensures
        missing(all_inos(disks.take(i + 1))) == missing(all_inos(disks.take(i))) + disk_missing(
            disks[i],
        ),
        missing(all_inos(disks.take(i + 1))) <= missing(all_inos(disks)),
{
    assert(disks.take(i + 1).drop_last() =~= disks.take(i));
    let d = disks[i];
    lemma_missing_add(inos(d.control_files), inos(d.cbm_files));
    lemma_missing_add(all_inos(disks.take(i)), inos(d.control_files) + inos(d.cbm_files));
    assert(disks.take(i + 1) + disks.skip(i + 1) =~= disks);
    lemma_all_inos_add(disks.take(i + 1), disks.skip(i + 1));
    lemma_missing_add(all_inos(disks.take(i + 1)), all_inos(disks.skip(i + 1)));
}

/// Gives the files of all disks that lack an inode one, and the directories their own.
pub fn number_disks(disks: &mut Vec<DiskInfo>, next: u64) -> (n: u64)
    requires
        next + missing(all_inos(disk_views(old(disks)@))) <= u64::MAX,
    ensures
        disk_views(final(disks)@) == numbered_disks(disk_views(old(disks)@), next as int),
        n == next + missing(all_inos(disk_views(old(disks)@))),
{
    let ghost all = disk_views(disks@);
    let mut n: u64 = next;
    let mut i: usize = 0;
    assert(all.take(0) =~= Seq::empty());
    while i < disks.len()
        invariant
            i <= disks@.len(),
            disks@.len() == all.len(),
            next + missing(all_inos(all)) <= u64::MAX,
            n == next + missing(all_inos(all.take(i as int))),
            disk_views(disks@).take(i as int) == numbered_disks(all.take(i as int), next as int),
            forall|j: int| i <= j < disks@.len() ==> (#[trigger] disks@[j])@ == all[j],
        decreases disks@.len() - i,
    {
        let ghost before = disks@;
        proof {
            assert(disks@[i as int]@ == all[i as int]);
            lemma_missing_disks(all, i as int);
        }
        n = number_disk(&mut disks[i], n);
        proof {
            assert(all.take(i + 1).drop_last() =~= all.take(i as int));
            assert(disk_views(disks@).take(i + 1) =~= disk_views(before).take(i as int).push(
                disks@[i as int]@,
            ));
            assert(disk_views(disks@).take(i + 1) =~= numbered_disks(
                all.take(i + 1),
                next as int,
            ));
        }
        i = i + 1;
    }
    assert(all.take(i as int) =~= all);
    assert(disk_views(disks@).take(i as int) =~= disk_views(disks@));
    n
}

// ---------------------------------------------------------------------------
// Laws
// ---------------------------------------------------------------------------

/// The inodes are below a number, and no two are the same, but for those that are missing.
pub open spec fn distinct_below(s: Seq<u64>, next: int) -> bool {
    &&& forall|i: int| 0 <= i < s.len() ==> #[trigger] s[i] < next
    &&& forall|i: int, j: int|
        0 <= i < j < s.len() && #[trigger] s[i] != 0 ==> s[i] != #[trigger] s[j]
}

proof fn lemma_filled_distinct(s: Seq<u64>, next: int)
    requires
        distinct_below(s, next),
        0 < next,
        next + missing(s) <= u64::MAX + 1,
    ensures
        distinct_below(filled(s, next), next + missing(s)),
        forall|i: int| 0 <= i < s.len() ==> #[trigger] filled(s, next)[i] != 0,
        forall|i: int|
            0 <= i < s.len() && s[i] != 0 ==> #[trigger] filled(s, next)[i] == s[i],
{
    let t = filled(s, next);
    assert forall|i: int| 0 <= i < t.len() implies #[trigger] t[i] < next + missing(s) && t[i] != 0 by {
        assert(s[i] < next);
        lemma_missing_take(s, i);
    }
    assert forall|i: int, j: int| 0 <= i < j < t.len() && #[trigger] t[i] != 0 implies t[i]
        != #[trigger] t[j] by {
        assert(s[i] < next && s[j] < next);
        lemma_missing_take(s, i);
        lemma_missing_take(s, j);
        if s[i] == 0 && s[j] == 0 {
            lemma_missing_between(s, i, j);
        }
    }
}

proof fn lemma_nothing_missing(s: Seq<u64>)
    requires
        forall|i: int| 0 <= i < s.len() ==> #[trigger] s[i] != 0,
    ensures
        missing(s) == 0,
    decreases s.len(),
{
    if s.len() > 0 {
        assert(s.last() == s[s.len() - 1]);
        assert forall|i: int| 0 <= i < s.drop_last().len() implies #[trigger] s.drop_last()[i]
            != 0 by {
            assert(s.drop_last()[i] == s[i]);
        }
        lemma_nothing_missing(s.drop_last());
    }
}

proof fn lemma_numbered_again(files: Seq<FileEntryView>, next: int)
    requires
        forall|i: int| 0 <= i < files.len() ==> (#[trigger] files[i]).ino != 0,
    ensures
        numbered(files, next) == files,
{
    let again = numbered(files, next);
    assert forall|i: int| 0 <= i < files.len() implies #[trigger] again[i] == files[i] by {
        assert(inos(files)[i] == files[i].ino);
    }
    assert(again =~= files);
}

proof fn lemma_no_inode_missing(disks: Seq<DiskInfoView>, k: int)
    requires
        forall|i: int| 0 <= i < all_inos(disks).len() ==> #[trigger] all_inos(disks)[i] != 0,
        0 <= k < disks.len(),
    ensures
        forall|j: int|
            0 <= j < disks[k].control_files.len() ==> (#[trigger] disks[k].control_files[j]).ino
                != 0,
        forall|j: int|
            0 <= j < disks[k].cbm_files.len() ==> (#[trigger] disks[k].cbm_files[j]).ino != 0,
{
    let all = all_inos(disks);
    let start = all_inos(disks.take(k));
    let a = inos(disks[k].control_files);
    let b = inos(disks[k].cbm_files);
    let rest = all_inos(disks.skip(k + 1));
    assert(disks.take(k + 1).drop_last() =~= disks.take(k));
    assert(disks.take(k + 1) + disks.skip(k + 1) =~= disks);
    lemma_all_inos_add(disks.take(k + 1), disks.skip(k + 1));
    assert(all == start + (a + b) + rest);
    assert forall|j: int| 0 <= j < disks[k].control_files.len() implies (
    #[trigger] disks[k].control_files[j]).ino != 0 by {
        assert(all[start.len() + j] == a[j]);
    }
    assert forall|j: int| 0 <= j < disks[k].cbm_files.len() implies (
    #[trigger] disks[k].cbm_files[j]).ino != 0 by {
        assert(all[start.len() + a.len() + j] == b[j]);
    }
}

/// To number the files of the disks gives each that lacked an inode one of its own, and keeps
/// all others: no inode is missing after that, no two are the same, all are below the next
/// one, and the next one has grown by as many as were missing. A directory without an inode
/// gets that of its drive. To number the files again changes nothing.
pub proof fn law_numbering(disks: Seq<DiskInfoView>, next: u64)
    requires
        FIRST_FILE_INO <= next,
        distinct_below(all_inos(disks), next as int),
        next + missing(all_inos(disks)) <= u64::MAX,
    ensures
        ({
            let before = all_inos(disks);
            let after = numbered_disks(disks, next as int);
            let then = next + missing(before);
            &&& all_inos(after).len() == before.len()
            &&& forall|i: int| 0 <= i < before.len() ==> #[trigger] all_inos(after)[i] != 0
            &&& forall|i: int|
                0 <= i < before.len() && before[i] != 0 ==> #[trigger] all_inos(after)[i]
                    == before[i]
            &&& distinct_below(all_inos(after), then)
            &&& forall|k: int|
                0 <= k < disks.len() ==> (match disks[k].disk_dir {
                    Some(f) => (#[trigger] after[k]).disk_dir == Some(
                        FileEntryView {
                            ino: if f.ino == 0 {
                                (disks[k].drive_num + 2) as u64
                            } else {
                                f.ino
                            },
                            ..f
                        },
                    ),
                    None => after[k].disk_dir is None,
                })
            &&& missing(all_inos(after)) == 0
            &&& numbered_disks(after, then) == after
        }),
{
    let before = all_inos(disks);
    let after = numbered_disks(disks, next as int);
    let then = next + missing(before);
    lemma_numbered_disks(disks, next as int);
    lemma_filled_distinct(before, next as int);
    lemma_nothing_missing(all_inos(after));
    lemma_numbered_disks(after, then);
    let again = numbered_disks(after, then);
    assert forall|k: int| 0 <= k < after.len() implies #[trigger] again[k] == after[k] by {
        lemma_no_inode_missing(after, k);
        let start = then + missing(all_inos(after.take(k)));
        let d = after[k];
        lemma_numbered_again(d.control_files, start);
        lemma_numbered_again(d.cbm_files, start + missing(inos(d.control_files)));
        assert(after[k] == numbered_disk(
            disks[k],
            next + missing(all_inos(disks.take(k))),
        ));
    }
    assert(again =~= after);
}

} // verus!

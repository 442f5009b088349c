//! Backups of the database: how they are named and which of them are kept.

use crate::error::AppError;
use crate::text::concat;
use vstd::prelude::*;
use vstd::set_lib::{lemma_int_range, lemma_map_size, lemma_subset_equality, set_int_range};

verus! {

/// The directory that backups are written to.
pub const BACKUP_DIR: &'static str = "backups";

/// The number of backups that are kept: a week of daily ones.
pub const MAX_BACKUPS: usize = 7;

/// The time between two backups, in seconds: 24 hours.
pub const BACKUP_INTERVAL_SECS: u64 = 86400;

/// A time in UTC written as year, month, day, an underscore, hour, minute
/// and second, as chrono's `format` writes it for `%Y%m%d_%H%M%S`; `None`
/// for a time that chrono cannot represent.
pub uninterp spec fn backup_stamp_of(secs: i64) -> Option<Seq<char>>;

/// chrono's `DateTime::format` with `%Y%m%d_%H%M%S`, on the time that
/// `DateTime::from_timestamp` gives for `secs` seconds after the epoch; no
/// stamp where it gives none. The result is a function of `secs` alone and
/// is known here only by its name.
#[verifier::external_body]
fn backup_stamp(secs: i64) -> (stamp: Option<String>)
    ensures
        stamp is Some <==> backup_stamp_of(secs) is Some,
        stamp matches Some(s) ==> backup_stamp_of(secs) == Some(s@),
{
    match chrono::DateTime::from_timestamp(secs, 0) {
        Some(time) => Some(time.format("%Y%m%d_%H%M%S").to_string()),
        None => None,
    }
}

/// The path of the backup with the stamp `stamp` in the directory `dir`.
pub open spec fn backup_path_of(dir: Seq<char>, stamp: Seq<char>) -> Seq<char> {
    dir + "/backup_"@ + stamp + ".db"@
}

/// Writes the path of the backup with the stamp `stamp` in `dir`.
pub fn backup_path(dir: &str, stamp: &str) -> (path: String)
    ensures
        path@ == backup_path_of(dir@, stamp@),
{
    let mut path = concat(dir, "/backup_");
    path.append(stamp);
    path.append(".db");
    path
}

/// Where the backups of a database go.
#[derive(Debug)]
pub struct DatabaseBackup {
    backup_dir: String,
}

impl DatabaseBackup {
    /// The directory of the backups.
    pub closed spec fn dir(&self) -> Seq<char> {
        self.backup_dir@
    }

    /// Backups in the directory `BACKUP_DIR`.
    pub fn new() -> (backup: DatabaseBackup)
        ensures
            backup.dir() == BACKUP_DIR@,
    {
        DatabaseBackup { backup_dir: BACKUP_DIR.to_owned() }
    }

    /// The directory of the backups.
    pub fn backup_dir(&self) -> (dir: &str)
        ensures
            dir@ == self.dir(),
    {
        self.backup_dir.as_str()
    }

    /// The path of the backup that is made at `now_secs` (seconds since
    /// the epoch), where that time can be written as a stamp.
    pub fn backup_path_at(&self, now_secs: i64) -> (path: Option<String>)
        ensures
            path is Some <==> backup_stamp_of(now_secs) is Some,
            path matches Some(p) ==> p@ == backup_path_of(
                self.dir(),
                backup_stamp_of(now_secs)->0,
            ),
    {
        match backup_stamp(now_secs) {
            Some(stamp) => Some(backup_path(self.backup_dir.as_str(), stamp.as_str())),
            None => None,
        }
    }

    /// Whether a backup can be restored: only one whose file exists.
    pub fn check_restorable(backup_exists: bool) -> (res: Result<(), AppError>)
        ensures
            res is Ok <==> backup_exists,
            res matches Err(e) ==> e matches AppError::BackupError(msg) && msg@
                == "Le fichier de backup n'existe pas"@,
    {
        if !backup_exists {
            return Err(AppError::BackupError("Le fichier de backup n'existe pas".to_owned()));
        }
        Ok(())
    }
}

/// Whether backup `j` comes before backup `i` when the backups are put
/// newest first: it was modified later, or at the same time and stands
/// earlier in the list.
pub open spec fn outranks(modified: Seq<u64>, j: int, i: int) -> bool {
    modified[j] > modified[i] || (modified[j] == modified[i] && j < i)
}

/// The number of backups among the first `n` that come before backup `i`.
pub open spec fn rank_upto(modified: Seq<u64>, i: int, n: int) -> nat
    decreases n,
{
    if n <= 0 {
        0
    } else {
        rank_upto(modified, i, n - 1) + if outranks(modified, n - 1, i) {
            1nat
        } else {
            0nat
        }
    }
}

/// The place of backup `i` when the backups are put newest first.
pub open spec fn rank(modified: Seq<u64>, i: int) -> nat {
    rank_upto(modified, i, modified.len() as int)
}

/// A backup is kept when it is among the `MAX_BACKUPS` newest.
pub open spec fn is_kept(modified: Seq<u64>, i: int) -> bool {
    rank(modified, i) < MAX_BACKUPS
}

/// The backups among the first `n` that are not kept, in the order of the
/// list.
pub open spec fn removed_upto(modified: Seq<u64>, n: int) -> Seq<usize>
    decreases n,
{
    if n <= 0 {
        Seq::empty()
    } else if is_kept(modified, n - 1) {
        removed_upto(modified, n - 1)
    } else {
        removed_upto(modified, n - 1).push((n - 1) as usize)
    }
}

proof fn lemma_rank_bound(modified: Seq<u64>, i: int, n: int)
    requires
        0 <= n,
    ensures
        rank_upto(modified, i, n) <= n,
        0 <= i < n ==> rank_upto(modified, i, n) < n,
    decreases n,
{
    if n > 0 {
        lemma_rank_bound(modified, i, n - 1);
    }
}

/// The place of a backup is below the number of backups.
pub proof fn lemma_rank_below_len(modified: Seq<u64>, i: int)
    requires
        0 <= i < modified.len(),
    ensures
        rank(modified, i) < modified.len(),
{
    lemma_rank_bound(modified, i, modified.len() as int);
}

/// Exactly the backups that are not kept are removed, each once and in the
/// order of the list.
pub proof fn lemma_removed_membership(modified: Seq<u64>, n: int)
    requires
        0 <= n <= modified.len(),
        n <= usize::MAX,
    ensures
        forall|i: int|
            0 <= i < n && !is_kept(modified, i) ==> removed_upto(modified, n).contains(i as usize),
        forall|k: int|
            0 <= k < removed_upto(modified, n).len() ==> {
                let i = #[trigger] removed_upto(modified, n)[k];
                i < n && !is_kept(modified, i as int)
            },
        forall|k: int, l: int|
            0 <= k < l < removed_upto(modified, n).len() ==> removed_upto(modified, n)[k]
                < removed_upto(modified, n)[l],
        removed_upto(modified, n).len() <= n,
    decreases n,
{
    if n > 0 {
        lemma_removed_membership(modified, n - 1);
        let before = removed_upto(modified, n - 1);
        let after = removed_upto(modified, n);
        assert forall|i: int| 0 <= i < n && !is_kept(modified, i) implies after.contains(
            i as usize,
        ) by {
            if i < n - 1 {
                let k = choose|k: int| 0 <= k < before.len() && before[k] == i as usize;
                assert(after[k] == i as usize);
            } else {
                assert(after[after.len() - 1] == i as usize);
            }
        }
    }
}

/// With no more than `MAX_BACKUPS` backups, none is removed.
pub proof fn lemma_few_backups_all_kept(modified: Seq<u64>)
    requires
        modified.len() <= MAX_BACKUPS,
    ensures
        removed_upto(modified, modified.len() as int) == Seq::<usize>::empty(),
{
    lemma_removed_membership(modified, modified.len() as int);
    let removed = removed_upto(modified, modified.len() as int);
    if removed.len() > 0 {
        let i = removed[0];
        lemma_rank_below_len(modified, i as int);
    }
}

proof fn lemma_rank_monotone(modified: Seq<u64>, i: int, j: int, n: int)
    requires
        0 <= i < modified.len(),
        0 <= j < modified.len(),
        0 <= n <= modified.len(),
        outranks(modified, j, i),
    ensures
        rank_upto(modified, j, n) <= rank_upto(modified, i, n),
        j < n ==> rank_upto(modified, j, n) < rank_upto(modified, i, n),
    decreases n,
{
    if n > 0 {
        lemma_rank_monotone(modified, i, j, n - 1);
    }
}

/// Whatever is kept is at least as new as whatever is removed.
pub proof fn lemma_kept_are_newest(modified: Seq<u64>, kept: int, removed: int)
    requires
        0 <= kept < modified.len(),
        0 <= removed < modified.len(),
        is_kept(modified, kept),
        !is_kept(modified, removed),
    ensures
        modified[kept] >= modified[removed],
        outranks(modified, kept, removed),
{
    if !outranks(modified, kept, removed) {
        lemma_rank_monotone(modified, kept, removed, modified.len() as int);
    }
}

/// The backups among the first `n` that are kept.
pub open spec fn kept_upto(modified: Seq<u64>, n: int) -> Set<int> {
    Set::new(|i: int| 0 <= i < n && is_kept(modified, i))
}

proof fn lemma_kept_and_removed_partition(modified: Seq<u64>, n: int)
    requires
        0 <= n <= modified.len(),
    ensures
        kept_upto(modified, n).finite(),
        removed_upto(modified, n).len() + kept_upto(modified, n).len() == n,
    decreases n,
{
    if n == 0 {
        assert(kept_upto(modified, n) =~= Set::<int>::empty());
    } else {
        lemma_kept_and_removed_partition(modified, n - 1);
        if is_kept(modified, n - 1) {
            assert(kept_upto(modified, n) =~= kept_upto(modified, n - 1).insert(n - 1));
        } else {
            assert(kept_upto(modified, n) =~= kept_upto(modified, n - 1));
        }
    }
}

/// The places of the backups are all different, so they are the numbers
/// from 0 up to the number of backups, each taken once. Hence exactly
/// `MAX_BACKUPS` backups are kept where there are that many, and all of
/// them where there are fewer; the others are removed.
pub proof fn lemma_kept_count(modified: Seq<u64>)
    ensures
        kept_upto(modified, modified.len() as int).finite(),
        kept_upto(modified, modified.len() as int).len() == if modified.len() < MAX_BACKUPS {
            modified.len()
        } else {
            MAX_BACKUPS as nat
        },
        removed_upto(modified, modified.len() as int).len() == if modified.len() < MAX_BACKUPS {
            0
        } else {
            modified.len() - MAX_BACKUPS
        },
{
    let n = modified.len() as int;
    let k: int = if n < MAX_BACKUPS {
        n
    } else {
        MAX_BACKUPS as int
    };
    let all = set_int_range(0, n);
    let small = set_int_range(0, k);
    let kept = kept_upto(modified, n);
    let place = |i: int| rank(modified, i) as int;
    lemma_int_range(0, n);
    lemma_int_range(0, k);
    lemma_kept_and_removed_partition(modified, n);
    assert forall|x1: int, x2: int|
        all.contains(x1) && all.contains(x2) && #[trigger] place(x1) == #[trigger] place(
            x2,
        ) implies x1 == x2 by {
        if x1 != x2 {
            if outranks(modified, x1, x2) {
                lemma_rank_monotone(modified, x2, x1, n);
            } else {
                lemma_rank_monotone(modified, x1, x2, n);
            }
        }
    }
    let image = all.map(place);
    lemma_map_size(all, image, place);
    assert forall|r: int| image.contains(r) implies all.contains(r) by {
        let i = choose|i: int| all.contains(i) && r == place(i);
        lemma_rank_below_len(modified, i);
    }
    lemma_subset_equality(image, all);
    assert forall|r: int| kept.map(place).contains(r) <==> small.contains(r) by {
        if kept.map(place).contains(r) {
            let i = choose|i: int| kept.contains(i) && r == place(i);
            lemma_rank_below_len(modified, i);
        }
        if small.contains(r) {
            assert(image.contains(r));
            let i = choose|i: int| all.contains(i) && r == place(i);
            assert(kept.contains(i));
        }
    }
    assert(kept.map(place) =~= small);
    lemma_map_size(kept, small, place);
}

fn rank_of(modified: &Vec<u64>, i: usize) -> (r: usize)
    requires
        i < modified.len(),
    ensures
        r == rank(modified@, i as int),
{
    let mut r: usize = 0;
    let mut j: usize = 0;
    while j < modified.len()
        invariant
            j <= modified.len(),
            i < modified.len(),
            r == rank_upto(modified@, i as int, j as int),
            r <= j,
        decreases modified.len() - j,
    {
        if modified[j] > modified[i] || (modified[j] == modified[i] && j < i) {
            r = r + 1;
        }
        j = j + 1;
    }
    r
}

/// Which backups to delete, given the time at which each was last
/// modified: all but the `MAX_BACKUPS` newest, by their place in the list.
/// Of two backups modified at the same time, the one that stands earlier in
/// the list counts as newer.
pub fn backups_to_remove(modified: &Vec<u64>) -> (removed: Vec<usize>)
    ensures
        removed@ == removed_upto(modified@, modified.len() as int),
        forall|i: int|
            0 <= i < modified.len() ==> (removed@.contains(i as usize) <==> !is_kept(
                modified@,
                i,
            )),
        removed.len() == if modified.len() < MAX_BACKUPS {
            0
        } else {
            modified.len() - MAX_BACKUPS
        },
{
    let mut removed: Vec<usize> = Vec::new();
    let mut i: usize = 0;
    while i < modified.len()
        invariant
            i <= modified.len(),
            removed@ == removed_upto(modified@, i as int),
        decreases modified.len() - i,
    {
        if rank_of(modified, i) >= MAX_BACKUPS {
            removed.push(i);
        }
        i = i + 1;
    }
    proof {
        lemma_removed_membership(modified@, modified.len() as int);
        lemma_kept_count(modified@);
    }
    removed
}

} // verus!

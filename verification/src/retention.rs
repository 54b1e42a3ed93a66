use vstd::prelude::*;
use crate::text::{has_prefix, has_suffix, str_has_prefix, str_has_suffix};

verus! {

/// How many downloaded wallpaper files the retention policy keeps.
pub const KEEP_COUNT: usize = 10;

/// One directory entry as the caller listed it: the file's name and
/// its modification time, in seconds.
pub struct FileMeta {
    pub name: String,
    pub modified: u64,
}

/// The fixed naming convention of downloaded wallpaper files.
pub open spec fn is_wallpaper_name(n: Seq<char>) -> bool {
    has_prefix(n, "wallpaper_"@) && has_suffix(n, ".jpg"@)
}

/// Whether a file name follows the downloaded-wallpaper convention.
pub fn is_wallpaper_file(name: &str) -> (r: bool)
    ensures
        r == is_wallpaper_name(name@),
{
    str_has_prefix(name, "wallpaper_") && str_has_suffix(name, ".jpg")
}

/// How many of the first `n` entries follow the naming convention.
pub open spec fn count_matching(s: Seq<FileMeta>, n: int) -> int
    decreases n,
{
    if n <= 0 {
        0
    } else {
        count_matching(s, n - 1) + if is_wallpaper_name(s[n - 1].name@) {
            1int
        } else {
            0int
        }
    }
}

/// What the retention policy decided for one directory listing: the
/// indices of the matching entries to keep, newest first, and the
/// indices of the matching entries to delete.
pub struct CleanupPlan {
    pub keep: Vec<usize>,
    pub delete: Vec<usize>,
}

impl CleanupPlan {
    /// Every index is a distinct position of a matching entry.
    pub open spec fn indexes_matching(self, entries: Seq<FileMeta>) -> bool {
        &&& forall|i: int|
            0 <= i < self.keep@.len() ==> self.keep@[i] < entries.len() && is_wallpaper_name(
                entries[self.keep@[i] as int].name@,
            )
        &&& forall|i: int|
            0 <= i < self.delete@.len() ==> self.delete@[i] < entries.len() && is_wallpaper_name(
                entries[self.delete@[i] as int].name@,
            )
        &&& forall|i: int, j: int|
            0 <= i < j < (self.keep@ + self.delete@).len() ==> (self.keep@ + self.delete@)[i] != (
            self.keep@ + self.delete@)[j]
    }

    /// Every matching entry is covered, either kept or deleted.
    pub open spec fn covers_matching(self, entries: Seq<FileMeta>) -> bool {
        forall|j: int|
            0 <= j < entries.len() && is_wallpaper_name(entries[j].name@) ==> (self.keep@
                + self.delete@).contains(j as usize)
    }

    /// Every kept entry is at least as new as every deleted entry.
    pub open spec fn keeps_newest(self, entries: Seq<FileMeta>) -> bool {
        forall|i: int, j: int|
            0 <= i < self.keep@.len() && 0 <= j < self.delete@.len() ==> entries[self.keep@[i] as int].modified
                >= entries[self.delete@[j] as int].modified
    }
}

fn swap_idx(pool: &mut Vec<usize>, i: usize, j: usize)
    requires
        i < old(pool)@.len(),
        j < old(pool)@.len(),
    ensures
        final(pool)@ == old(pool)@.update(i as int, old(pool)@[j as int]).update(
            j as int,
            old(pool)@[i as int],
        ),
{
    let a = pool[i];
    let b = pool[j];
    pool[i] = b;
    pool[j] = a;
}

/// Decides which downloaded wallpaper files to prune: of the entries
/// that follow the naming convention, the newest `KEEP_COUNT` (by
/// modification time) are kept and every older one is deleted. Entries
/// outside the convention are untouched.
pub fn cleanup_old_wallpapers(entries: &Vec<FileMeta>) -> (r: CleanupPlan)
    ensures
        r.indexes_matching(entries@),
        r.covers_matching(entries@),
        r.keeps_newest(entries@),
        count_matching(entries@, entries@.len() as int) <= KEEP_COUNT ==> r.keep@.len()
            == count_matching(entries@, entries@.len() as int) && r.delete@.len() == 0,
        count_matching(entries@, entries@.len() as int) > KEEP_COUNT ==> r.keep@.len()
            == KEEP_COUNT && r.delete@.len() == count_matching(entries@, entries@.len() as int)
            - KEEP_COUNT,
        forall|i: int, j: int|
            0 <= i < j < r.keep@.len() ==> entries@[r.keep@[i] as int].modified
                >= entries@[r.keep@[j] as int].modified,
{
    let n = entries.len();
    let mut pool: Vec<usize> = Vec::new();
    let mut i: usize = 0;
    while i < n
        invariant
            n == entries@.len(),
            i <= n,
            pool@.len() == count_matching(entries@, i as int),
            forall|k: int|
                0 <= k < pool@.len() ==> pool@[k] < i && is_wallpaper_name(
                    entries@[pool@[k] as int].name@,
                ),
            forall|a: int, b: int| 0 <= a < b < pool@.len() ==> pool@[a] < pool@[b],
            forall|j: int|
                0 <= j < i && is_wallpaper_name(entries@[j].name@) ==> pool@.contains(j as usize),
        decreases n - i,
    {
        let ghost old_pool = pool@;
        let e = &entries[i];
        if is_wallpaper_file(e.name.as_str()) {
            pool.push(i);
        }
        i = i + 1;
        proof {
            assert forall|j: int|
                0 <= j < i && is_wallpaper_name(entries@[j].name@) implies pool@.contains(
                j as usize,
            ) by {
                if j < i - 1 {
                    assert(old_pool.contains(j as usize));
                    let k = choose|k: int| 0 <= k < old_pool.len() && old_pool[k] == j as usize;
                    assert(pool@[k] == j as usize);
                } else {
                    assert(pool@[pool@.len() - 1] == j as usize);
                }
            }
        }
    }
    let m = pool.len();
    let mut s: usize = 0;
    while s < m
        invariant
            n == entries@.len(),
            m == pool@.len(),
            s <= m,
            forall|k: int|
                0 <= k < pool@.len() ==> pool@[k] < n && is_wallpaper_name(
                    entries@[pool@[k] as int].name@,
                ),
            forall|a: int, b: int| 0 <= a < b < pool@.len() ==> pool@[a] != pool@[b],
            forall|j: int|
                0 <= j < n && is_wallpaper_name(entries@[j].name@) ==> pool@.contains(j as usize),
            forall|a: int, b: int|
                0 <= a < b < s ==> entries@[pool@[a] as int].modified
                    >= entries@[pool@[b] as int].modified,
            forall|a: int, b: int|
                0 <= a < s && s <= b < m ==> entries@[pool@[a] as int].modified
                    >= entries@[pool@[b] as int].modified,
        decreases m - s,
    {
        let mut best: usize = s;
        let mut t: usize = s + 1;
        while t < m
            invariant
                n == entries@.len(),
                m == pool@.len(),
                s <= best < t <= m,
                forall|k: int| 0 <= k < pool@.len() ==> pool@[k] < n,
                forall|k: int|
                    s <= k < t ==> entries@[pool@[best as int] as int].modified
                        >= entries@[pool@[k] as int].modified,
            decreases m - t,
        {
            if entries[pool[t]].modified > entries[pool[best]].modified {
                best = t;
            }
            t = t + 1;
        }
        let ghost old_pool = pool@;
        swap_idx(&mut pool, s, best);
        proof {
            assert forall|j: int|
                0 <= j < n && is_wallpaper_name(entries@[j].name@) implies pool@.contains(
                j as usize,
            ) by {
                let k = choose|k: int| 0 <= k < old_pool.len() && old_pool[k] == j as usize;
                if k == s as int {
                    assert(pool@[best as int] == j as usize);
                } else if k == best as int {
                    assert(pool@[s as int] == j as usize);
                } else {
                    assert(pool@[k] == j as usize);
                }
            }
        }
        s = s + 1;
    }
    let limit: usize = if m > KEEP_COUNT {
        KEEP_COUNT
    } else {
        m
    };
    let mut keep: Vec<usize> = Vec::new();
    let mut delete: Vec<usize> = Vec::new();
    let mut k: usize = 0;
    while k < limit
        invariant
            limit <= m == pool@.len(),
            k <= limit,
            keep@ == pool@.subrange(0, k as int),
        decreases limit - k,
    {
        keep.push(pool[k]);
        assert(keep@ =~= pool@.subrange(0, k + 1 as int));
        k = k + 1;
    }
    let mut d: usize = limit;
    while d < m
        invariant
            limit <= m == pool@.len(),
            limit <= d <= m,
            delete@ == pool@.subrange(limit as int, d as int),
        decreases m - d,
    {
        delete.push(pool[d]);
        assert(delete@ =~= pool@.subrange(limit as int, d + 1 as int));
        d = d + 1;
    }
    let r = CleanupPlan { keep, delete };
    proof {
        assert(r.keep@ + r.delete@ =~= pool@);
        assert forall|j: int|
            0 <= j < entries@.len() && is_wallpaper_name(entries@[j].name@) implies (r.keep@
            + r.delete@).contains(j as usize) by {
            let k0 = choose|k0: int| 0 <= k0 < pool@.len() && pool@[k0] == j as usize;
            assert((r.keep@ + r.delete@)[k0] == j as usize);
        }
    }
    r
}

/// The retention policy deletes exactly the oldest surplus: when the
/// matching entries carry pairwise distinct modification times, every
/// kept entry is strictly newer than every deleted one; with the
/// counts of `cleanup_old_wallpapers` this says that, of `KEEP_COUNT`
/// plus `k` matching files, exactly the `k` oldest are deleted and the
/// `KEEP_COUNT` newest remain.
pub proof fn lemma_retention_deletes_oldest(entries: Seq<FileMeta>, plan: CleanupPlan)
    requires
        plan.indexes_matching(entries),
        plan.keeps_newest(entries),
        forall|a: int, b: int|
            0 <= a < entries.len() && 0 <= b < entries.len() && a != b && is_wallpaper_name(
                entries[a].name@,
            ) && is_wallpaper_name(entries[b].name@) ==> entries[a].modified != entries[b].modified,
    ensures
        forall|i: int, j: int|
            0 <= i < plan.keep@.len() && 0 <= j < plan.delete@.len() ==> entries[plan.keep@[i] as int].modified
                > entries[plan.delete@[j] as int].modified,
{
    assert forall|i: int, j: int|
        0 <= i < plan.keep@.len() && 0 <= j < plan.delete@.len() implies entries[plan.keep@[i] as int].modified
        > entries[plan.delete@[j] as int].modified by {
        let all = plan.keep@ + plan.delete@;
        let ki = plan.keep@[i];
        let dj = plan.delete@[j];
        assert(all[i] == ki);
        assert(all[plan.keep@.len() + j] == dj);
        assert(ki != dj);
    }
}

} // verus!

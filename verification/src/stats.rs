//! Per-session statistics: one `CallStats` row for each syscall identifier
//! observed, accumulated over the whole tracing session.

use vstd::prelude::*;

verus! {

/// Accumulated figures for one syscall identifier.
#[derive(Clone, Copy, PartialEq, Eq, Structural, Debug)]
pub struct CallStats {
    /// How many observations were recorded.
    pub count: u64,
    /// Total elapsed time over all recorded observations, in microseconds.
    pub total_elapsed_us: u64,
    /// How many recorded observations returned an error.
    pub error_count: u64,
}

/// The figures before any observation.
pub open spec fn zero_stats() -> CallStats {
    CallStats { count: 0, total_elapsed_us: 0, error_count: 0 }
}

/// `n + 1`, stopping at the largest representable value.
pub open spec fn sat_inc(n: u64) -> u64 {
    if n == u64::MAX {
        n
    } else {
        (n + 1) as u64
    }
}

/// `a + b`, stopping at the largest representable value.
pub open spec fn sat_add(a: u64, b: u64) -> u64 {
    if a + b > u64::MAX {
        u64::MAX
    } else {
        (a + b) as u64
    }
}

/// The figures after one more observation with the given elapsed time and
/// error flag.
pub open spec fn bumped(prev: CallStats, elapsed_us: u64, is_error: bool) -> CallStats {
    CallStats {
        count: sat_inc(prev.count),
        total_elapsed_us: sat_add(prev.total_elapsed_us, elapsed_us),
        error_count: if is_error {
            sat_inc(prev.error_count)
        } else {
            prev.error_count
        },
    }
}

/// A row is well formed when it reflects at least one observation and no
/// more errors than observations.
pub open spec fn stats_wf(s: CallStats) -> bool {
    1 <= s.count && s.error_count <= s.count
}

/// One row of the session mapping.
#[derive(Clone, Copy, PartialEq, Eq, Structural, Debug)]
pub struct SyscallEntry {
    pub syscall_id: u64,
    pub stats: CallStats,
}

/// The sum of the `count` fields over a sequence of rows.
pub open spec fn sum_counts(s: Seq<SyscallEntry>) -> nat
    decreases s.len(),
{
    if s.len() == 0 {
        0
    } else {
        (sum_counts(s.drop_last()) + s.last().stats.count) as nat
    }
}

/// The per-session aggregator: a mapping from syscall identifier to its
/// accumulated figures, holding a row exactly for the identifiers that have
/// been recorded at least once.
pub struct Session {
    entries: Vec<SyscallEntry>,
}

impl Session {
    /// The rows in the order their identifiers were first recorded.
    pub closed spec fn rows(self) -> Seq<SyscallEntry> {
        self.entries@
    }

    /// Whether some row carries the identifier `id`.
    pub open spec fn contains_id(self, id: u64) -> bool {
        exists|i: int| 0 <= i < self.rows().len() && self.rows()[i].syscall_id == id
    }

    /// The position of the row carrying `id`.
    pub closed spec fn index_of(self, id: u64) -> int {
        choose|i: int| 0 <= i < self.rows().len() && self.rows()[i].syscall_id == id
    }

    /// The session as a mapping from syscall identifier to figures.
    pub open spec fn stats_map(self) -> Map<u64, CallStats> {
        Map::new(|k: u64| self.contains_id(k), |k: u64| self.rows()[self.index_of(k)].stats)
    }

    /// Each identifier appears in one row at most, and every row reflects at
    /// least one observation with no more errors than observations.
    pub open spec fn inv(self) -> bool {
        &&& forall|i: int, j: int|
            0 <= i < j < self.rows().len() ==> self.rows()[i].syscall_id != self.rows()[
                j
            ].syscall_id
        &&& forall|i: int| 0 <= i < self.rows().len() ==> stats_wf(#[trigger] self.rows()[i].stats)
    }

    /// The total number of observations recorded, over all identifiers.
    pub closed spec fn total_count(self) -> nat {
        sum_counts(self.rows())
    }

    /// A fresh session holds no rows at all.
    pub fn new() -> (s: Session)
        ensures
            s.inv(),
            s.rows() == Seq::<SyscallEntry>::empty(),
            s.stats_map() == Map::<u64, CallStats>::empty(),
            s.total_count() == 0,
    {
        let s = Session { entries: Vec::new() };
        proof {
            assert(s.stats_map() =~= Map::<u64, CallStats>::empty());
        }
        s
    }

    /// How many distinct identifiers have been recorded.
    pub fn row_count(&self) -> (n: usize)
        ensures
            n == self.rows().len(),
    {
        self.entries.len()
    }

    /// The row at position `i`.
    pub fn row_at(&self, i: usize) -> (e: SyscallEntry)
        requires
            i < self.rows().len(),
        ensures
            e == self.rows()[i as int],
    {
        self.entries[i]
    }

    /// Records one completed observation of `syscall_id`: the row for that
    /// identifier is created on first observation, then its count always
    /// grows by one, its total time by `elapsed_us`, and its error count by
    /// one exactly when `is_error` holds (each stopping at the largest
    /// representable value). No other row changes, and afterwards the
    /// session holds at least one observation in total.
    pub fn record(&mut self, syscall_id: u64, elapsed_us: u64, is_error: bool)
        requires
            old(self).inv(),
        ensures
            final(self).inv(),
            final(self).stats_map() == old(self).stats_map().insert(
                syscall_id,
                bumped(
                    if old(self).contains_id(syscall_id) {
                        old(self).stats_map()[syscall_id]
                    } else {
                        zero_stats()
                    },
                    elapsed_us,
                    is_error,
                ),
            ),
            final(self).total_count() >= old(self).total_count(),
            final(self).total_count() >= 1,
    {
        let n = self.entries.len();
        let mut i: usize = 0;
        while i < n
            invariant
                i <= n,
                n == self.rows().len(),
                *self == *old(self),
                old(self).inv(),
                forall|j: int| 0 <= j < i ==> self.rows()[j].syscall_id != syscall_id,
            decreases n - i,
        {
            if self.entries[i].syscall_id == syscall_id {
                let prev = self.entries[i].stats;
                let new_stats = CallStats {
                    count: if prev.count == u64::MAX {
                        prev.count
                    } else {
                        prev.count + 1
                    },
                    total_elapsed_us: if elapsed_us > u64::MAX - prev.total_elapsed_us {
                        u64::MAX
                    } else {
                        prev.total_elapsed_us + elapsed_us
                    },
                    error_count: if is_error {
                        if prev.error_count == u64::MAX {
                            prev.error_count
                        } else {
                            prev.error_count + 1
                        }
                    } else {
                        prev.error_count
                    },
                };
                self.entries[i] = SyscallEntry { syscall_id, stats: new_stats };
                proof {
                    let pre = *old(self);
                    let post = *self;
                    assert(post.rows() == pre.rows().update(
                        i as int,
                        SyscallEntry { syscall_id, stats: new_stats },
                    ));
                    lemma_unique_witness(pre, syscall_id, i as int);
                    assert(post.contains_id(syscall_id));
                    lemma_unique_witness(post, syscall_id, i as int);
                    assert(post.stats_map() =~= pre.stats_map().insert(syscall_id, new_stats))
                        by {
                        assert forall|k: u64| post.contains_id(k) implies pre.stats_map().insert(
                            syscall_id,
                            new_stats,
                        ).dom().contains(k) by {
                            let w = choose|x: int|
                                0 <= x < post.rows().len() && post.rows()[x].syscall_id == k;
                            if w != i {
                                assert(pre.rows()[w].syscall_id == k);
                            }
                        }
                        assert forall|k: u64|
                            pre.stats_map().insert(syscall_id, new_stats).dom().contains(
                                k,
                            ) implies post.contains_id(k) by {
                            if k != syscall_id {
                                let w = choose|x: int|
                                    0 <= x < pre.rows().len() && pre.rows()[x].syscall_id == k;
                                assert(post.rows()[w].syscall_id == k);
                            }
                        }
                        assert forall|k: u64| post.contains_id(k) implies post.stats_map()[k]
                            == pre.stats_map().insert(syscall_id, new_stats)[k] by {
                            lemma_unique_value(post, k);
                            if k != syscall_id {
                                let w = post.index_of(k);
                                assert(pre.rows()[w].syscall_id == k);
                                lemma_unique_value(pre, k);
                            }
                        }
                    }
                    lemma_sum_counts_update(
                        pre.rows(),
                        i as int,
                        SyscallEntry { syscall_id, stats: new_stats },
                    );
                    lemma_sum_counts_ge_elem(pre.rows(), i as int);
                }
                return ;
            }
            i = i + 1;
        }
        let row = SyscallEntry {
            syscall_id,
            stats: CallStats {
                count: 1,
                total_elapsed_us: elapsed_us,
                error_count: if is_error {
                    1
                } else {
                    0
                },
            },
        };
        self.entries.push(row);
        proof {
            let pre = *old(self);
            let post = *self;
            assert(post.rows() == pre.rows().push(row));
            assert(!pre.contains_id(syscall_id));
            assert(post.rows()[post.rows().len() - 1] == row);
            assert(post.contains_id(syscall_id));
            assert(post.stats_map() =~= pre.stats_map().insert(syscall_id, row.stats)) by {
                assert forall|k: u64| post.contains_id(k) implies pre.stats_map().insert(
                    syscall_id,
                    row.stats,
                ).dom().contains(k) by {
                    let w = choose|x: int|
                        0 <= x < post.rows().len() && post.rows()[x].syscall_id == k;
                    if w < pre.rows().len() {
                        assert(pre.rows()[w].syscall_id == k);
                    }
                }
                assert forall|k: u64|
                    pre.stats_map().insert(syscall_id, row.stats).dom().contains(
                        k,
                    ) implies post.contains_id(k) by {
                    if k != syscall_id {
                        let w = choose|x: int|
                            0 <= x < pre.rows().len() && pre.rows()[x].syscall_id == k;
                        assert(post.rows()[w].syscall_id == k);
                    }
                }
                assert forall|k: u64| post.contains_id(k) implies post.stats_map()[k]
                    == pre.stats_map().insert(syscall_id, row.stats)[k] by {
                    lemma_unique_value(post, k);
                    if k != syscall_id {
                        let w = post.index_of(k);
                        assert(w < pre.rows().len());
                        assert(pre.rows()[w].syscall_id == k);
                        lemma_unique_value(pre, k);
                    }
                }
            }
            lemma_sum_counts_push(pre.rows(), row);
        }
    }

    /// The figures recorded for `syscall_id`, if any observation of it was
    /// recorded.
    pub fn lookup(&self, syscall_id: u64) -> (r: Option<CallStats>)
        requires
            self.inv(),
        ensures
            match r {
                Some(cs) => self.contains_id(syscall_id) && cs == self.stats_map()[syscall_id],
                None => !self.contains_id(syscall_id),
            },
    {
        let n = self.entries.len();
        let mut i: usize = 0;
        while i < n
            invariant
                i <= n,
                n == self.rows().len(),
                self.inv(),
                forall|j: int| 0 <= j < i ==> self.rows()[j].syscall_id != syscall_id,
            decreases n - i,
        {
            if self.entries[i].syscall_id == syscall_id {
                proof {
                    lemma_unique_witness(*self, syscall_id, i as int);
                }
                return Some(self.entries[i].stats);
            }
            i = i + 1;
        }
        None
    }
}

/// In a session whose rows carry distinct identifiers, the row found at any
/// witness position is the one the mapping reports.
proof fn lemma_unique_witness(s: Session, id: u64, i: int)
    requires
        0 <= i < s.rows().len(),
        s.rows()[i].syscall_id == id,
        forall|x: int, y: int|
            0 <= x < y < s.rows().len() ==> s.rows()[x].syscall_id != s.rows()[y].syscall_id,
    ensures
        s.contains_id(id),
        s.index_of(id) == i,
        s.stats_map()[id] == s.rows()[i].stats,
{
    let w = s.index_of(id);
    assert(0 <= w < s.rows().len() && s.rows()[w].syscall_id == id);
    if w != i {
        if w < i {
            assert(s.rows()[w].syscall_id != s.rows()[i].syscall_id);
        } else {
            assert(s.rows()[i].syscall_id != s.rows()[w].syscall_id);
        }
    }
}

/// The value the mapping reports for a contained identifier is the one in
/// its unique row.
proof fn lemma_unique_value(s: Session, id: u64)
    requires
        s.contains_id(id),
        forall|x: int, y: int|
            0 <= x < y < s.rows().len() ==> s.rows()[x].syscall_id != s.rows()[y].syscall_id,
    ensures
        0 <= s.index_of(id) < s.rows().len(),
        s.rows()[s.index_of(id)].syscall_id == id,
        s.stats_map()[id] == s.rows()[s.index_of(id)].stats,
{
    let w = s.index_of(id);
    assert(0 <= w < s.rows().len() && s.rows()[w].syscall_id == id);
}

proof fn lemma_sum_counts_push(s: Seq<SyscallEntry>, e: SyscallEntry)
    ensures
        sum_counts(s.push(e)) == sum_counts(s) + e.stats.count,
{
    assert(s.push(e).drop_last() =~= s);
    assert(s.push(e).last() == e);
}

proof fn lemma_sum_counts_update(s: Seq<SyscallEntry>, i: int, e: SyscallEntry)
    requires
        0 <= i < s.len(),
    ensures
        sum_counts(s.update(i, e)) == sum_counts(s) - s[i].stats.count + e.stats.count,
    decreases s.len(),
{
    if i == s.len() - 1 {
        assert(s.update(i, e).drop_last() =~= s.drop_last());
        assert(s.update(i, e).last() == e);
    } else {
        assert(s.update(i, e).drop_last() =~= s.drop_last().update(i, e));
        assert(s.update(i, e).last() == s.last());
        lemma_sum_counts_update(s.drop_last(), i, e);
    }
}

proof fn lemma_sum_counts_ge_elem(s: Seq<SyscallEntry>, i: int)
    requires
        0 <= i < s.len(),
    ensures
        sum_counts(s) >= s[i].stats.count,
    decreases s.len(),
{
    if i < s.len() - 1 {
        lemma_sum_counts_ge_elem(s.drop_last(), i);
    }
}

/// Every identifier the session holds was called at least once, and no more
/// of its calls failed than were made.
pub proof fn lemma_count_dominates_errors(s: Session, k: u64)
    requires
        s.inv(),
        s.stats_map().dom().contains(k),
    ensures
        s.stats_map()[k].count >= s.stats_map()[k].error_count >= 0,
        s.stats_map()[k].count >= 1,
{
    lemma_unique_value(s, k);
}

/// A session that observed any syscall at all holds at least one
/// observation in total: once some identifier has a row, the sum of all
/// counts is at least one.
pub proof fn lemma_observed_session_counts(s: Session, k: u64)
    requires
        s.inv(),
        s.stats_map().dom().contains(k),
    ensures
        s.total_count() >= 1,
{
    lemma_unique_value(s, k);
    lemma_sum_counts_ge_elem(s.rows(), s.index_of(k));
}

/// No identifier the session holds carries a negative total elapsed time.
pub proof fn lemma_total_elapsed_nonnegative(s: Session, k: u64)
    requires
        s.inv(),
        s.stats_map().dom().contains(k),
    ensures
        s.stats_map()[k].total_elapsed_us >= 0,
{
}

} // verus!

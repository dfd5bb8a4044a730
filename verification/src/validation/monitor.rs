//! Statistics of validations: how long they took and which errors came.
use vstd::prelude::*;

use crate::text::str_eq;
use crate::validation::errors::StreamValidationError;

verus! {

/// How many durations are kept.
pub const KEPT_DURATIONS: usize = 1000;

/// The last `KEPT_DURATIONS` items of `s`.
pub open spec fn keep_last(s: Seq<u64>) -> Seq<u64> {
    if s.len() > KEPT_DURATIONS {
        s.subrange(s.len() - KEPT_DURATIONS, s.len() as int)
    } else {
        s
    }
}

/// The durations kept after each of `ds` is recorded in turn, from `kept`.
pub open spec fn record_all(kept: Seq<u64>, ds: Seq<u64>) -> Seq<u64>
    decreases ds.len(),
{
    if ds.len() == 0 {
        kept
    } else {
        keep_last(record_all(kept, ds.drop_last()).push(ds.last()))
    }
}

/// Recording any number of durations keeps the last `KEPT_DURATIONS` of
/// all durations seen, oldest first: so after `n` records from none, the
/// count of validations is the least of `n` and `KEPT_DURATIONS`.
pub proof fn law_monitor_keeps_last(kept: Seq<u64>, ds: Seq<u64>)
    requires
        kept.len() <= KEPT_DURATIONS,
    ensures
        record_all(kept, ds) == keep_last(kept + ds),
        record_all(kept, ds).len() == (if kept.len() + ds.len() <= KEPT_DURATIONS { (kept.len() + ds.len()) as int } else { KEPT_DURATIONS as int }),
    decreases ds.len(),
{
    if ds.len() == 0 {
        assert(kept + ds =~= kept);
    } else {
        let es = ds.drop_last();
        law_monitor_keeps_last(kept, es);
        let q = kept + es;
        assert(kept + ds =~= q.push(ds.last()));
        let p = keep_last(q);
        if q.len() > KEPT_DURATIONS {
            assert(keep_last(p.push(ds.last())) =~= keep_last(q.push(ds.last())));
        }
    }
}

/// Sum of `s`.
pub open spec fn seq_sum(s: Seq<u64>) -> nat
    decreases s.len(),
{
    if s.len() == 0 {
        0
    } else {
        seq_sum(s.drop_last()) + s.last() as nat
    }
}

/// A total of `total` nanoseconds divided by `n`, as `Duration`'s division
/// by an integer computes it: whole seconds and the rest divided apart.
pub open spec fn duration_div(total: nat, n: nat) -> nat {
    let secs = total / 1_000_000_000;
    let nanos = total % 1_000_000_000;
    (secs / n) * 1_000_000_000 + ((secs % n) * 1_000_000_000) / n + nanos / n
}

/// Statistics of the validations seen.
#[derive(Debug, Clone)]
pub struct ValidationPerformanceStats {
    pub total_validations: usize,
    /// Average duration, in nanoseconds.
    pub average_validation_time: u64,
    /// For each error, as `Debug` shows it, how often it came.
    pub error_counts: Vec<(String, u64)>,
}

/// The map that a list of (key, count) pairs with distinct keys stands for.
pub open spec fn count_map(pairs: Seq<(String, u64)>) -> Map<Seq<char>, u64>
    decreases pairs.len(),
{
    if pairs.len() == 0 {
        Map::empty()
    } else {
        count_map(pairs.drop_last()).insert(pairs.last().0@, pairs.last().1)
    }
}

/// The keys of `pairs` are distinct.
pub open spec fn distinct_keys(pairs: Seq<(String, u64)>) -> bool {
    forall|i: int, j: int| 0 <= i < j < pairs.len() ==> (#[trigger] pairs[i]).0@ != (#[trigger] pairs[j]).0@
}

/// Records the duration and outcome of validations.
pub struct ValidationPerformanceMonitor {
    validation_times: Vec<u64>,
    error_counts: Vec<(String, u64)>,
    /// Every duration recorded, oldest first.
    recorded: Ghost<Seq<u64>>,
    /// Every outcome recorded, oldest first.
    outcomes: Ghost<Seq<Result<(), StreamValidationError>>>,
}

/// How many of `rs` are errors whose `Debug` text is `k`.
pub open spec fn error_tally(rs: Seq<Result<(), StreamValidationError>>, k: Seq<char>) -> nat
    decreases rs.len(),
{
    if rs.len() == 0 {
        0
    } else {
        error_tally(rs.drop_last(), k) + (if rs.last() matches Err(e) && e.debug_text() == k { 1nat } else { 0nat })
    }
}

/// `n`, or `u64::MAX` when it is larger.
pub open spec fn capped(n: nat) -> u64 {
    if n <= u64::MAX { n as u64 } else { u64::MAX }
}

/// The counts of `counts` are the tallies of the errors in `rs`, capped at
/// `u64::MAX`: an error text is counted exactly when it came.
pub open spec fn tallied(counts: Map<Seq<char>, u64>, rs: Seq<Result<(), StreamValidationError>>) -> bool {
    forall|k: Seq<char>| #![trigger counts.contains_key(k)] #![trigger error_tally(rs, k)]
        (counts.contains_key(k) <==> error_tally(rs, k) > 0)
        && (counts.contains_key(k) ==> counts[k] == capped(error_tally(rs, k)))
}

impl ValidationPerformanceMonitor {
    /// The durations kept, oldest first, in nanoseconds.
    pub closed spec fn times(&self) -> Seq<u64> {
        self.validation_times@
    }

    /// How often each error came, by its `Debug` text.
    pub closed spec fn counts(&self) -> Map<Seq<char>, u64> {
        count_map(self.error_counts@)
    }

    /// Every duration recorded, oldest first.
    pub closed spec fn recorded(&self) -> Seq<u64> {
        self.recorded@
    }

    /// Every outcome recorded, oldest first.
    pub closed spec fn outcomes(&self) -> Seq<Result<(), StreamValidationError>> {
        self.outcomes@
    }

    /// At most `KEPT_DURATIONS` durations are kept, the last of those
    /// recorded, and each error is counted in one place, as often as it
    /// came.
    pub closed spec fn wf(&self) -> bool {
        &&& self.validation_times@.len() <= KEPT_DURATIONS
        &&& distinct_keys(self.error_counts@)
        &&& self.validation_times@ == keep_last(self.recorded@)
        &&& tallied(count_map(self.error_counts@), self.outcomes@)
    }

    /// The counts after recording `result`: an error's count goes up by one
    /// (staying at `u64::MAX` once there).
    pub open spec fn counts_after(&self, result: Result<(), StreamValidationError>) -> Map<Seq<char>, u64> {
        match result {
            Ok(()) => self.counts(),
            Err(e) => self.counts().insert(
                e.debug_text(),
                if self.counts().contains_key(e.debug_text()) {
                    if self.counts()[e.debug_text()] == u64::MAX {
                        u64::MAX
                    } else {
                        (self.counts()[e.debug_text()] + 1) as u64
                    }
                } else {
                    1
                },
            ),
        }
    }

    /// A monitor that has seen nothing.
    pub fn new() -> (r: ValidationPerformanceMonitor)
        ensures
            r.wf(),
            r.times() == Seq::<u64>::empty(),
            r.counts() == Map::<Seq<char>, u64>::empty(),
            r.recorded() == Seq::<u64>::empty(),
            r.outcomes() == Seq::<Result<(), StreamValidationError>>::empty(),
    {
        ValidationPerformanceMonitor {
            validation_times: Vec::new(),
            error_counts: Vec::new(),
            recorded: Ghost(Seq::empty()),
            outcomes: Ghost(Seq::empty()),
        }
    }

    /// Records a validation that took `duration` nanoseconds; an error is
    /// counted under its `Debug` text.
    pub fn record_validation(&mut self, duration: u64, result: &Result<(), StreamValidationError>)
        requires
            old(self).wf(),
        ensures
            final(self).wf(),
            final(self).times() == keep_last(old(self).times().push(duration)),
            final(self).counts() == old(self).counts_after(*result),
            final(self).recorded() == old(self).recorded().push(duration),
            final(self).outcomes() == old(self).outcomes().push(*result),
    {
        let ghost pushed = self.validation_times@.push(duration);
        let ghost old_counts = count_map(self.error_counts@);
        self.validation_times.push(duration);
        if self.validation_times.len() > KEPT_DURATIONS {
            self.validation_times.remove(0);
            assert(self.validation_times@ =~= pushed.subrange(pushed.len() - KEPT_DURATIONS, pushed.len() as int));
        }
        proof {
            let rec = old(self).recorded@;
            lemma_keep_last_push(rec, duration);
            self.recorded@ = rec.push(duration);
            self.outcomes@ = old(self).outcomes@.push(*result);
        }
        match result {
            Ok(()) => {},
            Err(e) => {
                let key = e.debug_string();
                bump_count(&mut self.error_counts, key);
            },
        }
        proof {
            lemma_tallied_push(old_counts, old(self).outcomes@, *result, count_map(self.error_counts@));
        }
    }

    /// The number of durations kept, their average as `Duration` computes
    /// it, and the error counts.
    pub fn get_performance_stats(&self) -> (r: ValidationPerformanceStats)
        requires
            self.wf(),
        ensures
            r.total_validations == self.times().len(),
            r.average_validation_time == (if self.times().len() > 0 {
                duration_div(seq_sum(self.times()), self.times().len())
            } else {
                0
            }),
            distinct_keys(r.error_counts@),
            count_map(r.error_counts@) == self.counts(),
    {
        let n = self.validation_times.len();
        let mut sum: u128 = 0;
        let mut i: usize = 0;
        while i < n
            invariant
                n == self.validation_times@.len(),
                n <= KEPT_DURATIONS,
                i <= n,
                sum == seq_sum(self.validation_times@.take(i as int)),
                sum <= i * 0xffff_ffff_ffff_ffff,
            decreases n - i,
        {
            assert(self.validation_times@.take(i + 1).drop_last() == self.validation_times@.take(i as int));
            sum = sum + self.validation_times[i] as u128;
            i = i + 1;
        }
        assert(self.validation_times@.take(n as int) == self.validation_times@);
        let avg: u64 = if n > 0 {
            let d = n as u128;
            let secs = sum / 1_000_000_000;
            let nanos = sum % 1_000_000_000;
            let q = (secs / d) * 1_000_000_000 + ((secs % d) * 1_000_000_000) / d + nanos / d;
            proof {
                lemma_duration_div_bound(sum as nat, d as nat);
            }
            q as u64
        } else {
            0
        };
        let counts = clone_counts(&self.error_counts);
        proof {
            lemma_count_map_same(counts@, self.error_counts@);
        }
        ValidationPerformanceStats { total_validations: n, average_validation_time: avg, error_counts: counts }
    }
}

impl Default for ValidationPerformanceMonitor {
    fn default() -> (r: ValidationPerformanceMonitor)
        ensures
            r.wf(),
            r.times() == Seq::<u64>::empty(),
            r.counts() == Map::<Seq<char>, u64>::empty(),
    {
        ValidationPerformanceMonitor::new()
    }
}

proof fn lemma_keep_last_push(rec: Seq<u64>, d: u64)
    ensures
        keep_last(keep_last(rec).push(d)) == keep_last(rec.push(d)),
{
    if rec.len() > KEPT_DURATIONS {
        assert(keep_last(keep_last(rec).push(d)) =~= keep_last(rec.push(d)));
    }
}

proof fn lemma_tallied_push(
    counts: Map<Seq<char>, u64>,
    rs: Seq<Result<(), StreamValidationError>>,
    x: Result<(), StreamValidationError>,
    after: Map<Seq<char>, u64>,
)
    requires
        tallied(counts, rs),
        after == (match x {
            Ok(()) => counts,
            Err(e) => counts.insert(
                e.debug_text(),
                if counts.contains_key(e.debug_text()) {
                    if counts[e.debug_text()] == u64::MAX { u64::MAX } else { (counts[e.debug_text()] + 1) as u64 }
                } else {
                    1
                },
            ),
        }),
    ensures
        tallied(after, rs.push(x)),
{
    let rs2 = rs.push(x);
    assert(rs2.drop_last() =~= rs);
    assert forall|k: Seq<char>| #![trigger after.contains_key(k)] #![trigger error_tally(rs2, k)]
        (after.contains_key(k) <==> error_tally(rs2, k) > 0)
        && (after.contains_key(k) ==> after[k] == capped(error_tally(rs2, k))) by {
        assert(error_tally(rs2, k) == error_tally(rs, k) + (if x matches Err(e) && e.debug_text() == k { 1nat } else { 0nat }));
        assert(counts.contains_key(k) <==> error_tally(rs, k) > 0);
    }
}

/// Whatever was recorded, the monitor keeps the last `KEPT_DURATIONS`
/// durations of all those recorded, and counts each error text exactly as
/// often as an error with that text was recorded (capped at `u64::MAX`).
pub proof fn law_monitor_history(m: ValidationPerformanceMonitor)
    requires
        m.wf(),
    ensures
        m.times() == keep_last(m.recorded()),
        tallied(m.counts(), m.outcomes()),
{
}

/// Counts one more `key` in `counts`, adding it with 1 when it is new;
/// a count at `u64::MAX` stays there.
pub fn bump_count(counts: &mut Vec<(String, u64)>, key: String)
    requires
        distinct_keys(old(counts)@),
    ensures
        distinct_keys(final(counts)@),
        count_map(final(counts)@) == count_map(old(counts)@).insert(
            key@,
            if count_map(old(counts)@).contains_key(key@) {
                if count_map(old(counts)@)[key@] == u64::MAX {
                    u64::MAX
                } else {
                    (count_map(old(counts)@)[key@] + 1) as u64
                }
            } else {
                1
            },
        ),
{
    let mut i: usize = 0;
    while i < counts.len()
        invariant
            i <= counts@.len(),
            counts@ == old(counts)@,
            distinct_keys(counts@),
            forall|k: int| 0 <= k < i ==> (#[trigger] counts@[k]).0@ != key@,
        decreases counts.len() - i,
    {
        if str_eq(counts[i].0.as_str(), key.as_str()) {
            let n = counts[i].1;
            let m = if n == u64::MAX { u64::MAX } else { n + 1 };
            let name = counts[i].0.clone();
            let ghost old_pairs = counts@;
            proof {
                lemma_count_map_at(old_pairs, i as int);
            }
            counts.set(i, (name, m));
            proof {
                lemma_count_map_update(old_pairs, i as int, (name, m));
            }
            return;
        }
        i = i + 1;
    }
    proof {
        lemma_count_map_absent(counts@, key@);
    }
    let ghost old_pairs = counts@;
    counts.push((key, 1));
    assert(counts@.drop_last() == old_pairs);
    assert forall|i: int, j: int| 0 <= i < j < counts@.len() implies
        (#[trigger] counts@[i]).0@ != (#[trigger] counts@[j]).0@ by {
        if j == old_pairs.len() {
            assert(old_pairs[i] == counts@[i]);
        } else {
            assert(old_pairs[i] == counts@[i] && old_pairs[j] == counts@[j]);
        }
    }
}

/// The divided duration of `n` durations is at most the largest a `u64`
/// holds.
proof fn lemma_duration_div_bound(total: nat, n: nat)
    requires
        n >= 1,
        total <= n * 0xffff_ffff_ffff_ffff,
    ensures
        duration_div(total, n) <= 0xffff_ffff_ffff_ffff,
{
    let secs = total / 1_000_000_000;
    let nanos = total % 1_000_000_000;
    assert(total == secs * 1_000_000_000 + nanos) by (nonlinear_arith)
        requires secs == total / 1_000_000_000, nanos == total % 1_000_000_000;
    let q = secs / n;
    let r = secs % n;
    assert(secs == q * n + r && r < n) by (nonlinear_arith)
        requires q == secs / n, r == secs % n, n >= 1;
    let e = (r * 1_000_000_000) / n;
    let f = nanos / n;
    assert(e * n <= r * 1_000_000_000) by (nonlinear_arith)
        requires e == (r * 1_000_000_000) / n, n >= 1, r >= 0;
    assert(f * n <= nanos) by (nonlinear_arith)
        requires f == nanos / n, n >= 1, nanos >= 0;
    assert((q * 1_000_000_000 + e + f) * n <= total) by (nonlinear_arith)
        requires
            e * n <= r * 1_000_000_000,
            f * n <= nanos,
            secs == q * n + r,
            total == secs * 1_000_000_000 + nanos;
    assert(q * 1_000_000_000 + e + f <= 0xffff_ffff_ffff_ffff) by (nonlinear_arith)
        requires
            (q * 1_000_000_000 + e + f) * n <= total,
            total <= n * 0xffff_ffff_ffff_ffff,
            n >= 1,
            q >= 0, e >= 0, f >= 0;
}

proof fn lemma_count_map_at(pairs: Seq<(String, u64)>, i: int)
    requires
        distinct_keys(pairs),
        0 <= i < pairs.len(),
    ensures
        count_map(pairs).contains_key(pairs[i].0@),
        count_map(pairs)[pairs[i].0@] == pairs[i].1,
    decreases pairs.len(),
{
    if i < pairs.len() - 1 {
        lemma_count_map_at(pairs.drop_last(), i);
    }
}

proof fn lemma_count_map_absent(pairs: Seq<(String, u64)>, key: Seq<char>)
    requires
        forall|k: int| 0 <= k < pairs.len() ==> (#[trigger] pairs[k]).0@ != key,
    ensures
        !count_map(pairs).contains_key(key),
    decreases pairs.len(),
{
    if pairs.len() > 0 {
        lemma_count_map_absent(pairs.drop_last(), key);
    }
}

proof fn lemma_count_map_update(pairs: Seq<(String, u64)>, i: int, p: (String, u64))
    requires
        distinct_keys(pairs),
        0 <= i < pairs.len(),
        p.0@ == pairs[i].0@,
    ensures
        distinct_keys(pairs.update(i, p)),
        count_map(pairs.update(i, p)) == count_map(pairs).insert(p.0@, p.1),
    decreases pairs.len(),
{
    let q = pairs.update(i, p);
    if i == pairs.len() - 1 {
        assert(q.drop_last() == pairs.drop_last());
    } else {
        lemma_count_map_update(pairs.drop_last(), i, p);
        assert(q.drop_last() == pairs.drop_last().update(i, p));
        lemma_count_map_at(pairs, i);
        assert(pairs.last().0@ != p.0@) by {
            assert(pairs[pairs.len() - 1] == pairs.last());
        }
        assert(count_map(q) =~= count_map(pairs).insert(p.0@, p.1));
    }
}

proof fn lemma_count_map_same(a: Seq<(String, u64)>, b: Seq<(String, u64)>)
    requires
        a.len() == b.len(),
        forall|i: int| 0 <= i < b.len() ==> (#[trigger] a[i]).0@ == b[i].0@ && a[i].1 == b[i].1,
    ensures
        count_map(a) == count_map(b),
        distinct_keys(b) ==> distinct_keys(a),
    decreases a.len(),
{
    if a.len() > 0 {
        lemma_count_map_same(a.drop_last(), b.drop_last());
        assert(a.last() == a[a.len() - 1] && b.last() == b[b.len() - 1]);
    }
    if distinct_keys(b) {
        assert forall|i: int, j: int| 0 <= i < j < a.len() implies (#[trigger] a[i]).0@ != (#[trigger] a[j]).0@ by {
            assert(b[i].0@ != b[j].0@);
        }
    }
}

fn clone_counts(v: &Vec<(String, u64)>) -> (r: Vec<(String, u64)>)
    ensures
        r@.len() == v@.len(),
        forall|i: int| 0 <= i < v@.len() ==> (#[trigger] r@[i]).0@ == v@[i].0@ && r@[i].1 == v@[i].1,
{
    let mut r: Vec<(String, u64)> = Vec::new();
    let mut i: usize = 0;
    while i < v.len()
        invariant
            i <= v@.len(),
            r@.len() == i,
            forall|k: int| 0 <= k < i ==> (#[trigger] r@[k]).0@ == v@[k].0@ && r@[k].1 == v@[k].1,
        decreases v.len() - i,
    {
        r.push((v[i].0.clone(), v[i].1));
        i = i + 1;
    }
    r
}

} // verus!

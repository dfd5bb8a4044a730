//! Events from the Unity editor: log lines, which are throttled, and
//! operation progress, which is kept in a table.
use vstd::prelude::*;

use crate::text::{concat2, concat3, decimal, str_eq, u64_to_decimal};

verus! {

/// Level of a Unity log line.
#[derive(Debug, Clone, Copy, PartialEq, Eq, Structural)]
pub enum LogLevel {
    Error,
    Warn,
    Info,
    Debug,
    Trace,
}

/// A Unity log line.
#[derive(Debug, Clone)]
pub struct LogEvent {
    pub level: LogLevel,
    /// The number the wire schema gives `level`; that schema is decoded
    /// outside this crate, so whoever decodes an event supplies both.
    pub level_code: i32,
    pub category: String,
    pub message: String,
    pub stack_trace: String,
}

/// An `i32` as `to_string` writes it.
pub open spec fn signed_decimal(n: i32) -> Seq<char> {
    if n < 0 { "-"@ + decimal((-(n as int)) as nat) } else { decimal(n as nat) }
}

/// The key under which lines are throttled: category and level number.
pub open spec fn throttle_key(category: Seq<char>, level_code: i32) -> Seq<char> {
    category + ":"@ + signed_decimal(level_code)
}

/// The key of `throttle_key`.
pub fn log_throttle_key(category: &str, level_code: i32) -> (r: String)
    ensures
        r@ == throttle_key(category@, level_code),
{
    let digits = if level_code < 0 {
        let magnitude: u64 = (-(level_code as i64)) as u64;
        concat2("-", u64_to_decimal(magnitude).as_str())
    } else {
        u64_to_decimal(level_code as u64)
    };
    concat3(category, ":", digits.as_str())
}

/// The time from `last` to `now`, or none if `last` is later.
pub open spec fn time_since(now: u64, last: u64) -> int {
    if now >= last { now - last } else { 0 }
}

/// Whether a line of `level` is emitted at `now` when the last line under
/// its key was emitted at `last`: errors and warnings always are; the
/// others when none was emitted under the key, or the last one is more
/// than `interval` old.
pub open spec fn log_emitted(level: LogLevel, last: Option<u64>, now: u64, interval: u64) -> bool {
    match level {
        LogLevel::Error | LogLevel::Warn => true,
        _ => match last {
            None => true,
            Some(t) => time_since(now, t) > interval,
        },
    }
}

/// When each throttle key last emitted a line.
pub struct LogThrottle {
    last_info_log: Vec<(String, u64)>,
}

/// The map that a list of (key, time) pairs stands for.
pub open spec fn time_map(pairs: Seq<(String, u64)>) -> Map<Seq<char>, u64>
    decreases pairs.len(),
{
    if pairs.len() == 0 {
        Map::empty()
    } else {
        time_map(pairs.drop_last()).insert(pairs.last().0@, pairs.last().1)
    }
}

/// The keys of the pairs are distinct.
pub open spec fn distinct_keys(pairs: Seq<(String, u64)>) -> bool {
    forall|i: int, j: int| 0 <= i < j < pairs.len() ==> (#[trigger] pairs[i]).0@ != (#[trigger] pairs[j]).0@
}

pub proof fn lemma_time_map_lookup(pairs: Seq<(String, u64)>, i: int)
    requires
        distinct_keys(pairs),
        0 <= i < pairs.len(),
    ensures
        time_map(pairs).contains_key(pairs[i].0@),
        time_map(pairs)[pairs[i].0@] == pairs[i].1,
    decreases pairs.len(),
{
    if i < pairs.len() - 1 {
        lemma_time_map_lookup(pairs.drop_last(), i);
        assert(pairs.drop_last()[i] == pairs[i]);
    }
}

pub proof fn lemma_time_map_absent(pairs: Seq<(String, u64)>, k: Seq<char>)
    requires
        forall|i: int| 0 <= i < pairs.len() ==> (#[trigger] pairs[i]).0@ != k,
    ensures
        !time_map(pairs).contains_key(k),
    decreases pairs.len(),
{
    if pairs.len() > 0 {
        assert forall|i: int| 0 <= i < pairs.drop_last().len() implies (#[trigger] pairs.drop_last()[i]).0@ != k by {
            assert(pairs.drop_last()[i] == pairs[i]);
        }
        lemma_time_map_absent(pairs.drop_last(), k);
    }
}

pub proof fn lemma_time_map_update(pairs: Seq<(String, u64)>, i: int, t: u64)
    requires
        distinct_keys(pairs),
        0 <= i < pairs.len(),
    ensures
        distinct_keys(pairs.update(i, (pairs[i].0, t))),
        time_map(pairs.update(i, (pairs[i].0, t))) == time_map(pairs).insert(pairs[i].0@, t),
    decreases pairs.len(),
{
    let up = pairs.update(i, (pairs[i].0, t));
    assert forall|a: int, b: int| 0 <= a < b < up.len() implies (#[trigger] up[a]).0@ != (#[trigger] up[b]).0@ by {
        assert(up[a].0 == pairs[a].0);
        assert(up[b].0 == pairs[b].0);
    }
    if i == pairs.len() - 1 {
        assert(up.drop_last() == pairs.drop_last());
        assert forall|j: int| 0 <= j < pairs.drop_last().len() implies (#[trigger] pairs.drop_last()[j]).0@ != pairs[i].0@ by {
            assert(pairs.drop_last()[j] == pairs[j]);
        }
        lemma_time_map_absent(pairs.drop_last(), pairs[i].0@);
        assert(time_map(up) =~= time_map(pairs).insert(pairs[i].0@, t));
    } else {
        let d = pairs.drop_last();
        assert forall|a: int, b: int| 0 <= a < b < d.len() implies (#[trigger] d[a]).0@ != (#[trigger] d[b]).0@ by {
            assert(d[a] == pairs[a]);
            assert(d[b] == pairs[b]);
        }
        assert(d[i] == pairs[i]);
        lemma_time_map_update(d, i, t);
        assert(up.drop_last() == d.update(i, (d[i].0, t)));
        assert(up.last() == pairs.last());
        assert(pairs.last().0@ != pairs[i].0@);
        assert(time_map(up) =~= time_map(pairs).insert(pairs[i].0@, t));
    }
}

impl LogThrottle {
    /// When each key last emitted a line, in nanoseconds.
    pub closed spec fn last_emits(&self) -> Map<Seq<char>, u64> {
        time_map(self.last_info_log@)
    }

    /// Each key occurs once.
    pub closed spec fn wf(&self) -> bool {
        distinct_keys(self.last_info_log@)
    }

    /// A throttle that has seen no line.
    pub fn new() -> (r: LogThrottle)
        ensures
            r.wf(),
            r.last_emits() == Map::<Seq<char>, u64>::empty(),
    {
        LogThrottle { last_info_log: Vec::new() }
    }

    fn find(&self, key: &str) -> (r: Option<usize>)
        requires
            self.wf(),
        ensures
            match r {
                Some(i) => i < self.last_info_log@.len() && self.last_info_log@[i as int].0@ == key@,
                None => !self.last_emits().contains_key(key@),
            },
    {
        let mut i: usize = 0;
        while i < self.last_info_log.len()
            invariant
                i <= self.last_info_log@.len(),
                forall|k: int| 0 <= k < i ==> (#[trigger] self.last_info_log@[k]).0@ != key@,
            decreases self.last_info_log.len() - i,
        {
            if str_eq(self.last_info_log[i].0.as_str(), key) {
                return Some(i);
            }
            i = i + 1;
        }
        proof {
            lemma_time_map_absent(self.last_info_log@, key@);
        }
        None
    }
}

/// Decides whether `log` is emitted at `now` (in nanoseconds) with lines
/// throttled per key to one per `throttle_interval`; an emitted line of a
/// throttled level is recorded under its key.
pub fn process_log_event(log: &LogEvent, last_info_log: &mut LogThrottle, now: u64, throttle_interval: u64) -> (r: bool)
    requires
        old(last_info_log).wf(),
    ensures
        final(last_info_log).wf(),
        ({
            let key = throttle_key(log.category@, log.level_code);
            let last = if old(last_info_log).last_emits().contains_key(key) {
                Some(old(last_info_log).last_emits()[key])
            } else {
                None
            };
            &&& r == log_emitted(log.level, last, now, throttle_interval)
            &&& final(last_info_log).last_emits() == (if r && !(log.level is Error || log.level is Warn) {
                old(last_info_log).last_emits().insert(key, now)
            } else {
                old(last_info_log).last_emits()
            })
        }),
{
    if log.level == LogLevel::Error || log.level == LogLevel::Warn {
        return true;
    }
    let key = log_throttle_key(log.category.as_str(), log.level_code);
    match last_info_log.find(key.as_str()) {
        Some(i) => {
            let last = last_info_log.last_info_log[i].1;
            proof {
                lemma_time_map_lookup(last_info_log.last_info_log@, i as int);
            }
            let elapsed: u64 = if now >= last { now - last } else { 0 };
            if elapsed > throttle_interval {
                let ghost pairs = last_info_log.last_info_log@;
                let k = last_info_log.last_info_log[i].0.clone();
                last_info_log.last_info_log.set(i, (k, now));
                proof {
                    lemma_time_map_update(pairs, i as int, now);
                    assert(last_info_log.last_info_log@ == pairs.update(i as int, (pairs[i as int].0, now)));
                }
                true
            } else {
                false
            }
        },
        None => {
            let ghost pairs = last_info_log.last_info_log@;
            last_info_log.last_info_log.push((key, now));
            proof {
                let np = last_info_log.last_info_log@;
                assert(np.drop_last() == pairs);
                assert forall|a: int, b: int| 0 <= a < b < np.len() implies (#[trigger] np[a]).0@ != (#[trigger] np[b]).0@ by {
                    if b == np.len() - 1 {
                        assert(np[a] == pairs[a]);
                        if np[a].0@ == np[b].0@ {
                            lemma_time_map_lookup(pairs, a);
                        }
                    } else {
                        assert(np[a] == pairs[a]);
                        assert(np[b] == pairs[b]);
                    }
                }
            }
            true
        },
    }
}

/// Errors and warnings are never throttled.
pub proof fn law_errors_always_logged(last: Option<u64>, now: u64, interval: u64)
    ensures
        log_emitted(LogLevel::Error, last, now, interval),
        log_emitted(LogLevel::Warn, last, now, interval),
{
}

/// Once a line is emitted under a key, another of a throttled level under
/// that key within the interval is held back.
pub proof fn law_info_throttled_within_interval(level: LogLevel, emitted_at: u64, now: u64, interval: u64)
    requires
        !(level is Error || level is Warn),
        emitted_at <= now,
        now - emitted_at <= interval,
    ensures
        !log_emitted(level, Some(emitted_at), now, interval),
{
}

} // verus!

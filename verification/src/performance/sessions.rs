//! Bookkeeping of stream sessions.
use vstd::prelude::*;

use crate::text::{concat2, str_eq};

verus! {

/// Why monitoring failed.
#[derive(Debug, Clone, PartialEq, Eq)]
pub enum MonitoringError {
    LockContention,
    InvalidData(String),
    ConfigError(String),
}

impl MonitoringError {
    /// The text the error displays.
    pub open spec fn text(&self) -> Seq<char> {
        match self {
            MonitoringError::LockContention => "Failed to acquire lock due to contention"@,
            MonitoringError::InvalidData(s) => "Invalid metrics data: "@ + s@,
            MonitoringError::ConfigError(s) => "Configuration error: "@ + s@,
        }
    }

    /// The text the error displays.
    pub fn display_string(&self) -> (r: String)
        ensures
            r@ == self.text(),
    {
        match self {
            MonitoringError::LockContention => String::from_str("Failed to acquire lock due to contention"),
            MonitoringError::InvalidData(s) => concat2("Invalid metrics data: ", s.as_str()),
            MonitoringError::ConfigError(s) => concat2("Configuration error: ", s.as_str()),
        }
    }
}

/// A session under way; times are in nanoseconds.
#[derive(Debug, Clone)]
pub struct SessionInfo {
    pub connection_id: String,
    pub start_time: u64,
    pub message_count: u64,
    pub last_activity: u64,
    pub bytes_processed: usize,
}

/// Totals over sessions.
#[derive(Debug, Clone, Copy)]
pub struct SessionStatistics {
    pub total_sessions: u64,
    pub active_sessions: u64,
    /// Average length of a session, in nanoseconds; not measured yet.
    pub avg_session_duration: u64,
    pub total_messages_processed: u64,
    pub total_bytes_processed: usize,
}

/// The ids of the sessions are distinct.
pub open spec fn distinct_sessions(s: Seq<SessionInfo>) -> bool {
    forall|i: int, j: int| 0 <= i < j < s.len() ==> (#[trigger] s[i]).connection_id@ != (#[trigger] s[j]).connection_id@
}

/// The ids of the sessions.
pub open spec fn session_ids(s: Seq<SessionInfo>) -> Set<Seq<char>> {
    Set::new(|k: Seq<char>| exists|i: int| 0 <= i < s.len() && (#[trigger] s[i]).connection_id@ == k)
}

/// A call that changes the sessions: a start, or a completion with the
/// session's messages and bytes.
pub enum SessionCall {
    Start(Seq<char>),
    Complete(Seq<char>, u64, usize),
}

/// The totals and ids of sessions under way after `call`, from `st` and
/// `ids`.
pub open spec fn after_call(st: SessionStatistics, ids: Set<Seq<char>>, call: SessionCall) -> (SessionStatistics, Set<Seq<char>>) {
    match call {
        SessionCall::Start(id) => (SessionStatistics {
            total_sessions: (st.total_sessions + 1) as u64,
            active_sessions: (st.active_sessions + 1) as u64,
            ..st
        }, ids.insert(id)),
        SessionCall::Complete(id, messages, bytes) => if ids.contains(id) {
            (SessionStatistics {
                active_sessions: if st.active_sessions == 0 { 0 } else { (st.active_sessions - 1) as u64 },
                total_messages_processed: (st.total_messages_processed + messages) as u64,
                total_bytes_processed: (st.total_bytes_processed + bytes) as usize,
                ..st
            }, ids.remove(id))
        } else {
            (st, ids)
        },
    }
}

/// The totals and ids after each of `calls` in turn.
pub open spec fn after_calls(st: SessionStatistics, ids: Set<Seq<char>>, calls: Seq<SessionCall>) -> (SessionStatistics, Set<Seq<char>>)
    decreases calls.len(),
{
    if calls.len() == 0 {
        (st, ids)
    } else {
        let p = after_calls(st, ids, calls.drop_last());
        after_call(p.0, p.1, calls.last())
    }
}

/// How many of `calls` start a session.
pub open spec fn starts(calls: Seq<SessionCall>) -> nat
    decreases calls.len(),
{
    if calls.len() == 0 {
        0
    } else {
        starts(calls.drop_last()) + if calls.last() is Start { 1nat } else { 0nat }
    }
}

/// Over any sequence of starts and completions, the count of sessions grows
/// by the number of starts, and no more sessions are active than have been
/// counted.
pub proof fn law_session_totals(st: SessionStatistics, ids: Set<Seq<char>>, calls: Seq<SessionCall>)
    requires
        st.active_sessions <= st.total_sessions,
        st.total_sessions + starts(calls) <= u64::MAX,
    ensures
        after_calls(st, ids, calls).0.total_sessions == st.total_sessions + starts(calls),
        after_calls(st, ids, calls).0.active_sessions <= after_calls(st, ids, calls).0.total_sessions,
    decreases calls.len(),
{
    if calls.len() > 0 {
        law_session_totals(st, ids, calls.drop_last());
    }
}

/// The sessions under way and the totals.
pub struct SessionTracker {
    sessions: Vec<SessionInfo>,
    session_stats: SessionStatistics,
}

impl SessionTracker {
    /// The ids of the sessions under way.
    pub closed spec fn ids(&self) -> Set<Seq<char>> {
        session_ids(self.sessions@)
    }

    /// The totals.
    pub closed spec fn totals(&self) -> SessionStatistics {
        self.session_stats
    }

    /// Each session occurs once, and at least as many sessions count as
    /// active as are under way.
    pub closed spec fn wf(&self) -> bool {
        &&& distinct_sessions(self.sessions@)
        &&& self.session_stats.active_sessions >= self.sessions@.len()
    }

    /// No session, all totals zero.
    pub fn new() -> (r: SessionTracker)
        ensures
            r.wf(),
            r.ids() == Set::<Seq<char>>::empty(),
            r.totals().total_sessions == 0 && r.totals().active_sessions == 0 && r.totals().avg_session_duration == 0
                && r.totals().total_messages_processed == 0 && r.totals().total_bytes_processed == 0,
    {
        let r = SessionTracker {
            sessions: Vec::new(),
            session_stats: SessionStatistics {
                total_sessions: 0,
                active_sessions: 0,
                avg_session_duration: 0,
                total_messages_processed: 0,
                total_bytes_processed: 0,
            },
        };
        assert(r.ids() =~= Set::<Seq<char>>::empty());
        r
    }

    fn find(&self, connection_id: &str) -> (r: Option<usize>)
        ensures
            match r {
                Some(i) => i < self.sessions@.len() && self.sessions@[i as int].connection_id@ == connection_id@,
                None => !self.ids().contains(connection_id@),
            },
    {
        let mut i: usize = 0;
        while i < self.sessions.len()
            invariant
                i <= self.sessions@.len(),
                forall|k: int| 0 <= k < i ==> (#[trigger] self.sessions@[k]).connection_id@ != connection_id@,
            decreases self.sessions.len() - i,
        {
            if str_eq(self.sessions[i].connection_id.as_str(), connection_id) {
                return Some(i);
            }
            i = i + 1;
        }
        None
    }

    /// Starts a session of `connection_id` at `now`, replacing one of the
    /// same id; one more session in all and one more active (also when one
    /// was replaced).
    pub fn start_session(&mut self, connection_id: String, now: u64)
        requires
            old(self).wf(),
            old(self).totals().total_sessions < u64::MAX,
            old(self).totals().active_sessions < u64::MAX,
        ensures
            final(self).wf(),
            (final(self).totals(), final(self).ids()) == after_call(old(self).totals(), old(self).ids(), SessionCall::Start(connection_id@)),
            final(self).ids() == old(self).ids().insert(connection_id@),
            final(self).totals() == (SessionStatistics {
                total_sessions: (old(self).totals().total_sessions + 1) as u64,
                active_sessions: (old(self).totals().active_sessions + 1) as u64,
                ..old(self).totals()
            }),
    {
        let ghost old_s = self.sessions@;
        let info = SessionInfo {
            connection_id: connection_id.clone(),
            start_time: now,
            message_count: 0,
            last_activity: now,
            bytes_processed: 0,
        };
        match self.find(connection_id.as_str()) {
            Some(i) => {
                self.sessions.set(i, info);
                proof {
                    let s = self.sessions@;
                    assert forall|a: int, b: int| 0 <= a < b < s.len() implies (#[trigger] s[a]).connection_id@ != (#[trigger] s[b]).connection_id@ by {
                        assert(s[a].connection_id@ == old_s[a].connection_id@);
                        assert(s[b].connection_id@ == old_s[b].connection_id@);
                    }
                    assert forall|k: Seq<char>| session_ids(s).contains(k) <==> session_ids(old_s).insert(connection_id@).contains(k) by {
                        if session_ids(s).contains(k) {
                            let j = choose|j: int| 0 <= j < s.len() && (#[trigger] s[j]).connection_id@ == k;
                            assert(old_s[j].connection_id@ == k);
                        }
                        if session_ids(old_s).contains(k) {
                            let j = choose|j: int| 0 <= j < old_s.len() && (#[trigger] old_s[j]).connection_id@ == k;
                            assert(s[j].connection_id@ == k);
                        }
                        if k == connection_id@ {
                            assert(s[i as int].connection_id@ == k);
                        }
                    }
                    assert(session_ids(s) =~= session_ids(old_s).insert(connection_id@));
                }
            },
            None => {
                self.sessions.push(info);
                proof {
                    let s = self.sessions@;
                    assert forall|a: int, b: int| 0 <= a < b < s.len() implies (#[trigger] s[a]).connection_id@ != (#[trigger] s[b]).connection_id@ by {
                        if b == s.len() - 1 {
                            assert(s[a] == old_s[a]);
                            if s[a].connection_id@ == connection_id@ {
                                assert(session_ids(old_s).contains(connection_id@));
                            }
                        } else {
                            assert(s[a] == old_s[a]);
                            assert(s[b] == old_s[b]);
                        }
                    }
                    assert forall|k: Seq<char>| session_ids(s).contains(k) <==> session_ids(old_s).insert(connection_id@).contains(k) by {
                        if session_ids(s).contains(k) {
                            let j = choose|j: int| 0 <= j < s.len() && (#[trigger] s[j]).connection_id@ == k;
                            if j < old_s.len() {
                                assert(old_s[j] == s[j]);
                            }
                        }
                        if session_ids(old_s).contains(k) {
                            let j = choose|j: int| 0 <= j < old_s.len() && (#[trigger] old_s[j]).connection_id@ == k;
                            assert(s[j] == old_s[j]);
                        }
                        if k == connection_id@ {
                            assert(s[s.len() - 1].connection_id@ == k);
                        }
                    }
                    assert(session_ids(s) =~= session_ids(old_s).insert(connection_id@));
                }
            },
        }
        self.session_stats.active_sessions = self.session_stats.active_sessions + 1;
        self.session_stats.total_sessions = self.session_stats.total_sessions + 1;
    }

    /// Ends the session of `connection_id`, if one is under way: one fewer
    /// active (not below zero), and its messages and bytes added to the
    /// totals. An unknown id changes nothing.
    pub fn complete_session(&mut self, connection_id: String, message_count: u64, bytes_processed: usize)
        requires
            old(self).wf(),
            old(self).ids().contains(connection_id@) ==> old(self).totals().total_messages_processed + message_count <= u64::MAX
                && old(self).totals().total_bytes_processed + bytes_processed <= usize::MAX,
        ensures
            final(self).wf(),
            (final(self).totals(), final(self).ids()) == after_call(old(self).totals(), old(self).ids(), SessionCall::Complete(connection_id@, message_count, bytes_processed)),
            final(self).ids() == old(self).ids().remove(connection_id@),
            old(self).ids().contains(connection_id@) ==> final(self).totals() == (SessionStatistics {
                active_sessions: if old(self).totals().active_sessions == 0 { 0 } else { (old(self).totals().active_sessions - 1) as u64 },
                total_messages_processed: (old(self).totals().total_messages_processed + message_count) as u64,
                total_bytes_processed: (old(self).totals().total_bytes_processed + bytes_processed) as usize,
                ..old(self).totals()
            }),
            !old(self).ids().contains(connection_id@) ==> final(self).totals() == old(self).totals(),
            old(self).ids().contains(connection_id@) ==> old(self).totals().active_sessions > 0,
    {
        match self.find(connection_id.as_str()) {
            Some(i) => {
                let ghost old_s = self.sessions@;
                self.sessions.remove(i);
                proof {
                    let s = self.sessions@;
                    assert(s == old_s.remove(i as int));
                    assert forall|a: int, b: int| 0 <= a < b < s.len() implies (#[trigger] s[a]).connection_id@ != (#[trigger] s[b]).connection_id@ by {
                        let aa = if a < i { a } else { a + 1 };
                        let bb = if b < i { b } else { b + 1 };
                        assert(s[a] == old_s[aa]);
                        assert(s[b] == old_s[bb]);
                    }
                    assert forall|k: Seq<char>| session_ids(s).contains(k) <==> session_ids(old_s).remove(connection_id@).contains(k) by {
                        if session_ids(s).contains(k) {
                            let j = choose|j: int| 0 <= j < s.len() && (#[trigger] s[j]).connection_id@ == k;
                            let jj = if j < i { j } else { j + 1 };
                            assert(s[j] == old_s[jj]);
                            assert(jj != i);
                        }
                        if session_ids(old_s).contains(k) && k != connection_id@ {
                            let j = choose|j: int| 0 <= j < old_s.len() && (#[trigger] old_s[j]).connection_id@ == k;
                            assert(j != i);
                            let jj = if j < i { j } else { j - 1 };
                            assert(s[jj] == old_s[j]);
                        }
                    }
                    assert(session_ids(s) =~= session_ids(old_s).remove(connection_id@));
                }
                self.session_stats.active_sessions = if self.session_stats.active_sessions == 0 { 0 } else { self.session_stats.active_sessions - 1 };
                self.session_stats.total_messages_processed = self.session_stats.total_messages_processed + message_count;
                self.session_stats.total_bytes_processed = self.session_stats.total_bytes_processed + bytes_processed;
            },
            None => {
                assert(self.ids().remove(connection_id@) =~= self.ids());
            },
        }
    }

    /// The totals.
    pub fn get_statistics(&self) -> (r: SessionStatistics)
        ensures
            r == self.totals(),
    {
        self.session_stats
    }
}

/// A session that starts and then completes leaves no session of its id
/// behind, and the active count where it was.
pub proof fn law_start_then_complete(ids: Set<Seq<char>>, id: Seq<char>, active: u64)
    requires
        !ids.contains(id),
        active < u64::MAX,
    ensures
        ids.insert(id).remove(id) == ids,
        (if (active + 1) as u64 == 0 { 0 } else { ((active + 1) as u64 - 1) as u64 }) == active,
{
    assert(ids.insert(id).remove(id) =~= ids);
}

} // verus!

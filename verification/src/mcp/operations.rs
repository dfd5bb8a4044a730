//! The table of long-running Unity operations, as their events report them.
use vstd::prelude::*;

use crate::text::str_eq;

verus! {

/// The kind of an operation event.
#[derive(Debug, Clone, Copy, PartialEq, Eq, Structural)]
pub enum OperationKind {
    Start,
    Progress,
    Complete,
}

/// The name of an operation kind, as its `Debug` writes it.
pub open spec fn kind_name(kind: OperationKind) -> Seq<char> {
    match kind {
        OperationKind::Start => "Start"@,
        OperationKind::Progress => "Progress"@,
        OperationKind::Complete => "Complete"@,
    }
}

/// The name of `kind`.
pub fn kind_string(kind: OperationKind) -> (r: String)
    ensures
        r@ == kind_name(kind),
{
    match kind {
        OperationKind::Start => String::from_str("Start"),
        OperationKind::Progress => String::from_str("Progress"),
        OperationKind::Complete => String::from_str("Complete"),
    }
}

/// An event of an operation.
#[derive(Debug, Clone)]
pub struct OperationEvent {
    pub op_id: String,
    pub kind: OperationKind,
    pub progress: i32,
    pub code: i32,
    pub message: String,
    pub payload_json: String,
}

/// What is known of an operation: its last event and when it came, in
/// nanoseconds.
#[derive(Debug, Clone)]
pub struct OperationState {
    pub op_id: String,
    pub kind: String,
    pub progress: i32,
    pub code: i32,
    pub message: String,
    pub payload_json: String,
    pub last_updated: u64,
}

/// Model of an operation's state.
pub struct OperationModel {
    pub op_id: Seq<char>,
    pub kind: Seq<char>,
    pub progress: i32,
    pub code: i32,
    pub message: Seq<char>,
    pub payload_json: Seq<char>,
    pub last_updated: u64,
}

impl View for OperationState {
    type V = OperationModel;

    open spec fn view(&self) -> OperationModel {
        OperationModel {
            op_id: self.op_id@,
            kind: self.kind@,
            progress: self.progress,
            code: self.code,
            message: self.message@,
            payload_json: self.payload_json@,
            last_updated: self.last_updated,
        }
    }
}

/// How long a completed operation is kept, in nanoseconds (five minutes).
pub const COMPLETED_RETENTION_NANOS: u64 = 300_000_000_000;

/// The state an event gives at `now`.
pub open spec fn state_of(op: OperationEvent, now: u64) -> OperationModel {
    OperationModel {
        op_id: op.op_id@,
        kind: kind_name(op.kind),
        progress: op.progress,
        code: op.code,
        message: op.message@,
        payload_json: op.payload_json@,
        last_updated: now,
    }
}

/// A completed operation last updated before `cutoff`.
pub open spec fn stale(s: OperationModel, cutoff: u64) -> bool {
    s.kind == "Complete"@ && s.last_updated < cutoff
}

/// The cutoff at `now`: five minutes earlier, or the start of the clock.
pub open spec fn cutoff_at(now: u64) -> u64 {
    if now >= COMPLETED_RETENTION_NANOS { (now - COMPLETED_RETENTION_NANOS) as u64 } else { 0 }
}

/// The map a list of states stands for, by operation id.
pub open spec fn state_map(ops: Seq<OperationState>) -> Map<Seq<char>, OperationModel>
    decreases ops.len(),
{
    if ops.len() == 0 {
        Map::empty()
    } else {
        state_map(ops.drop_last()).insert(ops.last().op_id@, ops.last()@)
    }
}

/// The ids of the states are distinct.
pub open spec fn distinct_ids(ops: Seq<OperationState>) -> bool {
    forall|i: int, j: int| 0 <= i < j < ops.len() ==> (#[trigger] ops[i]).op_id@ != (#[trigger] ops[j]).op_id@
}

proof fn lemma_state_map_lookup(ops: Seq<OperationState>, i: int)
    requires
        distinct_ids(ops),
        0 <= i < ops.len(),
    ensures
        state_map(ops).contains_key(ops[i].op_id@),
        state_map(ops)[ops[i].op_id@] == ops[i]@,
    decreases ops.len(),
{
    if i < ops.len() - 1 {
        lemma_state_map_lookup(ops.drop_last(), i);
        assert(ops.drop_last()[i] == ops[i]);
    }
}

proof fn lemma_state_map_keys(ops: Seq<OperationState>, k: Seq<char>)
    ensures
        state_map(ops).contains_key(k) <==> exists|i: int| 0 <= i < ops.len() && (#[trigger] ops[i]).op_id@ == k,
    decreases ops.len(),
{
    if ops.len() > 0 {
        lemma_state_map_keys(ops.drop_last(), k);
        if state_map(ops.drop_last()).contains_key(k) {
            let i = choose|i: int| 0 <= i < ops.drop_last().len() && (#[trigger] ops.drop_last()[i]).op_id@ == k;
            assert(ops[i] == ops.drop_last()[i]);
        }
        if exists|i: int| 0 <= i < ops.len() && (#[trigger] ops[i]).op_id@ == k {
            let i = choose|i: int| 0 <= i < ops.len() && (#[trigger] ops[i]).op_id@ == k;
            if i < ops.len() - 1 {
                assert(ops.drop_last()[i] == ops[i]);
            }
        }
    }
}

/// Whether a state is kept at `cutoff`.
/// The states of a table after a new state is written and stale ones go.
pub open spec fn after_event(ops: Map<Seq<char>, OperationModel>, s: OperationModel, cutoff: u64) -> Map<Seq<char>, OperationModel> {
    let ins = ops.insert(s.op_id, s);
    Map::new(|k: Seq<char>| ins.contains_key(k) && !stale(ins[k], cutoff), |k: Seq<char>| ins[k])
}

/// The operations known, by id.
pub struct OperationTable {
    ops: Vec<OperationState>,
}

impl OperationTable {
    /// The operations, by id.
    pub closed spec fn table(&self) -> Map<Seq<char>, OperationModel> {
        state_map(self.ops@)
    }

    /// Each id occurs once.
    pub closed spec fn wf(&self) -> bool {
        distinct_ids(self.ops@)
    }

    /// An empty table.
    pub fn new() -> (r: OperationTable)
        ensures
            r.wf(),
            r.table() == Map::<Seq<char>, OperationModel>::empty(),
    {
        OperationTable { ops: Vec::new() }
    }

    fn find(&self, op_id: &str) -> (r: Option<usize>)
        requires
            self.wf(),
        ensures
            match r {
                Some(i) => i < self.ops@.len() && self.ops@[i as int].op_id@ == op_id@,
                None => !self.table().contains_key(op_id@),
            },
    {
        let mut i: usize = 0;
        while i < self.ops.len()
            invariant
                i <= self.ops@.len(),
                forall|k: int| 0 <= k < i ==> (#[trigger] self.ops@[k]).op_id@ != op_id@,
            decreases self.ops.len() - i,
        {
            if str_eq(self.ops[i].op_id.as_str(), op_id) {
                return Some(i);
            }
            i = i + 1;
        }
        proof {
            lemma_state_map_keys(self.ops@, op_id@);
        }
        None
    }

    /// Records `op` as it came at `now`, in nanoseconds, replacing what was
    /// known of the operation; then forgets the completed operations last
    /// updated more than five minutes before `now`.
    pub fn process_operation_event(&mut self, op: OperationEvent, now: u64)
        requires
            old(self).wf(),
        ensures
            final(self).wf(),
            final(self).table() == after_event(old(self).table(), state_of(op, now), cutoff_at(now)),
    {
        let ghost s = state_of(op, now);
        let state = OperationState {
            op_id: op.op_id,
            kind: kind_string(op.kind),
            progress: op.progress,
            code: op.code,
            message: op.message,
            payload_json: op.payload_json,
            last_updated: now,
        };
        assert(state@ == s);
        let ghost st = state;
        let ghost old_ops = self.ops@;
        match self.find(state.op_id.as_str()) {
            Some(i) => {
                self.ops.set(i, state);
                proof {
                    lemma_state_map_replace(old_ops, i as int, st);
                }
            },
            None => {
                self.ops.push(state);
                proof {
                    lemma_state_map_push_new(old_ops, st);
                }
            },
        }
        let cutoff: u64 = if now >= COMPLETED_RETENTION_NANOS { now - COMPLETED_RETENTION_NANOS } else { 0 };
        let ghost ins = state_map(self.ops@);
        let mut kept: Vec<OperationState> = Vec::new();
        let mut i: usize = 0;
        while i < self.ops.len()
            invariant
                i <= self.ops@.len(),
                distinct_ids(self.ops@),
                ins == state_map(self.ops@),
                distinct_ids(kept@),
                forall|j: int| 0 <= j < kept@.len() ==> exists|m: int| 0 <= m < i && (#[trigger] kept@[j]).op_id@ == (#[trigger] self.ops@[m]).op_id@,
                state_map(kept@) == filtered(state_map(self.ops@.take(i as int)), cutoff),
            decreases self.ops.len() - i,
        {
            let ghost pre = self.ops@.take(i as int);
            assert(self.ops@.take(i + 1) == pre.push(self.ops@[i as int]));
            proof {
                lemma_id_not_in_prefix(self.ops@, i as int);
                reveal_strlit("Complete");
                assert(pre.push(self.ops@[i as int]).drop_last() == pre);
                assert(state_map(self.ops@.take(i + 1)) == state_map(pre).insert(self.ops@[i as int].op_id@, self.ops@[i as int]@));
                lemma_filtered_insert(state_map(pre), self.ops@[i as int].op_id@, self.ops@[i as int]@, cutoff);
            }
            if !(str_eq(self.ops[i].kind.as_str(), "Complete") && self.ops[i].last_updated < cutoff) {
                let ghost before = kept@;
                let item = copy_state(&self.ops[i]);
                kept.push(item);
                proof {
                    reveal_strlit("Complete");
                    assert(kept@.drop_last() == before);
                    assert(state_map(kept@) == state_map(before).insert(self.ops@[i as int].op_id@, self.ops@[i as int]@));
                    assert forall|a: int, b: int| 0 <= a < b < kept@.len() implies (#[trigger] kept@[a]).op_id@ != (#[trigger] kept@[b]).op_id@ by {
                        if b == kept@.len() - 1 {
                            assert(kept@[a] == before[a]);
                            let m = choose|m: int| 0 <= m < i && (#[trigger] before[a]).op_id@ == (#[trigger] self.ops@[m]).op_id@;
                            assert(self.ops@[m].op_id@ != self.ops@[i as int].op_id@);
                        } else {
                            assert(kept@[a] == before[a]);
                            assert(kept@[b] == before[b]);
                        }
                    }
                    assert forall|j: int| 0 <= j < kept@.len() implies exists|m: int| 0 <= m < i + 1 && (#[trigger] kept@[j]).op_id@ == (#[trigger] self.ops@[m]).op_id@ by {
                        if j == kept@.len() - 1 {
                            assert(kept@[j].op_id@ == self.ops@[i as int].op_id@);
                        } else {
                            assert(kept@[j] == before[j]);
                            let m = choose|m: int| 0 <= m < i && (#[trigger] before[j]).op_id@ == (#[trigger] self.ops@[m]).op_id@;
                            assert(kept@[j].op_id@ == self.ops@[m].op_id@);
                        }
                    }
                    assert(state_map(kept@) =~= filtered(state_map(self.ops@.take(i + 1)), cutoff));
                }
            } else {
                proof {
                    reveal_strlit("Complete");
                    assert(state_map(kept@) =~= filtered(state_map(self.ops@.take(i + 1)), cutoff));
                }
            }
            i = i + 1;
        }
        proof {
            assert(self.ops@.take(self.ops@.len() as int) == self.ops@);
            let o = old(self).table();
            assert(ins == o.insert(s.op_id, s));
            assert(state_map(kept@) =~= after_event(o, s, cutoff_at(now)));
        }
        self.ops = kept;
    }

    /// The operations known, in no particular order.
    pub fn get_operations(&self) -> (r: Vec<OperationState>)
        requires
            self.wf(),
        ensures
            distinct_ids(r@),
            state_map(r@) == self.table(),
    {
        let mut r: Vec<OperationState> = Vec::new();
        let mut i: usize = 0;
        while i < self.ops.len()
            invariant
                i <= self.ops@.len(),
                r@ == self.ops@.take(i as int),
            decreases self.ops.len() - i,
        {
            r.push(copy_state(&self.ops[i]));
            assert(r@ == self.ops@.take(i + 1));
            i = i + 1;
        }
        assert(r@ == self.ops@);
        r
    }

    /// What is known of the operation `op_id`.
    pub fn get_operation(&self, op_id: &str) -> (r: Option<OperationState>)
        requires
            self.wf(),
        ensures
            match r {
                Some(st) => self.table().contains_key(op_id@) && st@ == self.table()[op_id@],
                None => !self.table().contains_key(op_id@),
            },
    {
        match self.find(op_id) {
            Some(i) => {
                proof {
                    lemma_state_map_lookup(self.ops@, i as int);
                }
                Some(copy_state(&self.ops[i]))
            },
            None => None,
        }
    }
}

/// A copy of a state.
pub fn copy_state(s: &OperationState) -> (r: OperationState)
    ensures
        r == *s,
{
    OperationState {
        op_id: s.op_id.clone(),
        kind: s.kind.clone(),
        progress: s.progress,
        code: s.code,
        message: s.message.clone(),
        payload_json: s.payload_json.clone(),
        last_updated: s.last_updated,
    }
}

proof fn lemma_filtered_insert(m: Map<Seq<char>, OperationModel>, k: Seq<char>, v: OperationModel, cutoff: u64)
    requires
        !m.contains_key(k),
    ensures
        !stale(v, cutoff) ==> filtered(m.insert(k, v), cutoff) == filtered(m, cutoff).insert(k, v),
        stale(v, cutoff) ==> filtered(m.insert(k, v), cutoff) == filtered(m, cutoff),
{
    if stale(v, cutoff) {
        assert(filtered(m.insert(k, v), cutoff) =~= filtered(m, cutoff));
    } else {
        assert(filtered(m.insert(k, v), cutoff) =~= filtered(m, cutoff).insert(k, v));
    }
}

/// The states of `m` that are kept at `cutoff`.
pub open spec fn filtered(m: Map<Seq<char>, OperationModel>, cutoff: u64) -> Map<Seq<char>, OperationModel> {
    Map::new(|k: Seq<char>| m.contains_key(k) && !stale(m[k], cutoff), |k: Seq<char>| m[k])
}

proof fn lemma_id_not_in_prefix(ops: Seq<OperationState>, i: int)
    requires
        distinct_ids(ops),
        0 <= i < ops.len(),
    ensures
        !state_map(ops.take(i)).contains_key(ops[i].op_id@),
{
    lemma_state_map_keys(ops.take(i), ops[i].op_id@);
    if exists|j: int| 0 <= j < ops.take(i).len() && (#[trigger] ops.take(i)[j]).op_id@ == ops[i].op_id@ {
        let j = choose|j: int| 0 <= j < ops.take(i).len() && (#[trigger] ops.take(i)[j]).op_id@ == ops[i].op_id@;
        assert(ops.take(i)[j] == ops[j]);
    }
}

proof fn lemma_state_map_push_new(ops: Seq<OperationState>, s: OperationState)
    requires
        distinct_ids(ops),
        !state_map(ops).contains_key(s.op_id@),
    ensures
        distinct_ids(ops.push(s)),
        state_map(ops.push(s)) == state_map(ops).insert(s.op_id@, s@),
{
    let np = ops.push(s);
    assert(np.drop_last() == ops);
    assert forall|a: int, b: int| 0 <= a < b < np.len() implies (#[trigger] np[a]).op_id@ != (#[trigger] np[b]).op_id@ by {
        assert(np[a] == ops[a] || a == ops.len());
        if b == ops.len() {
            assert(np[a] == ops[a]);
            if np[a].op_id@ == s.op_id@ {
                lemma_state_map_lookup(ops, a);
            }
        } else {
            assert(np[a] == ops[a]);
            assert(np[b] == ops[b]);
        }
    }
}

proof fn lemma_state_map_replace(ops: Seq<OperationState>, i: int, s: OperationState)
    requires
        distinct_ids(ops),
        0 <= i < ops.len(),
        ops[i].op_id@ == s.op_id@,
    ensures
        distinct_ids(ops.update(i, s)),
        state_map(ops.update(i, s)) == state_map(ops).insert(s.op_id@, s@),
    decreases ops.len(),
{
    let up = ops.update(i, s);
    assert forall|a: int, b: int| 0 <= a < b < up.len() implies (#[trigger] up[a]).op_id@ != (#[trigger] up[b]).op_id@ by {
        assert(up[a].op_id@ == ops[a].op_id@);
        assert(up[b].op_id@ == ops[b].op_id@);
    }
    if i == ops.len() - 1 {
        assert(up.drop_last() == ops.drop_last());
        assert(state_map(up) =~= state_map(ops).insert(s.op_id@, s@));
    } else {
        let d = ops.drop_last();
        assert forall|a: int, b: int| 0 <= a < b < d.len() implies (#[trigger] d[a]).op_id@ != (#[trigger] d[b]).op_id@ by {
            assert(d[a] == ops[a]);
            assert(d[b] == ops[b]);
        }
        assert(d[i] == ops[i]);
        lemma_state_map_replace(d, i, s);
        assert(up.drop_last() == d.update(i, s));
        assert(up.last() == ops.last());
        assert(ops.last().op_id@ != ops[i].op_id@);
        assert(state_map(up) =~= state_map(ops).insert(s.op_id@, s@));
    }
}

/// What an event records is what a lookup of its operation then finds: the
/// state just written is never stale, so it stays.
pub proof fn law_recorded_operation_is_found(ops: Map<Seq<char>, OperationModel>, op: OperationEvent, now: u64)
    ensures
        after_event(ops, state_of(op, now), cutoff_at(now)).contains_key(op.op_id@),
        after_event(ops, state_of(op, now), cutoff_at(now))[op.op_id@] == state_of(op, now),
{
    let s = state_of(op, now);
    assert(!stale(s, cutoff_at(now)));
}

/// Operations not yet complete are never forgotten by later events.
pub proof fn law_running_operations_kept(ops: Map<Seq<char>, OperationModel>, s: OperationModel, cutoff: u64, k: Seq<char>)
    requires
        ops.contains_key(k),
        k != s.op_id,
        ops[k].kind != "Complete"@,
    ensures
        after_event(ops, s, cutoff).contains_key(k),
        after_event(ops, s, cutoff)[k] == ops[k],
{
}

} // verus!

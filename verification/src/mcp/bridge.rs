//! The state of the link to the Unity bridge as the tools report it, and
//! the decisions of the supervisor that connects to it.
use vstd::prelude::*;

use crate::ipc::path::{Endpoint, EndpointModel};
use crate::text::{append_str, concat2, decimal, u64_to_decimal};

verus! {

/// What the tools know of the link to the bridge.
#[derive(Debug, Clone)]
pub struct BridgeState {
    pub connected: bool,
    /// Attempts to connect so far.
    pub attempt: u32,
    pub last_error: Option<String>,
    /// The wait before the next attempt, in milliseconds, when one is due.
    pub next_retry_ms: Option<u64>,
    /// The endpoint, as `unix://...`, `pipe://...` or `tcp://...`.
    pub endpoint: String,
}

impl Default for BridgeState {
    /// Not connected, no attempt yet.
    fn default() -> (r: BridgeState)
        ensures
            !r.connected,
            r.attempt == 0,
            r.last_error is None,
            r.next_retry_ms is None,
            r.endpoint@ == Seq::<char>::empty(),
    {
        BridgeState { connected: false, attempt: 0, last_error: None, next_retry_ms: None, endpoint: String::new() }
    }
}

/// The message a tool that needs the bridge answers while it is not
/// connected: the notice, then the last error and the next wait when known.
pub open spec fn not_connected_text(last_error: Option<String>, next_retry_ms: Option<u64>) -> Seq<char> {
    "Unity Bridge not connected yet. Waiting for Unity Editor to start."@
        + match last_error {
            Some(e) => " last_error="@ + e@,
            None => Seq::<char>::empty(),
        }
        + match next_retry_ms {
            Some(ms) => " next_retry_ms="@ + decimal(ms as nat),
            None => Seq::<char>::empty(),
        }
}

/// The message of `not_connected_text` for `state`.
pub fn not_connected_message(state: &BridgeState) -> (r: String)
    ensures
        r@ == not_connected_text(state.last_error, state.next_retry_ms),
{
    let mut msg = String::from_str("Unity Bridge not connected yet. Waiting for Unity Editor to start.");
    let ghost base = msg@;
    if let Some(err) = &state.last_error {
        append_str(&mut msg, " last_error=");
        append_str(&mut msg, err.as_str());
    }
    let ghost mid = msg@;
    if let Some(ms) = state.next_retry_ms {
        append_str(&mut msg, " next_retry_ms=");
        let digits = u64_to_decimal(ms);
        append_str(&mut msg, digits.as_str());
    }
    proof {
        reveal_strlit("Unity Bridge not connected yet. Waiting for Unity Editor to start.");
        if state.last_error is Some {
            assert(mid == base + (" last_error="@ + state.last_error->0@));
        } else {
            assert(mid == base + Seq::<char>::empty());
        }
        if state.next_retry_ms is Some {
            assert(msg@ == mid + (" next_retry_ms="@ + decimal(state.next_retry_ms->0 as nat)));
        } else {
            assert(msg@ == mid + Seq::<char>::empty());
        }
    }
    msg
}

/// How an endpoint is shown: its scheme, then its path, name or address.
pub open spec fn endpoint_text(e: EndpointModel) -> Seq<char> {
    match e {
        EndpointModel::Unix(p) => "unix://"@ + p,
        EndpointModel::Pipe(n) => "pipe://"@ + n,
        EndpointModel::Tcp(a) => "tcp://"@ + a,
    }
}

/// The endpoint as `endpoint_text` shows it.
pub fn endpoint_display(endpoint: &Endpoint) -> (r: String)
    ensures
        r@ == endpoint_text(endpoint@),
{
    match endpoint {
        Endpoint::Unix(p) => concat2("unix://", p.as_str()),
        Endpoint::Pipe(n) => concat2("pipe://", n.as_str()),
        Endpoint::Tcp(a) => concat2("tcp://", a.as_str()),
    }
}

/// First wait of the supervisor, in milliseconds.
pub const CONNECTOR_INITIAL_BACKOFF_MS: u64 = 200;

/// The cap of the supervisor's wait before jitter.
pub const CONNECTOR_MAX_BACKOFF_MS: u64 = 5000;

/// Largest wait the supervisor ever uses.
pub const CONNECTOR_WAIT_BOUND_MS: u64 = 6668;

/// `2 * b`, saturating at `u64::MAX`.
pub open spec fn saturating_double(b: u64) -> u64 {
    if b * 2 > u64::MAX { u64::MAX } else { (b * 2) as u64 }
}

/// The supervisor's wait after a failure with wait `b`: twice `b`, capped
/// at 5000 ms, plus a jitter of `random` modulo a quarter of `b` plus one.
pub open spec fn connector_backoff(b: u64, random: u64) -> int {
    let doubled = saturating_double(b);
    let capped = if doubled < CONNECTOR_MAX_BACKOFF_MS { doubled } else { CONNECTOR_MAX_BACKOFF_MS };
    capped + random % ((b / 4 + 1) as u64)
}

/// The supervisor's next wait.
pub fn next_connector_backoff(b: u64, random: u64) -> (r: u64)
    ensures
        r == connector_backoff(b, random),
        CONNECTOR_INITIAL_BACKOFF_MS <= b <= CONNECTOR_WAIT_BOUND_MS ==> 400 <= r < CONNECTOR_WAIT_BOUND_MS,
{
    let doubled = if b <= u64::MAX / 2 { b * 2 } else { u64::MAX };
    let capped = if doubled < CONNECTOR_MAX_BACKOFF_MS { doubled } else { CONNECTOR_MAX_BACKOFF_MS };
    let jitter = random % (b / 4 + 1);
    assert(jitter <= b / 4);
    capped + jitter
}

/// The supervisor that connects to the bridge: its wait and its count of
/// attempts.
pub struct BridgeConnector {
    backoff_ms: u64,
    attempt: u32,
}

impl BridgeConnector {
    /// The wait after the next failure, in milliseconds.
    pub closed spec fn backoff(&self) -> u64 {
        self.backoff_ms
    }

    /// Attempts made.
    pub closed spec fn attempts(&self) -> u32 {
        self.attempt
    }

    /// The wait lies between the first wait and the bound.
    pub open spec fn wf(&self) -> bool {
        CONNECTOR_INITIAL_BACKOFF_MS <= self.backoff() <= CONNECTOR_WAIT_BOUND_MS
    }

    /// A supervisor that has made no attempt.
    pub fn new() -> (r: BridgeConnector)
        ensures
            r.wf(),
            r.backoff() == CONNECTOR_INITIAL_BACKOFF_MS,
            r.attempts() == 0,
    {
        BridgeConnector { backoff_ms: CONNECTOR_INITIAL_BACKOFF_MS, attempt: 0 }
    }

    /// Starts an attempt to reach `endpoint` (as `endpoint_display` shows
    /// it): the count of attempts grows by one, saturating, and the state
    /// reads not connected, with no wait due.
    pub fn begin_attempt(&mut self, state: &mut BridgeState, endpoint: String)
        ensures
            final(self).wf() == old(self).wf(),
            final(self).backoff() == old(self).backoff(),
            final(self).attempts() == (if old(self).attempts() == u32::MAX { u32::MAX } else { (old(self).attempts() + 1) as u32 }),
            !final(state).connected,
            final(state).attempt == final(self).attempts(),
            final(state).last_error == old(state).last_error,
            final(state).next_retry_ms is None,
            final(state).endpoint == endpoint,
    {
        self.attempt = self.attempt.saturating_add(1);
        state.connected = false;
        state.attempt = self.attempt;
        state.next_retry_ms = None;
        state.endpoint = endpoint;
    }

    /// Records a connection to `endpoint`.
    pub fn on_connected(&self, state: &mut BridgeState, endpoint: String)
        ensures
            final(state).connected,
            final(state).attempt == old(state).attempt,
            final(state).last_error is None,
            final(state).next_retry_ms is None,
            final(state).endpoint == endpoint,
    {
        state.connected = true;
        state.last_error = None;
        state.next_retry_ms = None;
        state.endpoint = endpoint;
    }

    /// Records a failed attempt with the text `error`; returns the wait
    /// before the next attempt, which the state shows, and moves the wait
    /// on by `connector_backoff` with `random` as jitter.
    pub fn on_failure(&mut self, state: &mut BridgeState, error: String, random: u64) -> (wait: u64)
        requires
            old(self).wf(),
        ensures
            final(self).wf(),
            wait == old(self).backoff(),
            final(self).backoff() == connector_backoff(old(self).backoff(), random),
            final(self).attempts() == old(self).attempts(),
            final(state).connected == old(state).connected,
            final(state).attempt == old(state).attempt,
            final(state).last_error == Some(error),
            final(state).next_retry_ms == Some(wait),
            final(state).endpoint == old(state).endpoint,
    {
        state.last_error = Some(error);
        let wait = self.backoff_ms;
        state.next_retry_ms = Some(wait);
        self.backoff_ms = next_connector_backoff(self.backoff_ms, random);
        wait
    }
}

/// The supervisor's wait never falls below the first wait nor exceeds the
/// bound, whatever the jitter: a wait within the bounds is followed by one
/// within them.
pub proof fn law_connector_wait_bounded(b: u64, random: u64)
    requires
        CONNECTOR_INITIAL_BACKOFF_MS <= b <= CONNECTOR_WAIT_BOUND_MS,
    ensures
        CONNECTOR_INITIAL_BACKOFF_MS <= connector_backoff(b, random) <= CONNECTOR_WAIT_BOUND_MS,
{
    assert(random % ((b / 4 + 1) as u64) <= b / 4);
}

} // verus!

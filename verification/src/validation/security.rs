//! Pattern-based security checks and per-client rate limiting.
use vstd::prelude::*;

use crate::clock::{instant_now, nanos_since};
use crate::proto::{DeleteAssetRequest, ImportAssetRequest, MoveAssetRequest};
use crate::text::str_eq;

verus! {

/// Name for what the `regex` crate gives for `pattern` and `text`: `None`
/// when `pattern` does not compile, else whether it matches somewhere in
/// `text`.
pub uninterp spec fn regex_search(pattern: Seq<char>, text: Seq<char>) -> Option<bool>;

/// Calls `regex::Regex::new` on `pattern` and, when it compiles,
/// `Regex::is_match` on `text`; the outcome is named by `regex_search`.
#[verifier::external_body]
fn regex_is_match(pattern: &str, text: &str) -> (r: Option<bool>)
    ensures
        r == regex_search(pattern@, text@),
{
    match regex::Regex::new(pattern) {
        Ok(re) => Some(re.is_match(text)),
        Err(_) => None,
    }
}

/// Whether `pattern` blocks `text`: it matches, or it does not compile (a
/// pattern that cannot be checked blocks everything).
pub open spec fn pattern_blocks(pattern: Seq<char>, text: Seq<char>) -> bool {
    regex_search(pattern, text) != Some(false)
}

/// Whether pattern `i` is the first of `patterns` that blocks `text`.
pub open spec fn is_first_blocking(patterns: Seq<Seq<char>>, text: Seq<char>, i: int) -> bool {
    &&& 0 <= i < patterns.len()
    &&& pattern_blocks(patterns[i], text)
    &&& forall|j: int| 0 <= j < i ==> !pattern_blocks(#[trigger] patterns[j], text)
}

/// The index of the first of `patterns` that blocks `text`, if any.
pub open spec fn first_blocking(patterns: Seq<Seq<char>>, text: Seq<char>) -> Option<int> {
    if exists|i: int| is_first_blocking(patterns, text, i) {
        Some(choose|i: int| is_first_blocking(patterns, text, i))
    } else {
        None
    }
}

/// When no pattern is the first to block `text`, none blocks it.
pub proof fn lemma_first_blocking_none(patterns: Seq<Seq<char>>, text: Seq<char>)
    requires
        first_blocking(patterns, text) is None,
    ensures
        forall|i: int| 0 <= i < patterns.len() ==> !pattern_blocks(#[trigger] patterns[i], text),
{
    assert forall|i: int| 0 <= i < patterns.len() implies !pattern_blocks(#[trigger] patterns[i], text) by {
        lemma_no_first_blocking_below(patterns, text, i + 1);
    }
}

proof fn lemma_no_first_blocking_below(patterns: Seq<Seq<char>>, text: Seq<char>, n: int)
    requires
        0 <= n <= patterns.len(),
        !exists|i: int| is_first_blocking(patterns, text, i),
    ensures
        forall|j: int| 0 <= j < n ==> !pattern_blocks(#[trigger] patterns[j], text),
    decreases n,
{
    if n > 0 {
        lemma_no_first_blocking_below(patterns, text, n - 1);
        if pattern_blocks(patterns[n - 1], text) {
            assert(is_first_blocking(patterns, text, n - 1));
        }
    }
}

/// The patterns of the shared security validator: path traversal,
/// characters not allowed in file names, script and data URIs, control
/// characters.
pub open spec fn validator_patterns() -> Seq<Seq<char>> {
    seq![
        r"\.\.[\\/]"@,
        r"[<>:|?*]"@,
        r"(?i)script:|javascript:"@,
        r"(?i)data:|vbscript:"@,
        r"[\x00-\x1F\x7F]"@,
    ]
}

/// The patterns of the stream's security rules: those of the validator
/// without the control characters.
pub open spec fn rule_patterns() -> Seq<Seq<char>> {
    validator_patterns().take(4)
}

/// Searches `patterns` in order for one that blocks `text`.
pub(crate) fn find_blocking(patterns: &Vec<String>, text: &str) -> (r: Option<usize>)
    ensures
        match r {
            Some(i) => i < patterns@.len()
                && first_blocking(patterns@.map_values(|p: String| p@), text@) == Some(i as int),
            None => first_blocking(patterns@.map_values(|p: String| p@), text@) is None,
        },
{
    let ghost ps = patterns@.map_values(|p: String| p@);
    let mut i: usize = 0;
    while i < patterns.len()
        invariant
            i <= patterns@.len(),
            ps == patterns@.map_values(|p: String| p@),
            forall|j: int| 0 <= j < i ==> !pattern_blocks(#[trigger] ps[j], text@),
        decreases patterns.len() - i,
    {
        let found = regex_is_match(patterns[i].as_str(), text);
        let blocked = match found {
            Some(b) => b,
            None => true,
        };
        if blocked {
            assert(is_first_blocking(ps, text@, i as int));
            let ghost k = choose|k: int| is_first_blocking(ps, text@, k);
            assert(k == i) by {
                if k < i {
                } else if k > i {
                    assert(!pattern_blocks(ps[i as int], text@));
                }
            }
            return Some(i);
        }
        i = i + 1;
    }
    None
}

/// The message the security validator gives for a blocked path.
pub open spec fn blocked_path_message() -> Seq<char> {
    "Security violation: path matches blocked pattern"@
}

/// Checks the paths of requests against patterns of known attacks.
pub struct SecurityValidator {
    blocked_patterns: Vec<String>,
}

impl SecurityValidator {
    /// The patterns checked, in order.
    pub closed spec fn patterns(&self) -> Seq<Seq<char>> {
        self.blocked_patterns@.map_values(|p: String| p@)
    }

    /// What checking `path` gives: the blocked-path message when a pattern
    /// blocks it.
    pub open spec fn path_verdict(&self, path: Seq<char>) -> Result<(), Seq<char>> {
        if first_blocking(self.patterns(), path) is Some {
            Err(blocked_path_message())
        } else {
            Ok(())
        }
    }

    /// A validator with the five patterns of `validator_patterns`.
    pub fn new() -> (r: SecurityValidator)
        ensures
            r.patterns() == validator_patterns(),
    {
        let mut v: Vec<String> = Vec::new();
        v.push(String::from_str(r"\.\.[\\/]"));
        v.push(String::from_str(r"[<>:|?*]"));
        v.push(String::from_str(r"(?i)script:|javascript:"));
        v.push(String::from_str(r"(?i)data:|vbscript:"));
        v.push(String::from_str(r"[\x00-\x1F\x7F]"));
        let r = SecurityValidator { blocked_patterns: v };
        assert(r.patterns() =~= validator_patterns());
        r
    }

    fn validate_path(&self, path: &str) -> (r: Result<(), String>)
        ensures
            match r {
                Ok(()) => self.path_verdict(path@) is Ok,
                Err(m) => self.path_verdict(path@) == Err::<(), Seq<char>>(m@),
            },
    {
        match find_blocking(&self.blocked_patterns, path) {
            Some(_) => Err(String::from_str("Security violation: path matches blocked pattern")),
            None => Ok(()),
        }
    }

    /// Checks the path of an import request.
    pub fn validate_import_request(&self, request: &ImportAssetRequest) -> (r: Result<(), String>)
        ensures
            match r {
                Ok(()) => self.path_verdict(request.asset_path@) is Ok,
                Err(m) => self.path_verdict(request.asset_path@) == Err::<(), Seq<char>>(m@),
            },
    {
        self.validate_path(request.asset_path.as_str())
    }

    /// Checks the source, then the destination, of a move request.
    pub fn validate_move_request(&self, request: &MoveAssetRequest) -> (r: Result<(), String>)
        ensures
            match r {
                Ok(()) => self.path_verdict(request.src_path@) is Ok
                    && self.path_verdict(request.dst_path@) is Ok,
                Err(m) => Err::<(), Seq<char>>(m@) == (if self.path_verdict(request.src_path@) is Err {
                    self.path_verdict(request.src_path@)
                } else {
                    self.path_verdict(request.dst_path@)
                }),
            },
    {
        self.validate_path(request.src_path.as_str())?;
        self.validate_path(request.dst_path.as_str())
    }

    /// Checks the path of a delete request.
    pub fn validate_delete_request(&self, request: &DeleteAssetRequest) -> (r: Result<(), String>)
        ensures
            match r {
                Ok(()) => self.path_verdict(request.asset_path@) is Ok,
                Err(m) => self.path_verdict(request.asset_path@) == Err::<(), Seq<char>>(m@),
            },
    {
        self.validate_path(request.asset_path.as_str())
    }
}

impl Default for SecurityValidator {
    fn default() -> (r: SecurityValidator)
        ensures
            r.patterns() == validator_patterns(),
    {
        SecurityValidator::new()
    }
}

/// How long ago, in nanoseconds, a request at `t` was made, seen at `now`;
/// a time after `now` counts as no time at all.
pub open spec fn request_age(now: u64, t: u64) -> int {
    if now >= t {
        now - t
    } else {
        0
    }
}

/// Whether a request at `t` still counts at `now` in a window of `window`
/// nanoseconds.
pub open spec fn in_window(now: u64, window: nat) -> spec_fn(u64) -> bool {
    |t: u64| request_age(now, t) < window
}

/// The times of `stamps` that still count at `now`, in order.
pub open spec fn recent(stamps: Seq<u64>, now: u64, window: nat) -> Seq<u64> {
    stamps.filter(in_window(now, window))
}

/// The requests of one client that still count.
struct ClientWindow {
    client_id: String,
    stamps: Vec<u64>,
}

/// Allows each client at most a fixed number of requests in any window of
/// a fixed length.
pub struct RateLimiter {
    requests_per_window: usize,
    window_nanos: u64,
    clients: Vec<ClientWindow>,
    origin: std::time::Instant,
}

impl RateLimiter {
    /// Requests allowed per window.
    pub closed spec fn limit(&self) -> nat {
        self.requests_per_window as nat
    }

    /// Length of the window, in nanoseconds.
    pub closed spec fn window(&self) -> nat {
        self.window_nanos as nat
    }

    /// For each client seen, the times of its requests that were allowed and
    /// were still counting at its last request.
    pub closed spec fn windows(&self) -> Map<Seq<char>, Seq<u64>> {
        Map::new(
            |k: Seq<char>| exists|i: int| 0 <= i < self.clients@.len() && (#[trigger] self.clients@[i]).client_id@ == k,
            |k: Seq<char>| self.clients@[choose|i: int| 0 <= i < self.clients@.len() && (#[trigger] self.clients@[i]).client_id@ == k].stamps@,
        )
    }

    /// The recorded times of `client`, none if it was never seen.
    pub open spec fn history(&self, client: Seq<char>) -> Seq<u64> {
        if self.windows().contains_key(client) {
            self.windows()[client]
        } else {
            Seq::empty()
        }
    }

    /// Whether a request of `client` at `now` is allowed: fewer than the
    /// limit of its recorded times are younger than the window.
    pub open spec fn admits(&self, client: Seq<char>, now: u64) -> bool {
        recent(self.history(client), now, self.window()).len() < self.limit()
    }

    /// The recorded times after deciding a request of `client` at `now`:
    /// the client keeps its times that still count, and the request's time
    /// when it is allowed; every other client keeps its own.
    pub open spec fn windows_after(&self, client: Seq<char>, now: u64) -> Map<Seq<char>, Seq<u64>> {
        let kept = recent(self.history(client), now, self.window());
        self.windows().insert(client, if self.admits(client, now) { kept.push(now) } else { kept })
    }

    /// Each client is held once and no client holds more times than the
    /// limit.
    pub closed spec fn wf(&self) -> bool {
        &&& forall|i: int, j: int| 0 <= i < j < self.clients@.len()
            ==> (#[trigger] self.clients@[i]).client_id@ != (#[trigger] self.clients@[j]).client_id@
        &&& forall|i: int| 0 <= i < self.clients@.len()
            ==> (#[trigger] self.clients@[i]).stamps@.len() <= self.requests_per_window
    }

    /// Every client's history is within the limit.
    pub proof fn lemma_history_bounded(&self, client: Seq<char>)
        requires
            self.wf(),
        ensures
            self.history(client).len() <= self.limit(),
    {
        if self.windows().contains_key(client) {
            let i = choose|i: int| 0 <= i < self.clients@.len() && (#[trigger] self.clients@[i]).client_id@ == client;
            assert(self.windows()[client] == self.clients@[i].stamps@);
        }
    }

    /// A limiter of `requests_per_window` requests per `window_nanos`
    /// nanoseconds that has seen no request.
    pub fn new(requests_per_window: usize, window_nanos: u64) -> (r: RateLimiter)
        ensures
            r.wf(),
            r.limit() == requests_per_window,
            r.window() == window_nanos,
            r.windows() == Map::<Seq<char>, Seq<u64>>::empty(),
    {
        let r = RateLimiter {
            requests_per_window,
            window_nanos,
            clients: Vec::new(),
            origin: instant_now(),
        };
        assert(r.windows() =~= Map::<Seq<char>, Seq<u64>>::empty());
        r
    }

    fn find_client(&self, client_id: &str) -> (r: Option<usize>)
        ensures
            match r {
                Some(i) => i < self.clients@.len() && self.clients@[i as int].client_id@ == client_id@,
                None => forall|i: int| 0 <= i < self.clients@.len()
                    ==> (#[trigger] self.clients@[i]).client_id@ != client_id@,
            },
    {
        let mut i: usize = 0;
        while i < self.clients.len()
            invariant
                i <= self.clients@.len(),
                forall|k: int| 0 <= k < i ==> (#[trigger] self.clients@[k]).client_id@ != client_id@,
            decreases self.clients.len() - i,
        {
            if str_eq(self.clients[i].client_id.as_str(), client_id) {
                return Some(i);
            }
            i = i + 1;
        }
        None
    }

    /// Decides a request of `client_id` made at `now`, in nanoseconds on the
    /// limiter's clock: it is allowed when fewer than the limit of the
    /// client's earlier allowed requests are younger than the window. Times
    /// that no longer count are forgotten; an allowed request is recorded.
    pub fn is_allowed_at(&mut self, client_id: &str, now: u64) -> (r: bool)
        requires
            old(self).wf(),
        ensures
            final(self).wf(),
            final(self).limit() == old(self).limit(),
            final(self).window() == old(self).window(),
            r == old(self).admits(client_id@, now),
            final(self).windows() == old(self).windows_after(client_id@, now),
    {
        let ghost old_windows = self.windows();
        let ghost c = client_id@;
        let idx = match self.find_client(client_id) {
            Some(i) => {
                proof {
                    let j = choose|j: int| 0 <= j < self.clients@.len() && (#[trigger] self.clients@[j]).client_id@ == c;
                    assert(j == i as int);
                    assert(self.history(c) == self.clients@[i as int].stamps@);
                }
                i
            },
            None => {
                assert(!self.windows().contains_key(c));
                self.clients.push(ClientWindow { client_id: String::from_str(client_id), stamps: Vec::new() });
                proof {
                    let n = self.clients@.len() - 1;
                    assert(self.clients@[n].client_id@ == c);
                    assert forall|k: Seq<char>| #[trigger] self.windows().contains_key(k)
                        <==> old_windows.insert(c, Seq::<u64>::empty()).contains_key(k) by {
                        if k == c {
                            assert(self.clients@[n].client_id@ == k);
                        } else if old_windows.contains_key(k) {
                            let i = choose|i: int| 0 <= i < old(self).clients@.len() && (#[trigger] old(self).clients@[i]).client_id@ == k;
                            assert(self.clients@[i].client_id@ == k);
                        } else if self.windows().contains_key(k) {
                            let i = choose|i: int| 0 <= i < self.clients@.len() && (#[trigger] self.clients@[i]).client_id@ == k;
                            assert(old(self).clients@[i].client_id@ == k);
                        }
                    }
                    assert forall|k: Seq<char>| #[trigger] self.windows().contains_key(k)
                        implies self.windows()[k] == old_windows.insert(c, Seq::<u64>::empty())[k] by {
                        let i = choose|i: int| 0 <= i < self.clients@.len() && (#[trigger] self.clients@[i]).client_id@ == k;
                        if k == c {
                            assert(i == n);
                        } else {
                            assert(old(self).clients@[i].client_id@ == k);
                            let i0 = choose|i: int| 0 <= i < old(self).clients@.len() && (#[trigger] old(self).clients@[i]).client_id@ == k;
                            assert(i0 == i);
                        }
                    }
                    assert(self.windows() =~= old_windows.insert(c, Seq::<u64>::empty()));
                }
                self.clients.len() - 1
            },
        };
        let ghost mid_windows = self.windows();
        let ghost old_stamps = self.clients@[idx as int].stamps@;
        assert(old_stamps == old(self).history(c));
        let ghost pred = in_window(now, self.window_nanos as nat);
        let mut kept: Vec<u64> = Vec::new();
        let mut j: usize = 0;
        while j < self.clients[idx].stamps.len()
            invariant
                idx < self.clients@.len(),
                old_stamps == self.clients@[idx as int].stamps@,
                pred == in_window(now, self.window_nanos as nat),
                j <= old_stamps.len(),
                kept@ == old_stamps.take(j as int).filter(pred),
            decreases old_stamps.len() - j,
        {
            let t = self.clients[idx].stamps[j];
            proof {
                old_stamps.take(j as int).lemma_filter_push(t, pred);
                assert(old_stamps.take(j + 1) == old_stamps.take(j as int).push(t));
            }
            let age: u64 = if now >= t { now - t } else { 0 };
            if age < self.window_nanos {
                kept.push(t);
            }
            j = j + 1;
        }
        assert(old_stamps.take(old_stamps.len() as int) == old_stamps);
        proof {
            old_stamps.lemma_filter_len(pred);
        }
        let allowed = kept.len() < self.requests_per_window;
        if allowed {
            kept.push(now);
        }
        let id = self.clients[idx].client_id.clone();
        let ghost new_stamps = kept@;
        self.clients.set(idx, ClientWindow { client_id: id, stamps: kept });
        proof {
            assert forall|k: Seq<char>| #[trigger] self.windows().contains_key(k)
                <==> old_windows.insert(c, new_stamps).contains_key(k) by {
                if old_windows.insert(c, new_stamps).contains_key(k) && k != c {
                    assert(mid_windows.contains_key(k));
                    let i = choose|i: int| 0 <= i < old(self).clients@.len() && (#[trigger] old(self).clients@[i]).client_id@ == k;
                    assert(self.clients@[i].client_id@ == k);
                }
                if k == c {
                    assert(self.clients@[idx as int].client_id@ == k);
                }
                if self.windows().contains_key(k) && k != c {
                    let i = choose|i: int| 0 <= i < self.clients@.len() && (#[trigger] self.clients@[i]).client_id@ == k;
                    assert(i != idx);
                    assert(old(self).clients@[i].client_id@ == k);
                }
            }
            assert forall|k: Seq<char>| #[trigger] self.windows().contains_key(k)
                implies self.windows()[k] == old_windows.insert(c, new_stamps)[k] by {
                let i = choose|i: int| 0 <= i < self.clients@.len() && (#[trigger] self.clients@[i]).client_id@ == k;
                if k == c {
                    assert(i == idx);
                } else {
                    assert(i != idx);
                    assert(old(self).clients@[i].client_id@ == k);
                    let i0 = choose|i: int| 0 <= i < old(self).clients@.len() && (#[trigger] old(self).clients@[i]).client_id@ == k;
                    assert(i0 == i);
                }
            }
            assert(self.windows() =~= old_windows.insert(c, new_stamps));
        }
        allowed
    }

    /// Decides a request of `client_id` made now, reading the clock.
    pub fn is_allowed(&mut self, client_id: &str) -> (r: bool)
        requires
            old(self).wf(),
        ensures
            final(self).wf(),
            final(self).limit() == old(self).limit(),
            final(self).window() == old(self).window(),
            exists|now: u64| r == old(self).admits(client_id@, now)
                && final(self).windows() == old(self).windows_after(client_id@, now),
    {
        let now = nanos_since(&self.origin);
        self.is_allowed_at(client_id, now)
    }
}

/// A request of one client leaves every other client's record as it was,
/// so clients are limited apart.
pub proof fn law_clients_limited_apart(l: RateLimiter, client: Seq<char>, other: Seq<char>, now: u64)
    requires
        client != other,
    ensures
        l.windows_after(client, now).contains_key(other) == l.windows().contains_key(other),
        l.windows().contains_key(other) ==> l.windows_after(client, now)[other] == l.windows()[other],
{
}

/// After a request is allowed, the client's record holds no more times
/// than the limit: within one window a client is never allowed more than
/// the limit.
pub proof fn law_allowed_within_limit(l: RateLimiter, client: Seq<char>, now: u64)
    requires
        l.admits(client, now),
    ensures
        l.windows_after(client, now)[client].len() <= l.limit(),
{
}

} // verus!

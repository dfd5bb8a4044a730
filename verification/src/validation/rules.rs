//! The security rules every stream request goes through first.
use vstd::prelude::*;

use crate::proto::{StreamRequest, StreamRequestMessage};
use crate::text::{utf8_len, utf8_len_saturating};
use crate::validation::context::ValidationContext;
use crate::validation::errors::{result_view, SecurityErrorModel, SecurityValidationError};
use crate::validation::security::{first_blocking, rule_patterns, RateLimiter};

verus! {

/// The paths a request carries, in the order they are checked.
pub open spec fn message_paths(m: Option<StreamRequestMessage>) -> Seq<Seq<char>> {
    match m {
        Some(StreamRequestMessage::ImportAsset(r)) => seq![r.asset_path@],
        Some(StreamRequestMessage::MoveAsset(r)) => seq![r.src_path@, r.dst_path@],
        Some(StreamRequestMessage::DeleteAsset(r)) => seq![r.asset_path@],
        _ => Seq::empty(),
    }
}

/// The estimated encoded size of a request, in bytes: its paths and a
/// fixed overhead.
pub open spec fn message_size_estimate(m: Option<StreamRequestMessage>) -> nat {
    match m {
        Some(StreamRequestMessage::ImportAsset(r)) => utf8_len(r.asset_path@) + 32,
        Some(StreamRequestMessage::MoveAsset(r)) => utf8_len(r.src_path@) + utf8_len(r.dst_path@) + 32,
        Some(StreamRequestMessage::DeleteAsset(r)) => utf8_len(r.asset_path@) + 32,
        Some(StreamRequestMessage::Refresh(_)) => 32,
        None => 16,
    }
}

/// The estimate as it is counted in a `usize`.
pub open spec fn size_counted(m: Option<StreamRequestMessage>) -> nat {
    if message_size_estimate(m) > usize::MAX {
        usize::MAX as nat
    } else {
        message_size_estimate(m)
    }
}

/// What one path gives: too long, matched by a pattern, or fine.
pub open spec fn path_outcome(path: Seq<char>, patterns: Seq<Seq<char>>, max_length: nat) -> Result<(), SecurityErrorModel> {
    if utf8_len(path) > max_length {
        Err(SecurityErrorModel::PathTooLong { path, max_length })
    } else {
        match first_blocking(patterns, path) {
            Some(j) => Err(SecurityErrorModel::MaliciousPattern { path, pattern: patterns[j] }),
            None => Ok(()),
        }
    }
}

/// The outcome of the first path that fails, checking `paths` in order.
pub open spec fn paths_outcome(paths: Seq<Seq<char>>, patterns: Seq<Seq<char>>, max_length: nat) -> Result<(), SecurityErrorModel>
    decreases paths.len(),
{
    if paths.len() == 0 {
        Ok(())
    } else {
        match path_outcome(paths[0], patterns, max_length) {
            Err(e) => Err(e),
            Ok(()) => paths_outcome(paths.drop_first(), patterns, max_length),
        }
    }
}

/// What the security rules give a request once the rate limiter has
/// decided it: the rate limit first, then the size, then the paths.
pub open spec fn security_outcome(
    allowed: bool,
    client: Seq<char>,
    m: Option<StreamRequestMessage>,
    patterns: Seq<Seq<char>>,
    max_path: nat,
    max_size: nat,
) -> Result<(), SecurityErrorModel> {
    if !allowed {
        Err(SecurityErrorModel::RateLimitExceeded { client_id: client })
    } else if size_counted(m) > max_size {
        Err(SecurityErrorModel::MessageTooLarge { size: size_counted(m), max_size })
    } else {
        paths_outcome(message_paths(m), patterns, max_path)
    }
}

/// Rate limit, size limit and path patterns for stream requests.
pub struct SecurityValidationRules {
    rate_limiter: RateLimiter,
    blocked_patterns: Vec<String>,
    max_path_length: usize,
    max_message_size: usize,
}

impl SecurityValidationRules {
    /// The rate limiter.
    pub closed spec fn limiter(&self) -> RateLimiter {
        self.rate_limiter
    }

    /// The patterns checked, in order.
    pub closed spec fn patterns(&self) -> Seq<Seq<char>> {
        self.blocked_patterns@.map_values(|p: String| p@)
    }

    /// Longest path allowed, in bytes.
    pub closed spec fn max_path(&self) -> nat {
        self.max_path_length as nat
    }

    /// Largest estimated request allowed, in bytes.
    pub closed spec fn max_size(&self) -> nat {
        self.max_message_size as nat
    }

    /// The limiter is well formed.
    pub closed spec fn wf(&self) -> bool {
        self.rate_limiter.wf() && self.max_path_length < usize::MAX
    }

    /// Rules of 100 requests per minute for each client, paths of up to 260
    /// bytes, requests of up to 64 KiB, and the patterns of `rule_patterns`.
    pub fn new() -> (r: SecurityValidationRules)
        ensures
            r.wf(),
            r.limiter().limit() == 100,
            r.limiter().window() == 60_000_000_000,
            r.limiter().windows() == Map::<Seq<char>, Seq<u64>>::empty(),
            r.patterns() == rule_patterns(),
            r.max_path() == 260,
            r.max_size() == 65536,
    {
        let mut v: Vec<String> = Vec::new();
        v.push(String::from_str(r"\.\.[\\/]"));
        v.push(String::from_str(r"[<>:|?*]"));
        v.push(String::from_str(r"(?i)script:|javascript:"));
        v.push(String::from_str(r"(?i)data:|vbscript:"));
        let r = SecurityValidationRules {
            rate_limiter: RateLimiter::new(100, 60_000_000_000),
            blocked_patterns: v,
            max_path_length: 260,
            max_message_size: 64 * 1024,
        };
        assert(r.patterns() =~= rule_patterns());
        r
    }

    /// Checks `stream_request` from the client of `context`: the request
    /// counts against the client's rate limit, then its estimated size and
    /// its paths are checked.
    pub fn validate(&mut self, stream_request: &StreamRequest, context: &ValidationContext) -> (r: Result<(), SecurityValidationError>)
        requires
            old(self).wf(),
        ensures
            final(self).wf(),
            final(self).patterns() == old(self).patterns(),
            final(self).max_path() == old(self).max_path(),
            final(self).max_size() == old(self).max_size(),
            final(self).limiter().limit() == old(self).limiter().limit(),
            final(self).limiter().window() == old(self).limiter().window(),
            exists|now: u64| #![trigger old(self).limiter().admits(context.client_id@, now)] {
                &&& final(self).limiter().windows() == old(self).limiter().windows_after(context.client_id@, now)
                &&& result_view(r) == security_outcome(
                    old(self).limiter().admits(context.client_id@, now),
                    context.client_id@,
                    stream_request.message,
                    old(self).patterns(),
                    old(self).max_path(),
                    old(self).max_size(),
                )
            },
    {
        let ghost old_limiter = self.rate_limiter;
        let ghost c = context.client_id@;
        let allowed = self.rate_limiter.is_allowed(context.client_id.as_str());
        let ghost now = choose|now: u64| allowed == old_limiter.admits(c, now)
            && self.rate_limiter.windows() == old_limiter.windows_after(c, now);
        let r = if !allowed {
            Err(SecurityValidationError::RateLimitExceeded { client_id: context.client_id.clone() })
        } else {
            let size = self.estimate_message_size(stream_request);
            if size > self.max_message_size {
                Err(SecurityValidationError::MessageTooLarge { size, max_size: self.max_message_size })
            } else {
                self.validate_security_patterns(stream_request)
            }
        };
        assert(old(self).limiter().admits(context.client_id@, now) == allowed);
        assert(self.rate_limiter.windows() == old_limiter.windows_after(c, now)
            && result_view(r) == security_outcome(
                old_limiter.admits(c, now),
                c,
                stream_request.message,
                self.patterns(),
                self.max_path(),
                self.max_size(),
            ));
        r
    }

    fn validate_security_patterns(&self, stream_request: &StreamRequest) -> (r: Result<(), SecurityValidationError>)
        requires
            self.wf(),
        ensures
            result_view(r) == paths_outcome(message_paths(stream_request.message), self.patterns(), self.max_path()),
    {
        proof {
            reveal_with_fuel(paths_outcome, 3);
        }
        match &stream_request.message {
            Some(StreamRequestMessage::ImportAsset(req)) => {
                let r = self.check_path(&req.asset_path);
                assert(message_paths(stream_request.message).drop_first() =~= Seq::<Seq<char>>::empty());
                r
            },
            Some(StreamRequestMessage::MoveAsset(req)) => {
                let ghost ps = message_paths(stream_request.message);
                assert(ps.drop_first().drop_first() =~= Seq::<Seq<char>>::empty());
                assert(ps.drop_first()[0] == req.dst_path@);
                self.check_path(&req.src_path)?;
                self.check_path(&req.dst_path)
            },
            Some(StreamRequestMessage::DeleteAsset(req)) => {
                let r = self.check_path(&req.asset_path);
                assert(message_paths(stream_request.message).drop_first() =~= Seq::<Seq<char>>::empty());
                r
            },
            _ => Ok(()),
        }
    }

    fn check_path(&self, path: &String) -> (r: Result<(), SecurityValidationError>)
        requires
            self.wf(),
        ensures
            result_view(r) == path_outcome(path@, self.patterns(), self.max_path()),
    {
        let n = utf8_len_saturating(path.as_str());
        if n > self.max_path_length {
            return Err(SecurityValidationError::PathTooLong { path: path.clone(), max_length: self.max_path_length });
        }
        match crate::validation::security::find_blocking(&self.blocked_patterns, path.as_str()) {
            Some(j) => {
                let pattern = self.blocked_patterns[j].clone();
                assert(pattern@ == self.patterns()[j as int]);
                Err(SecurityValidationError::MaliciousPattern { path: path.clone(), pattern })
            },
            None => Ok(()),
        }
    }

    fn estimate_message_size(&self, stream_request: &StreamRequest) -> (r: usize)
        ensures
            r == size_counted(stream_request.message),
    {
        match &stream_request.message {
            Some(StreamRequestMessage::ImportAsset(req)) => add_sat(utf8_len_saturating(req.asset_path.as_str()), 32),
            Some(StreamRequestMessage::MoveAsset(req)) => {
                let a = utf8_len_saturating(req.src_path.as_str());
                let b = utf8_len_saturating(req.dst_path.as_str());
                add_sat(add_sat(a, b), 32)
            },
            Some(StreamRequestMessage::DeleteAsset(req)) => add_sat(utf8_len_saturating(req.asset_path.as_str()), 32),
            Some(StreamRequestMessage::Refresh(_)) => 32,
            None => 16,
        }
    }
}

impl Default for SecurityValidationRules {
    fn default() -> (r: SecurityValidationRules)
        ensures
            r.wf(),
            r.patterns() == rule_patterns(),
    {
        SecurityValidationRules::new()
    }
}

/// `a + b`, or `usize::MAX` where that is more.
fn add_sat(a: usize, b: usize) -> (r: usize)
    ensures
        r == (if a + b > usize::MAX { usize::MAX as int } else { a + b }),
{
    if a > usize::MAX - b {
        usize::MAX
    } else {
        a + b
    }
}

} // verus!

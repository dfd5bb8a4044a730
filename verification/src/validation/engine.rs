//! The engine every stream request goes through.
use vstd::prelude::*;

use crate::clock::{instant_now, nanos_since};
use crate::proto::{StreamRequest, StreamRequestMessage};
use crate::validation::context::ValidationContext;
use crate::validation::errors::{
    result_view, DeleteErrorModel, ImportErrorModel, MoveErrorModel, SecurityErrorModel,
    StreamErrorModel, StreamValidationError,
};
use crate::validation::monitor::{keep_last, ValidationPerformanceMonitor};
use crate::validation::paths::normalized_asset_path;
use crate::validation::rules::{security_outcome, SecurityValidationRules};
use crate::validation::security::{rule_patterns, validator_patterns};
use crate::validation::validators::{
    delete_outcome, import_outcome, move_outcome, DeleteAssetStreamValidator,
    ImportAssetStreamValidator, MoveAssetStreamValidator, RefreshStreamValidator,
    StreamRequestValidator,
};
use crate::text::trim;

verus! {

/// An import outcome as a stream outcome.
pub open spec fn lift_import(r: Result<(), ImportErrorModel>) -> Result<(), StreamErrorModel> {
    match r {
        Ok(()) => Ok(()),
        Err(e) => Err(StreamErrorModel::ImportAsset(e)),
    }
}

/// A move outcome as a stream outcome.
pub open spec fn lift_move(r: Result<(), MoveErrorModel>) -> Result<(), StreamErrorModel> {
    match r {
        Ok(()) => Ok(()),
        Err(e) => Err(StreamErrorModel::MoveAsset(e)),
    }
}

/// A delete outcome as a stream outcome.
pub open spec fn lift_delete(r: Result<(), DeleteErrorModel>) -> Result<(), StreamErrorModel> {
    match r {
        Ok(()) => Ok(()),
        Err(e) => Err(StreamErrorModel::DeleteAsset(e)),
    }
}

/// What the validator of its kind gives a request's message, with paths of
/// up to `max` bytes and `patterns` checked.
pub open spec fn kind_outcome(m: StreamRequestMessage, max: nat, patterns: Seq<Seq<char>>) -> Result<(), StreamErrorModel> {
    match m {
        StreamRequestMessage::ImportAsset(r) => lift_import(import_outcome(r.asset_path@, max, patterns)),
        StreamRequestMessage::MoveAsset(r) => lift_move(move_outcome(r.src_path@, r.dst_path@, max, patterns)),
        StreamRequestMessage::DeleteAsset(r) => lift_delete(delete_outcome(r.asset_path@, max, patterns)),
        StreamRequestMessage::Refresh(_) => Ok(()),
    }
}

/// A request with its paths in normal form (an import's also trimmed).
pub open spec fn sanitized(req: StreamRequest, out: StreamRequest) -> bool {
    match req.message {
        Some(StreamRequestMessage::ImportAsset(r)) => out.message matches Some(StreamRequestMessage::ImportAsset(q))
            && q.asset_path@ == trim(normalized_asset_path(r.asset_path@)),
        Some(StreamRequestMessage::MoveAsset(r)) => out.message matches Some(StreamRequestMessage::MoveAsset(q))
            && q.src_path@ == normalized_asset_path(r.src_path@)
            && q.dst_path@ == normalized_asset_path(r.dst_path@),
        Some(StreamRequestMessage::DeleteAsset(r)) => out.message matches Some(StreamRequestMessage::DeleteAsset(q))
            && q.asset_path@ == normalized_asset_path(r.asset_path@),
        Some(StreamRequestMessage::Refresh(r)) => out.message == Some(StreamRequestMessage::Refresh(r)),
        None => out.message is None,
    }
}

/// Validates and sanitises stream requests, and keeps statistics of the
/// validations.
pub struct StreamValidationEngine {
    import_validator: ImportAssetStreamValidator,
    move_validator: MoveAssetStreamValidator,
    delete_validator: DeleteAssetStreamValidator,
    refresh_validator: RefreshStreamValidator,
    security_rules: SecurityValidationRules,
    performance_monitor: ValidationPerformanceMonitor,
}

impl StreamValidationEngine {
    /// The security rules and their state.
    pub closed spec fn rules(&self) -> SecurityValidationRules {
        self.security_rules
    }

    /// The statistics kept.
    pub closed spec fn monitor(&self) -> ValidationPerformanceMonitor {
        self.performance_monitor
    }

    /// The validators of each kind apply paths of up to 260 bytes and the
    /// validator patterns, and the parts are well formed.
    pub closed spec fn wf(&self) -> bool {
        &&& self.security_rules.wf()
        &&& self.performance_monitor.wf()
        &&& self.import_validator.max_len() == 260
        &&& self.import_validator.patterns() == validator_patterns()
        &&& self.move_validator.max_len() == 260
        &&& self.move_validator.patterns() == validator_patterns()
        &&& self.delete_validator.max_len() == 260
        &&& self.delete_validator.patterns() == validator_patterns()
    }

    /// An engine with the default rules that has seen no request.
    pub fn new() -> (r: StreamValidationEngine)
        ensures
            r.wf(),
            r.rules().limiter().limit() == 100,
            r.rules().limiter().window() == 60_000_000_000,
            r.rules().limiter().windows() == Map::<Seq<char>, Seq<u64>>::empty(),
            r.rules().patterns() == rule_patterns(),
            r.rules().max_path() == 260,
            r.rules().max_size() == 65536,
            r.monitor().times() == Seq::<u64>::empty(),
            r.monitor().counts() == Map::<Seq<char>, u64>::empty(),
    {
        StreamValidationEngine {
            import_validator: ImportAssetStreamValidator::new(),
            move_validator: MoveAssetStreamValidator::new(),
            delete_validator: DeleteAssetStreamValidator::new(),
            refresh_validator: RefreshStreamValidator::new(),
            security_rules: SecurityValidationRules::new(),
            performance_monitor: ValidationPerformanceMonitor::new(),
        }
    }

    /// Validates `stream_request` from the client of `context`. A request
    /// without a message is refused at once. Otherwise it goes through the
    /// security rules, which count it against the client's rate limit; a
    /// request they refuse is refused with their error. The rest are
    /// checked by the validator of their kind, and the time that took and
    /// the outcome are recorded.
    pub fn validate_stream_request(&mut self, stream_request: &StreamRequest, context: &ValidationContext) -> (r: Result<(), StreamValidationError>)
        requires
            old(self).wf(),
        ensures
            final(self).wf(),
            stream_request.message is None ==> r == Err::<(), StreamValidationError>(StreamValidationError::EmptyMessage)
                && *final(self) == *old(self),
            stream_request.message is Some ==> exists|now: u64, took: u64| #![trigger old(self).rules().limiter().admits(context.client_id@, now), keep_last(old(self).monitor().times().push(took))] {
                let sec = security_outcome(
                    old(self).rules().limiter().admits(context.client_id@, now),
                    context.client_id@,
                    stream_request.message,
                    old(self).rules().patterns(),
                    old(self).rules().max_path(),
                    old(self).rules().max_size(),
                );
                &&& final(self).rules().limiter().windows() == old(self).rules().limiter().windows_after(context.client_id@, now)
                &&& final(self).rules().limiter().limit() == old(self).rules().limiter().limit()
                &&& final(self).rules().limiter().window() == old(self).rules().limiter().window()
                &&& final(self).rules().patterns() == old(self).rules().patterns()
                &&& final(self).rules().max_path() == old(self).rules().max_path()
                &&& final(self).rules().max_size() == old(self).rules().max_size()
                &&& match sec {
                    Err(e) => {
                        &&& result_view(r) == Err::<(), StreamErrorModel>(StreamErrorModel::Security(e))
                        &&& final(self).monitor() == old(self).monitor()
                    },
                    Ok(()) => {
                        &&& result_view(r) == kind_outcome(stream_request.message->0, 260, validator_patterns())
                        &&& final(self).monitor().times() == keep_last(old(self).monitor().times().push(took))
                        &&& final(self).monitor().counts() == old(self).monitor().counts_after(r)
                    },
                }
            },
            stream_request.message is Some ==> exists|now: u64| #![trigger old(self).rules().limiter().admits(context.client_id@, now)]
                result_view(r) == verdict_at(*old(self), context.client_id@, stream_request.message, now),
    {
        let start = instant_now();
        if stream_request.message.is_none() {
            return Err(StreamValidationError::EmptyMessage);
        }
        let ghost old_rules = self.security_rules;
        let ghost old_monitor = self.performance_monitor;
        let ghost c = context.client_id@;
        let sec = self.security_rules.validate(stream_request, context);
        let ghost now = choose|now: u64| #![trigger old_rules.limiter().admits(c, now)]
            self.security_rules.limiter().windows() == old_rules.limiter().windows_after(c, now)
            && result_view(sec) == security_outcome(
                old_rules.limiter().admits(c, now), c, stream_request.message,
                old_rules.patterns(), old_rules.max_path(), old_rules.max_size());
        assert(old(self).rules().limiter().admits(context.client_id@, now) == old_rules.limiter().admits(c, now));
        match sec {
            Err(e) => {
                let r = Err(StreamValidationError::Security(e));
                let ghost took: u64 = 0;
                assert(keep_last(old(self).monitor().times().push(took)) == keep_last(old_monitor.times().push(took)));
                return r;
            },
            Ok(()) => {},
        }
        let result = match &stream_request.message {
            Some(StreamRequestMessage::ImportAsset(req)) => match self.import_validator.validate(req) {
                Ok(()) => Ok(()),
                Err(e) => Err(StreamValidationError::ImportAsset(e)),
            },
            Some(StreamRequestMessage::MoveAsset(req)) => match self.move_validator.validate(req) {
                Ok(()) => Ok(()),
                Err(e) => Err(StreamValidationError::MoveAsset(e)),
            },
            Some(StreamRequestMessage::DeleteAsset(req)) => match self.delete_validator.validate(req) {
                Ok(()) => Ok(()),
                Err(e) => Err(StreamValidationError::DeleteAsset(e)),
            },
            Some(StreamRequestMessage::Refresh(req)) => match self.refresh_validator.validate(req) {
                Ok(()) => Ok(()),
                Err(e) => Err(StreamValidationError::Refresh(e)),
            },
            None => Err(StreamValidationError::EmptyMessage),
        };
        let took = nanos_since(&start);
        self.performance_monitor.record_validation(took, &result);
        assert(keep_last(old(self).monitor().times().push(took)) == self.performance_monitor.times());
        result
    }

    /// Puts the paths of `stream_request` in normal form; it never fails.
    pub fn sanitize_stream_request(&self, stream_request: StreamRequest, context: &ValidationContext) -> (r: Result<StreamRequest, StreamValidationError>)
        ensures
            r matches Ok(out) && sanitized(stream_request, out),
    {
        let ghost input = stream_request;
        match stream_request.message {
            Some(StreamRequestMessage::ImportAsset(req)) => match self.import_validator.sanitize(req) {
                Ok(q) => Ok(StreamRequest { message: Some(StreamRequestMessage::ImportAsset(q)) }),
                Err(e) => Err(StreamValidationError::ImportAsset(e)),
            },
            Some(StreamRequestMessage::MoveAsset(req)) => match self.move_validator.sanitize(req) {
                Ok(q) => Ok(StreamRequest { message: Some(StreamRequestMessage::MoveAsset(q)) }),
                Err(e) => Err(StreamValidationError::MoveAsset(e)),
            },
            Some(StreamRequestMessage::DeleteAsset(req)) => match self.delete_validator.sanitize(req) {
                Ok(q) => Ok(StreamRequest { message: Some(StreamRequestMessage::DeleteAsset(q)) }),
                Err(e) => Err(StreamValidationError::DeleteAsset(e)),
            },
            Some(StreamRequestMessage::Refresh(req)) => match self.refresh_validator.sanitize(req) {
                Ok(q) => Ok(StreamRequest { message: Some(StreamRequestMessage::Refresh(q)) }),
                Err(e) => Err(StreamValidationError::Refresh(e)),
            },
            None => Ok(StreamRequest { message: None }),
        }
    }
}

/// The verdict of `engine` on a request with `message` from `client` when
/// the rate limiter reads the clock as `now`: the security rules first,
/// then the validator of the request's kind.
pub open spec fn verdict_at(engine: StreamValidationEngine, client: Seq<char>, message: Option<StreamRequestMessage>, now: u64) -> Result<(), StreamErrorModel> {
    match security_outcome(
        engine.rules().limiter().admits(client, now),
        client,
        message,
        engine.rules().patterns(),
        engine.rules().max_path(),
        engine.rules().max_size(),
    ) {
        Err(e) => Err(StreamErrorModel::Security(e)),
        Ok(()) => kind_outcome(message->0, 260, validator_patterns()),
    }
}

impl Default for StreamValidationEngine {
    fn default() -> (r: StreamValidationEngine)
        ensures
            r.wf(),
    {
        StreamValidationEngine::new()
    }
}

} // verus!

//! What a validation knows of its request's origin, and the description
//! of the rules a validator applies.
use vstd::prelude::*;

verus! {

/// How a broken rule is treated.
#[derive(Debug, Clone, PartialEq, Eq, Structural)]
pub enum ValidationSeverity {
    /// The request is refused.
    Error,
    /// A warning is given and the request goes on.
    Warning,
    /// The event is only recorded.
    Info,
}

/// What kind of property a rule checks.
#[derive(Debug, Clone, PartialEq, Eq, Structural)]
pub enum ValidationType {
    Required,
    Format,
    Range,
    Security,
    Business,
}

/// A rule a validator applies.
#[derive(Debug, Clone)]
pub struct ValidationRule {
    pub name: String,
    pub description: String,
    pub severity: ValidationSeverity,
    pub rule_type: ValidationType,
}

/// What the client said of itself.
#[derive(Debug, Clone)]
pub struct ClientInfo {
    pub user_agent: Option<String>,
    pub ip_address: Option<String>,
    pub unity_version: Option<String>,
}

/// Where a request being validated comes from.
#[derive(Debug, Clone)]
pub struct ValidationContext {
    pub client_id: String,
    pub connection_id: String,
    pub message_id: u64,
    pub timestamp: std::time::SystemTime,
    pub client_info: Option<ClientInfo>,
}

/// A rule built from its parts.
pub fn make_rule(
    name: &str,
    description: &str,
    severity: ValidationSeverity,
    rule_type: ValidationType,
) -> (r: ValidationRule)
    ensures
        r.name@ == name@,
        r.description@ == description@,
        r.severity == severity,
        r.rule_type == rule_type,
{
    ValidationRule {
        name: String::from_str(name),
        description: String::from_str(description),
        severity,
        rule_type,
    }
}

} // verus!

//! Built-in tools and the metadata every tool reports.

pub mod speak;

pub use self::speak::{SpeakResult, SpeakTool};

use vstd::prelude::*;

verus! {

#[verifier::external_type_specification]
#[verifier::external_body]
pub struct ExJsonValue(serde_json::Value);

/// Whether a tool call needs the user's approval.
#[derive(Debug, Clone, Copy, PartialEq, Eq, Structural)]
pub enum ApprovalRequirement {
    Never,
    UnlessAutoApproved,
    Always,
}

/// Where a tool runs.
#[derive(Debug, Clone, Copy, PartialEq, Eq, Structural)]
pub enum ToolDomain {
    Orchestrator,
}

/// How often a tool may be called.
#[derive(Debug, Clone, Copy, PartialEq, Eq, Structural)]
pub struct ToolRateLimitConfig {
    pub requests_per_minute: u32,
    pub requests_per_hour: u32,
}

impl ToolRateLimitConfig {
    pub fn new(requests_per_minute: u32, requests_per_hour: u32) -> (r: Self)
        ensures
            r.requests_per_minute == requests_per_minute,
            r.requests_per_hour == requests_per_hour,
    {
        ToolRateLimitConfig { requests_per_minute, requests_per_hour }
    }
}

/// A required string parameter: its value when the call carries it as a
/// string (`value`), else the error that names the missing parameter.
pub fn require_str<'a>(value: Option<&'a str>, name: &str) -> (r: Result<&'a str, String>)
    ensures
        value matches Some(v) ==> (r matches Ok(s) && s@ == v@),
        value is None ==> (r matches Err(e) && e@ == "missing '"@ + name@ + "' parameter"@),
{
    match value {
        Some(v) => Ok(v),
        None => Err(String::from_str("missing '").concat(name).concat("' parameter")),
    }
}

} // verus!

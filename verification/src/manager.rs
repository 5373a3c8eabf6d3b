use vstd::prelude::*;
use crate::errors::AgentError;

verus! {

/// A request sent to the remote status aggregator.
#[derive(Debug)]
pub struct NetworkRequest {
    pub request_type: NetworkRequestType,
    pub data: Option<String>,
}

/// The request kinds of the aggregator protocol; only status reporting is
/// exercised by this agent.
#[derive(Debug)]
pub enum NetworkRequestType {
    QUERYSYSTEM,
    QUERYSTATUS,
    QUERYGITREPO,
    UPDATEGITREPO,
}

/// A response from the aggregator: a status word and an optional opaque
/// textual payload.
#[derive(Debug, Clone)]
pub struct NetworkResponse {
    pub status: String,
    pub data: Option<String>,
}

/// The agent identity under which this process reports.
#[derive(Debug, Clone, Copy, PartialEq, Eq, Structural)]
pub enum AppName {
    Directive,
}

/// The health value carried by a status report.
#[derive(Debug, Clone, Copy, PartialEq, Eq, Structural)]
pub enum AppStatus {
    Running,
    Warning,
}

/// A status report: constructed fresh on every reportable event and never
/// mutated after construction.
#[derive(Debug, Clone)]
pub struct Status {
    pub app_name: AppName,
    pub app_status: AppStatus,
    pub timestamp: u64,
    pub version: String,
}

impl Status {
    /// A healthy report for this agent.
    pub fn running(timestamp: u64, version: String) -> (r: Status)
        ensures
            r.app_name == AppName::Directive,
            r.app_status == AppStatus::Running,
            r.timestamp == timestamp,
            r.version@ == version@,
    {
        Status { app_name: AppName::Directive, app_status: AppStatus::Running, timestamp, version }
    }

    /// A degraded report for this agent.
    pub fn warning(timestamp: u64, version: String) -> (r: Status)
        ensures
            r.app_name == AppName::Directive,
            r.app_status == AppStatus::Warning,
            r.timestamp == timestamp,
            r.version@ == version@,
    {
        Status { app_name: AppName::Directive, app_status: AppStatus::Warning, timestamp, version }
    }
}

/// Judges the outcome of one report delivery attempt.
///
/// A failed delivery is a `Transport` error and nothing more: it never rolls
/// back a deployment, it only keeps the agent's health from being visible
/// centrally.
pub fn judge_report_delivery(delivered: bool) -> (r: Result<(), AgentError>)
    ensures
        delivered <==> r is Ok,
        !delivered ==> (r matches Err(e) && e is Transport),
{
    if delivered {
        Ok(())
    } else {
        Err(AgentError::Transport("the status aggregator could not be reached".to_owned()))
    }
}

} // verus!

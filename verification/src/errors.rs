use vstd::prelude::*;

verus! {

/// The failure kinds the agent distinguishes.
///
/// Per-directive kinds (`Parse`, `Integrity`, `Dependency`, `Service`) are
/// caught at the directive boundary and never abort a whole cycle; `Scan`
/// aborts the current cycle only; `Transport` concerns status reporting and
/// never affects deployment outcomes.
#[derive(Debug, Clone)]
pub enum AgentError {
    /// A manifest could not be decoded after comment stripping.
    Parse(String),
    /// The validation/rollback path was taken, or a marker copy moved zero bytes.
    Integrity(String),
    /// Enumerating the directive tree failed.
    Scan(String),
    /// The dependency-install step failed.
    Dependency(String),
    /// A unit write, daemon reload or enable call failed.
    Service(String),
    /// The status aggregator was unreachable or rejected the report.
    Transport(String),
}

impl AgentError {
    /// The human-readable detail carried by the error.
    pub fn detail(&self) -> (r: &String)
        ensures
            (self matches AgentError::Parse(s) ==> r == s),
            (self matches AgentError::Integrity(s) ==> r == s),
            (self matches AgentError::Scan(s) ==> r == s),
            (self matches AgentError::Dependency(s) ==> r == s),
            (self matches AgentError::Service(s) ==> r == s),
            (self matches AgentError::Transport(s) ==> r == s),
    {
        match self {
            AgentError::Parse(s) => s,
            AgentError::Integrity(s) => s,
            AgentError::Scan(s) => s,
            AgentError::Dependency(s) => s,
            AgentError::Service(s) => s,
            AgentError::Transport(s) => s,
        }
    }
}

} // verus!

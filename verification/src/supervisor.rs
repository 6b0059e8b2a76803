//! Supervisor interface: an observer that may add messages to the session.
//! No supervisor intervenes yet; `NoopSupervisor` never does.
use vstd::prelude::*;
use crate::message::Message;

verus! {

/// An observer of the worker agent.
pub trait Supervisor: Send + Sync {
    /// Called before each turn; `Some(msg)` is injected into the session.
    /// By default the supervisor stays silent.
    fn review_before_turn(&self, history: &[Message], goal: &str) -> (r: Option<String>)
        default_ensures
            r is None,
    {
        None
    }

    /// Called after a tool call fails; `Some(msg)` is injected into the session.
    /// By default the supervisor stays silent.
    fn on_tool_failure(&self, tool: &str, error: &str, history: &[Message]) -> (r: Option<String>)
        default_ensures
            r is None,
    {
        None
    }
}

/// The supervisor that never intervenes.
pub struct NoopSupervisor;

impl Supervisor for NoopSupervisor {
    fn review_before_turn(&self, history: &[Message], goal: &str) -> (r: Option<String>)
        ensures
            r is None,
    {
        None
    }

    fn on_tool_failure(&self, tool: &str, error: &str, history: &[Message]) -> (r: Option<String>)
        ensures
            r is None,
    {
        None
    }
}

} // verus!

//! The library's error type.
use vstd::prelude::*;
use crate::text::{chars_of, decimal, push_decimal, push_str, string_of};

verus! {

/// Errors of the agent: configuration, API, network, tools, memory and skills.
#[derive(Debug, Clone)]
pub enum RelayError {
    Config(String),
    Api { status: u16, message: String, body: Option<String> },
    RateLimit(String),
    Auth(String),
    Network(String),
    Tool(String),
    Memory(String),
    Skill(String),
}

impl RelayError {
    /// The text the error is displayed as.
    pub open spec fn display(&self) -> Seq<char> {
        match self {
            RelayError::Config(msg) => "config: "@ + msg@,
            RelayError::Api { status, message, .. } => "api error ("@ + decimal(*status as nat)
                + "): "@ + message@,
            RelayError::RateLimit(msg) => "rate limited: "@ + msg@,
            RelayError::Auth(msg) => "auth failed: "@ + msg@,
            RelayError::Network(msg) => "network: "@ + msg@,
            RelayError::Tool(msg) => "tool: "@ + msg@,
            RelayError::Memory(msg) => "memory: "@ + msg@,
            RelayError::Skill(msg) => "skill: "@ + msg@,
        }
    }

    /// The error message, as `Display` writes it.
    pub fn to_message(&self) -> (s: String)
        ensures
            s@ == self.display(),
    {
        let mut v: Vec<char> = Vec::new();
        match self {
            RelayError::Config(msg) => {
                push_str(&mut v, "config: ");
                push_str(&mut v, msg.as_str());
            },
            RelayError::Api { status, message, .. } => {
                push_str(&mut v, "api error (");
                push_decimal(&mut v, *status as u64);
                push_str(&mut v, "): ");
                push_str(&mut v, message.as_str());
            },
            RelayError::RateLimit(msg) => {
                push_str(&mut v, "rate limited: ");
                push_str(&mut v, msg.as_str());
            },
            RelayError::Auth(msg) => {
                push_str(&mut v, "auth failed: ");
                push_str(&mut v, msg.as_str());
            },
            RelayError::Network(msg) => {
                push_str(&mut v, "network: ");
                push_str(&mut v, msg.as_str());
            },
            RelayError::Tool(msg) => {
                push_str(&mut v, "tool: ");
                push_str(&mut v, msg.as_str());
            },
            RelayError::Memory(msg) => {
                push_str(&mut v, "memory: ");
                push_str(&mut v, msg.as_str());
            },
            RelayError::Skill(msg) => {
                push_str(&mut v, "skill: ");
                push_str(&mut v, msg.as_str());
            },
        }
        assert(v@ =~= self.display());
        string_of(v.as_slice())
    }
}

} // verus!

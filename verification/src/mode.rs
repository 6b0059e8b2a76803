//! Run modes: Auto, Confirm and Plan, and what each one allows.
use vstd::prelude::*;
use crate::text::str_eq;

verus! {

/// How freely the agent may use its tools.
#[derive(Debug, Clone, Copy, PartialEq, Eq, Structural)]
pub enum AgentMode {
    Auto,
    Confirm,
    Plan,
}

/// The tools that Plan mode allows: those that only look.
pub open spec fn allowed_in_plan(tool: Seq<char>) -> bool {
    tool == "read"@ || tool == "glob"@ || tool == "grep"@ || tool == "use_skill"@
}

/// The tools that Plan mode blocks: every tool it does not allow.
pub open spec fn blocked_in_plan(tool: Seq<char>) -> bool {
    !allowed_in_plan(tool)
}

/// The tools that change the system, which Confirm mode asks about.
pub open spec fn changes_system(tool: Seq<char>) -> bool {
    tool == "shell"@ || tool == "write"@
}

/// The mode named by a setting or command: `confirm`, `plan`, anything else Auto.
pub open spec fn mode_named(name: Seq<char>) -> AgentMode {
    if name == "confirm"@ {
        AgentMode::Confirm
    } else if name == "plan"@ {
        AgentMode::Plan
    } else {
        AgentMode::Auto
    }
}

/// The mode that a setting or command names: `confirm`, `plan`, anything else Auto.
pub fn mode_from_name(name: &str) -> (m: AgentMode)
    ensures
        m == mode_named(name@),
{
    if str_eq(name, "confirm") {
        AgentMode::Confirm
    } else if str_eq(name, "plan") {
        AgentMode::Plan
    } else {
        AgentMode::Auto
    }
}

/// The current mode and the state of a plan under way.
pub struct ModeState {
    pub current: AgentMode,
    pub plan_content: Option<String>,
    pub plan_approved: bool,
    pub last_proposed_tool: Option<(String, String)>,
}

/// Text that tells the model how to behave in a mode.
pub open spec fn description(m: AgentMode) -> Seq<char> {
    match m {
        AgentMode::Auto => "You are in Auto mode. Execute tools freely to complete the task. Do not ask for confirmation."@,
        AgentMode::Confirm => "You are in Confirm mode. Before each write or shell tool call, propose your intent briefly. Wait for the user to approve before executing. Plan/read/glob/grep tools can be used freely."@,
        AgentMode::Plan => "You are in Plan mode. You may ONLY use read, glob, grep, and use_skill tools. Do NOT call shell or write. Your goal is to investigate the problem and produce a clear plan of action. State your plan explicitly and wait for the user to approve it before executing."@,
    }
}

/// The name of a mode as the user interface shows it.
pub open spec fn mode_label(m: AgentMode) -> Seq<char> {
    match m {
        AgentMode::Auto => "Auto"@,
        AgentMode::Confirm => "Confirm"@,
        AgentMode::Plan => "Plan"@,
    }
}

/// The name of a mode as the user interface shows it (see `mode_label`).
pub fn mode_name(m: AgentMode) -> (r: &'static str)
    ensures
        r@ == mode_label(m),
{
    match m {
        AgentMode::Auto => "Auto",
        AgentMode::Confirm => "Confirm",
        AgentMode::Plan => "Plan",
    }
}

/// What `switch_to(m)` makes of a state: the new mode; leaving for a mode
/// other than Plan drops the plan; staying changes nothing.
pub open spec fn switched(before: ModeState, after: ModeState, m: AgentMode) -> bool {
    &&& after.current == m
    &&& after.last_proposed_tool == before.last_proposed_tool
    &&& m == before.current ==> after == before
    &&& m != before.current && m != AgentMode::Plan ==> after.plan_content is None
        && !after.plan_approved
    &&& m != before.current && m == AgentMode::Plan ==> after.plan_content == before.plan_content
        && after.plan_approved == before.plan_approved
}

impl ModeState {
    /// Whether the mode needs the user's approval before a tool runs.
    pub open spec fn spec_needs_confirmation(&self) -> bool {
        match self.current {
            AgentMode::Confirm => true,
            AgentMode::Plan => self.plan_content is Some,
            AgentMode::Auto => false,
        }
    }

    /// A state in the given mode with no plan.
    pub fn new(initial: AgentMode) -> (s: Self)
        ensures
            s.current == initial,
            s.plan_content is None,
            !s.plan_approved,
            s.last_proposed_tool is None,
    {
        ModeState {
            current: initial,
            plan_content: None,
            plan_approved: false,
            last_proposed_tool: None,
        }
    }

    /// Whether the mode forbids the tool: only Plan mode does, for every tool
    /// but `read`, `glob`, `grep` and `use_skill`.
    pub fn is_tool_blocked(&self, tool: &str) -> (r: bool)
        ensures
            r == (self.current == AgentMode::Plan && blocked_in_plan(tool@)),
    {
        match self.current {
            AgentMode::Plan => !(str_eq(tool, "read") || str_eq(tool, "glob") || str_eq(tool, "grep")
                || str_eq(tool, "use_skill")),
            _ => false,
        }
    }

    /// Plan mode before a plan exists.
    pub fn is_currently_planning(&self) -> (r: bool)
        ensures
            r == (self.current == AgentMode::Plan && self.plan_content is None),
    {
        self.current == AgentMode::Plan && self.plan_content.is_none()
    }

    /// Whether tool calls wait for the user's approval.
    pub fn needs_confirmation(&self) -> (r: bool)
        ensures
            r == self.spec_needs_confirmation(),
    {
        match self.current {
            AgentMode::Confirm => true,
            AgentMode::Plan => self.plan_content.is_some(),
            AgentMode::Auto => false,
        }
    }

    /// Changes the mode; leaving for a mode other than Plan drops the plan.
    pub fn switch_to(&mut self, mode: AgentMode)
        ensures
            final(self).current == mode,
            final(self).last_proposed_tool == old(self).last_proposed_tool,
            mode == old(self).current ==> *final(self) == *old(self),
            mode != old(self).current && mode != AgentMode::Plan ==> final(self).plan_content is None
                && !final(self).plan_approved,
            mode != old(self).current && mode == AgentMode::Plan ==> final(self).plan_content
                == old(self).plan_content && final(self).plan_approved == old(self).plan_approved,
    {
        if mode != self.current {
            self.current = mode;
            if mode != AgentMode::Plan {
                self.plan_content = None;
                self.plan_approved = false;
            }
        }
    }

    /// Text that tells the model how to behave in the current mode.
    pub fn mode_description(&self) -> (r: &'static str)
        ensures
            r@ == description(self.current),
    {
        match self.current {
            AgentMode::Auto => "You are in Auto mode. Execute tools freely to complete the task. Do not ask for confirmation.",
            AgentMode::Confirm => "You are in Confirm mode. Before each write or shell tool call, propose your intent briefly. Wait for the user to approve before executing. Plan/read/glob/grep tools can be used freely.",
            AgentMode::Plan => "You are in Plan mode. You may ONLY use read, glob, grep, and use_skill tools. Do NOT call shell or write. Your goal is to investigate the problem and produce a clear plan of action. State your plan explicitly and wait for the user to approve it before executing.",
        }
    }

    /// The mode's behaviour text, for the system prompt.
    pub fn system_prompt_suffix(&self) -> (r: String)
        ensures
            r@ == description(self.current),
    {
        self.mode_description().to_owned()
    }
}

} // verus!
